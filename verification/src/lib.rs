//! The decisions of an agent that plays the Ardi riddle rounds on Base.
pub mod address;
pub mod auth;
pub mod awp_register;
pub mod awp_rpc;
pub mod bytes;
pub mod chain;
pub mod client;
pub mod clock;
pub mod cmd;
pub mod fault;
pub mod flow;
pub mod json;
pub mod known;
pub mod num;
pub mod output;
pub mod rpc;
pub mod schema;
pub mod state;
pub mod text;
pub mod tx;
pub mod u256;
pub mod wallet;
