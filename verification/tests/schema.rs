use ardi_agent::awp_rpc;
use ardi_agent::fault::Fault;
use ardi_agent::json::Json;
use ardi_agent::schema::{
    parse, AddressCheckResult, AgentState, AllocationRow, CurrentEpoch, NonceGetResult, RegistryGetResult,
    Shape, WalletReceiveResult, WalletSendTxResult, WalletSignTypedDataResult,
};

fn doc(text: &str) -> Json {
    match Json::parse(text) {
        Ok(v) => v,
        Err(e) => panic!("{}", e),
    }
}

fn read<T: Shape>(text: &str) -> T {
    match parse::<T>("test", &doc(text)) {
        Ok(e) => e,
        Err(f) => panic!("{}", f.full()),
    }
}

fn refused<T: Shape>(text: &str) -> Fault {
    match parse::<T>("test", &doc(text)) {
        Ok(_) => panic!("accepted"),
        Err(f) => f,
    }
}

#[test]
fn current_epoch_decodes_camel() {
    let raw = r#"{
            "epochId": 12,
            "commitDeadline": 1777750000,
            "revealDeadline": 1777750180,
            "epochDrawContract": "0x21c2eba56c440c292a32f0fdd16c26be13d391bb",
            "ardiNftContract": "0x91734696e8164cbf79b666569d2504b0e21218f6",
            "chainId": 8453,
            "startTs": 1777749820,
            "riddles": []
        }"#;
    let e: CurrentEpoch = read(raw);
    assert_eq!(e.epoch_id, 12);
    assert_eq!(e.commit_deadline, 1777750000);
    assert!(e.epoch_draw_contract.starts_with("0x21c2"));
}

#[test]
fn current_epoch_decodes_snake_legacy() {
    let raw = r#"{
            "epoch_id": 5,
            "commit_deadline": 1,
            "reveal_deadline": 2,
            "epoch_draw_contract": "0xabc",
            "riddles": []
        }"#;
    let e: CurrentEpoch = read(raw);
    assert_eq!(e.epoch_id, 5);
}

#[test]
fn schema_allocation_row_decodes_number_amount() {
    let raw = r#"{
            "chain_id": 8453,
            "user_address": "0x800d05fd8e251c288e22809b79d31f22ab088555",
            "amount": 10000000000000000000000,
            "frozen": false
        }"#;
    let a: AllocationRow = read(raw);
    assert_eq!(a.amount, "10000000000000000000000");
}

#[test]
fn awp_rpc_allocation_row_decodes_number_amount() {
    let json_num = r#"{
            "chain_id": 8453,
            "user_address": "0x800d05fd8e251c288e22809b79d31f22ab088555",
            "amount": 10000000000000000000000,
            "frozen": false
        }"#;
    let row: awp_rpc::AllocationRow = read(json_num);
    assert_eq!(row.amount, "10000000000000000000000");
    assert_eq!(row.user_address, "0x800d05fd8e251c288e22809b79d31f22ab088555");
    assert_eq!(row.chain_id, 8453);
    assert!(!row.frozen);
}

#[test]
fn allocation_row_still_decodes_string_amount() {
    let json_str = r#"{
            "chain_id": 8453,
            "user_address": "0xabc",
            "amount": "10000000000000000000000",
            "frozen": false
        }"#;
    let row: awp_rpc::AllocationRow = read(json_str);
    assert_eq!(row.amount, "10000000000000000000000");
}

#[test]
fn nonce_get_result() {
    let raw = r#"{"nonce": 42}"#;
    let n: NonceGetResult = read(raw);
    assert_eq!(n.nonce, 42);
}

#[test]
fn registry_get_result() {
    let raw = r#"{
            "chainId": 8453,
            "awpRegistry": "0xR",
            "awpToken": "0xT"
        }"#;
    let r: RegistryGetResult = read(raw);
    assert_eq!(r.awp_registry, "0xR");
    assert_eq!(r.awp_token.as_deref(), Some("0xT"));
    assert!(r.awp_emission.is_none());
}

#[test]
fn missing_required_field_errors_loudly() {
    let raw = r#"{
            "epochId": 12,
            "commitDeadline": 1, "revealDeadline": 2,
            "riddles": []
        }"#;
    let msg = refused::<CurrentEpoch>(raw).full();
    assert!(
        msg.contains("epochDrawContract") || msg.contains("missing field"),
        "expected missing-field error, got: {msg}"
    );
}

#[test]
fn refusal_names_the_document_and_shows_it() {
    let msg = refused::<NonceGetResult>(r#"{"other": 1}"#).full();
    assert_eq!(msg, "decode test: missing field `nonce`\n  raw: {\"other\":1}");
}

#[test]
fn wrong_type_is_refused() {
    let msg = refused::<NonceGetResult>(r#"{"nonce": "x"}"#).full();
    assert!(msg.contains("nonce"));
    let msg = refused::<NonceGetResult>(r#"{"nonce": -1}"#).full();
    assert!(msg.contains("nonce"));
    refused::<NonceGetResult>("7");
}

#[test]
fn both_names_of_a_field_are_refused_together() {
    let raw = r#"{
            "epochId": 12, "epoch_id": 13,
            "commitDeadline": 1, "revealDeadline": 2,
            "epochDrawContract": "0x1", "riddles": []
        }"#;
    let msg = refused::<CurrentEpoch>(raw).full();
    assert!(msg.contains("duplicate field `epochId`"), "{}", msg);
}

#[test]
fn riddles_are_read_with_defaults() {
    let raw = r#"{
            "epochId": 1, "commitDeadline": 1, "revealDeadline": 2,
            "epochDrawContract": "0x1",
            "riddles": [
                {"wordId": 7, "riddle": "what?", "power": 80, "language": "en", "languageId": 2},
                {"word_id": 8, "riddle": "who?"}
            ]
        }"#;
    let e: CurrentEpoch = read(raw);
    assert_eq!(e.riddles.len(), 2);
    assert_eq!(e.riddles[0].word_id, 7);
    assert_eq!(e.riddles[0].power, 80);
    assert_eq!(e.riddles[0].language_id, 2);
    assert_eq!(e.riddles[1].word_id, 8);
    assert_eq!(e.riddles[1].power, 0);
    assert_eq!(e.chain_id, 0);
    assert_eq!(e.start_ts, 0);
}

#[test]
fn other_results_are_read() {
    let a: AddressCheckResult = read(r#"{"isRegistered": true}"#);
    assert!(a.is_registered);
    let s: WalletSignTypedDataResult = read(r#"{"signature": "0xs"}"#);
    assert_eq!(s.signature, "0xs");
    let h: WalletSendTxResult = read(r#"{"hash": "0xh"}"#);
    assert_eq!(h.tx_hash, "0xh");
    let r: WalletReceiveResult = read(r#"{"address": "0xa"}"#);
    assert_eq!(r.address, "0xa");
    let g: AgentState = read(
        r#"{"agent": "0xa", "mints": [{"wordId": 5, "tokenId": 3, "epochId": null}], "mintCount": 1}"#,
    );
    assert_eq!(g.mints.len(), 1);
    assert_eq!(g.mints[0].token_id, 3);
    assert!(g.mints[0].epoch_id.is_none());
    assert_eq!(g.mint_count, 1);
    assert_eq!(g.remaining_mint_cap, 0);
}

#[test]
fn allocation_rows_need_an_array() {
    let rows = match awp_rpc::read_allocations(&doc(
        r#"[{"chain_id": 1, "user_address": "0xa", "amount": 5, "frozen": true}]"#,
    )) {
        Ok(r) => r,
        Err(f) => panic!("{}", f.full()),
    };
    assert_eq!(rows.len(), 1);
    assert!(rows[0].frozen);
    match awp_rpc::read_allocations(&doc("{}")) {
        Ok(_) => panic!("accepted"),
        Err(f) => assert_eq!(f.top(), "decode allocation rows"),
    }
    match awp_rpc::read_allocations(&doc(r#"[{"chain_id": 1}]"#)) {
        Ok(_) => panic!("accepted"),
        Err(f) => assert_eq!(f.top(), "decode allocation rows"),
    }
}

#[test]
fn stake_amount_comes_as_text_or_number() {
    let text = |t: &str| match awp_rpc::read_stake(&doc(t)) {
        Ok(a) => a,
        Err(f) => f.full(),
    };
    assert_eq!(text(r#"{"amount": "12"}"#), "12");
    assert_eq!(text(r#"{"amount": 12}"#), "12");
    assert_eq!(text(r#"{}"#), "agent_worknet_stake: missing `amount` in {}");
    assert_eq!(text(r#"{"amount": true}"#), "agent_worknet_stake: missing `amount` in {\"amount\":true}");
}
