//! market: offer tokens for sale, take offers back, buy tokens and look at offers.
use vstd::prelude::*;

use crate::address::{address_error_text, parsed_address, zero_address, Address};
use crate::bytes::{be_number, hex_0x};
use crate::chain::{
    abi_error_text, address_arg, address_result, address_word, arg_at, bool_result, bool_word, call1, call2,
    lemma_static_args, lemma_word_lengths, listed_price, listed_seller, listed_time, listing_reply, read_address,
    read_bool, read_listing, selector_of, static_call, uint_arg, Listing,
};
use crate::cmd::contracts::{contract_result, find_contract};
use crate::fault::{fault_v, Fault};
use crate::flow::{
    fail, fails, print, prints, stray, stray_v, unsettled, unsettled_v, Action, ActionV, Amount, Outcome,
    Reply, Shown, Step, TxRequest, TxRequestV,
};
use crate::json::{empty_object, member, num_v, with_member, Json, JsonV};
use crate::num::{dec, dec_text, dec_u128};
use crate::output::{next_v, success_v, Internal, Output, OutputV};
use crate::schema::opt_text_view;
use crate::text::{cat3, cat5, cat7, cat9};
use crate::tx::{
    calldata_otc_buy, calldata_otc_list, calldata_otc_unlist, calldata_set_approval_for_all,
};
use crate::u256::{be_word, U256};

verus! {

/// The lowest price of an offer: 0.000001 ETH.
pub const MIN_PRICE_WEI: u128 = 1_000_000_000_000;

/// What a buyer needs beside the price, for gas: 0.001 ETH.
pub const BUY_GAS_WEI: u128 = 1_000_000_000_000_000;

/// What is to be done.
pub enum MarketAction {
    /// Offer a token at a price in wei, which is also shown in ETH.
    List { token_id: u64, price_wei: u128, price: Shown },
    /// Take an offer back.
    Unlist { token_id: u64 },
    /// Buy a token.
    Buy { token_id: u64 },
    /// Look at an offer.
    Show { token_id: u64 },
}

/// An offer to be made.
pub struct Offer {
    pub token_id: u64,
    pub price_wei: u128,
    pub price: Shown,
    /// The token contract.
    pub nft: Address,
    /// The market contract.
    pub otc: Address,
}

/// A purchase to be made.
pub struct Purchase {
    pub token_id: u64,
    pub price_wei: u128,
    pub seller: Address,
    pub agent: Address,
    /// The market contract.
    pub otc: Address,
}

/// The market command.
pub enum Market {
    /// The configuration is fetched.
    Contracts(MarketAction),
    /// The token contract that is set is asked for.
    Nft(MarketAction, Json),
    /// The market contract that is set is asked for.
    Otc(MarketAction, Json, Address),
    /// An offer to look at is read.
    ShowListing(u64),
    /// Its price is written in ETH.
    ShowPrice(u64, Listing),
    /// The seller's address is looked for.
    ListAddress(Offer),
    /// The owner of the token is read.
    ListOwner(Offer, Address),
    /// Whether the market may move the seller's tokens is read.
    ListApproved(Offer, Address),
    /// The market is allowed to.
    ListApproving(Offer, Address),
    /// The offer is made.
    ListTx(Offer),
    /// The agent's address is looked for.
    UnlistAddress(u64, Address),
    /// The offer is read.
    UnlistListing(u64, Address, Address),
    /// The offer is taken back.
    UnlistTx(u64),
    /// The buyer's address is looked for.
    BuyAddress(u64, Address),
    /// The offer is read.
    BuyListing(u64, Address, Address),
    /// The buyer's balance is read.
    BuyBalance(Purchase),
    /// The balance is too low; it is written in ETH.
    BuyShort,
    /// The token is bought.
    BuyTx(Purchase),
    /// The price is written in ETH.
    BuyShown(Purchase, String),
}

/// The call that reads an offer.
pub open spec fn listing_call(token: u64) -> Seq<u8> {
    static_call("getListing(uint256)"@, seq![be_word(token as nat)])
}

fn ask_listing(otc: Address, token: u64) -> (r: Action)
    ensures
        r@ == ActionV::View(otc@, listing_call(token)),
{
    Action::View(otc, call1("getListing(uint256)", uint_arg(token)))
}

/// The error of a reply that is no offer.
pub open spec fn listing_fault(raw: Seq<u8>) -> Seq<Seq<char>> {
    fault_v(abi_error_text("(address,uint256,uint64)"@, raw))
}

/// An amount of wei to be written in ETH.
pub open spec fn eth_amount(wei: u128) -> Amount {
    Amount { units: wei, decimals: 18 }
}

fn show1(a: u128) -> (r: Action)
    ensures
        r@ == ActionV::Show(seq![eth_amount(a)]),
{
    let mut v: Vec<Amount> = Vec::new();
    v.push(Amount { units: a, decimals: 18 });
    assert(v@ =~= seq![eth_amount(a)]);
    Action::Show(v)
}

fn show2(a: u128, b: u128) -> (r: Action)
    ensures
        r@ == ActionV::Show(seq![eth_amount(a), eth_amount(b)]),
{
    let mut v: Vec<Amount> = Vec::new();
    v.push(Amount { units: a, decimals: 18 });
    v.push(Amount { units: b, decimals: 18 });
    assert(v@ =~= seq![eth_amount(a), eth_amount(b)]);
    Action::Show(v)
}

/// What comes first of an action, once the contracts are known.
pub open spec fn begin_next(act: MarketAction, nft: Address, otc: Seq<u8>, r: Step<Market, Outcome>) -> bool {
    match act {
        MarketAction::Show { token_id } => {
            &&& r matches Step::Act(Market::ShowListing(t), a)
            &&& t == token_id
            &&& a@ == ActionV::View(otc, listing_call(token_id))
        },
        MarketAction::List { token_id, price_wei, price } => {
            &&& r matches Step::Act(Market::ListAddress(o), a)
            &&& o.token_id == token_id
            &&& o.price_wei == price_wei
            &&& o.price == price
            &&& o.nft == nft
            &&& o.otc@ == otc
            &&& a@ == ActionV::Address
        },
        MarketAction::Unlist { token_id } => {
            &&& r matches Step::Act(Market::UnlistAddress(t, c), a)
            &&& t == token_id
            &&& c@ == otc
            &&& a@ == ActionV::Address
        },
        MarketAction::Buy { token_id } => {
            &&& r matches Step::Act(Market::BuyAddress(t, c), a)
            &&& t == token_id
            &&& c@ == otc
            &&& a@ == ActionV::Address
        },
    }
}

/// Begins an action.
pub fn begin(act: MarketAction, nft: Address, otc: Address) -> (r: Step<Market, Outcome>)
    ensures
        begin_next(act, nft, otc@, r),
{
    match act {
        MarketAction::Show { token_id } => Step::Act(
            Market::ShowListing(token_id),
            ask_listing(otc, token_id),
        ),
        MarketAction::List { token_id, price_wei, price } => Step::Act(
            Market::ListAddress(Offer { token_id, price_wei, price, nft, otc }),
            Action::Address,
        ),
        MarketAction::Unlist { token_id } => Step::Act(
            Market::UnlistAddress(token_id, otc),
            Action::Address,
        ),
        MarketAction::Buy { token_id } => Step::Act(
            Market::BuyAddress(token_id, otc),
            Action::Address,
        ),
    }
}

/// The output where the token is not offered.
pub open spec fn unlisted_v(token: u64) -> OutputV {
    let o = with_member(empty_object(), "token_id"@, num_v(token as int));
    success_v(
        "tokenId "@ + dec_text(token as nat) + ": not listed."@,
        with_member(o, "listed"@, JsonV::Bool(false)),
        next_v(""@, None),
    )
}

fn unlisted(token: u64) -> (r: Output)
    ensures
        r@ == unlisted_v(token),
{
    let t = dec(token);
    Output::success(
        cat3("tokenId ", t.as_str(), ": not listed."),
        Json::object().with("token_id", Json::number(token)).with("listed", Json::Bool(false)),
        Internal::stop(""),
    )
}

/// What comes next with an offer to look at.
pub open spec fn show_next(token: u64, raw: Seq<u8>, r: Step<Market, Outcome>) -> bool {
    if !listing_reply(raw) {
        fails(r, listing_fault(raw))
    } else if listed_seller(raw) == zero_address() {
        prints(r, unlisted_v(token))
    } else if listed_price(raw) > u128::MAX {
        fails(r, fault_v("price out of range"@))
    } else {
        &&& r matches Step::Act(Market::ShowPrice(t, l), a)
        &&& t == token
        &&& l.seller@ == listed_seller(raw)
        &&& l.price_wei@ == listed_price(raw)
        &&& l.listed_at == listed_time(raw)
        &&& a@ == ActionV::Show(seq![eth_amount(listed_price(raw) as u128)])
    }
}

/// Goes on with an offer to look at.
pub fn with_shown_listing(token: u64, raw: &Vec<u8>) -> (r: Step<Market, Outcome>)
    ensures
        show_next(token, raw@, r),
{
    match read_listing(raw) {
        Err(e) => fail(Fault::new(e)),
        Ok(l) => {
            if l.seller.is_zero() {
                return print(unlisted(token));
            }
            match l.price_wei.to_u128() {
                None => fail(Fault::of("price out of range")),
                Some(p) => Step::Act(Market::ShowPrice(token, l), show1(p)),
            }
        },
    }
}

/// The output that shows an offer.
pub open spec fn listing_v(token: u64, l: Listing, price: Shown) -> OutputV {
    let o = with_member(empty_object(), "token_id"@, num_v(token as int));
    let o = with_member(o, "listed"@, JsonV::Bool(true));
    let o = with_member(o, "seller"@, JsonV::Str(hex_0x(l.seller@)));
    let o = with_member(o, "price_wei"@, JsonV::Str(dec_text(l.price_wei@)));
    let o = with_member(o, "price_eth"@, JsonV::Num(price.json@));
    let o = with_member(o, "listed_at"@, num_v(l.listed_at as int));
    success_v(
        "tokenId "@ + dec_text(token as nat) + ": listed by "@ + hex_0x(l.seller@) + " for "@ + price.d6@
            + " ETH (since "@ + dec_text(l.listed_at as nat) + ")"@,
        o,
        next_v(""@, None),
    )
}

/// The output that shows an offer.
pub fn listing(token: u64, l: &Listing, price: &Shown) -> (r: Output)
    ensures
        r@ == listing_v(token, *l, *price),
{
    let t = dec(token);
    let s = l.seller.lower();
    let at = dec(l.listed_at);
    let m = cat9(
        "tokenId ",
        t.as_str(),
        ": listed by ",
        s.as_str(),
        " for ",
        price.d6.as_str(),
        " ETH (since ",
        at.as_str(),
        ")",
    );
    let o = Json::object().with("token_id", Json::number(token)).with(
        "listed",
        Json::Bool(true),
    ).with("seller", Json::Str(s)).with("price_wei", Json::Str(l.price_wei.decimal())).with(
        "price_eth",
        Json::Num(price.json.clone()),
    ).with("listed_at", Json::number(l.listed_at));
    Output::success(m, o, Internal::stop(""))
}

/// What comes next with the seller's address.
pub open spec fn seller_next(o: Offer, agent_text: Seq<char>, r: Step<Market, Outcome>) -> bool {
    match parsed_address(agent_text) {
        None => fails(r, fault_v(address_error_text(agent_text))),
        Some(agent) => if o.price_wei == 0 {
            fails(r, fault_v("--price must be > 0 ETH"@))
        } else if o.price_wei < MIN_PRICE_WEI {
            fails(r, fault_v("--price must be >= 0.000001 ETH"@))
        } else {
            &&& r matches Step::Act(Market::ListOwner(p, b), a)
            &&& p == o
            &&& b@ == agent
            &&& a@ == ActionV::View(
                o.nft@,
                static_call("ownerOf(uint256)"@, seq![be_word(o.token_id as nat)]),
            )
        },
    }
}

/// Goes on with the seller's address.
pub fn with_seller(o: Offer, agent_text: &str) -> (r: Step<Market, Outcome>)
    ensures
        seller_next(o, agent_text@, r),
{
    match Address::parse(agent_text) {
        Err(e) => fail(Fault::new(e)),
        Ok(agent) => {
            if o.price_wei == 0 {
                return fail(Fault::of("--price must be > 0 ETH"));
            }
            if o.price_wei < MIN_PRICE_WEI {
                return fail(Fault::of("--price must be >= 0.000001 ETH"));
            }
            let a = Action::View(o.nft, call1("ownerOf(uint256)", uint_arg(o.token_id)));
            Step::Act(Market::ListOwner(o, agent), a)
        },
    }
}

/// What comes next with the owner of the token.
pub open spec fn owner_next(o: Offer, agent: Address, raw: Seq<u8>, r: Step<Market, Outcome>) -> bool {
    match address_result(raw) {
        Err(e) => fails(r, fault_v(e)),
        Ok(owner) => if owner != agent@ {
            fails(
                r,
                fault_v(
                    "tokenId "@ + dec_text(o.token_id as nat) + " is owned by "@ + hex_0x(owner)
                        + ", not us ("@ + hex_0x(agent@) + ")"@,
                ),
            )
        } else {
            &&& r matches Step::Act(Market::ListApproved(p, b), a)
            &&& p == o
            &&& b == agent
            &&& a@ == ActionV::View(
                o.nft@,
                static_call(
                    "isApprovedForAll(address,address)"@,
                    seq![address_word(agent@), address_word(o.otc@)],
                ),
            )
        },
    }
}

/// Goes on with the owner of the token.
pub fn with_owner(o: Offer, agent: Address, raw: &Vec<u8>) -> (r: Step<Market, Outcome>)
    ensures
        owner_next(o, agent, raw@, r),
{
    match read_address(raw) {
        Err(e) => fail(Fault::new(e)),
        Ok(owner) => {
            if !owner.same(&agent) {
                let t = dec(o.token_id);
                let x = owner.lower();
                let y = agent.lower();
                return fail(
                    Fault::new(
                        cat7(
                            "tokenId ",
                            t.as_str(),
                            " is owned by ",
                            x.as_str(),
                            ", not us (",
                            y.as_str(),
                            ")",
                        ),
                    ),
                );
            }
            let data = call2(
                "isApprovedForAll(address,address)",
                address_arg(&agent),
                address_arg(&o.otc),
            );
            let a = Action::View(o.nft, data);
            Step::Act(Market::ListApproved(o, agent), a)
        },
    }
}

/// The transaction that makes an offer.
pub open spec fn list_tx(o: Offer, agent: Address) -> ActionV {
    ActionV::Transact(
        TxRequestV {
            from: agent@,
            to: o.otc@,
            data: static_call(
                "list(uint256,uint256)"@,
                seq![be_word(o.token_id as nat), be_word(o.price_wei as nat)],
            ),
            value_wei: 0,
            gas_limit: 120_000,
        },
    )
}

fn ask_list(o: &Offer, agent: Address) -> (r: Action)
    ensures
        r@ == list_tx(*o, agent),
{
    Action::Transact(
        TxRequest {
            from: agent,
            to: o.otc,
            data: calldata_otc_list(&U256::of_u64(o.token_id), &U256::of_u128(o.price_wei)),
            value_wei: 0,
            gas_limit: 120_000,
        },
    )
}

/// What comes next with the approval: the offer, after an approval where there is none.
pub open spec fn approved_next(o: Offer, agent: Address, raw: Seq<u8>, r: Step<Market, Outcome>) -> bool {
    match bool_result(raw) {
        Err(e) => fails(r, fault_v(e)),
        Ok(approved) => if approved {
            &&& r matches Step::Act(Market::ListTx(p), a)
            &&& p == o
            &&& a@ == list_tx(o, agent)
        } else {
            &&& r matches Step::Act(Market::ListApproving(p, b), a)
            &&& p == o
            &&& b == agent
            &&& a@ == ActionV::Transact(
                TxRequestV {
                    from: agent@,
                    to: o.nft@,
                    data: static_call(
                        "setApprovalForAll(address,bool)"@,
                        seq![address_word(o.otc@), bool_word(true)],
                    ),
                    value_wei: 0,
                    gas_limit: 100_000,
                },
            )
        },
    }
}

/// Goes on with the approval.
pub fn with_approved(o: Offer, agent: Address, raw: &Vec<u8>) -> (r: Step<Market, Outcome>)
    ensures
        approved_next(o, agent, raw@, r),
{
    match read_bool(raw) {
        Err(e) => fail(Fault::new(e)),
        Ok(approved) => {
            if approved {
                let a = ask_list(&o, agent);
                Step::Act(Market::ListTx(o), a)
            } else {
                let t = TxRequest {
                    from: agent,
                    to: o.nft,
                    data: calldata_set_approval_for_all(&o.otc, true),
                    value_wei: 0,
                    gas_limit: 100_000,
                };
                Step::Act(Market::ListApproving(o, agent), Action::Transact(t))
            }
        },
    }
}

/// The output of an offer that was made.
pub open spec fn offered_v(o: Offer, tx: Seq<char>) -> OutputV {
    let d = with_member(empty_object(), "token_id"@, num_v(o.token_id as int));
    let d = with_member(d, "price_eth"@, JsonV::Num(o.price.json@));
    let d = with_member(d, "price_wei"@, JsonV::Str(dec_text(o.price_wei as nat)));
    let d = with_member(d, "list_tx"@, JsonV::Str(tx));
    success_v(
        "Listed tokenId "@ + dec_text(o.token_id as nat) + " for "@ + o.price.d6@ + " ETH (tx "@ + tx
            + ")."@,
        d,
        next_v(""@, None),
    )
}

/// The output of an offer that was made.
pub fn offered(o: &Offer, tx: &str) -> (r: Output)
    ensures
        r@ == offered_v(*o, tx@),
{
    let t = dec(o.token_id);
    let m = cat7("Listed tokenId ", t.as_str(), " for ", o.price.d6.as_str(), " ETH (tx ", tx, ").");
    let d = Json::object().with("token_id", Json::number(o.token_id)).with(
        "price_eth",
        Json::Num(o.price.json.clone()),
    ).with("price_wei", Json::Str(dec_u128(o.price_wei))).with("list_tx", Json::text(tx));
    Output::success(m, d, Internal::stop(""))
}

/// The error where a token is not offered.
pub open spec fn not_listed_v(token: u64) -> Seq<Seq<char>> {
    fault_v("tokenId "@ + dec_text(token as nat) + " is not listed"@)
}

fn not_listed(token: u64) -> (r: Fault)
    ensures
        r@ == not_listed_v(token),
{
    let t = dec(token);
    Fault::new(cat3("tokenId ", t.as_str(), " is not listed"))
}

/// What comes next with the offer to take back.
pub open spec fn unlist_next(token: u64, otc: Address, agent: Address, raw: Seq<u8>, r: Step<Market, Outcome>) -> bool {
    let seller = listed_seller(raw);
    if !listing_reply(raw) {
        fails(r, listing_fault(raw))
    } else if seller == zero_address() {
        fails(r, not_listed_v(token))
    } else if seller != agent@ {
        fails(
            r,
            fault_v(
                "tokenId "@ + dec_text(token as nat) + " listed by "@ + hex_0x(seller) + ", not us ("@
                    + hex_0x(agent@) + "); only seller can unlist"@,
            ),
        )
    } else {
        &&& r matches Step::Act(Market::UnlistTx(t), a)
        &&& t == token
        &&& a@ == ActionV::Transact(
            TxRequestV {
                from: agent@,
                to: otc@,
                data: static_call("unlist(uint256)"@, seq![be_word(token as nat)]),
                value_wei: 0,
                gas_limit: 80_000,
            },
        )
    }
}

/// Goes on with the offer to take back.
pub fn with_own_listing(token: u64, otc: Address, agent: Address, raw: &Vec<u8>) -> (r: Step<Market, Outcome>)
    ensures
        unlist_next(token, otc, agent, raw@, r),
{
    match read_listing(raw) {
        Err(e) => fail(Fault::new(e)),
        Ok(l) => {
            if l.seller.is_zero() {
                return fail(not_listed(token));
            }
            if !l.seller.same(&agent) {
                let t = dec(token);
                let x = l.seller.lower();
                let y = agent.lower();
                return fail(
                    Fault::new(
                        cat7(
                            "tokenId ",
                            t.as_str(),
                            " listed by ",
                            x.as_str(),
                            ", not us (",
                            y.as_str(),
                            "); only seller can unlist",
                        ),
                    ),
                );
            }
            let t = TxRequest {
                from: agent,
                to: otc,
                data: calldata_otc_unlist(&U256::of_u64(token)),
                value_wei: 0,
                gas_limit: 80_000,
            };
            Step::Act(Market::UnlistTx(token), Action::Transact(t))
        },
    }
}

/// The output of an offer that was taken back.
pub open spec fn withdrawn_v(token: u64, tx: Seq<char>) -> OutputV {
    let d = with_member(empty_object(), "token_id"@, num_v(token as int));
    success_v(
        "Unlisted tokenId "@ + dec_text(token as nat) + " (tx "@ + tx + ")."@,
        with_member(d, "unlist_tx"@, JsonV::Str(tx)),
        next_v(""@, None),
    )
}

fn withdrawn(token: u64, tx: &str) -> (r: Output)
    ensures
        r@ == withdrawn_v(token, tx@),
{
    let t = dec(token);
    let m = cat5("Unlisted tokenId ", t.as_str(), " (tx ", tx, ").");
    let d = Json::object().with("token_id", Json::number(token)).with("unlist_tx", Json::text(tx));
    Output::success(m, d, Internal::stop(""))
}

/// What comes next with the offer to buy.
pub open spec fn buy_next(token: u64, otc: Address, agent: Address, raw: Seq<u8>, r: Step<Market, Outcome>) -> bool {
    let seller = listed_seller(raw);
    if !listing_reply(raw) {
        fails(r, listing_fault(raw))
    } else if seller == zero_address() {
        fails(r, not_listed_v(token))
    } else if seller == agent@ {
        fails(r, fault_v("can't buy your own listing — use unlist instead"@))
    } else if listed_price(raw) + BUY_GAS_WEI > u128::MAX {
        fails(r, fault_v("price out of range"@))
    } else {
        &&& r matches Step::Act(Market::BuyBalance(p), a)
        &&& p.token_id == token
        &&& p.price_wei == listed_price(raw)
        &&& p.seller@ == seller
        &&& p.agent == agent
        &&& p.otc == otc
        &&& a@ == ActionV::EthBalance(agent@)
    }
}

/// Goes on with the offer to buy.
pub fn with_offer(token_id: u64, otc: Address, agent: Address, raw: &Vec<u8>) -> (r: Step<Market, Outcome>)
    ensures
        buy_next(token_id, otc, agent, raw@, r),
{
    match read_listing(raw) {
        Err(e) => fail(Fault::new(e)),
        Ok(l) => {
            if l.seller.is_zero() {
                return fail(not_listed(token_id));
            }
            if l.seller.same(&agent) {
                return fail(Fault::of("can't buy your own listing — use unlist instead"));
            }
            match l.price_wei.to_u128() {
                None => fail(Fault::of("price out of range")),
                Some(price_wei) => {
                    if price_wei > u128::MAX - BUY_GAS_WEI {
                        return fail(Fault::of("price out of range"));
                    }
                    Step::Act(
                        Market::BuyBalance(
                            Purchase { token_id, price_wei, seller: l.seller, agent, otc },
                        ),
                        Action::EthBalance(agent),
                    )
                },
            }
        },
    }
}

/// What comes next with the buyer's balance.
pub open spec fn balance_next(p: Purchase, wei: u128, r: Step<Market, Outcome>) -> bool {
    if p.price_wei + BUY_GAS_WEI > u128::MAX {
        fails(r, fault_v("price out of range"@))
    } else if wei < p.price_wei + BUY_GAS_WEI {
        &&& r matches Step::Act(Market::BuyShort, a)
        &&& a@ == ActionV::Show(
            seq![eth_amount(wei), eth_amount((p.price_wei + BUY_GAS_WEI) as u128)],
        )
    } else {
        &&& r matches Step::Act(Market::BuyTx(q), a)
        &&& q == p
        &&& a@ == ActionV::Transact(
            TxRequestV {
                from: p.agent@,
                to: p.otc@,
                data: static_call("buy(uint256)"@, seq![be_word(p.token_id as nat)]),
                value_wei: p.price_wei,
                gas_limit: 250_000,
            },
        )
    }
}

/// Goes on with the buyer's balance.
pub fn with_balance(p: Purchase, wei: u128) -> (r: Step<Market, Outcome>)
    ensures
        balance_next(p, wei, r),
{
    if p.price_wei > u128::MAX - BUY_GAS_WEI {
        return fail(Fault::of("price out of range"));
    }
    let need = p.price_wei + BUY_GAS_WEI;
    if wei < need {
        Step::Act(Market::BuyShort, show2(wei, need))
    } else {
        let t = TxRequest {
            from: p.agent,
            to: p.otc,
            data: calldata_otc_buy(&U256::of_u64(p.token_id)),
            value_wei: p.price_wei,
            gas_limit: 250_000,
        };
        Step::Act(Market::BuyTx(p), Action::Transact(t))
    }
}

/// The error where the balance is too low.
pub open spec fn short_v(have: Seq<char>, need: Seq<char>) -> Seq<Seq<char>> {
    fault_v(
        "balance too low: have "@ + have + " ETH, need "@ + need + " ETH (price + ~0.001 gas)"@,
    )
}

/// The output of a purchase that was made.
pub open spec fn bought_v(p: Purchase, price: Shown, tx: Seq<char>) -> OutputV {
    let d = with_member(empty_object(), "token_id"@, num_v(p.token_id as int));
    let d = with_member(d, "seller"@, JsonV::Str(hex_0x(p.seller@)));
    let d = with_member(d, "price_wei"@, JsonV::Str(dec_text(p.price_wei as nat)));
    let d = with_member(d, "buy_tx"@, JsonV::Str(tx));
    success_v(
        "Bought tokenId "@ + dec_text(p.token_id as nat) + " from "@ + hex_0x(p.seller@) + " for "@
            + price.d6@ + " ETH (tx "@ + tx + ")."@,
        d,
        next_v(""@, None),
    )
}

/// The output of a purchase that was made.
pub fn bought(p: &Purchase, price: &Shown, tx: &str) -> (r: Output)
    ensures
        r@ == bought_v(*p, *price, tx@),
{
    let t = dec(p.token_id);
    let s = p.seller.lower();
    let m = cat9(
        "Bought tokenId ",
        t.as_str(),
        " from ",
        s.as_str(),
        " for ",
        price.d6.as_str(),
        " ETH (tx ",
        tx,
        ").",
    );
    let d = Json::object().with("token_id", Json::number(p.token_id)).with(
        "seller",
        Json::Str(s),
    ).with("price_wei", Json::Str(dec_u128(p.price_wei))).with("buy_tx", Json::text(tx));
    Output::success(m, d, Internal::stop(""))
}

/// What comes next in the market command.
pub open spec fn market_next(s: Market, reply: Reply, r: Step<Market, Outcome>) -> bool {
    match (s, reply) {
        (Market::Contracts(act), Reply::Doc(Ok(cfg))) => {
            &&& r matches Step::Act(Market::Nft(b, c), a)
            &&& b == act
            &&& c == cfg
            &&& a@ == ActionV::Env("ARDI_NFT_ADDR"@)
        },
        (Market::Nft(act, cfg), Reply::Maybe(set)) => match contract_result(
            cfg@,
            "ardi_nft"@,
            opt_text_view(set),
            "ardi_nft addr unknown; set ARDI_NFT_ADDR env"@,
        ) {
            Err(f) => fails(r, f),
            Ok(nft) => {
                &&& r matches Step::Act(Market::Otc(b, c, n), a)
                &&& b == act
                &&& c == cfg
                &&& n@ == nft
                &&& a@ == ActionV::Env("ARDI_OTC_ADDR"@)
            },
        },
        (Market::Otc(act, cfg, nft), Reply::Maybe(set)) => match contract_result(
            cfg@,
            "otc"@,
            opt_text_view(set),
            "otc addr unknown; set ARDI_OTC_ADDR env"@,
        ) {
            Err(f) => fails(r, f),
            Ok(otc) => begin_next(act, nft, otc, r),
        },
        (Market::ShowListing(t), Reply::Bytes(Ok(raw))) => show_next(t, raw@, r),
        (Market::ShowListing(_), Reply::Bytes(Err(f))) => fails(r, f@),
        (Market::ShowPrice(t, l), Reply::Shown(v)) => if v@.len() > 0 {
            prints(r, listing_v(t, l, v@[0]))
        } else {
            fails(r, stray_v())
        },
        (Market::ListAddress(o), Reply::Text(Ok(t))) => seller_next(o, t@, r),
        (Market::ListAddress(_), Reply::Text(Err(f))) => fails(r, f@),
        (Market::ListOwner(o, agent), Reply::Bytes(Ok(raw))) => owner_next(o, agent, raw@, r),
        (Market::ListOwner(_, _), Reply::Bytes(Err(f))) => fails(r, f@),
        (Market::ListApproved(o, agent), Reply::Bytes(Ok(raw))) => approved_next(o, agent, raw@, r),
        (Market::ListApproved(_, _), Reply::Bytes(Err(f))) => fails(r, f@),
        (Market::ListApproving(o, agent), Reply::Sent(Ok((_, true)))) => {
            &&& r matches Step::Act(Market::ListTx(p), a)
            &&& p == o
            &&& a@ == list_tx(o, agent)
        },
        (Market::ListApproving(_, _), Reply::Sent(e)) => fails(
            r,
            unsettled_v(e, "setApprovalForAll tx"@),
        ),
        (Market::ListTx(o), Reply::Sent(Ok((h, true)))) => prints(r, offered_v(o, h@)),
        (Market::ListTx(_), Reply::Sent(e)) => fails(r, unsettled_v(e, "list tx"@)),
        (Market::UnlistAddress(t, otc), Reply::Text(Ok(u))) => match parsed_address(u@) {
            None => fails(r, fault_v(address_error_text(u@))),
            Some(x) => {
                &&& r matches Step::Act(Market::UnlistListing(v, c, agent), a)
                &&& v == t
                &&& c == otc
                &&& agent@ == x
                &&& a@ == ActionV::View(otc@, listing_call(t))
            },
        },
        (Market::UnlistAddress(_, _), Reply::Text(Err(f))) => fails(r, f@),
        (Market::UnlistListing(t, otc, agent), Reply::Bytes(Ok(raw))) => unlist_next(
            t,
            otc,
            agent,
            raw@,
            r,
        ),
        (Market::UnlistListing(_, _, _), Reply::Bytes(Err(f))) => fails(r, f@),
        (Market::UnlistTx(t), Reply::Sent(Ok((h, true)))) => prints(r, withdrawn_v(t, h@)),
        (Market::UnlistTx(_), Reply::Sent(e)) => fails(r, unsettled_v(e, "unlist tx"@)),
        (Market::BuyAddress(t, otc), Reply::Text(Ok(u))) => match parsed_address(u@) {
            None => fails(r, fault_v(address_error_text(u@))),
            Some(x) => {
                &&& r matches Step::Act(Market::BuyListing(v, c, agent), a)
                &&& v == t
                &&& c == otc
                &&& agent@ == x
                &&& a@ == ActionV::View(otc@, listing_call(t))
            },
        },
        (Market::BuyAddress(_, _), Reply::Text(Err(f))) => fails(r, f@),
        (Market::BuyListing(t, otc, agent), Reply::Bytes(Ok(raw))) => buy_next(
            t,
            otc,
            agent,
            raw@,
            r,
        ),
        (Market::BuyListing(_, _, _), Reply::Bytes(Err(f))) => fails(r, f@),
        (Market::BuyBalance(p), Reply::Wei(Ok(n))) => balance_next(p, n, r),
        (Market::BuyBalance(_), Reply::Wei(Err(f))) => fails(r, f@),
        (Market::BuyShort, Reply::Shown(v)) => if v@.len() > 1 {
            fails(r, short_v(v@[0].d6@, v@[1].d6@))
        } else {
            fails(r, stray_v())
        },
        (Market::BuyTx(p), Reply::Sent(Ok((h, true)))) => {
            &&& r matches Step::Act(Market::BuyShown(q, g), a)
            &&& q == p
            &&& g == h
            &&& a@ == ActionV::Show(seq![eth_amount(p.price_wei)])
        },
        (Market::BuyTx(_), Reply::Sent(e)) => fails(r, unsettled_v(e, "buy tx"@)),
        (Market::BuyShown(p, h), Reply::Shown(v)) => if v@.len() > 0 {
            prints(r, bought_v(p, v@[0], h@))
        } else {
            fails(r, stray_v())
        },
        _ => fails(r, stray_v()),
    }
}

/// Starts the market command.
pub fn run(action: MarketAction) -> (r: Step<Market, Outcome>)
    ensures
        r matches Step::Act(Market::Contracts(b), a) && b == action && a@ == ActionV::Contracts,
{
    Step::Act(Market::Contracts(action), Action::Contracts)
}

impl Market {
    /// Goes on with the reply.
    pub fn step(self, reply: Reply) -> (r: Step<Market, Outcome>)
        ensures
            market_next(self, reply, r),
    {
        match (self, reply) {
            (Market::Contracts(act), Reply::Doc(Ok(cfg))) => Step::Act(
                Market::Nft(act, cfg),
                Action::Env("ARDI_NFT_ADDR".to_owned()),
            ),
            (Market::Nft(act, cfg), Reply::Maybe(set)) => match find_contract(
                &cfg,
                "ardi_nft",
                set,
                "ardi_nft addr unknown; set ARDI_NFT_ADDR env",
            ) {
                Err(f) => fail(f),
                Ok(nft) => Step::Act(
                    Market::Otc(act, cfg, nft),
                    Action::Env("ARDI_OTC_ADDR".to_owned()),
                ),
            },
            (Market::Otc(act, cfg, nft), Reply::Maybe(set)) => match find_contract(
                &cfg,
                "otc",
                set,
                "otc addr unknown; set ARDI_OTC_ADDR env",
            ) {
                Err(f) => fail(f),
                Ok(otc) => begin(act, nft, otc),
            },
            (Market::ShowListing(t), Reply::Bytes(Ok(raw))) => with_shown_listing(t, &raw),
            (Market::ShowListing(_), Reply::Bytes(Err(f))) => fail(f),
            (Market::ShowPrice(t, l), Reply::Shown(v)) => {
                if v.len() > 0 {
                    print(listing(t, &l, &v[0]))
                } else {
                    fail(stray())
                }
            },
            (Market::ListAddress(o), Reply::Text(Ok(t))) => with_seller(o, t.as_str()),
            (Market::ListAddress(_), Reply::Text(Err(f))) => fail(f),
            (Market::ListOwner(o, agent), Reply::Bytes(Ok(raw))) => with_owner(o, agent, &raw),
            (Market::ListOwner(_, _), Reply::Bytes(Err(f))) => fail(f),
            (Market::ListApproved(o, agent), Reply::Bytes(Ok(raw))) => with_approved(o, agent, &raw),
            (Market::ListApproved(_, _), Reply::Bytes(Err(f))) => fail(f),
            (Market::ListApproving(o, agent), Reply::Sent(Ok((_, true)))) => {
                let a = ask_list(&o, agent);
                Step::Act(Market::ListTx(o), a)
            },
            (Market::ListApproving(_, _), Reply::Sent(e)) => fail(
                unsettled(e, "setApprovalForAll tx"),
            ),
            (Market::ListTx(o), Reply::Sent(Ok((h, true)))) => print(offered(&o, h.as_str())),
            (Market::ListTx(_), Reply::Sent(e)) => fail(unsettled(e, "list tx")),
            (Market::UnlistAddress(t, otc), Reply::Text(Ok(u))) => match Address::parse(u.as_str()) {
                Err(e) => fail(Fault::new(e)),
                Ok(agent) => Step::Act(Market::UnlistListing(t, otc, agent), ask_listing(otc, t)),
            },
            (Market::UnlistAddress(_, _), Reply::Text(Err(f))) => fail(f),
            (Market::UnlistListing(t, otc, agent), Reply::Bytes(Ok(raw))) => with_own_listing(
                t,
                otc,
                agent,
                &raw,
            ),
            (Market::UnlistListing(_, _, _), Reply::Bytes(Err(f))) => fail(f),
            (Market::UnlistTx(t), Reply::Sent(Ok((h, true)))) => print(withdrawn(t, h.as_str())),
            (Market::UnlistTx(_), Reply::Sent(e)) => fail(unsettled(e, "unlist tx")),
            (Market::BuyAddress(t, otc), Reply::Text(Ok(u))) => match Address::parse(u.as_str()) {
                Err(e) => fail(Fault::new(e)),
                Ok(agent) => Step::Act(Market::BuyListing(t, otc, agent), ask_listing(otc, t)),
            },
            (Market::BuyAddress(_, _), Reply::Text(Err(f))) => fail(f),
            (Market::BuyListing(t, otc, agent), Reply::Bytes(Ok(raw))) => with_offer(
                t,
                otc,
                agent,
                &raw,
            ),
            (Market::BuyListing(_, _, _), Reply::Bytes(Err(f))) => fail(f),
            (Market::BuyBalance(p), Reply::Wei(Ok(n))) => with_balance(p, n),
            (Market::BuyBalance(_), Reply::Wei(Err(f))) => fail(f),
            (Market::BuyShort, Reply::Shown(v)) => {
                if v.len() > 1 {
                    fail(
                        Fault::new(
                            cat5(
                                "balance too low: have ",
                                v[0].d6.as_str(),
                                " ETH, need ",
                                v[1].d6.as_str(),
                                " ETH (price + ~0.001 gas)",
                            ),
                        ),
                    )
                } else {
                    fail(stray())
                }
            },
            (Market::BuyTx(p), Reply::Sent(Ok((h, true)))) => {
                let a = show1(p.price_wei);
                Step::Act(Market::BuyShown(p, h), a)
            },
            (Market::BuyTx(_), Reply::Sent(e)) => fail(unsettled(e, "buy tx")),
            (Market::BuyShown(p, h), Reply::Shown(v)) => {
                if v.len() > 0 {
                    print(bought(&p, &v[0], h.as_str()))
                } else {
                    fail(stray())
                }
            },
            _ => fail(stray()),
        }
    }
}

/// Every transaction that the market command makes with money attached pays exactly the price of the offer
/// that was read, and the buyer is left with enough for gas.
pub proof fn law_buyer_pays_the_price(s: Market, reply: Reply, r: Step<Market, Outcome>)
    requires
        market_next(s, reply, r),
    ensures
        (r matches Step::Act(_, a) && (a@ matches ActionV::Transact(t) && t.value_wei > 0)) ==> (
        s matches Market::BuyBalance(p) && (reply matches Reply::Wei(Ok(n)) && n >= p.price_wei
            + BUY_GAS_WEI) && (r matches Step::Act(_, a) && a@->Transact_0.value_wei == p.price_wei)),
        r matches Step::Act(Market::BuyBalance(p), _) ==> (reply matches Reply::Bytes(Ok(raw))
            && p.price_wei == listed_price(raw@) && p.seller@ == listed_seller(raw@) && p.seller@
            != p.agent@),
{
}

/// An offer names the token and the price, and only its owner makes it: the owner of the token is asked for, and
/// whether the market may move the agent's tokens; where it may not, the market is allowed to, and then the token is
/// listed at the price that was given.
pub proof fn law_offer_names_token_and_price(s: Market, reply: Reply, r: Step<Market, Outcome>)
    requires
        market_next(s, reply, r),
    ensures
        r matches Step::Act(Market::ListOwner(o, _), a) ==> ({
            &&& a@ matches ActionV::View(to, data)
            &&& to == o.nft@
            &&& data.take(4) == selector_of("ownerOf(uint256)"@)
            &&& be_number(arg_at(data, 0)) == o.token_id
        }),
        r matches Step::Act(Market::ListOwner(o, _), _) ==> o.price_wei >= 1_000_000_000_000,
        r matches Step::Act(Market::ListApproved(o, agent), a) ==> ({
            &&& a@ matches ActionV::View(to, data)
            &&& to == o.nft@
            &&& data.take(4) == selector_of("isApprovedForAll(address,address)"@)
            &&& address_result(arg_at(data, 0)) == Ok::<Seq<u8>, Seq<char>>(agent@)
            &&& address_result(arg_at(data, 1)) == Ok::<Seq<u8>, Seq<char>>(o.otc@)
        }),
        r matches Step::Act(Market::ListApproved(o, agent), _) ==> s == Market::ListOwner(o, agent) && (
        reply matches Reply::Bytes(Ok(raw)) && address_result(raw@) == Ok::<Seq<u8>, Seq<char>>(agent@)),
        r matches Step::Act(Market::ListApproving(o, agent), a) ==> ({
            &&& a@ matches ActionV::Transact(t)
            &&& t.from == agent@
            &&& t.to == o.nft@
            &&& t.value_wei == 0
            &&& t.data.take(4) == selector_of("setApprovalForAll(address,bool)"@)
            &&& t.gas_limit == 100_000
            &&& address_result(arg_at(t.data, 0)) == Ok::<Seq<u8>, Seq<char>>(o.otc@)
            &&& be_number(arg_at(t.data, 1)) == 1
        }),
        r matches Step::Act(Market::ListTx(o), a) ==> ({
            &&& s is ListApproved || s is ListApproving
            &&& a@ matches ActionV::Transact(t)
            &&& s matches Market::ListApproved(p, agent) ==> t.from == agent@ && p == o
            &&& s matches Market::ListApproving(p, agent) ==> t.from == agent@ && p == o
            &&& t.to == o.otc@
            &&& t.value_wei == 0
            &&& t.data.take(4) == selector_of("list(uint256,uint256)"@)
            &&& t.gas_limit == 120_000
            &&& be_number(arg_at(t.data, 0)) == o.token_id
            &&& be_number(arg_at(t.data, 1)) == o.price_wei
        }),
        s matches Market::ListApproved(_, _) ==> (reply matches Reply::Bytes(Ok(raw)) ==> (bool_result(
            raw@,
        ) matches Ok(yes) ==> (r matches Step::Act(Market::ListTx(_), _) <==> yes))),
{
    lemma_word_lengths();
    if let Step::Act(Market::ListOwner(o, _), _) = r {
        let args = seq![be_word(o.token_id as nat)];
        lemma_static_args("ownerOf(uint256)"@, args);
        assert(arg_at(static_call("ownerOf(uint256)"@, args), 0) == be_word(o.token_id as nat));
    }
    if let Step::Act(Market::ListApproved(o, agent), _) = r {
        let args = seq![address_word(agent@), address_word(o.otc@)];
        lemma_static_args("isApprovedForAll(address,address)"@, args);
        assert(arg_at(static_call("isApprovedForAll(address,address)"@, args), 0) == address_word(agent@));
        assert(arg_at(static_call("isApprovedForAll(address,address)"@, args), 1) == address_word(o.otc@));
    }
    if let Step::Act(Market::ListApproving(o, agent), _) = r {
        let args = seq![address_word(o.otc@), bool_word(true)];
        lemma_static_args("setApprovalForAll(address,bool)"@, args);
        assert(arg_at(static_call("setApprovalForAll(address,bool)"@, args), 0) == address_word(o.otc@));
        assert(arg_at(static_call("setApprovalForAll(address,bool)"@, args), 1) == bool_word(true));
    }
    if let Step::Act(Market::ListTx(o), _) = r {
        let args = seq![be_word(o.token_id as nat), be_word(o.price_wei as nat)];
        lemma_static_args("list(uint256,uint256)"@, args);
        assert(arg_at(static_call("list(uint256,uint256)"@, args), 0) == be_word(o.token_id as nat));
        assert(arg_at(static_call("list(uint256,uint256)"@, args), 1) == be_word(o.price_wei as nat));
    }
}

/// An offer that is looked at, taken back or accepted is the offer on the token that was named: the market is asked
/// for the listing of that token, only the seller takes it back, and a buyer pays for that token.
pub proof fn law_listing_is_of_the_token(s: Market, reply: Reply, r: Step<Market, Outcome>)
    requires
        market_next(s, reply, r),
    ensures
        r matches Step::Act(Market::ShowListing(token), a) ==> (a@ matches ActionV::View(_, data) && data.take(4)
            == selector_of("getListing(uint256)"@) && be_number(arg_at(data, 0)) == token),
        r matches Step::Act(Market::UnlistListing(token, otc, _), a) ==> ({
            &&& a@ matches ActionV::View(to, data)
            &&& to == otc@
            &&& data.take(4) == selector_of("getListing(uint256)"@)
            &&& be_number(arg_at(data, 0)) == token
        }),
        r matches Step::Act(Market::BuyListing(token, otc, _), a) ==> ({
            &&& a@ matches ActionV::View(to, data)
            &&& to == otc@
            &&& data.take(4) == selector_of("getListing(uint256)"@)
            &&& be_number(arg_at(data, 0)) == token
        }),
        r matches Step::Act(Market::UnlistTx(token), a) ==> ({
            &&& s matches Market::UnlistListing(k, otc, agent)
            &&& k == token
            &&& reply matches Reply::Bytes(Ok(raw))
            &&& raw@.subrange(12, 32) == agent@
            &&& a@ matches ActionV::Transact(t)
            &&& t.from == agent@
            &&& t.to == otc@
            &&& t.value_wei == 0
            &&& t.data.take(4) == selector_of("unlist(uint256)"@)
            &&& t.gas_limit == 80_000
            &&& be_number(arg_at(t.data, 0)) == token
        }),
        r matches Step::Act(Market::BuyTx(p), a) ==> ({
            &&& a@ matches ActionV::Transact(t)
            &&& t.from == p.agent@
            &&& t.to == p.otc@
            &&& t.value_wei == p.price_wei
            &&& t.data.take(4) == selector_of("buy(uint256)"@)
            &&& t.gas_limit == 250_000
            &&& be_number(arg_at(t.data, 0)) == p.token_id
        }),
        r matches Step::Act(Market::BuyBalance(p), a) ==> ({
            &&& s matches Market::BuyListing(token, otc, agent)
            &&& reply matches Reply::Bytes(Ok(raw))
            &&& p.token_id == token && p.agent == agent && p.otc == otc
            &&& p.seller@ == raw@.subrange(12, 32)
            &&& p.price_wei == be_number(raw@.subrange(32, 64))
            &&& a@ == ActionV::EthBalance(agent@)
        }),
        r matches Step::Act(Market::ShowPrice(token, l), _) ==> ({
            &&& s == Market::ShowListing(token)
            &&& reply matches Reply::Bytes(Ok(raw))
            &&& l.seller@ == raw@.subrange(12, 32)
            &&& l.price_wei@ == be_number(raw@.subrange(32, 64))
            &&& l.listed_at == be_number(raw@.subrange(64, 96))
        }),
{
    lemma_word_lengths();
    if let Step::Act(Market::ShowListing(token), _) = r {
        let args = seq![be_word(token as nat)];
        lemma_static_args("getListing(uint256)"@, args);
        assert(arg_at(static_call("getListing(uint256)"@, args), 0) == be_word(token as nat));
    }
    if let Step::Act(Market::UnlistListing(token, _, _), _) = r {
        let args = seq![be_word(token as nat)];
        lemma_static_args("getListing(uint256)"@, args);
        assert(arg_at(static_call("getListing(uint256)"@, args), 0) == be_word(token as nat));
    }
    if let Step::Act(Market::BuyListing(token, _, _), _) = r {
        let args = seq![be_word(token as nat)];
        lemma_static_args("getListing(uint256)"@, args);
        assert(arg_at(static_call("getListing(uint256)"@, args), 0) == be_word(token as nat));
    }
    if let Step::Act(Market::UnlistTx(token), _) = r {
        let args = seq![be_word(token as nat)];
        lemma_static_args("unlist(uint256)"@, args);
        assert(arg_at(static_call("unlist(uint256)"@, args), 0) == be_word(token as nat));
    }
    if let Step::Act(Market::BuyTx(p), _) = r {
        let args = seq![be_word(p.token_id as nat)];
        lemma_static_args("buy(uint256)"@, args);
        assert(arg_at(static_call("buy(uint256)"@, args), 0) == be_word(p.token_id as nat));
    }
}

/// After an offer the token, its price and the transaction are told.
pub proof fn law_offer_is_told(o: Offer, tx: Seq<char>)
    ensures
        member(offered_v(o, tx).data, "token_id"@) == Some(num_v(o.token_id as int)),
        member(offered_v(o, tx).data, "price_eth"@) == Some(JsonV::Num(o.price.json@)),
        member(offered_v(o, tx).data, "price_wei"@) == Some(JsonV::Str(dec_text(o.price_wei as nat))),
        member(offered_v(o, tx).data, "list_tx"@) == Some(JsonV::Str(tx)),
{
    reveal_strlit("token_id");
    reveal_strlit("price_eth");
    reveal_strlit("price_wei");
    reveal_strlit("list_tx");
    assert("token_id"@.len() == 8);
    assert("price_eth"@.len() == 9 && "price_eth"@[6] == 'e');
    assert("price_wei"@.len() == 9 && "price_wei"@[6] == 'w');
    assert("list_tx"@.len() == 7);
}

/// After a purchase the token, the seller, the price and the transaction are told.
pub proof fn law_purchase_is_told(p: Purchase, price: Shown, tx: Seq<char>)
    ensures
        member(bought_v(p, price, tx).data, "token_id"@) == Some(num_v(p.token_id as int)),
        member(bought_v(p, price, tx).data, "seller"@) == Some(JsonV::Str(hex_0x(p.seller@))),
        member(bought_v(p, price, tx).data, "price_wei"@) == Some(JsonV::Str(dec_text(p.price_wei as nat))),
        member(bought_v(p, price, tx).data, "buy_tx"@) == Some(JsonV::Str(tx)),
{
    reveal_strlit("token_id");
    reveal_strlit("seller");
    reveal_strlit("price_wei");
    reveal_strlit("buy_tx");
    assert("token_id"@.len() == 8);
    assert("seller"@.len() == 6 && "seller"@[0] == 's');
    assert("buy_tx"@.len() == 6 && "buy_tx"@[0] == 'b');
    assert("price_wei"@.len() == 9);
}

/// An offer is told with its token, its seller, its price and its time.
pub proof fn law_listing_is_told(token: u64, l: Listing, price: Shown)
    ensures
        member(listing_v(token, l, price).data, "token_id"@) == Some(num_v(token as int)),
        member(listing_v(token, l, price).data, "listed"@) == Some(JsonV::Bool(true)),
        member(listing_v(token, l, price).data, "seller"@) == Some(JsonV::Str(hex_0x(l.seller@))),
        member(listing_v(token, l, price).data, "price_wei"@) == Some(JsonV::Str(dec_text(l.price_wei@))),
        member(listing_v(token, l, price).data, "price_eth"@) == Some(JsonV::Num(price.json@)),
        member(listing_v(token, l, price).data, "listed_at"@) == Some(num_v(l.listed_at as int)),
{
    reveal_strlit("token_id");
    reveal_strlit("listed");
    reveal_strlit("seller");
    reveal_strlit("price_wei");
    reveal_strlit("price_eth");
    reveal_strlit("listed_at");
    assert("token_id"@.len() == 8);
    assert("listed"@.len() == 6 && "listed"@[0] == 'l');
    assert("seller"@.len() == 6 && "seller"@[0] == 's');
    assert("price_wei"@.len() == 9 && "price_wei"@[0] == 'p' && "price_wei"@[6] == 'w');
    assert("price_eth"@.len() == 9 && "price_eth"@[0] == 'p' && "price_eth"@[6] == 'e');
    assert("listed_at"@.len() == 9 && "listed_at"@[0] == 'l');
}

/// After an offer is taken back, the token and the transaction are told; a token without an offer is told as such.
pub proof fn law_withdrawal_is_told(token: u64, tx: Seq<char>)
    ensures
        member(withdrawn_v(token, tx).data, "token_id"@) == Some(num_v(token as int)),
        member(withdrawn_v(token, tx).data, "unlist_tx"@) == Some(JsonV::Str(tx)),
        member(unlisted_v(token).data, "listed"@) == Some(JsonV::Bool(false)),
        member(unlisted_v(token).data, "token_id"@) == Some(num_v(token as int)),
{
    reveal_strlit("token_id");
    reveal_strlit("unlist_tx");
    reveal_strlit("listed");
    assert("token_id"@.len() == 8);
    assert("unlist_tx"@.len() == 9);
    assert("listed"@.len() == 6);
}

/// An offer is taken back wherever it is the agent's own, and accepted wherever it is another's and the balance covers the
/// price and 0.001 ETH for gas.
pub proof fn law_market_acts_where_it_may(s: Market, reply: Reply, r: Step<Market, Outcome>)
    requires
        market_next(s, reply, r),
    ensures
        s matches Market::UnlistListing(_, _, agent) ==> (reply matches Reply::Bytes(Ok(raw)) ==> (listing_reply(raw@)
            && agent@ != zero_address() ==> ((r matches Step::Act(Market::UnlistTx(_), _)) <==> raw@.subrange(12, 32)
            == agent@))),
        s matches Market::BuyBalance(p) ==> (reply matches Reply::Wei(Ok(n)) ==> (p.price_wei + 1_000_000_000_000_000
            <= u128::MAX ==> ((r matches Step::Act(Market::BuyTx(_), _)) <==> n >= p.price_wei + 1_000_000_000_000_000))),
        s matches Market::ListOwner(_, agent) ==> (reply matches Reply::Bytes(Ok(raw)) ==> (address_result(raw@) matches Ok(
            owner,
        ) ==> ((r matches Step::Act(Market::ListApproved(_, _), _)) <==> owner == agent@))),
        s matches Market::ListAddress(o) ==> (reply matches Reply::Text(Ok(t)) ==> (parsed_address(t@) matches Some(x) ==> ((
        r matches Step::Act(Market::ListOwner(_, _), _)) <==> o.price_wei >= 1_000_000_000_000))),
        r matches Step::Act(Market::ListOwner(o, agent), _) ==> s == Market::ListAddress(o) && (reply matches Reply::Text(
            Ok(t),
        ) && parsed_address(t@) == Some(agent@)),
        r matches Step::Act(Market::ListAddress(o), _) ==> (s matches Market::Otc(MarketAction::List { token_id, price_wei, .. }, _, nft)
            && o.token_id == token_id && o.price_wei == price_wei && o.nft == nft),
        r matches Step::Act(Market::UnlistAddress(token, _), _) ==> (s matches Market::Otc(MarketAction::Unlist { token_id }, _, _)
            && token_id == token),
        r matches Step::Act(Market::BuyAddress(token, _), _) ==> (s matches Market::Otc(MarketAction::Buy { token_id }, _, _)
            && token_id == token),
        r matches Step::Act(Market::ShowListing(token), _) ==> (s matches Market::Otc(MarketAction::Show { token_id }, _, _)
            && token_id == token),
{
}

/// What is shown of a price is that price, and what is shown of a low balance the balance and what the purchase takes.
pub proof fn law_prices_are_shown(s: Market, reply: Reply, r: Step<Market, Outcome>)
    requires
        market_next(s, reply, r),
    ensures
        r matches Step::Act(Market::ShowPrice(_, l), a) ==> (a@ matches ActionV::Show(v) && v.len() == 1 && v[0].units
            == l.price_wei@ && v[0].decimals == 18),
        r matches Step::Act(Market::BuyShown(p, h), a) ==> s == Market::BuyTx(p) && (reply matches Reply::Sent(Ok((g, ok)))
            && g == h && ok) && (a@ matches ActionV::Show(v) && v.len() == 1 && v[0].units == p.price_wei && v[0].decimals
            == 18),
        r matches Step::Act(Market::BuyShort, a) ==> (s matches Market::BuyBalance(p) && (reply matches Reply::Wei(Ok(n)) && (
        a@ matches ActionV::Show(v) && v.len() == 2 && v[0].units == n && v[1].units == p.price_wei + 1_000_000_000_000_000
            && v[0].decimals == 18 && v[1].decimals == 18))),
        s matches Market::ListTx(o) ==> (reply matches Reply::Sent(Ok((h, true))) ==> (r matches Step::End(Outcome::Print(x))
            && x@ == offered_v(o, h@))),
        s matches Market::UnlistTx(t) ==> (reply matches Reply::Sent(Ok((h, true))) ==> (r matches Step::End(Outcome::Print(x))
            && x@ == withdrawn_v(t, h@))),
        s matches Market::ListTx(_) ==> (reply matches Reply::Sent(Ok((_, false))) ==> (r matches Step::End(Outcome::Fail(_)))),
        s matches Market::UnlistTx(_) ==> (reply matches Reply::Sent(Ok((_, false))) ==> (r matches Step::End(Outcome::Fail(_)))),
        s matches Market::BuyTx(_) ==> (reply matches Reply::Sent(Ok((_, false))) ==> (r matches Step::End(Outcome::Fail(_)))),
{
}

/// The contracts of the market are those that the configuration names, or that are set in the environment.
pub proof fn law_market_settings(s: Market, reply: Reply, r: Step<Market, Outcome>)
    requires
        market_next(s, reply, r),
    ensures
        r matches Step::Act(Market::Nft(act, _), a) ==> s == Market::Contracts(act) && a@ == ActionV::Env("ARDI_NFT_ADDR"@),
        r matches Step::Act(Market::Otc(act, cfg, nft), a) ==> s == Market::Nft(act, cfg) && a@ == ActionV::Env(
            "ARDI_OTC_ADDR"@,
        ) && (reply matches Reply::Maybe(set) && contract_result(
            cfg@,
            "ardi_nft"@,
            opt_text_view(set),
            "ardi_nft addr unknown; set ARDI_NFT_ADDR env"@,
        ) == Ok::<Seq<u8>, Seq<Seq<char>>>(nft@)),
        s matches Market::Otc(_, cfg, _) ==> (reply matches Reply::Maybe(set) ==> (contract_result(
            cfg@,
            "otc"@,
            opt_text_view(set),
            "otc addr unknown; set ARDI_OTC_ADDR env"@,
        ) matches Ok(otc) ==> ({
            &&& r matches Step::Act(Market::ShowListing(_), a) ==> (a@ matches ActionV::View(to, _) && to == otc)
            &&& r matches Step::Act(Market::ListAddress(o), _) ==> o.otc@ == otc
            &&& r matches Step::Act(Market::UnlistAddress(_, c), _) ==> c@ == otc
            &&& r matches Step::Act(Market::BuyAddress(_, c), _) ==> c@ == otc
            &&& r is Act
        }))),
        r matches Step::Act(Market::UnlistListing(t, otc, agent), _) ==> s == Market::UnlistAddress(t, otc) && (
        reply matches Reply::Text(Ok(u)) && Some(agent@) == parsed_address(u@)),
        r matches Step::Act(Market::BuyListing(t, otc, agent), _) ==> s == Market::BuyAddress(t, otc) && (
        reply matches Reply::Text(Ok(u)) && Some(agent@) == parsed_address(u@)),
{
}

/// A buyer that cannot pay is told what there is and then what is needed.
pub proof fn law_short_buyer_is_told(s: Market, reply: Reply, r: Step<Market, Outcome>)
    requires
        market_next(s, reply, r),
    ensures
        s is BuyShort ==> (reply matches Reply::Shown(v) ==> (v@.len() == 2 ==> (r matches Step::End(Outcome::Fail(f)) && f@
            == fault_v(
            "balance too low: have "@ + v@[0].d6@ + " ETH, need "@ + v@[1].d6@ + " ETH (price + ~0.001 gas)"@,
        )))),
        s matches Market::BuyBalance(p) ==> (reply matches Reply::Wei(Ok(n)) ==> (r matches Step::Act(Market::BuyShort, a) ==> (
        a@ matches ActionV::Show(v) && v.len() == 2 && v[0].units == n && v[1].units == p.price_wei + 1_000_000_000_000_000
            && v[0].decimals == 18 && v[1].decimals == 18))),
{
}

} // verus!
