use ardi_agent::address::Address;
use ardi_agent::awp_register::RegistrationResult;
use ardi_agent::chain;
use ardi_agent::cmd;
use ardi_agent::cmd::commit::CommitArgs;
use ardi_agent::cmd::market::MarketAction;
use ardi_agent::fault::Fault;
use ardi_agent::flow::{Action, Amount, Outcome, Reply, Shown, Step, TxFault, TxRequest};
use ardi_agent::json::Json;
use ardi_agent::output::Output;
use ardi_agent::state::{CommitStatus, PendingCommit, State};
use ardi_agent::tx;
use ardi_agent::wallet::WalletStatus;
use serde_json::Value;

const AGENT: &str = "0x46a1eee3d800799726faaf18f28360eb2e97ad63";
const OTHER: &str = "0x800d05fd8e251c288e22809b79d31f22ab088555";
const THIRD: &str = "0x91734696e8164cbf79b666569d2504b0e21218f6";
const DRAW: &str = "0xa57d8e6646e063ffd6eae579d4f327b689da5dc3";
const NFT: &str = "0xf68425d0d451699d0d766150634e436acd2f05a1";
const ETHER: u128 = 1_000_000_000_000_000_000;

/// Everything that a command can find out or change.
struct World {
    address: Option<String>,
    env: Vec<(String, String)>,
    documents: Vec<(String, String)>,
    contracts: String,
    views: Vec<(String, Result<Vec<u8>, String>)>,
    awp: Vec<(String, String)>,
    wei: u128,
    file: Option<String>,
    saves: usize,
    sent: Vec<TxRequest>,
    refuse_tx: bool,
    receipt: Result<bool, String>,
    registered: Result<bool, String>,
    eligible: bool,
}

fn world() -> World {
    World {
        address: Some(AGENT.to_string()),
        env: Vec::new(),
        documents: Vec::new(),
        contracts: "null".to_string(),
        views: Vec::new(),
        awp: Vec::new(),
        wei: ETHER,
        file: None,
        saves: 0,
        sent: Vec::new(),
        refuse_tx: false,
        receipt: Ok(true),
        registered: Ok(true),
        eligible: true,
    }
}

fn shown(x: f64) -> Shown {
    Shown {
        plain: format!("{x}"),
        json: serde_json::to_string(&x).unwrap(),
        d0: format!("{x:.0}"),
        d2: format!("{x:.2}"),
        d4: format!("{x:.4}"),
        d6: format!("{x:.6}"),
    }
}

fn show(a: &Amount) -> Shown {
    shown((a.units as f64) / 10f64.powi(i32::from(a.decimals)))
}

fn drive<S, R>(w: &mut World, first: Step<S, R>, next: fn(S, Reply) -> Step<S, R>) -> R {
    let mut at = first;
    for _ in 0..1000 {
        match at {
            Step::Act(s, a) => at = next(s, perform(w, a)),
            Step::End(r) => return r,
        }
    }
    panic!("no end")
}

fn missing(what: &str) -> Fault {
    Fault::new(format!("no {what}"))
}

fn document(w: &World, path: &str) -> Result<Option<Json>, Fault> {
    match w.documents.iter().find(|(p, _)| p == path) {
        Some((_, t)) => Ok(Some(Json::parse(t).unwrap())),
        None => Ok(None),
    }
}

fn view(w: &World, data: &[u8]) -> Result<Vec<u8>, Fault> {
    let key = hex::encode(data);
    match w.views.iter().find(|(k, _)| key.starts_with(k.as_str())) {
        Some((_, Ok(r))) => Ok(r.clone()),
        Some((_, Err(e))) => Err(Fault::new(e.clone())),
        None => Err(missing(&format!("view {key}"))),
    }
}

fn perform(w: &mut World, action: Action) -> Reply {
    match action {
        Action::Address => Reply::Text(w.address.clone().ok_or(missing("address"))),
        Action::Env(name) => {
            Reply::Maybe(w.env.iter().find(|(n, _)| *n == name).map(|(_, v)| v.clone()))
        }
        Action::Load => Reply::File(Ok(w.file.clone())),
        Action::Save(text) => {
            w.file = Some(text);
            w.saves += 1;
            Reply::Done(Ok(()))
        }
        Action::Get(path) => match document(w, &path) {
            Ok(Some(v)) => Reply::Doc(Ok(v)),
            _ => Reply::Doc(Err(missing(&path))),
        },
        Action::TryGet(path) => Reply::Found(document(w, &path)),
        Action::Contracts => Reply::Doc(Ok(Json::parse(&w.contracts).unwrap())),
        Action::View(_, data) => Reply::Bytes(view(w, &data)),
        Action::Views(calls) => Reply::ManyBytes(calls.iter().map(|c| view(w, &c.data)).collect()),
        Action::EthBalance(_) => Reply::Wei(Ok(w.wei)),
        Action::Rpc(method, _) => {
            assert_eq!(method, "eth_getBalance");
            Reply::Doc(Ok(Json::Str(format!("0x{:x}", w.wei))))
        }
        Action::Balance(a) => {
            let r = drive(w, cmd::gas::check_balance(&a), |s, r| s.step(r));
            Reply::Gas(r)
        }
        Action::Transact(t) => {
            if w.refuse_tx {
                return Reply::Sent(Err(TxFault::Send(missing("funds"))));
            }
            w.sent.push(t);
            let hash = format!("0xt{}", w.sent.len());
            match &w.receipt {
                Ok(success) => Reply::Sent(Ok((hash, *success))),
                Err(e) => Reply::Sent(Err(TxFault::Receipt(hash, Fault::new(e.clone())))),
            }
        }
        Action::Submit(t) => {
            if w.refuse_tx {
                return Reply::Submitted(Err(TxFault::Send(missing("funds"))));
            }
            w.sent.push(t);
            Reply::Submitted(Ok(format!("0xt{}", w.sent.len())))
        }
        Action::Receipt(hash, secs) => {
            assert_eq!(hash, format!("0xt{}", w.sent.len()));
            assert_eq!(secs, 60);
            assert!(w.file.is_some());
            Reply::Receipt(w.receipt.clone().map(|b| (b, 7)).map_err(Fault::new))
        }
        Action::Awp(method, params) => {
            let key = format!("{method} {}", params.render());
            match w.awp.iter().find(|(k, _)| *k == key) {
                Some((_, t)) => Reply::Doc(Ok(Json::parse(t).unwrap())),
                None => Reply::Doc(Err(missing(&key))),
            }
        }
        Action::CheckRegistered(_) => Reply::Flag(w.registered.clone().map_err(Fault::new)),
        Action::Register(_) => Reply::Registered(match &w.registered {
            Ok(b) => Ok(RegistrationResult {
                registered: *b,
                auto_registered: false,
                message: "told".to_string(),
            }),
            Err(e) => Err(Fault::new(e.clone())),
        }),
        Action::Eligible(_) => Reply::Flag(Ok(w.eligible)),
        Action::Wallet => Reply::Wallet(WalletStatus::missing()),
        Action::Show(amounts) => Reply::Shown(amounts.iter().map(show).collect()),
        _ => panic!("unexpected action"),
    }
}

fn printed(o: Outcome) -> Output {
    match o {
        Outcome::Print(p) => p,
        Outcome::Fail(f) => panic!("{}", f.full()),
    }
}

fn failed(o: Outcome) -> String {
    match o {
        Outcome::Print(p) => panic!("{}", p.message),
        Outcome::Fail(f) => f.full(),
    }
}

fn data(o: &Output) -> Value {
    serde_json::from_str(&o.data.render()).unwrap()
}

fn code(o: &Output) -> &str {
    match &o.error_code {
        Some(c) => c,
        None => "",
    }
}

fn next(o: &Output) -> &str {
    match &o.internal.next_command {
        Some(c) => c,
        None => "",
    }
}

fn selector(sig: &str) -> String {
    hex::encode(chain::call0(sig))
}

fn word(n: u128) -> Vec<u8> {
    let mut v = vec![0u8; 16];
    v.extend(n.to_be_bytes());
    v
}

fn address_word(text: &str) -> Vec<u8> {
    let mut v = vec![0u8; 12];
    v.extend(hex::decode(&text[2..]).unwrap());
    v
}

fn answer(w: &mut World, sig: &str, reply: Vec<u8>) {
    w.views.push((selector(sig), Ok(reply)));
}

fn epoch_document(epoch: u64, deadline: i64) -> String {
    format!(
        r#"{{"epochId":{epoch},"commitDeadline":{deadline},"revealDeadline":{},
            "epochDrawContract":"{THIRD}","riddles":[
            {{"wordId":7,"riddle":"?","power":80,"language":"en","languageId":1}},
            {{"wordId":9,"riddle":"?"}}]}}"#,
        deadline + 180
    )
}

fn now() -> i64 {
    chrono::Utc::now().timestamp()
}

fn open_world() -> World {
    let mut w = world();
    w.documents.push(("/v1/epoch/current".to_string(), epoch_document(12, now() + 100)));
    w.awp.push((
        format!(r#"staking.getAllocationsByAgentSubnet {{"agent":"{AGENT}","worknetId":"845300000012"}}"#),
        format!(
            r#"[{{"chain_id":8453,"user_address":"{OTHER}","amount":5,"frozen":false}},
                {{"chain_id":8453,"user_address":"{THIRD}","amount":"0","frozen":false}}]"#
        ),
    ));
    w.awp.push((
        format!(r#"staking.getAllocationsByAgentSubnet {{"agent":"{AGENT}","worknetId":"845300000014"}}"#),
        format!(r#"[{{"chain_id":8453,"user_address":"{AGENT}","amount":"7","frozen":false}}]"#),
    ));
    answer(&mut w, "maxCommitsPerEpoch()", word(2));
    w
}

fn commit_args(word_id: u64, answer: &str) -> CommitArgs {
    CommitArgs { epoch_id: None, word_id, answer: answer.to_string(), stakers: None }
}

fn commit(w: &mut World, args: CommitArgs) -> Outcome {
    drive(w, cmd::commit::run(args), |s, r| s.step(r))
}

fn open_commit(w: &mut World, epoch: u64, word_id: u64) -> Outcome {
    drive(w, cmd::reveal_cmd::run(epoch, word_id), |s, r| s.step(r))
}

fn inscribe(w: &mut World, epoch: u64, word_id: u64) -> Outcome {
    drive(w, cmd::inscribe::run(epoch, word_id), |s, r| s.step(r))
}

fn state(w: &World) -> State {
    State::load(&w.file)
}

fn set_status(w: &mut World, epoch: u64, word_id: u64, status: CommitStatus) {
    let mut st = state(w);
    st.get_mut(epoch, word_id).unwrap().status = status;
    w.file = Some(st.to_text());
}

#[test]
fn commit_is_sent_and_remembered() {
    let mut w = open_world();
    let o = printed(commit(&mut w, commit_args(7, "bitcoin")));
    assert_eq!(o.status, "ok");
    assert_eq!(next(&o), "ardi-agent reveal --epoch 12 --word-id 7");
    assert_eq!(data(&o)["bond_wei"], "10000000000000");

    let st = state(&w);
    let c = st.get(12, 7).unwrap();
    assert_eq!(c.answer, "bitcoin");
    assert_eq!(c.power, 80);
    assert_eq!(c.language, "en");
    assert_eq!(c.commit_tx, "0xt1");
    assert!(matches!(c.status, CommitStatus::Committed));
    let nonce: [u8; 32] = hex::decode(&c.salt_hex[2..]).unwrap().try_into().unwrap();
    let agent = Address::parse(AGENT).unwrap();
    let hash = chain::commit_hash("bitcoin", &agent, &nonce);
    assert_eq!(c.commit_hash, format!("0x{}", hex::encode(hash)));

    assert_eq!(w.sent.len(), 1);
    let t = &w.sent[0];
    assert!(t.from.same(&agent));
    assert_eq!(t.to.lower(), THIRD);
    assert_eq!(t.value_wei, 10_000_000_000_000);
    assert_eq!(t.gas_limit, 200_000);
    let stakers = vec![agent, Address::parse(OTHER).unwrap()];
    assert_eq!(t.data, tx::calldata_commit(12, 7, hash, &stakers));
}

#[test]
fn commit_calldata_has_the_list_behind_the_words() {
    let stakers = vec![Address::parse(OTHER).unwrap()];
    let d = tx::calldata_commit(1, 2, [3u8; 32], &stakers);
    assert_eq!(d.len(), 4 + 6 * 32);
    assert_eq!(d[..4], chain::call0("commit(uint256,uint256,bytes32,address[])")[..]);
    assert_eq!(d[4 + 127], 128);
    assert_eq!(d[4 + 159], 1);
    assert_eq!(d[4 + 172..4 + 192], hex::decode(&OTHER[2..]).unwrap()[..]);
}

#[test]
fn explicit_stakers_are_sorted_and_cut_to_eight() {
    let mut w = open_world();
    let list: Vec<Address> = (0..10u8).rev().map(|i| Address { bytes: [i; 20] }).collect();
    let mut args = commit_args(7, "x");
    args.stakers = Some(list);
    printed(commit(&mut w, args));
    let st = state(&w);
    let nonce: [u8; 32] = hex::decode(&st.get(12, 7).unwrap().salt_hex[2..]).unwrap().try_into().unwrap();
    let hash = chain::commit_hash("x", &Address::parse(AGENT).unwrap(), &nonce);
    let used: Vec<Address> = (0..8u8).map(|i| Address { bytes: [i; 20] }).collect();
    assert_eq!(w.sent[0].data, tx::calldata_commit(12, 7, hash, &used));
}

#[test]
fn second_commit_on_the_same_word_is_refused() {
    let mut w = open_world();
    printed(commit(&mut w, commit_args(7, "bitcoin")));
    let o = printed(commit(&mut w, commit_args(7, "ether")));
    assert_eq!(code(&o), "ALREADY_COMMITTED");
    assert_eq!(w.sent.len(), 1);
    assert_eq!(state(&w).get(12, 7).unwrap().answer, "bitcoin");
}

#[test]
fn commit_refusals() {
    let mut w = open_world();
    w.address = None;
    assert_eq!(code(&printed(commit(&mut w, commit_args(7, "x")))), "WALLET_NOT_CONFIGURED");

    let mut w = open_world();
    w.documents.clear();
    assert_eq!(code(&printed(commit(&mut w, commit_args(7, "x")))), "NO_OPEN_EPOCH");

    let mut w = open_world();
    let mut args = commit_args(7, "x");
    args.epoch_id = Some(11);
    let o = printed(commit(&mut w, args));
    assert_eq!(code(&o), "WRONG_EPOCH");
    assert_eq!(next(&o), "ardi-agent commit --epoch 12 --word-id 7 --answer x");

    let mut w = open_world();
    let o = printed(commit(&mut w, commit_args(8, "x")));
    assert_eq!(code(&o), "WORDID_NOT_IN_EPOCH");
    assert_eq!(o.debug.render(), r#"{"available_word_ids":[7,9],"epoch_id":12}"#);

    let mut w = open_world();
    w.documents[0].1 = epoch_document(12, now() - 5);
    assert_eq!(code(&printed(commit(&mut w, commit_args(7, "x")))), "COMMIT_WINDOW_CLOSED");

    let mut w = open_world();
    w.wei = 2_999_999_999_999_999;
    let o = printed(commit(&mut w, commit_args(7, "x")));
    assert_eq!(code(&o), "INSUFFICIENT_GAS");
    assert_eq!(next(&o), "ardi-agent gas");
    assert_eq!(
        o.message,
        "Wallet has 0.003000 ETH; commit needs at least 0.003000 ETH (bond 10000000000000 wei + gas)."
    );
    assert!(w.sent.is_empty() && w.file.is_none());
    w.wei = 3_000_000_000_000_000;
    assert_eq!(code(&printed(commit(&mut w, commit_args(7, "x")))), "");

    let mut w = open_world();
    w.awp.clear();
    assert_eq!(code(&printed(commit(&mut w, commit_args(7, "x")))), "STAKER_NOT_RESOLVED");
    assert!(w.sent.is_empty());
    assert!(w.file.is_none());

    let mut w = open_world();
    w.refuse_tx = true;
    assert_eq!(failed(commit(&mut w, commit_args(7, "x"))), "send commit tx: no funds");
    assert!(w.file.is_none());
}

#[test]
fn commit_is_kept_whatever_the_receipt_says() {
    let mut w = open_world();
    w.receipt = Ok(false);
    assert_eq!(
        failed(commit(&mut w, commit_args(7, "bitcoin"))),
        "send commit tx: transaction 0xt1 reverted"
    );
    let st = state(&w);
    let c = st.get(12, 7).unwrap();
    assert!(matches!(c.status, CommitStatus::Failed));
    assert_eq!(c.answer, "bitcoin");
    assert_eq!(c.salt_hex.len(), 66);
    assert_eq!(w.saves, 2);

    let mut w = open_world();
    w.receipt = Err("receipt timeout for 0xt1".to_string());
    let o = printed(commit(&mut w, commit_args(7, "bitcoin")));
    assert_eq!(o.status, "ok");
    assert!(matches!(state(&w).get(12, 7).unwrap().status, CommitStatus::Committed));
}

#[test]
fn receipts_decide_on_reveal_and_mint() {
    let mut w = revealable_world();
    w.receipt = Ok(false);
    let o = printed(open_commit(&mut w, 12, 7));
    assert_eq!(code(&o), "REVEAL_TX_FAILED");
    assert_eq!(o.message, "Reveal tx broadcast failed: transaction 0xt1 reverted");
    assert!(matches!(state(&w).get(12, 7).unwrap().status, CommitStatus::Committed));

    let mut w = revealable_world();
    w.receipt = Err("receipt timeout".to_string());
    printed(open_commit(&mut w, 12, 7));
    assert!(matches!(state(&w).get(12, 7).unwrap().status, CommitStatus::Revealed));

    let mut w = revealed_world();
    answer(&mut w, "winners(uint256,uint256)", address_word(AGENT));
    w.receipt = Ok(false);
    assert_eq!(failed(inscribe(&mut w, 12, 7)), "send inscribe tx: transaction 0xt1 reverted");
    assert!(matches!(state(&w).get(12, 7).unwrap().status, CommitStatus::Revealed));
    w.receipt = Err("receipt timeout".to_string());
    printed(inscribe(&mut w, 12, 7));
    assert!(matches!(state(&w).get(12, 7).unwrap().status, CommitStatus::Inscribed));
}

#[test]
fn receipts_decide_on_other_transactions() {
    let mut w = world();
    w.contracts = format!(r#"{{"emission_distributor":"{OTHER}"}}"#);
    answer(&mut w, "pendingFor(address,uint256[])", word(77));
    w.receipt = Ok(false);
    assert_eq!(
        failed(drive(&mut w, cmd::claim::run(Vec::new()), |s, r| s.step(r))),
        "send claim tx: transaction 0xt1 reverted"
    );
    w.receipt = Err("receipt timeout for 0xt2".to_string());
    assert_eq!(
        failed(drive(&mut w, cmd::claim::run(Vec::new()), |s, r| s.step(r))),
        "send claim tx: receipt timeout for 0xt2"
    );
}

#[test]
fn printed_document_has_its_members_in_order() {
    let mut w = open_world();
    let o = printed(drive(&mut w, cmd::context::run(), |s, r| s.step(r)));
    let names: Vec<String> = o.members().into_iter().map(|(k, _)| k).collect();
    assert_eq!(names, vec!["status", "message", "data", "_internal"]);
    let o = printed(commit(&mut w, commit_args(8, "x")));
    let names: Vec<String> = o.members().into_iter().map(|(k, _)| k).collect();
    assert_eq!(
        names,
        vec!["status", "message", "data", "_internal", "error_code", "error_kind", "debug"]
    );
    let mut w = revealed_world();
    answer(&mut w, "winners(uint256,uint256)", address_word(OTHER));
    let o = printed(inscribe(&mut w, 12, 7));
    assert_eq!(o.members()[3].1.render(), r#"{"next_action":"skip","next_command":null}"#);
    let o = preflight(&mut ready_world());
    assert_eq!(
        o.members()[3].1.render(),
        r#"{"next_action":"ready","next_command":"ardi-agent context","progress":"5/5"}"#
    );
}

#[test]
fn commit_cap_is_read_from_the_chain() {
    let mut w = open_world();
    w.views[0].1 = Ok(word(1));
    printed(commit(&mut w, commit_args(7, "x")));
    assert_eq!(code(&printed(commit(&mut w, commit_args(9, "x")))), "EPOCH_COMMIT_CAP_REACHED");

    let mut w = open_world();
    w.views.clear();
    printed(commit(&mut w, commit_args(7, "x")));
    assert_eq!(code(&printed(commit(&mut w, commit_args(9, "x")))), "");
    assert_eq!(w.sent.len(), 2);
}

#[test]
fn low_balance_is_told_after_a_commit() {
    let mut w = open_world();
    w.wei = 5_000_000_000_000_000;
    let o = printed(commit(&mut w, commit_args(7, "x")));
    assert_eq!(data(&o)["balance_warning"]["level"], "warning");
    assert!(o.message.contains("Low balance: 0.005000 ETH left"));
    w.wei = 3_000_000_000_000_000;
    let o = printed(commit(&mut w, commit_args(9, "x")));
    assert_eq!(data(&o)["balance_warning"]["level"], "warning");
}

fn revealable_world() -> World {
    let mut w = open_world();
    printed(commit(&mut w, commit_args(7, "bitcoin")));
    w.documents.push(("/v1/epoch/12".to_string(), "{}".to_string()));
    w.sent.clear();
    w
}

#[test]
fn reveal_opens_what_was_committed() {
    let mut w = revealable_world();
    let before = state(&w).get(12, 7).unwrap().copy();
    let o = printed(open_commit(&mut w, 12, 7));
    assert_eq!(next(&o), "ardi-agent inscribe --epoch 12 --word-id 7");
    let t = &w.sent[0];
    let nonce: [u8; 32] = hex::decode(&before.salt_hex[2..]).unwrap().try_into().unwrap();
    assert_eq!(t.data, tx::calldata_reveal(12, 7, "bitcoin", nonce));
    assert_eq!(t.value_wei, 0);
    assert_eq!(t.gas_limit, 250_000);
    assert_eq!(t.to.lower(), THIRD);
    let st = state(&w);
    let c = st.get(12, 7).unwrap();
    assert!(matches!(c.status, CommitStatus::Revealed));
    assert_eq!(c.reveal_tx.as_deref(), Some("0xt1"));
    assert_eq!(c.commit_hash, before.commit_hash);
    assert_eq!(c.salt_hex, before.salt_hex);
}

#[test]
fn reveal_calldata_pads_the_guess() {
    let d = tx::calldata_reveal(1, 2, "hello", [9u8; 32]);
    assert_eq!(d.len(), 4 + 6 * 32);
    assert_eq!(d[..4], chain::call0("reveal(uint256,uint256,string,bytes32)")[..]);
    assert_eq!(d[4 + 95], 128);
    assert_eq!(d[4 + 96..4 + 128], [9u8; 32]);
    assert_eq!(d[4 + 159], 5);
    assert_eq!(d[4 + 160..4 + 165], *b"hello");
    assert_eq!(d[4 + 165..], [0u8; 27]);
    assert_eq!(tx::calldata_reveal(1, 2, "", [9u8; 32]).len(), 4 + 5 * 32);
}

#[test]
fn reveal_refusals() {
    let mut w = revealable_world();
    assert_eq!(code(&printed(open_commit(&mut w, 12, 9))), "NO_LOCAL_COMMIT");

    set_status(&mut w, 12, 7, CommitStatus::Revealed);
    let o = printed(open_commit(&mut w, 12, 7));
    assert_eq!(code(&o), "WRONG_STATUS_FOR_REVEAL");
    assert_eq!(o.message, "Status is Revealed, not committed — nothing to reveal.");
    assert!(w.sent.is_empty());

    let mut w = revealable_world();
    w.env.push(("ARDI_EPOCH_DRAW_ADDR".to_string(), "nowhere".to_string()));
    assert_eq!(code(&printed(open_commit(&mut w, 12, 7))), "SERVER_MISSING_CONTRACT_ADDR");

    let mut w = revealable_world();
    w.refuse_tx = true;
    let o = printed(open_commit(&mut w, 12, 7));
    assert_eq!(code(&o), "REVEAL_TX_FAILED");
    assert!(matches!(state(&w).get(12, 7).unwrap().status, CommitStatus::Committed));

    let mut w = revealable_world();
    let mut st = state(&w);
    st.get_mut(12, 7).unwrap().salt_hex = "0x11".to_string();
    w.file = Some(st.to_text());
    assert_eq!(failed(open_commit(&mut w, 12, 7)), "salt has wrong length");
    let mut st = state(&w);
    st.get_mut(12, 7).unwrap().salt_hex = "0xzz".to_string();
    w.file = Some(st.to_text());
    assert!(failed(open_commit(&mut w, 12, 7)).starts_with("invalid salt in state — file corrupted?: "));
}

#[test]
fn draw_contract_falls_back() {
    let mut w = revealable_world();
    w.documents.remove(0);
    printed(open_commit(&mut w, 12, 7));
    assert_eq!(w.sent[0].to.lower(), DRAW);

    let mut w = revealable_world();
    w.env.push(("ARDI_EPOCH_DRAW_ADDR".to_string(), OTHER.to_string()));
    printed(open_commit(&mut w, 12, 7));
    assert_eq!(w.sent[0].to.lower(), OTHER);
}

fn revealed_world() -> World {
    let mut w = revealable_world();
    printed(open_commit(&mut w, 12, 7));
    w.sent.clear();
    w
}

#[test]
fn winner_mints_the_token_of_the_word() {
    let mut w = revealed_world();
    answer(&mut w, "winners(uint256,uint256)", address_word(AGENT));
    let o = printed(inscribe(&mut w, 12, 7));
    assert_eq!(o.message, format!("🎉 Inscribed Ardinal #8 — https://basescan.org/token/{NFT}/8"));
    assert_eq!(data(&o)["token_id"], 8);
    assert_eq!(w.sent[0].data, tx::calldata_inscribe(12, 7, "bitcoin"));
    assert_eq!(w.sent[0].to.lower(), NFT);
    assert_eq!(w.sent[0].gas_limit, 350_000);
    let st = state(&w);
    let c = st.get(12, 7).unwrap();
    assert!(matches!(c.status, CommitStatus::Inscribed));
    assert_eq!(c.token_id, Some(8));
    assert_eq!(c.inscribe_tx.as_deref(), Some("0xt1"));

    let o = printed(inscribe(&mut w, 12, 7));
    assert_eq!(o.message, "Already inscribed (token_id=Some(8), tx=Some(\"0xt1\")).");
    assert_eq!(w.sent.len(), 1);
}

#[test]
fn loser_is_marked_and_sends_nothing() {
    let mut w = revealed_world();
    answer(&mut w, "winners(uint256,uint256)", address_word(OTHER));
    let o = printed(inscribe(&mut w, 12, 7));
    assert_eq!(o.internal.next_action, "skip");
    assert_eq!(data(&o)["winner"], OTHER);
    assert!(matches!(state(&w).get(12, 7).unwrap().status, CommitStatus::Lost));
    assert!(w.sent.is_empty());
    let o = printed(inscribe(&mut w, 12, 7));
    assert_eq!(data(&o)["status"], "lost");
}

#[test]
fn draw_without_a_winner_is_pending_or_lost() {
    let mut w = revealed_world();
    answer(&mut w, "winners(uint256,uint256)", word(0));
    answer(&mut w, "correctCount(uint256,uint256)", word(3));
    let o = printed(inscribe(&mut w, 12, 7));
    assert_eq!(data(&o)["vrf_state"], "pending");
    assert_eq!(data(&o)["candidates"], "3");
    assert_eq!(next(&o), "ardi-agent inscribe --epoch 12 --word-id 7");
    assert!(matches!(state(&w).get(12, 7).unwrap().status, CommitStatus::Revealed));

    w.views.pop();
    answer(&mut w, "correctCount(uint256,uint256)", word(0));
    let o = printed(inscribe(&mut w, 12, 7));
    assert_eq!(data(&o)["vrf_state"], "no_candidate_pool");
    assert!(matches!(state(&w).get(12, 7).unwrap().status, CommitStatus::Lost));
    assert!(w.sent.is_empty());
}

#[test]
fn inscribe_refusals() {
    let mut w = revealable_world();
    assert_eq!(code(&printed(inscribe(&mut w, 12, 9))), "NO_LOCAL_COMMIT");
    assert_eq!(code(&printed(inscribe(&mut w, 12, 7))), "REVEAL_FIRST");
    let mut w = revealed_world();
    answer(&mut w, "winners(uint256,uint256)", vec![0u8; 31]);
    assert_eq!(failed(inscribe(&mut w, 12, 7)), "winners() returned <32 bytes");
    let mut w = revealed_world();
    answer(&mut w, "winners(uint256,uint256)", address_word(AGENT));
    w.refuse_tx = true;
    assert_eq!(failed(inscribe(&mut w, 12, 7)), "send inscribe tx: no funds");
}

fn row(epoch_id: u64, word_id: u64, status: CommitStatus) -> PendingCommit {
    PendingCommit {
        epoch_id,
        word_id,
        answer: "a".to_string(),
        salt_hex: "0x".to_string(),
        agent: AGENT.to_string(),
        commit_tx: "0xc".to_string(),
        commit_hash: "0xh".to_string(),
        committed_at: 5,
        language: "en".to_string(),
        power: 1,
        language_id: 2,
        status,
        reveal_tx: None,
        inscribe_tx: None,
        token_id: None,
    }
}

fn commits(w: &mut World) -> Output {
    printed(drive(w, cmd::commits::run(), |s, r| s.step(r)))
}

#[test]
fn commits_backfills_tokens_once() {
    let mut w = world();
    let mut st = State::new();
    st.put(row(1, 1868, CommitStatus::Inscribed));
    st.put(row(1, 5, CommitStatus::Won));
    st.put(row(1, 6, CommitStatus::Lost));
    w.file = Some(st.to_text());
    let o = commits(&mut w);
    assert_eq!(w.saves, 1);
    assert_eq!(state(&w).get(1, 1868).unwrap().token_id, Some(1869));
    assert_eq!(state(&w).get(1, 5).unwrap().token_id, Some(6));
    assert_eq!(state(&w).get(1, 6).unwrap().token_id, None);
    assert_eq!(o.internal.next_action, "idle");
    assert_eq!(next(&o), "ardi-agent inscribe --epoch 1 --word-id 5");
    commits(&mut w);
    assert_eq!(w.saves, 1);
}

#[test]
fn commits_lists_rows_in_key_order_with_deadlines() {
    let mut w = world();
    let mut st = State::new();
    st.put(row(9, 1, CommitStatus::Committed));
    st.put(row(10, 2, CommitStatus::Committed));
    w.file = Some(st.to_text());
    let deadline = (now() + 1000) as u128;
    let mut reply = word(1);
    reply.extend(word(deadline));
    answer(&mut w, "epochs(uint256)", reply);
    let o = commits(&mut w);
    let d = data(&o);
    assert_eq!(o.message, "2 pending commits (reveal_pending)");
    assert_eq!(d["pending"][0]["epoch_id"], 10);
    assert_eq!(d["pending"][1]["epoch_id"], 9);
    assert_eq!(d["pending"][0]["status"], "committed");
    assert_eq!(d["pending"][0]["next_reveal_eligible_at"].as_u64(), Some(deadline as u64 + 30));
    assert!(d["pending"][0]["next_reveal_in_seconds"].as_u64().unwrap() > 900);
    assert_eq!(d["pending"][0]["token_id"], Value::Null);
    assert_eq!(d["pending"][0]["commit_tx_url"], "https://basescan.org/tx/0xc");
    assert_eq!(
        next(&o),
        "ardi-agent reveal --epoch 10 --word-id 2 (after commit_deadline + publish)"
    );
}

#[test]
fn commits_prefers_inscribe_over_reveal() {
    let mut w = world();
    let mut st = State::new();
    st.put(row(9, 1, CommitStatus::Committed));
    st.put(row(9, 2, CommitStatus::Revealed));
    w.file = Some(st.to_text());
    let o = commits(&mut w);
    assert_eq!(o.internal.next_action, "inscribe_pending");
    assert_eq!(data(&o)["pending"][0].get("next_reveal_eligible_at"), None);
    let mut w = world();
    let o = commits(&mut w);
    assert_eq!(o.message, "0 pending commits (idle)");
    assert_eq!(o.internal.next_command, None);
}

#[test]
fn gas_levels() {
    let mut w = world();
    let o = printed(drive(&mut w, cmd::gas::run(), |s, r| s.step(r)));
    assert_eq!(o.internal.next_action, "ok");
    assert_eq!(data(&o)["balance_eth"].to_string(), "1.0");
    assert_eq!(data(&o)["balance_wei"], "1000000000000000000");
    assert!(o.message.starts_with(&format!("Wallet:        {AGENT}\nBase ETH:      1.000000 ETH\n")));
    w.wei = 10_000_000_000_000_000;
    let o = printed(drive(&mut w, cmd::gas::run(), |s, r| s.step(r)));
    assert_eq!(o.internal.next_action, "ok");
    w.wei = 9_999_999_999_999_999;
    let o = printed(drive(&mut w, cmd::gas::run(), |s, r| s.step(r)));
    assert_eq!(o.internal.next_action, "warn_refill_soon");
    w.wei = 3_000_000_000_000_000;
    let o = printed(drive(&mut w, cmd::gas::run(), |s, r| s.step(r)));
    assert_eq!(o.internal.next_action, "warn_refill_soon");
    w.wei = 2_999_999_999_999_999;
    let o = printed(drive(&mut w, cmd::gas::run(), |s, r| s.step(r)));
    assert_eq!(code(&o), "INSUFFICIENT_GAS");
    assert_eq!(next(&o), format!("Send 0.0500 ETH on Base mainnet to {AGENT}"));
}

#[test]
fn gas_needs_an_address() {
    let mut w = world();
    w.address = Some("nobody".to_string());
    let f = failed(drive(&mut w, cmd::gas::run(), |s, r| s.step(r)));
    assert!(f.starts_with("invalid address nobody: "));
}

#[test]
fn context_passes_the_epoch_on() {
    let mut w = open_world();
    let o = printed(drive(&mut w, cmd::context::run(), |s, r| s.step(r)));
    assert_eq!(data(&o)["epochId"], 12);
    assert_eq!(data(&o)["riddles"][1]["wordId"], 9);
    assert_eq!(data(&o).get("balance_warning"), None);
    assert!(o.message.starts_with("Epoch 12: commit window closes in "));
    assert!(o.message.ends_with("s (2 riddles)."));
    w.wei = 0;
    let o = printed(drive(&mut w, cmd::context::run(), |s, r| s.step(r)));
    assert_eq!(data(&o)["balance_warning"]["level"], "critical");
    w.documents.clear();
    let o = printed(drive(&mut w, cmd::context::run(), |s, r| s.step(r)));
    assert_eq!(code(&o), "NO_OPEN_EPOCH");
    assert_eq!(o.status, "error");
    assert_eq!(next(&o), "ardi-agent context");
}

fn preflight(w: &mut World) -> Output {
    printed(drive(w, cmd::preflight::run(), |s, r| s.step(r)))
}

fn ready_world() -> World {
    let mut w = world();
    w.documents.push(("/v1/health".to_string(), "{}".to_string()));
    w
}

#[test]
fn preflight_stops_at_the_first_failure() {
    let mut w = ready_world();
    let o = preflight(&mut w);
    assert_eq!(o.status, "ok");
    assert_eq!(o.internal.progress.as_deref(), Some("5/5"));
    assert_eq!(next(&o), "ardi-agent context");

    w.eligible = false;
    let o = preflight(&mut w);
    assert_eq!(code(&o), "NOT_STAKED");
    assert_eq!(o.internal.progress.as_deref(), Some("4/5"));

    w.wei = 0;
    let o = preflight(&mut w);
    assert_eq!(code(&o), "INSUFFICIENT_GAS");
    assert_eq!(o.internal.progress.as_deref(), Some("3/5"));

    w.documents.clear();
    let o = preflight(&mut w);
    assert_eq!(code(&o), "COORDINATOR_UNREACHABLE");
    assert_eq!(o.internal.progress.as_deref(), Some("2/5"));

    w.registered = Ok(false);
    let o = preflight(&mut w);
    assert_eq!(code(&o), "AWP_NOT_REGISTERED");
    assert_eq!(o.message, "told");
    assert_eq!(o.internal.progress.as_deref(), Some("1/5"));

    w.registered = Err("down".to_string());
    let o = preflight(&mut w);
    assert_eq!(code(&o), "AWP_REGISTER_FAILED");

    w.address = None;
    let o = preflight(&mut w);
    assert_eq!(code(&o), "WALLET_NOT_CONFIGURED");
    assert_eq!(o.internal.progress.as_deref(), Some("0/5"));
    assert!(next(&o).starts_with("git clone https://github.com/awp-core/awp-wallet"));
    assert!(o.debug.render().contains("\"safe_to_init\":true"));
}

#[test]
fn status_links_the_mints() {
    let mut w = ready_world();
    w.documents.push((
        format!("/v1/agent/{AGENT}/state"),
        r#"{"mints":[{"tokenId":3},{"token_id":4},{}]}"#.to_string(),
    ));
    w.env.push(("ARDI_NFT_ADDR".to_string(), "0xN".to_string()));
    let o = printed(drive(&mut w, cmd::status::run(), |s, r| s.step(r)));
    let d = data(&o);
    assert_eq!(d["agent_state"]["mints"][0]["basescan_url"], "https://basescan.org/token/0xN/3");
    assert_eq!(d["agent_state"]["mints"][1]["basescan_url"], "https://basescan.org/token/0xN/4");
    assert_eq!(d["agent_state"]["mints"][2].get("basescan_url"), None);
    assert_eq!(d["registered"], true);
    assert_eq!(d["coord_reachable"], true);
    assert!(o.message.contains("\nAWP registered    : yes\nBase ETH balance  : 1.000000 ETH\n"));

    let mut w = world();
    w.registered = Err("down".to_string());
    let o = printed(drive(&mut w, cmd::status::run(), |s, r| s.step(r)));
    assert_eq!(data(&o)["registered"], false);
    assert_eq!(data(&o)["coord_reachable"], false);
    assert_eq!(data(&o)["agent_state"], Value::Null);
    assert!(o.message.ends_with("Stake state       : (no state)"));
}

#[test]
fn claim_takes_the_pending_rewards() {
    let mut w = world();
    w.contracts = format!(r#"{{"contracts":{{"emission_distributor":"{OTHER}"}}}}"#);
    answer(&mut w, "pendingFor(address,uint256[])", word(77));
    let o = printed(drive(&mut w, cmd::claim::run(vec![3, 4]), |s, r| s.step(r)));
    assert_eq!(o.message, "Claimed 77 ardi (tx 0xt1).");
    assert_eq!(o.data.render(), r#"{"amount_wei":"77","claim_tx":"0xt1","tokens":[3,4]}"#);
    assert_eq!(w.sent[0].data, tx::calldata_claim(&vec![3, 4]));
    assert_eq!(w.sent[0].to.lower(), OTHER);

    w.views.clear();
    answer(&mut w, "pendingFor(address,uint256[])", word(0));
    let o = printed(drive(&mut w, cmd::claim::run(Vec::new()), |s, r| s.step(r)));
    assert_eq!(o.message, "Nothing to claim - pending balance is zero.");
    assert_eq!(w.sent.len(), 1);

    let mut w = world();
    assert_eq!(
        failed(drive(&mut w, cmd::claim::run(Vec::new()), |s, r| s.step(r))),
        "server didn't return emission_distributor; set EMISSION_DISTRIBUTOR_ADDR env"
    );
}

#[test]
fn repair_approves_only_when_short() {
    let mut w = world();
    w.contracts = format!(r#"{{"ardi_nft":"{OTHER}","ardi_token":"{THIRD}"}}"#);
    answer(&mut w, "repairFee(uint256)", word(10));
    answer(&mut w, "allowance(address,address)", word(9));
    let o = printed(drive(&mut w, cmd::repair::run(5), |s, r| s.step(r)));
    assert_eq!(data(&o)["repair_tx"], "0xt2");
    assert_eq!(data(&o)["fee_wei"], "10");
    assert_eq!(w.sent.len(), 2);
    let nft = Address::parse(OTHER).unwrap();
    assert_eq!(w.sent[0].data, chain::call2("approve(address,uint256)", chain::address_arg(&nft), chain::uint_arg(200)));
    assert_eq!(w.sent[0].to.lower(), THIRD);
    assert_eq!(w.sent[1].data, chain::call1("repair(uint256)", chain::uint_arg(5)));
    assert_eq!(w.sent[1].to.lower(), OTHER);

    w.views[1].1 = Ok(word(10));
    w.sent.clear();
    printed(drive(&mut w, cmd::repair::run(5), |s, r| s.step(r)));
    assert_eq!(w.sent.len(), 1);
}

#[test]
fn transfer_guards() {
    let mut w = world();
    w.contracts = format!(r#"{{"ardi_nft":"{OTHER}"}}"#);
    answer(&mut w, "ownerOf(uint256)", address_word(AGENT));
    answer(&mut w, "pendingRepairOf(uint256)", word(0));
    answer(&mut w, "pendingFuseOf(uint256)", word(0));
    let send = |w: &mut World, to: &str| drive(w, cmd::transfer::run(5, to.to_string()), |s, r| s.step(r));

    let o = printed(send(&mut w, THIRD));
    assert_eq!(o.status, "ok");
    let agent = Address::parse(AGENT).unwrap();
    let to = Address::parse(THIRD).unwrap();
    assert_eq!(
        w.sent[0].data,
        chain::call3(
            "transferFrom(address,address,uint256)",
            chain::address_arg(&agent),
            chain::address_arg(&to),
            chain::uint_arg(5)
        )
    );

    assert!(failed(send(&mut w, "0x12")).starts_with("--to is not a valid 0x-address: "));
    assert_eq!(failed(send(&mut w, &format!("0x{}", "0".repeat(40)))), "--to cannot be zero address");
    assert_eq!(failed(send(&mut w, AGENT)), "--to is the agent's own address; nothing to transfer");

    w.views[2].1 = Ok(word(1));
    let o = printed(send(&mut w, THIRD));
    assert_eq!(code(&o), "TOKEN_LOCKED");
    assert!(o.message.contains("in-flight fuse VRF"));
    w.views[1].1 = Ok(word(1));
    assert!(printed(send(&mut w, THIRD)).message.contains("in-flight repair VRF"));
    w.views[0].1 = Ok(address_word(OTHER));
    assert_eq!(code(&printed(send(&mut w, THIRD))), "NOT_TOKEN_OWNER");
    assert_eq!(w.sent.len(), 1);
}

fn market_world() -> World {
    let mut w = world();
    w.contracts = format!(r#"{{"ardi_nft":"{OTHER}","otc":"{THIRD}"}}"#);
    w
}

fn market(w: &mut World, a: MarketAction) -> Outcome {
    drive(w, cmd::market::run(a), |s, r| s.step(r))
}

fn offer(seller: &str, price: u128) -> Vec<u8> {
    let mut v = address_word(seller);
    v.extend(word(price));
    v.extend(word(99));
    v
}

fn list_action(price_wei: u128) -> MarketAction {
    MarketAction::List { token_id: 5, price_wei, price: shown(price_wei as f64 / 1e18) }
}

#[test]
fn market_lists_with_one_approval() {
    let mut w = market_world();
    answer(&mut w, "ownerOf(uint256)", address_word(AGENT));
    answer(&mut w, "isApprovedForAll(address,address)", word(0));
    let o = printed(market(&mut w, list_action(ETHER / 4)));
    assert_eq!(o.message, "Listed tokenId 5 for 0.250000 ETH (tx 0xt2).");
    assert_eq!(data(&o)["price_wei"], "250000000000000000");
    assert_eq!(data(&o)["price_eth"].to_string(), "0.25");
    assert_eq!(w.sent.len(), 2);
    assert_eq!(w.sent[0].to.lower(), OTHER);
    assert_eq!(w.sent[1].to.lower(), THIRD);
    w.views[1].1 = Ok(word(1));
    w.sent.clear();
    printed(market(&mut w, list_action(1_000_000_000_000)));
    assert_eq!(w.sent.len(), 1);
    assert_eq!(failed(market(&mut w, list_action(0))), "--price must be > 0 ETH");
    assert!(matches!(market(&mut w, list_action(999_999_999_999)), Outcome::Fail(_)));
    w.views[0].1 = Ok(address_word(OTHER));
    assert_eq!(
        failed(market(&mut w, list_action(ETHER))),
        format!("tokenId 5 is owned by {OTHER}, not us ({AGENT})")
    );
    assert_eq!(w.sent.len(), 1);
}

#[test]
fn market_shows_offers() {
    let mut w = market_world();
    answer(&mut w, "getListing(uint256)", offer(OTHER, ETHER / 2));
    let o = printed(market(&mut w, MarketAction::Show { token_id: 5 }));
    assert_eq!(o.message, format!("tokenId 5: listed by {OTHER} for 0.500000 ETH (since 99)"));
    assert_eq!(data(&o)["price_eth"].to_string(), "0.5");
    w.views[0].1 = Ok(vec![0u8; 96]);
    let o = printed(market(&mut w, MarketAction::Show { token_id: 5 }));
    assert_eq!(o.message, "tokenId 5: not listed.");
}

#[test]
fn market_buyer_pays_the_price() {
    let mut w = market_world();
    answer(&mut w, "getListing(uint256)", offer(OTHER, ETHER / 2));
    let o = printed(market(&mut w, MarketAction::Buy { token_id: 5 }));
    assert_eq!(o.message, format!("Bought tokenId 5 from {OTHER} for 0.500000 ETH (tx 0xt1)."));
    assert_eq!(w.sent[0].value_wei, ETHER / 2);
    w.wei = ETHER / 2 + 999_999_999_999_999;
    assert_eq!(
        failed(market(&mut w, MarketAction::Buy { token_id: 5 })),
        "balance too low: have 0.501000 ETH, need 0.501000 ETH (price + ~0.001 gas)"
    );
    w.wei += 1;
    printed(market(&mut w, MarketAction::Buy { token_id: 5 }));
    w.views[0].1 = Ok(offer(AGENT, 1));
    assert_eq!(
        failed(market(&mut w, MarketAction::Buy { token_id: 5 })),
        "can't buy your own listing — use unlist instead"
    );
    w.views[0].1 = Ok(vec![0u8; 96]);
    assert_eq!(failed(market(&mut w, MarketAction::Buy { token_id: 5 })), "tokenId 5 is not listed");
}

#[test]
fn market_only_the_seller_unlists() {
    let mut w = market_world();
    answer(&mut w, "getListing(uint256)", offer(AGENT, 1));
    let o = printed(market(&mut w, MarketAction::Unlist { token_id: 5 }));
    assert_eq!(o.message, "Unlisted tokenId 5 (tx 0xt1).");
    assert_eq!(w.sent[0].data, chain::call1("unlist(uint256)", chain::uint_arg(5)));
    w.views[0].1 = Ok(offer(OTHER, 1));
    assert_eq!(
        failed(market(&mut w, MarketAction::Unlist { token_id: 5 })),
        format!("tokenId 5 listed by {OTHER}, not us ({AGENT}); only seller can unlist")
    );
    w.contracts = "{}".to_string();
    assert_eq!(
        failed(market(&mut w, MarketAction::Unlist { token_id: 5 })),
        "ardi_nft addr unknown; set ARDI_NFT_ADDR env"
    );
}
