use ardi_agent::address::Address;
use ardi_agent::auth;
use ardi_agent::awp_register;
use ardi_agent::awp_rpc::AwpRpc;
use ardi_agent::client::ApiClient;
use ardi_agent::cmd::contracts;
use ardi_agent::fault::Fault;
use ardi_agent::flow::{Action, Posted, ProcessEnd, Reply, Response, Step, TxFault, TxRequest};
use ardi_agent::json::Json;
use ardi_agent::rpc;
use ardi_agent::tx;
use ardi_agent::wallet;
use ardi_agent::wallet::WalletStatus;

const AGENT: &str = "0x46a1eee3d800799726faaf18f28360eb2e97ad63";

/// Runs steps to their end; each reply is made from the action.
fn drive<S, R>(
    first: Step<S, R>,
    next: fn(S, Reply) -> Step<S, R>,
    mut reply: impl FnMut(Action) -> Reply,
) -> R {
    let mut at = first;
    for _ in 0..1000 {
        match at {
            Step::Act(s, a) => at = next(s, reply(a)),
            Step::End(r) => return r,
        }
    }
    panic!("no end")
}

fn doc(text: &str) -> Json {
    Json::parse(text).unwrap()
}

fn fault_of<T>(r: Result<T, Fault>) -> String {
    match r {
        Ok(_) => panic!("no fault"),
        Err(f) => f.full(),
    }
}

fn value<T>(r: Result<T, Fault>) -> T {
    match r {
        Ok(v) => v,
        Err(f) => panic!("{}", f.full()),
    }
}

fn http(status: u16, text: &str) -> Reply {
    Reply::Http(Ok(Response { status, text: text.to_string() }))
}

fn end(success: bool, stdout: &str, stderr: &str) -> ProcessEnd {
    ProcessEnd {
        success,
        code: Some(if success { 0 } else { 2 }),
        stdout: stdout.to_string(),
        stderr: stderr.to_string(),
    }
}

#[test]
fn coordinator_url_loses_its_slashes() {
    assert_eq!(ApiClient::new("https://x.org//").base(), "https://x.org");
    assert_eq!(ApiClient::new("").base(), "");
}

/// Fetches a document from replies, and tells the result and how long it waited.
fn fetch(optional: bool, replies: Vec<Reply>) -> (Result<Option<Json>, Fault>, Vec<u64>, usize) {
    let api = ApiClient::new("https://x.org/");
    let first = if optional { api.try_get_json("/v1/a") } else { api.get_json("/v1/a") };
    let mut waits = Vec::new();
    let mut gets = 0;
    let mut left = replies;
    let r = drive(first, |s, r| s.step(r), |a| match a {
        Action::HttpGet(url) => {
            assert_eq!(url, "https://x.org/v1/a");
            gets += 1;
            left.remove(0)
        }
        Action::Sleep(n) => {
            waits.push(n);
            Reply::Done(Ok(()))
        }
        _ => panic!("unexpected action"),
    });
    (r, waits, gets)
}

#[test]
fn fetching_retries_with_pauses() {
    let (r, waits, gets) =
        fetch(false, vec![http(503, ""), Reply::Http(Err(Fault::of("eof"))), http(200, r#"{"a":1}"#)]);
    assert_eq!(value(r).unwrap().render(), r#"{"a":1}"#);
    assert_eq!(waits, vec![1, 2]);
    assert_eq!(gets, 3);

    let (r, _, gets) = fetch(false, vec![http(500, ""), http(500, ""), http(500, "down")]);
    assert_eq!(fault_of(r), "HTTP 500 from https://x.org/v1/a: down");
    assert_eq!(gets, 3);

    let lost = || Reply::Http(Err(Fault::of("inner").because("eof")));
    let (r, _, _) = fetch(false, vec![lost(), lost(), lost()]);
    assert_eq!(fault_of(r), "GET https://x.org/v1/a (attempt 3): eof");
}

#[test]
fn fetching_does_not_retry_what_is_refused() {
    let (r, _, gets) = fetch(false, vec![http(404, "no")]);
    assert_eq!(fault_of(r), "HTTP 404 from https://x.org/v1/a: no");
    assert_eq!(gets, 1);
    let (r, _, _) = fetch(true, vec![http(404, "no")]);
    assert!(value(r).is_none());
    let (r, _, _) = fetch(true, vec![http(400, "bad")]);
    assert_eq!(fault_of(r), "HTTP 400 from https://x.org/v1/a: bad");
    let (r, _, _) = fetch(true, vec![http(200, "{")]);
    assert!(fault_of(r).starts_with("parse JSON from https://x.org/v1/a: {: EOF while parsing"));
}

#[test]
fn ping_asks_for_the_health() {
    let first = ApiClient::new("u").ping();
    let r = drive(first, |s, r| s.step(r), |a| match a {
        Action::HttpGet(url) => {
            assert_eq!(url, "u/v1/health");
            http(200, "null")
        }
        _ => panic!("unexpected action"),
    });
    assert!(value(r).unwrap().is_null());
}

#[test]
fn contract_addresses_come_from_either_document() {
    let ask = |good: &str| {
        drive(contracts::configuration(), |s, r| s.step(r), |a| match a {
            Action::Get(path) => {
                if path == good {
                    Reply::Doc(Ok(doc(r#"{"otc":"0x1"}"#)))
                } else {
                    Reply::Doc(Err(Fault::of("no")))
                }
            }
            _ => panic!("unexpected action"),
        })
    };
    assert_eq!(ask("/v1/chain/contracts").get_str("otc"), Some("0x1"));
    assert_eq!(ask("/v1/health").get_str("otc"), Some("0x1"));
    assert!(ask("neither").is_null());
}

#[test]
fn node_list_comes_from_the_setting() {
    assert_eq!(rpc::rpc_list(Some(" a , ,b".to_string())), vec!["a".to_string(), "b".to_string()]);
    assert_eq!(rpc::rpc_list(None).len(), 7);
    assert_eq!(rpc::rpc_list(Some(" , ".to_string()))[0], "https://mainnet.base.org");
}

#[test]
fn cursor_moves_and_wraps() {
    let mut c: usize = 0;
    assert_eq!(rpc::next_cursor(&mut c), 0);
    assert_eq!(rpc::next_cursor(&mut c), 1);
    assert_eq!(c, 2);
    c = usize::MAX - 1;
    assert_eq!(rpc::next_cursor(&mut c), usize::MAX - 1);
    assert_eq!(c, 0);
}

#[test]
fn chain_list_keeps_open_nodes_of_base() {
    let list = doc(
        r#"[{"chainId":1,"rpc":[{"url":"https://one"}]},
            {"chainId":8453,"rpc":[{"url":"https://a"},{"url":"wss://b"},{"url":"https://c/${KEY}"},
                {"url":"https://d/API_KEY"},{"url":""},{},{"url":"https://e"}]},
            {"chainId":8453}]"#,
    );
    assert_eq!(rpc::chainlist_rpcs(&list), vec!["https://a".to_string(), "https://e".to_string()]);
    assert!(rpc::chainlist_rpcs(&doc("{}")).is_empty());
    assert!(rpc::list_is_fresh(3599));
    assert!(!rpc::list_is_fresh(3600));
}

/// Calls a node; tells the result and which nodes were asked.
fn call(cursor: usize, set: &str, extra: Vec<&str>, good: &str) -> (Result<Json, Fault>, Vec<String>) {
    let mut asked = Vec::new();
    let first = rpc::call("eth_chainId", Json::list0(), cursor);
    let r = drive(first, |s, r| s.step(r), |a| match a {
        Action::Env(n) => {
            assert_eq!(n, "ARDI_BASE_RPC");
            Reply::Maybe(Some(set.to_string()))
        }
        Action::HttpPostJson(url, body, secs) => {
            assert_eq!(secs, 8);
            assert_eq!(body.render(), r#"{"id":1,"jsonrpc":"2.0","method":"eth_chainId","params":[]}"#);
            asked.push(url.clone());
            if url == good {
                Reply::Posted(Posted::Doc(doc(r#"{"result":"0x2105"}"#)))
            } else if url == "silent" {
                Reply::Posted(Posted::Unsent(Fault::of("refused")))
            } else if url == "noise" {
                Reply::Posted(Posted::Unread(Fault::of("not JSON")))
            } else if url == "blank" {
                Reply::Posted(Posted::Doc(doc("{}")))
            } else {
                Reply::Posted(Posted::Doc(doc(r#"{"error":{"code":-1}}"#)))
            }
        }
        Action::ChainList => Reply::Texts(extra.iter().map(|t| t.to_string()).collect()),
        _ => panic!("unexpected action"),
    });
    (r, asked)
}

#[test]
fn nodes_are_asked_in_turn() {
    let (r, asked) = call(4, "a,b,c", Vec::new(), "a");
    assert_eq!(value(r).as_str(), Some("0x2105"));
    assert_eq!(asked, vec!["b", "c", "a"]);
    let (r, asked) = call(0, "a,blank", Vec::new(), "x");
    assert!(value(r).is_null());
    assert_eq!(asked, vec!["a", "blank"]);
}

#[test]
fn chain_list_is_asked_last_without_repeats() {
    let (r, asked) = call(0, "a,b", vec!["b", "x", "y"], "y");
    assert_eq!(value(r).as_str(), Some("0x2105"));
    assert_eq!(asked, vec!["a", "b", "x", "y"]);
    let (r, _) = call(0, "a,b", vec!["b", "silent"], "");
    assert_eq!(
        fault_of(r),
        "all Base RPCs failed (tried 2 hardcoded + 2 from chainlist). Last: silent: send refused"
    );
    let (r, _) = call(0, "noise", Vec::new(), "");
    assert_eq!(
        fault_of(r),
        "all Base RPCs failed (tried 1 hardcoded + 0 from chainlist). Last: noise: parse not JSON"
    );
    let (r, _) = call(0, "a", Vec::new(), "");
    assert_eq!(
        fault_of(r),
        "all Base RPCs failed (tried 1 hardcoded + 0 from chainlist). Last: a: rpc error {\"code\":-1}"
    );
}

#[test]
fn address_has_three_sources() {
    let find = |own: Option<&str>, shared: Option<&str>, w: WalletStatus| {
        let mut w = Some(w);
        drive(auth::get_address(), |s, r| s.step(r), |a| match a {
            Action::Env(n) if n == "ARDI_AGENT_ADDR" => Reply::Maybe(own.map(|t| t.to_string())),
            Action::Env(n) if n == "AWP_ADDRESS" => Reply::Maybe(shared.map(|t| t.to_string())),
            Action::Wallet => Reply::Wallet(w.take().unwrap()),
            _ => panic!("unexpected action"),
        })
    };
    let upper = " 0x46A1EEE3D800799726FAAF18F28360EB2E97AD63 ";
    let none = || WalletStatus::missing();
    assert_eq!(value(find(Some(upper), Some("x"), none())), AGENT);
    assert_eq!(value(find(Some(""), Some(upper), none())), AGENT);
    assert_eq!(value(find(None, None, WalletStatus::present("p".to_string(), true, true, Some("0xa".to_string())))), "0xa");
    assert_eq!(fault_of(find(Some("0x12"), None, none())), "invalid address: 0x12");
    assert_eq!(
        fault_of(find(None, None, none())),
        "could not determine agent address: awp-wallet not installed"
    );
}

#[test]
fn wallet_is_described() {
    let ready = WalletStatus::present("p".to_string(), true, true, Some("0xa".to_string()));
    assert_eq!(ready.human_status, "awp-wallet ready; agent = 0xa");
    assert_eq!(ready.suggestion(), "Wallet OK.");
    assert_eq!(ready.setup_command(), "(wallet already exists — do not re-init)");
    let locked = WalletStatus::present("p".to_string(), true, true, None);
    assert_eq!(locked.human_status, "wallet exists but inaccessible (do NOT re-run setup — overwrites)");
    assert!(!locked.safe_to_init());
    let empty = WalletStatus::present("p".to_string(), false, false, None);
    assert_eq!(empty.human_status, "awp-wallet installed but no wallet — run `awp-wallet setup`");
    assert_eq!(empty.setup_command(), "awp-wallet setup");
    assert_eq!(empty.suggestion(), "Run `awp-wallet setup` to create your wallet.");
    assert!(WalletStatus::missing().suggestion().starts_with("Install awp-wallet first"));
}

#[test]
fn wallet_program_is_looked_for() {
    let find = |there: &str| {
        drive(wallet::which(), |s, r| s.step(r), |a| match a {
            Action::Env(n) if n == "AWP_WALLET_BIN" => Reply::Maybe(Some("/own".to_string())),
            Action::Env(n) if n == "PATH" => Reply::Maybe(Some("/bin:/opt/".to_string())),
            Action::FirstFile(v) => {
                assert_eq!(v, vec!["/own", "/bin/awp-wallet", "/opt/awp-wallet"]);
                Reply::Maybe(v.into_iter().find(|p| p == there))
            }
            _ => panic!("unexpected action"),
        })
    };
    assert_eq!(value(find("/opt/awp-wallet")), "/opt/awp-wallet");
    assert_eq!(fault_of(find("/else")), "`awp-wallet` not found on PATH");
}

#[test]
fn wallet_tells_its_address() {
    let look = |out: &'static str| {
        drive(WalletStatus::check(), |s, r| s.step(r), |a| match a {
            Action::FindWallet => Reply::Text(Ok("/w".to_string())),
            Action::Env(n) if n == "HOME" => Reply::Maybe(Some("/h".to_string())),
            Action::FirstFile(v) if v.len() == 1 => {
                assert_eq!(v[0], "/h/.awp-wallet");
                Reply::Maybe(Some(v[0].clone()))
            }
            Action::FirstFile(v) => {
                assert_eq!(v, vec!["/h/.awp-wallet/keystore.json", "/h/.awp-wallet/wallet.json"]);
                Reply::Maybe(Some(v[1].clone()))
            }
            Action::Exec(p, args) => {
                assert_eq!(p, "/w");
                assert_eq!(args, vec!["receive"]);
                Reply::Process(Ok(end(true, out, "")))
            }
            _ => panic!("unexpected action"),
        })
    };
    assert_eq!(look(r#"{"eoaAddress":"0xAB","address":"0xCD"}"#).address.as_deref(), Some("0xab"));
    let old = look(r#"{"address":"0xCD"}"#);
    assert_eq!(old.address.as_deref(), Some("0xcd"));
    assert!(old.cli_installed && old.has_keystore && old.wallet_dir_exists && old.can_receive);
    assert!(!look("?").can_receive);
    assert!(!look(r#"{"eoaAddress":5,"address":"0xCD"}"#).can_receive);
}

#[test]
fn wallet_version_is_checked() {
    assert!(wallet::require_min_wallet("1.5.0\n").is_ok());
    assert!(wallet::require_min_wallet("2.0.0").is_ok());
    assert!(wallet::require_min_wallet("1.10.3.4").is_ok());
    assert!(fault_of(wallet::require_min_wallet("1.4.99"))
        .starts_with("awp-wallet 1.4.99 too old; need >= 1.5.0 (introduces `send-tx`"));
    assert_eq!(fault_of(wallet::require_min_wallet(" 1.5 ")), "unparseable awp-wallet version: '1.5'");
    assert_eq!(
        fault_of(wallet::require_min_wallet("1.x.0")),
        "awp-wallet version part 'x' not numeric: invalid digit found in string"
    );
}

#[test]
fn wallet_arguments_leave_the_nonce_out() {
    let t = doc(r#"{"to":"0xT","data":"0xd","value":"0x10","chainId":8453,"gas":"0x5208","nonce":7}"#);
    assert_eq!(
        value(wallet::send_args(&t)),
        vec!["--chain", "8453", "send-tx", "--to", "0xT", "--data", "0xd", "--value", "16", "--gas", "21000"]
    );
    assert_eq!(
        value(wallet::send_args(&doc(r#"{"to":"0xT","chainId":1}"#))),
        vec!["--chain", "1", "send-tx", "--to", "0xT", "--data", "0x", "--value", "0"]
    );
    assert_eq!(fault_of(wallet::send_args(&doc(r#"{"chainId":1}"#))), "tx missing `to`");
    assert_eq!(fault_of(wallet::send_args(&doc(r#"{"to":"0xT"}"#))), "tx missing `chainId`");
    assert_eq!(
        fault_of(wallet::send_args(&doc(r#"{"to":"0xT","chainId":1,"value":"0xg"}"#))),
        "invalid `value` hex: invalid digit found in string"
    );
    assert_eq!(
        fault_of(wallet::send_args(&doc(r#"{"to":"0xT","chainId":1,"gas":"0x"}"#))),
        "invalid `gas`: cannot parse integer from empty string"
    );
}

#[test]
fn wallet_replies_are_read() {
    let sent = |t: &str| wallet::read_sent(&end(true, t, ""));
    assert_eq!(value(sent("{\"txHash\":\"0x1\"}\n")), "0x1");
    assert_eq!(value(sent(r#"{"transactionHash":"0x2","hash":"0x3"}"#)), "0x2");
    assert_eq!(value(sent(r#"{"hash":"0x3"}"#)), "0x3");
    assert_eq!(fault_of(sent(r#"{"error":"broke"}"#)), "awp-wallet send-tx reported error: broke");
    assert_eq!(fault_of(sent("{}")), "awp-wallet send-tx response missing txHash field: {}");
    assert!(fault_of(sent("?")).starts_with("awp-wallet send-tx returned non-JSON: ? ("));
    assert_eq!(
        fault_of(wallet::read_sent(&end(false, " out ", " err "))),
        "awp-wallet send-tx failed (exit Some(2)): out err"
    );
    let signed = |t: &str| wallet::read_signature(&end(true, t, ""));
    assert_eq!(value(signed(r#"{"signature":"0x5"}"#)), "0x5");
    assert_eq!(fault_of(signed(r#"{"error":"no"}"#)), "awp-wallet sign-typed-data error: no");
    assert_eq!(fault_of(signed("{}")), "awp-wallet sign-typed-data response missing signature: {}");
}

fn transfer_request() -> TxRequest {
    TxRequest {
        from: Address::parse(AGENT).unwrap(),
        to: Address::zero(),
        data: vec![0xab],
        value_wei: 255,
        gas_limit: 21000,
    }
}

#[test]
fn transaction_is_built_and_handed_to_the_wallet() {
    let mut locked = false;
    let mut polls = 0;
    let mut clock = 0;
    let r = drive(tx::send_and_wait(transfer_request()), |s, r| s.step(r), |a| match a {
        Action::Rpc(m, p) if m == "eth_getTransactionCount" => {
            assert_eq!(p.render(), format!(r#"["{AGENT}","pending"]"#));
            Reply::Doc(Ok(doc(r#""0x7""#)))
        }
        Action::Rpc(m, _) if m == "eth_gasPrice" => Reply::Doc(Ok(doc(r#""0x5f5e100""#))),
        Action::Send(t) => {
            assert_eq!(
                t.render(),
                format!(
                    "{{\"chainId\":8453,\"data\":\"0xab\",\"from\":\"{AGENT}\",\"gas\":\"0x5208\",\
                     \"maxFeePerGas\":\"0xbebc200\",\"maxPriorityFeePerGas\":\"0xf4240\",\"nonce\":7,\
                     \"to\":\"0x{}\",\"type\":\"0x2\",\"value\":\"0xff\"}}",
                    "0".repeat(40)
                )
            );
            let sent = drive(wallet::send_tx(t), |s, r| s.step(r), |a| match a {
                Action::FindWallet => Reply::Text(Ok("/w".to_string())),
                Action::Lock => {
                    locked = true;
                    Reply::Done(Ok(()))
                }
                Action::Exec(_, args) if args[0] == "--version" => {
                    Reply::Process(Ok(end(true, "1.5.1", "")))
                }
                Action::Exec(_, args) => {
                    assert!(locked);
                    assert_eq!(args[9..], ["--gas".to_string(), "21000".to_string()]);
                    Reply::Process(Ok(end(true, r#"{"txHash":"0xh"}"#, "")))
                }
                _ => panic!("unexpected action"),
            });
            Reply::Text(sent)
        }
        Action::Elapsed => Reply::Secs(clock),
        Action::Sleep(n) => {
            clock += n;
            Reply::Done(Ok(()))
        }
        Action::Rpc(m, p) => {
            assert_eq!(m, "eth_getTransactionReceipt");
            assert_eq!(p.render(), r#"["0xh"]"#);
            polls += 1;
            Reply::Doc(Ok(if polls == 1 { Json::Null } else { doc(r#"{"status":"0x1"}"#) }))
        }
        _ => panic!("unexpected action"),
    });
    match r {
        Ok((h, success)) => {
            assert_eq!(h, "0xh");
            assert!(success);
        }
        Err(_) => panic!("not sent"),
    }
    assert_eq!(polls, 2);
}

#[test]
fn fee_has_a_floor() {
    let t = tx::build_tx(&transfer_request(), 0, 1);
    assert_eq!(t.get_str("maxFeePerGas"), Some("0xf4240"));
    let t = tx::build_tx(&transfer_request(), 0, 500_001);
    assert_eq!(t.get_str("maxFeePerGas"), Some("0xf4242"));
}

#[test]
fn transaction_faults_tell_where_they_arose() {
    let broken = |at: &str| {
        drive(tx::send_and_wait(transfer_request()), |s, r| s.step(r), |a| match a {
            Action::Rpc(m, _) if m == at => Reply::Doc(Err(Fault::of("down"))),
            Action::Rpc(_, _) => Reply::Doc(Ok(Json::Null)),
            Action::Send(_) => {
                if at == "wallet" {
                    Reply::Text(Err(Fault::of("refused")))
                } else {
                    Reply::Text(Ok("0xh".to_string()))
                }
            }
            Action::Elapsed => Reply::Secs(0),
            _ => panic!("unexpected action"),
        })
    };
    assert!(matches!(broken("eth_gasPrice"), Err(TxFault::Build(_))));
    assert!(matches!(broken("eth_getTransactionCount"), Err(TxFault::Build(_))));
    assert!(matches!(broken("wallet"), Err(TxFault::Send(_))));
    match broken("eth_getTransactionReceipt") {
        Err(TxFault::Receipt(h, f)) => {
            assert_eq!(h, "0xh");
            assert_eq!(f.full(), "down");
        }
        _ => panic!("receipt seen"),
    }
    let silent = drive(tx::send_and_wait(transfer_request()), |s, r| s.step(r), |a| match a {
        Action::Rpc(m, _) if m == "eth_getTransactionReceipt" => Reply::Doc(Ok(doc(r#"{"status":"0x0"}"#))),
        Action::Rpc(_, _) => Reply::Doc(Ok(Json::Null)),
        Action::Send(_) => Reply::Text(Ok("0xh".to_string())),
        Action::Elapsed => Reply::Secs(0),
        _ => panic!("unexpected action"),
    });
    assert!(matches!(silent, Ok((_, false))));
}

#[test]
fn submitting_does_not_wait() {
    let r = drive(tx::submit(transfer_request()), |s, r| s.step(r), |a| match a {
        Action::Rpc(m, _) => {
            assert_ne!(m, "eth_getTransactionReceipt");
            Reply::Doc(Ok(Json::Null))
        }
        Action::Send(_) => Reply::Text(Ok("0xh".to_string())),
        _ => panic!("unexpected action"),
    });
    assert!(matches!(r, Ok(h) if h == "0xh"));
}

#[test]
fn view_reads_bytes_and_takes_nonsense_as_empty() {
    let ask = |reply: &'static str| {
        value(drive(tx::view_call(&Address::zero(), &vec![1, 2]), |s, r| s.step(r), |a| match a {
            Action::Rpc(m, p) => {
                assert_eq!(m, "eth_call");
                assert_eq!(
                    p.render(),
                    format!(r#"[{{"data":"0x0102","to":"0x{}"}},"latest"]"#, "0".repeat(40))
                );
                Reply::Doc(Ok(doc(reply)))
            }
            _ => panic!("unexpected action"),
        }))
    };
    assert_eq!(ask(r#""0x0aFF""#), vec![0x0a, 0xff]);
    assert!(ask(r#""0x0""#).is_empty());
    assert!(ask("null").is_empty());
}

#[test]
fn balance_is_read_in_hex() {
    let ask = |reply: &'static str| {
        value(drive(tx::eth_balance(&Address::zero()), |s, r| s.step(r), |_| Reply::Doc(Ok(doc(reply)))))
    };
    assert_eq!(ask(r#""0xde0b6b3a7640000""#), 1_000_000_000_000_000_000);
    assert_eq!(ask(r#""?""#), 0);
    assert_eq!(ask("5"), 0);
}

#[test]
fn receipt_is_waited_for() {
    let wait = |after: u64, start: u64| {
        let mut clock = start;
        let mut polls = 0;
        let r = drive(tx::wait_receipt("0xh".to_string(), 10), |s, r| s.step(r), |a| match a {
            Action::Elapsed => Reply::Secs(clock),
            Action::Sleep(n) => {
                clock += n;
                Reply::Done(Ok(()))
            }
            Action::Rpc(m, p) => {
                assert_eq!(m, "eth_getTransactionReceipt");
                assert_eq!(p.render(), r#"["0xh"]"#);
                polls += 1;
                if clock >= start + after {
                    Reply::Doc(Ok(doc(r#"{"status":"0x1","blockNumber":"0x10"}"#)))
                } else {
                    Reply::Doc(Ok(Json::Null))
                }
            }
            _ => panic!("unexpected action"),
        });
        (r, polls)
    };
    let (r, polls) = wait(4, 100);
    assert_eq!(value(r), (true, 16));
    assert_eq!(polls, 3);
    let (r, polls) = wait(99, 100);
    assert_eq!(fault_of(r), "receipt timeout for 0xh");
    assert_eq!(polls, 6);
    assert_eq!(tx::read_receipt(&doc(r#"{"status":"0x0"}"#)), (false, 0));
}

#[test]
fn staking_network_replies() {
    let ask = |status: u16, text: &'static str| {
        drive(AwpRpc::call("m".to_string(), Json::list0()), |s, r| s.step(r), |a| match a {
            Action::Env(_) => Reply::Maybe(None),
            Action::HttpPost(url, body) => {
                assert_eq!(url, "https://api.awp.sh/v2");
                assert_eq!(body, r#"{"id":1,"jsonrpc":"2.0","method":"m","params":[]}"#);
                http(status, text)
            }
            _ => panic!("unexpected action"),
        })
    };
    assert_eq!(value(ask(200, r#"{"result":[1]}"#)).render(), "[1]");
    assert_eq!(fault_of(ask(500, "x")), "HTTP 500 from awp rpc: x");
    assert_eq!(fault_of(ask(200, r#"{"error":"x","result":1}"#)), "awp rpc error: \"x\"");
    assert_eq!(fault_of(ask(200, "{}")), "awp rpc missing result: {}");
    assert!(fault_of(ask(200, "?")).starts_with("parse awp rpc response: ?: "));
}

/// Registers an address that is registered after some polls.
fn register(polls: usize) -> (Result<awp_register::RegistrationResult, Fault>, Vec<String>) {
    let mut seen = Vec::new();
    let mut checks = 0;
    let r = drive(awp_register::ensure_registered(AGENT.to_string()), |s, r| s.step(r), |a| match a {
        Action::CheckRegistered(x) => {
            assert_eq!(x, AGENT);
            let yes = checks >= polls;
            checks += 1;
            Reply::Flag(Ok(yes))
        }
        Action::Registry(m, p) => {
            seen.push(format!("{m} {}", p.render()));
            if m == "registry.get" {
                Reply::Doc(Ok(doc(r#"{"result":{"chainId":8453,"awpRegistry":"0xR"}}"#)))
            } else {
                Reply::Doc(Ok(doc(r#"{"result":{"nonce":9}}"#)))
            }
        }
        Action::Sign(t) => {
            assert_eq!(t.get("domain").unwrap().get_str("verifyingContract"), Some("0xR"));
            assert_eq!(t.get("message").unwrap().get_str("nonce"), Some("9"));
            assert_eq!(t.get("message").unwrap().get_str("user"), Some(AGENT));
            Reply::Text(Ok("0xsig".to_string()))
        }
        Action::Relay(b) => {
            assert_eq!(b.get_str("signature"), Some("0xsig"));
            assert_eq!(b.get_str("user"), Some(AGENT));
            Reply::Doc(Ok(doc(r#"{"ok":true}"#)))
        }
        Action::Sleep(2) => {
            seen.push("sleep".to_string());
            Reply::Done(Ok(()))
        }
        _ => panic!("unexpected action"),
    });
    (r, seen)
}

#[test]
fn registration_is_checked_first() {
    let (r, seen) = register(0);
    let r = value(r);
    assert!(r.registered && !r.auto_registered);
    assert_eq!(r.message, "Already registered on AWP network.");
    assert!(seen.is_empty());
}

#[test]
fn registration_is_polled() {
    let (r, seen) = register(3);
    let r = value(r);
    assert!(r.registered && r.auto_registered);
    assert_eq!(seen[0], r#"registry.get {"chainId":8453}"#);
    assert_eq!(seen[1], format!(r#"nonce.get {{"address":"{AGENT}","chainId":8453}}"#));
    assert_eq!(seen.len(), 5);
    let (r, seen) = register(100);
    let r = value(r);
    assert!(!r.registered);
    assert_eq!(seen.len(), 7);
    assert!(r.message.ends_with("Relay response: {\"ok\":true}"));
}

#[test]
fn registry_documents_are_checked() {
    let with = |registry: &'static str, nonce: &'static str| {
        drive(awp_register::ensure_registered(AGENT.to_string()), |s, r| s.step(r), |a| match a {
            Action::CheckRegistered(_) => Reply::Flag(Ok(false)),
            Action::Registry(m, _) => {
                Reply::Doc(Ok(doc(if m == "registry.get" { registry } else { nonce })))
            }
            Action::Sign(_) => Reply::Text(Err(Fault::of("locked"))),
            _ => panic!("unexpected action"),
        })
    };
    let good = r#"{"result":{"chainId":8453,"awpRegistry":"0xR"}}"#;
    assert_eq!(fault_of(with("{}", "{}")), "registry.get: missing top-level `result`; got {}");
    assert!(fault_of(with(r#"{"result":"0xR"}"#, "{}")).starts_with("decode registry.get: "));
    assert_eq!(fault_of(with(good, "{}")), "nonce.get: missing top-level `result`; got {}");
    assert!(fault_of(with(good, r#"{"result":3}"#)).starts_with("decode nonce.get: "));
    assert_eq!(fault_of(with(good, r#"{"result":{"nonce":3}}"#)), "awp-wallet sign-typed-data failed: locked");
}

#[test]
fn registration_network_replies() {
    let ask = |p: Posted| {
        let mut p = Some(p);
        drive(awp_register::awp_jsonrpc("m".to_string(), Json::Null), |s, r| s.step(r), |a| match a {
            Action::HttpPostJson(url, _, secs) => {
                assert_eq!(url, "https://api.awp.sh/v2");
                assert_eq!(secs, 15);
                Reply::Posted(p.take().unwrap())
            }
            _ => panic!("unexpected action"),
        })
    };
    assert_eq!(value(ask(Posted::Doc(doc("{}")))).render(), "{}");
    assert_eq!(fault_of(ask(Posted::Doc(doc(r#"{"error":1}"#)))), "AWP JSON-RPC m error: 1");
    assert_eq!(fault_of(ask(Posted::Unsent(Fault::of("x")))), "AWP JSON-RPC POST m: x");
    assert_eq!(fault_of(ask(Posted::Unread(Fault::of("x")))), "AWP JSON-RPC parse m: x");
    assert!(awp_register::is_registered(&doc(r#"{"result":{"isRegistered":true}}"#)));
    assert!(!awp_register::is_registered(&doc(r#"{"result":{"isRegistered":"yes"}}"#)));
}
