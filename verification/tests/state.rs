use ardi_agent::json::Json;
use ardi_agent::num;
use ardi_agent::state;
use ardi_agent::state::{CommitStatus, PendingCommit, State};
use ardi_agent::text;

fn entry(epoch_id: u64, word_id: u64) -> PendingCommit {
    PendingCommit {
        epoch_id,
        word_id,
        answer: "\"quoted\" — é".to_string(),
        salt_hex: "0x01".to_string(),
        agent: "0xa".to_string(),
        commit_tx: "0xt".to_string(),
        commit_hash: "0xh".to_string(),
        committed_at: -5,
        language: "en".to_string(),
        power: 65535,
        language_id: 255,
        status: CommitStatus::Won,
        reveal_tx: Some("0xr".to_string()),
        inscribe_tx: None,
        token_id: Some(u64::MAX),
    }
}

#[test]
fn state_reads_back_what_it_writes() {
    let mut st = State::new();
    st.put(entry(3, 4));
    st.put(entry(10, 1));
    let back = State::from_text(&st.to_text());
    assert_eq!(back.pending.len(), 2);
    let c = back.get(3, 4).unwrap();
    assert_eq!(c.answer, "\"quoted\" — é");
    assert_eq!(c.committed_at, -5);
    assert_eq!(c.power, 65535);
    assert_eq!(c.language_id, 255);
    assert_eq!(c.reveal_tx.as_deref(), Some("0xr"));
    assert_eq!(c.inscribe_tx, None);
    assert_eq!(c.token_id, Some(u64::MAX));
    assert!(matches!(c.status, CommitStatus::Won));
    assert_eq!(back.to_text(), st.to_text());
}

#[test]
fn state_file_has_the_usual_form() {
    let mut st = State::new();
    assert_eq!(st.to_text(), "{\n  \"pending\": {}\n}");
    st.put(entry(3, 4));
    let v: serde_json::Value = serde_json::from_str(&st.to_text()).unwrap();
    assert_eq!(v["pending"]["3:4"]["status"], "won");
    assert_eq!(v["pending"]["3:4"]["epoch_id"], 3);
    assert_eq!(v["pending"]["3:4"]["inscribe_tx"], serde_json::Value::Null);
}

#[test]
fn any_key_is_read_back() {
    for key in ["$serde_json::private::Number", "", "\"", "é\n", "pending"] {
        let mut st = State::new();
        st.put(entry(3, 4));
        let text = st.to_text().replace("\"3:4\"", &serde_json::to_string(key).unwrap());
        let back = State::from_text(&text);
        assert_eq!(back.pending.len(), 1);
        assert_eq!(back.pending[0].0, key);
        let again = State::from_text(&back.to_text());
        assert_eq!(again.pending[0].0, key);
        assert_eq!(again.pending[0].1.answer, "\"quoted\" — é");
        assert_eq!(again.to_text(), back.to_text());
    }
}

#[test]
fn other_members_of_the_file_are_passed_over() {
    let mut st = State::new();
    st.put(entry(3, 4));
    for more in ["7", "null", "[1]", "{}", "{\"a\":{}}", "{\"a\":1}"] {
        let text = st.to_text().replacen('{', &format!("{{\"more\":{more},"), 1);
        assert_eq!(State::from_text(&text).to_text(), st.to_text());
    }
}

#[test]
fn unreadable_state_is_empty() {
    assert!(State::from_text("?").pending.is_empty());
    assert!(State::from_text("{}").pending.is_empty());
    assert!(State::from_text(r#"{"pending":{"1:2":{"epoch_id":1}}}"#).pending.is_empty());
    assert!(State::load(&None).pending.is_empty());
    assert!(State::from_json(&Json::Null).is_none());
}

#[test]
fn unknown_status_is_refused() {
    let mut st = State::new();
    st.put(entry(3, 4));
    let good = st.to_text();
    assert_eq!(State::from_text(&good).pending.len(), 1);
    assert!(State::from_text(&good.replace("\"won\"", "\"WON\"")).pending.is_empty());
    for s in ["committed", "revealed", "won", "lost", "inscribed", "failed"] {
        let t = good.replace("\"won\"", &format!("\"{s}\""));
        let st = State::from_text(&t);
        assert_eq!(st.get(3, 4).unwrap().status.text(), s);
    }
}

#[test]
fn missing_options_are_none() {
    let mut st = State::new();
    st.put(entry(3, 4));
    let mut v: serde_json::Value = serde_json::from_str(&st.to_text()).unwrap();
    let row = v["pending"]["3:4"].as_object_mut().unwrap();
    row.remove("reveal_tx");
    row.remove("token_id");
    let st = State::from_text(&v.to_string());
    assert_eq!(st.get(3, 4).unwrap().reveal_tx, None);
    assert_eq!(st.get(3, 4).unwrap().token_id, None);
}

#[test]
fn put_replaces_one_entry_and_keeps_the_others() {
    let mut st = State::new();
    st.put(entry(3, 4));
    st.put(entry(3, 5));
    let mut c = entry(3, 4);
    c.answer = "new".to_string();
    st.put(c);
    assert_eq!(st.pending.len(), 2);
    assert_eq!(st.get(3, 4).unwrap().answer, "new");
    assert_eq!(st.get(3, 5).unwrap().answer, "\"quoted\" — é");
    assert!(st.get(3, 6).is_none());
    assert!(st.get_mut(3, 6).is_none());
    st.get_mut(3, 5).unwrap().answer = "changed".to_string();
    assert_eq!(st.get(3, 5).unwrap().answer, "changed");
}

#[test]
fn keys_differ_and_sort_as_text() {
    assert_eq!(State::key(12, 3), "12:3");
    assert_ne!(State::key(1, 23), State::key(12, 3));
    let mut st = State::new();
    st.put(entry(9, 1));
    st.put(entry(10, 1));
    st.put(entry(9, 0));
    let keys: Vec<&str> = st.pending.iter().map(|(k, _)| k.as_str()).collect();
    assert_eq!(keys, vec!["10:1", "9:0", "9:1"]);
}

#[test]
fn state_file_is_named_after_the_agent() {
    assert_eq!(state::file_name(Some("0xAB")), "state-0xab.json");
    assert_eq!(state::file_name(None), "state.json");
}

#[test]
fn statuses_have_titles() {
    assert_eq!(CommitStatus::Committed.title(), "Committed");
    assert_eq!(CommitStatus::Failed.title(), "Failed");
}

#[test]
fn json_round_trips() {
    let t = r#"{"a":[1,-2,1.5e3,null,true],"b":"é\n\"","c":10000000000000000000000}"#;
    let v = Json::parse(t).unwrap();
    let w = Json::parse(&v.render()).unwrap();
    assert_eq!(v.render(), w.render());
    assert!(v.render().contains("10000000000000000000000"));
    assert_eq!(v.get_str("b"), Some("é\n\""));
    assert!(Json::parse("{").is_err());
    assert_eq!(Json::parse("").err().as_deref(), Some("EOF while parsing a value at line 1 column 0"));
}

#[test]
fn json_members() {
    let v = Json::object()
        .with("n", Json::number(u64::MAX))
        .with("s", Json::signed(-3))
        .with("t", Json::opt_text(&None))
        .with("n", Json::number(5));
    assert_eq!(v.render(), r#"{"n":5,"s":-3,"t":null}"#);
    assert_eq!(v.get("n").unwrap().as_u64(), Some(5));
    assert_eq!(v.get("s").unwrap().as_u64(), None);
    assert!(v.get("x").is_none());
    assert!(v.get_str("n").is_none());
    assert_eq!(Json::Bool(true).as_bool(), Some(true));
    assert_eq!(Json::Null.as_bool(), None);
    assert_eq!(Json::numbers(&vec![1, 2]).render(), "[1,2]");
    assert_eq!(Json::list2(Json::Null, Json::text("x")).render(), r#"[null,"x"]"#);
    assert_eq!(Json::list1(Json::Null).render_pretty(), "[\n  null\n]");
    assert_eq!(v.copy().render(), v.render());
}

#[test]
fn numbers_are_written_and_read() {
    assert_eq!(num::dec(0), "0");
    assert_eq!(num::dec(u64::MAX), "18446744073709551615");
    assert_eq!(num::dec_u128(u128::MAX), u128::MAX.to_string());
    assert_eq!(num::dec_i64(i64::MIN), i64::MIN.to_string());
    assert_eq!(num::dec_i128(-7), "-7");
    assert_eq!(num::hex_u128(0), "0x0");
    assert_eq!(num::hex_u128(u128::MAX), format!("0x{}", "f".repeat(32)));
    assert_eq!(num::parse_u64("18446744073709551615"), Some(u64::MAX));
    assert_eq!(num::parse_u64("18446744073709551616"), None);
    assert_eq!(num::parse_u64("+7"), Some(7));
    assert_eq!(num::parse_u64(""), None);
    assert_eq!(num::parse_u64("-1"), None);
    assert_eq!(num::parse_i64("-9223372036854775808"), Some(i64::MIN));
    assert_eq!(num::parse_i64("9223372036854775808"), None);
    assert_eq!(num::parse_uint("Ff", 16, 255), Some(255));
    assert_eq!(num::parse_uint("100", 16, 255), None);
}

#[test]
fn texts_are_taken_apart() {
    assert_eq!(text::trim(" \t\u{a0}x y\n"), "x y");
    assert_eq!(text::split("a,,b", ','), vec!["a", "", "b"]);
    assert_eq!(text::split("", ','), vec![""]);
    assert_eq!(text::join(&vec!["a".to_string(), "b".to_string()], "--"), "a--b");
    assert_eq!(text::strip_prefixes("0x0xab", "0x"), "ab");
    assert_eq!(text::strip_trailing("a//", '/'), "a");
    assert!(text::contains("abc", "bc") && text::contains("abc", "") && !text::contains("abc", "cb"));
    assert!(text::starts_with("abc", "ab") && !text::starts_with("a", "ab"));
    assert!(text::text_before("10:1", "9:1") && text::text_before("9", "9:1") && !text::text_before("9", "9"));
}
