//! The wallet program: finding it, checking that it is recent enough, and having it sign and send. Keys
//! never leave it.
use vstd::prelude::*;
use vstd::utf8::is_ascii_chars;

use crate::fault::{caused_v, fault_v, text_result, Fault};
use crate::flow::{stray, stray_v, Action, ActionV, ProcessEnd, Reply, Step};
use crate::json::{json_parsed, json_text, member, member_str, str_of, u64_of, Json, JsonV};
use crate::schema::opt_text_view;
use crate::num::{
    dec, dec_i64, dec_text, dec_u128, int_text, parsed_uint, u128_from_hex, u128_hex_error_text,
    u32_error_text, u32_from_text, u64_from_hex, u64_hex_error_text,
};
use crate::text::{
    ascii_lowered, cat2, cat3, cat4, cat7, cat8, chars_of, has_prefix, is_lower_of, law_ascii_lower_twice,
    lowercase, lowercase_text, pieces, split, strip_prefixes, texts, trim, trimmed, without_prefixes,
};

verus! {

/// What is known of the wallet.
#[derive(Debug)]
pub struct WalletStatus {
    /// Whether the program was found.
    pub cli_installed: bool,
    /// Where it is.
    pub cli_path: Option<String>,
    /// Whether its directory exists.
    pub wallet_dir_exists: bool,
    /// Whether there is a wallet in it.
    pub has_keystore: bool,
    /// Whether it tells its address.
    pub can_receive: bool,
    /// The address, in lower case.
    pub address: Option<String>,
    /// All of this in words.
    pub human_status: String,
}

/// The state of a wallet in words.
pub open spec fn human_status_v(
    installed: bool,
    keystore: bool,
    address: Option<Seq<char>>,
) -> Seq<char> {
    if !installed {
        "awp-wallet not installed"@
    } else if !keystore {
        "awp-wallet installed but no wallet — run `awp-wallet setup`"@
    } else {
        match address {
            Some(a) => "awp-wallet ready; agent = "@ + a,
            None => "wallet exists but inaccessible (do NOT re-run setup — overwrites)"@,
        }
    }
}

/// The address that the output of `awp-wallet receive` states, in lower case.
pub open spec fn receive_address(end: ProcessEnd) -> Option<Seq<char>> {
    match stated_address(end) {
        Some(t) => Some(lowercase_text(t)),
        None => None,
    }
}

/// The address that the output of `awp-wallet receive` states. Older wallets call the member `address`.
pub open spec fn stated_address(end: ProcessEnd) -> Option<Seq<char>> {
    if !end.success {
        None
    } else {
        match json_parsed(end.stdout@) {
            Err(_) => None,
            Ok(v) => match (member(v, "eoaAddress"@), member(v, "address"@)) {
                (Some(a), _) => str_of(a),
                (None, Some(a)) => str_of(a),
                (None, None) => None,
            },
        }
    }
}

/// Reads the output of `awp-wallet receive`.
fn read_receive(end: &ProcessEnd) -> (r: Option<String>)
    ensures
        match r {
            Some(a) => stated_address(*end) matches Some(t) && is_lower_of(a@, t),
            None => receive_address(*end) is None,
        },
{
    if !end.success {
        return None;
    }
    match Json::parse(end.stdout.as_str()) {
        Err(_) => None,
        Ok(v) => {
            let found = match v.get("eoaAddress") {
                Some(a) => Some(a),
                None => v.get("address"),
            };
            match found {
                Some(a) => match a.as_str() {
                    Some(t) => Some(lowercase(t)),
                    None => None,
                },
                None => None,
            }
        },
    }
}

/// The command that installs the wallet.
pub open spec fn install_text() -> Seq<char> {
    "git clone https://github.com/awp-core/awp-wallet ~/awp-wallet && cd ~/awp-wallet && bash install.sh && awp-wallet setup"@
}

/// What `s` says where the program was not found.
pub open spec fn missing_wallet(s: WalletStatus) -> bool {
    &&& !s.cli_installed
    &&& s.cli_path is None
    &&& !s.wallet_dir_exists
    &&& !s.has_keystore
    &&& !s.can_receive
    &&& s.address is None
    &&& s.human_status@ == human_status_v(false, false, None)
}

/// What `s` says where the program was found at `path`.
pub open spec fn present_wallet(
    s: WalletStatus,
    path: Seq<char>,
    dir: bool,
    keystore: bool,
    address: Option<Seq<char>>,
) -> bool {
    &&& s.cli_installed
    &&& s.cli_path matches Some(p) && p@ == path
    &&& s.wallet_dir_exists == dir
    &&& s.has_keystore == keystore
    &&& s.can_receive == (address is Some)
    &&& match (s.address, address) {
        (Some(a), Some(b)) => a@ == b,
        (None, None) => true,
        _ => false,
    }
    &&& s.human_status@ == human_status_v(true, keystore, address)
}

impl WalletStatus {
    /// The status where the program was not found.
    pub fn missing() -> (r: WalletStatus)
        ensures
            missing_wallet(r),
    {
        WalletStatus {
            cli_installed: false,
            cli_path: None,
            wallet_dir_exists: false,
            has_keystore: false,
            can_receive: false,
            address: None,
            human_status: "awp-wallet not installed".to_owned(),
        }
    }

    /// The status where the program was found.
    pub fn present(path: String, dir: bool, keystore: bool, address: Option<String>) -> (r: WalletStatus)
        ensures
            present_wallet(r, path@, dir, keystore, match address { Some(a) => Some(a@), None => None }),
    {
        let human_status = if !keystore {
            "awp-wallet installed but no wallet — run `awp-wallet setup`".to_owned()
        } else {
            match &address {
                Some(a) => cat2("awp-wallet ready; agent = ", a.as_str()),
                None => "wallet exists but inaccessible (do NOT re-run setup — overwrites)".to_owned(),
            }
        };
        WalletStatus {
            cli_installed: true,
            cli_path: Some(path),
            wallet_dir_exists: dir,
            has_keystore: keystore,
            can_receive: address.is_some(),
            address,
            human_status,
        }
    }

    /// Starts to look at the wallet.
    pub fn check() -> (r: Step<Checking, WalletStatus>)
        ensures
            r matches Step::Act(Checking::Bin, a) && a@ == ActionV::FindWallet,
    {
        Step::Act(Checking::Bin, Action::FindWallet)
    }

    /// Whether setting up a wallet would overwrite none.
    pub fn safe_to_init(&self) -> (r: bool)
        ensures
            r == !self.has_keystore,
    {
        !self.has_keystore
    }

    /// The command that sets up a wallet.
    pub fn setup_command(&self) -> (r: &'static str)
        ensures
            r@ == setup_v(self.cli_installed, self.has_keystore),
    {
        if !self.cli_installed {
            "git clone https://github.com/awp-core/awp-wallet ~/awp-wallet && cd ~/awp-wallet && bash install.sh && awp-wallet setup"
        } else if self.safe_to_init() {
            "awp-wallet setup"
        } else {
            "(wallet already exists — do not re-init)"
        }
    }

    /// What to do about the wallet.
    pub fn suggestion(&self) -> (r: String)
        ensures
            r@ == suggestion_v(self.cli_installed, self.has_keystore, self.can_receive),
    {
        if !self.cli_installed {
            "Install awp-wallet first: `git clone https://github.com/awp-core/awp-wallet ~/awp-wallet && cd ~/awp-wallet && bash install.sh && awp-wallet setup`.".to_owned()
        } else if !self.has_keystore {
            "Run `awp-wallet setup` to create your wallet.".to_owned()
        } else if !self.can_receive {
            "Wallet exists but unreadable. DO NOT run setup — that overwrites. Investigate awp-wallet install.".to_owned()
        } else {
            "Wallet OK.".to_owned()
        }
    }
}

/// The command that sets up a wallet.
pub open spec fn setup_v(installed: bool, keystore: bool) -> Seq<char> {
    if !installed {
        install_text()
    } else if !keystore {
        "awp-wallet setup"@
    } else {
        "(wallet already exists — do not re-init)"@
    }
}

/// What to do about a wallet.
pub open spec fn suggestion_v(installed: bool, keystore: bool, receive: bool) -> Seq<char> {
    if !installed {
        "Install awp-wallet first: `git clone https://github.com/awp-core/awp-wallet ~/awp-wallet && cd ~/awp-wallet && bash install.sh && awp-wallet setup`."@
    } else if !keystore {
        "Run `awp-wallet setup` to create your wallet."@
    } else if !receive {
        "Wallet exists but unreadable. DO NOT run setup — that overwrites. Investigate awp-wallet install."@
    } else {
        "Wallet OK."@
    }
}

/// A file in a directory.
pub open spec fn path_in(dir: Seq<char>, file: Seq<char>) -> Seq<char> {
    if dir.len() == 0 {
        file
    } else if dir.last() == '/' {
        dir + file
    } else {
        dir + "/"@ + file
    }
}

/// A file in a directory.
pub fn join_path(dir: &str, file: &str) -> (r: String)
    ensures
        r@ == path_in(dir@, file@),
{
    let c = chars_of(dir);
    if c.len() == 0 {
        file.to_owned()
    } else if c[c.len() - 1] == '/' {
        cat2(dir, file)
    } else {
        cat3(dir, "/", file)
    }
}

/// Where the wallet program may be: at the place that is set for it, else in a directory of the search
/// path.
pub open spec fn candidates_v(set: Option<Seq<char>>, search: Option<Seq<char>>) -> Seq<Seq<char>> {
    let dirs = pieces(match search { Some(p) => p, None => Seq::empty() }, ':');
    let found = dirs.map_values(|d: Seq<char>| path_in(d, "awp-wallet"@));
    match set {
        Some(p) => seq![p] + found,
        None => found,
    }
}

/// Where the wallet program may be.
pub fn candidates(set: Option<String>, search: Option<String>) -> (r: Vec<String>)
    ensures
        texts(r@) == candidates_v(
            match set { Some(p) => Some(p@), None => None },
            match search { Some(p) => Some(p@), None => None },
        ),
{
    let path = match search {
        Some(p) => p,
        None => String::new(),
    };
    let dirs = split(path.as_str(), ':');
    let ghost all = texts(dirs@);
    let mut r: Vec<String> = Vec::new();
    let ghost front: Seq<Seq<char>> = Seq::empty();
    match set {
        Some(p) => {
            proof {
                front = seq![p@];
            }
            r.push(p);
            assert(texts(r@) =~= front);
        },
        None => {
            assert(texts(r@) =~= front);
        },
    }
    let n = dirs.len();
    let ghost found = all.map_values(|d: Seq<char>| path_in(d, "awp-wallet"@));
    for i in 0..n
        invariant
            n == dirs@.len(),
            all == texts(dirs@),
            found == all.map_values(|d: Seq<char>| path_in(d, "awp-wallet"@)),
            texts(r@) == front + found.take(i as int),
    {
        let ghost before = texts(r@);
        let p = join_path(dirs[i].as_str(), "awp-wallet");
        r.push(p);
        assert(texts(r@) =~= before.push(found[i as int]));
        assert(texts(r@) =~= front + found.take(i + 1));
    }
    assert(found.take(n as int) =~= found);
    assert(texts(r@) =~= front + found);
    r
}

/// A version: major, minor and patch.
#[derive(Clone, Copy)]
pub struct Version {
    pub major: u32,
    pub minor: u32,
    pub patch: u32,
}

/// One part of a version.
pub open spec fn version_part(p: Seq<char>) -> Result<nat, Seq<Seq<char>>> {
    match parsed_uint(p, 10, u32::MAX as nat) {
        Some(n) => Ok(n),
        None => Err(
            fault_v("awp-wallet version part '"@ + p + "' not numeric: "@ + u32_error_text(p)),
        ),
    }
}

/// The first three parts of a version, or the first error.
pub open spec fn version_v(out: Seq<char>) -> Result<(nat, nat, nat), Seq<Seq<char>>> {
    let t = trimmed(out);
    let p = pieces(t, '.');
    if p.len() < 3 {
        Err(fault_v("unparseable awp-wallet version: '"@ + t + "'"@))
    } else {
        match (version_part(p[0]), version_part(p[1]), version_part(p[2])) {
            (Err(f), _, _) => Err(f),
            (_, Err(f), _) => Err(f),
            (_, _, Err(f)) => Err(f),
            (Ok(a), Ok(b), Ok(c)) => Ok((a, b, c)),
        }
    }
}

/// Reads one part of a version.
fn read_part(p: &str) -> (r: Result<u32, Fault>)
    ensures
        match r {
            Ok(n) => version_part(p@) == Ok::<nat, Seq<Seq<char>>>(n as nat),
            Err(f) => version_part(p@) == Err::<nat, Seq<Seq<char>>>(f@),
        },
{
    match u32_from_text(p) {
        Ok(n) => Ok(n),
        Err(e) => Err(
            Fault::new(cat4("awp-wallet version part '", p, "' not numeric: ", e.as_str())),
        ),
    }
}

/// Reads what `awp-wallet --version` prints.
pub fn awp_wallet_version(out: &str) -> (r: Result<Version, Fault>)
    ensures
        match r {
            Ok(v) => version_v(out@) == Ok::<(nat, nat, nat), Seq<Seq<char>>>(
                (v.major as nat, v.minor as nat, v.patch as nat),
            ),
            Err(f) => version_v(out@) == Err::<(nat, nat, nat), Seq<Seq<char>>>(f@),
        },
{
    let t = trim(out);
    let p = split(t.as_str(), '.');
    assert(texts(p@).len() == p@.len());
    if p.len() < 3 {
        return Err(Fault::new(cat3("unparseable awp-wallet version: '", t.as_str(), "'")));
    }
    assert(texts(p@)[0] == p@[0]@ && texts(p@)[1] == p@[1]@ && texts(p@)[2] == p@[2]@);
    let major = match read_part(p[0].as_str()) {
        Ok(n) => n,
        Err(f) => {
            return Err(f);
        },
    };
    let minor = match read_part(p[1].as_str()) {
        Ok(n) => n,
        Err(f) => {
            return Err(f);
        },
    };
    let patch = match read_part(p[2].as_str()) {
        Ok(n) => n,
        Err(f) => {
            return Err(f);
        },
    };
    Ok(Version { major, minor, patch })
}

/// Whether a version is at least 1.5.0, the first that can send any call.
pub open spec fn recent_enough(a: nat, b: nat, c: nat) -> bool {
    a > 1 || (a == 1 && b >= 5)
}

/// The error of a wallet that is too old.
pub open spec fn too_old_v(a: nat, b: nat, c: nat) -> Seq<Seq<char>> {
    fault_v(
        "awp-wallet "@ + dec_text(a) + "."@ + dec_text(b) + "."@ + dec_text(c)
            + " too old; need >= 1.5.0 (introduces `send-tx` for arbitrary contract calls). Upgrade: `cd ~/awp-wallet && git pull && bash install.sh`"@,
    )
}

/// Whether what `awp-wallet --version` prints is a version that is recent enough.
pub open spec fn min_wallet_v(out: Seq<char>) -> Result<(), Seq<Seq<char>>> {
    match version_v(out) {
        Err(f) => Err(f),
        Ok((a, b, c)) => if recent_enough(a, b, c) {
            Ok(())
        } else {
            Err(too_old_v(a, b, c))
        },
    }
}

/// Refuses a wallet that is too old.
pub fn require_min_wallet(out: &str) -> (r: Result<(), Fault>)
    ensures
        match r {
            Ok(_) => min_wallet_v(out@) is Ok,
            Err(f) => min_wallet_v(out@) == Err::<(), Seq<Seq<char>>>(f@),
        },
{
    let v = match awp_wallet_version(out) {
        Ok(v) => v,
        Err(f) => {
            return Err(f);
        },
    };
    if v.major > 1 || (v.major == 1 && v.minor >= 5) {
        Ok(())
    } else {
        let a = dec(v.major as u64);
        let b = dec(v.minor as u64);
        let c = dec(v.patch as u64);
        Err(
            Fault::new(
                cat7(
                    "awp-wallet ",
                    a.as_str(),
                    ".",
                    b.as_str(),
                    ".",
                    c.as_str(),
                    " too old; need >= 1.5.0 (introduces `send-tx` for arbitrary contract calls). Upgrade: `cd ~/awp-wallet && git pull && bash install.sh`",
                ),
            ),
        )
    }
}

/// The text of a string member, or a default.
pub open spec fn member_str_or(v: JsonV, key: Seq<char>, default: Seq<char>) -> Seq<char> {
    match member_str(v, key) {
        Some(t) => t,
        None => default,
    }
}

/// The arguments that have the wallet send a transaction. The gas limit is passed on where the
/// transaction has one; the nonce never is, for the wallet picks it when it sends.
pub open spec fn send_args_v(tx: JsonV) -> Result<Seq<Seq<char>>, Seq<Seq<char>>> {
    let data = member_str_or(tx, "data"@, "0x"@);
    let value = without_prefixes(member_str_or(tx, "value"@, "0x0"@), "0x"@);
    let chain = match member(tx, "chainId"@) {
        Some(c) => u64_of(c),
        None => None,
    };
    match (member_str(tx, "to"@), chain, parsed_uint(value, 16, u128::MAX as nat)) {
        (None, _, _) => Err(fault_v("tx missing `to`"@)),
        (_, None, _) => Err(fault_v("tx missing `chainId`"@)),
        (_, _, None) => Err(fault_v("invalid `value` hex: "@ + u128_hex_error_text(value))),
        (Some(to), Some(c), Some(v)) => {
            let front = seq![
                "--chain"@,
                dec_text(c),
                "send-tx"@,
                "--to"@,
                to,
                "--data"@,
                data,
                "--value"@,
                dec_text(v),
            ];
            match member_str(tx, "gas"@) {
                None => Ok(front),
                Some(g) => {
                    let digits = without_prefixes(g, "0x"@);
                    match parsed_uint(digits, 16, u64::MAX as nat) {
                        Some(n) => Ok(front + seq!["--gas"@, dec_text(n)]),
                        None => Err(fault_v("invalid `gas`: "@ + u64_hex_error_text(digits))),
                    }
                },
            }
        },
    }
}

/// A list of texts that grows.
fn pushed(v: Vec<String>, t: &str) -> (r: Vec<String>)
    ensures
        texts(r@) == texts(v@).push(t@),
{
    let mut r = v;
    let ghost before = r@;
    let s = t.to_owned();
    r.push(s);
    assert(texts(r@) =~= texts(before).push(t@));
    r
}

/// The arguments that have the wallet send a transaction.
pub fn send_args(tx: &Json) -> (r: Result<Vec<String>, Fault>)
    ensures
        match r {
            Ok(a) => send_args_v(tx@) == Ok::<Seq<Seq<char>>, Seq<Seq<char>>>(texts(a@)),
            Err(f) => send_args_v(tx@) == Err::<Seq<Seq<char>>, Seq<Seq<char>>>(f@),
        },
{
    let to = match tx.get_str("to") {
        Some(t) => t,
        None => {
            return Err(Fault::of("tx missing `to`"));
        },
    };
    let data = match tx.get_str("data") {
        Some(t) => t,
        None => "0x",
    };
    let value_hex = match tx.get_str("value") {
        Some(t) => t,
        None => "0x0",
    };
    let chain = match tx.get("chainId") {
        Some(c) => match c.as_u64() {
            Some(n) => n,
            None => {
                return Err(Fault::of("tx missing `chainId`"));
            },
        },
        None => {
            return Err(Fault::of("tx missing `chainId`"));
        },
    };
    let digits = strip_prefixes(value_hex, "0x");
    let value = match u128_from_hex(digits.as_str()) {
        Ok(n) => n,
        Err(e) => {
            return Err(Fault::new(cat2("invalid `value` hex: ", e.as_str())));
        },
    };
    let chain_text = dec(chain);
    let value_text = dec_u128(value);
    let none: Vec<String> = Vec::new();
    let a = pushed(none, "--chain");
    let a = pushed(a, chain_text.as_str());
    let a = pushed(a, "send-tx");
    let a = pushed(a, "--to");
    let a = pushed(a, to);
    let a = pushed(a, "--data");
    let a = pushed(a, data);
    let a = pushed(a, "--value");
    let a = pushed(a, value_text.as_str());
    proof {
        assert(texts(none@) =~= Seq::<Seq<char>>::empty());
        assert(texts(a@) =~= seq![
            "--chain"@,
            dec_text(chain as nat),
            "send-tx"@,
            "--to"@,
            to@,
            "--data"@,
            data@,
            "--value"@,
            dec_text(value as nat),
        ]);
    }
    match tx.get_str("gas") {
        None => Ok(a),
        Some(g) => {
            let digits = strip_prefixes(g, "0x");
            match u64_from_hex(digits.as_str()) {
                Ok(n) => {
                    let gas_text = dec(n);
                    let ghost front = texts(a@);
                    let a = pushed(a, "--gas");
                    let a = pushed(a, gas_text.as_str());
                    assert(texts(a@) =~= front + seq!["--gas"@, dec_text(n as nat)]);
                    Ok(a)
                },
                Err(e) => Err(Fault::new(cat2("invalid `gas`: ", e.as_str()))),
            }
        },
    }
}

/// The arguments that have the wallet send a transaction do not depend on its nonce.
pub proof fn law_nonce_is_dropped(tx: Map<Seq<char>, JsonV>, nonce: JsonV)
    ensures
        send_args_v(JsonV::Obj(tx.insert("nonce"@, nonce))) == send_args_v(JsonV::Obj(tx)),
{
    reveal_strlit("nonce");
    reveal_strlit("to");
    reveal_strlit("data");
    reveal_strlit("value");
    reveal_strlit("chainId");
    reveal_strlit("gas");
    assert("nonce"@.len() == 5 && "nonce"@[0] == 'n');
    assert("to"@.len() == 2);
    assert("data"@.len() == 4);
    assert("value"@.len() == 5 && "value"@[0] == 'v');
    assert("chainId"@.len() == 7);
    assert("gas"@.len() == 3);
}

/// An exit code as an optional number.
pub open spec fn code_text(code: Option<i32>) -> Seq<char> {
    match code {
        Some(n) => "Some("@ + int_text(n as int) + ")"@,
        None => "None"@,
    }
}

/// An exit code as an optional number.
fn show_code(code: Option<i32>) -> (r: String)
    ensures
        r@ == code_text(code),
{
    match code {
        Some(n) => {
            let t = dec_i64(n as i64);
            cat3("Some(", t.as_str(), ")")
        },
        None => "None".to_owned(),
    }
}

/// The document that a run of the wallet printed, or why there is none. `cmd` is the subcommand.
pub open spec fn wallet_doc(cmd: Seq<char>, end: ProcessEnd) -> Result<JsonV, Seq<Seq<char>>> {
    if !end.success {
        Err(
            fault_v(
                "awp-wallet "@ + cmd + " failed (exit "@ + code_text(end.code) + "): "@ + trimmed(
                    end.stdout@,
                ) + " "@ + trimmed(end.stderr@),
            ),
        )
    } else {
        match json_parsed(trimmed(end.stdout@)) {
            Err(e) => Err(
                fault_v("awp-wallet "@ + cmd + " returned non-JSON: "@ + end.stdout@ + " ("@ + e + ")"@),
            ),
            Ok(v) => Ok(v),
        }
    }
}

/// Reads the document that a run of the wallet printed.
fn read_wallet_doc(cmd: &str, end: &ProcessEnd) -> (r: Result<Json, Fault>)
    ensures
        match r {
            Ok(v) => wallet_doc(cmd@, *end) == Ok::<JsonV, Seq<Seq<char>>>(v@),
            Err(f) => wallet_doc(cmd@, *end) == Err::<JsonV, Seq<Seq<char>>>(f@),
        },
{
    let out = trim(end.stdout.as_str());
    if !end.success {
        let err = trim(end.stderr.as_str());
        let code = show_code(end.code);
        return Err(
            Fault::new(
                cat8(
                    "awp-wallet ",
                    cmd,
                    " failed (exit ",
                    code.as_str(),
                    "): ",
                    out.as_str(),
                    " ",
                    err.as_str(),
                ),
            ),
        );
    }
    match Json::parse(out.as_str()) {
        Ok(v) => Ok(v),
        Err(e) => Err(
            Fault::new(
                cat7(
                    "awp-wallet ",
                    cmd,
                    " returned non-JSON: ",
                    end.stdout.as_str(),
                    " (",
                    e.as_str(),
                    ")",
                ),
            ),
        ),
    }
}

/// The value under the first of the three names that the hash of a transaction has had.
pub open spec fn hash_member(v: JsonV) -> Option<JsonV> {
    if member(v, "txHash"@) is Some {
        member(v, "txHash"@)
    } else if member(v, "transactionHash"@) is Some {
        member(v, "transactionHash"@)
    } else {
        member(v, "hash"@)
    }
}

/// The hash of the transaction that the wallet sent, or why there is none.
pub open spec fn sent_hash(end: ProcessEnd) -> Result<Seq<char>, Seq<Seq<char>>> {
    match wallet_doc("send-tx"@, end) {
        Err(f) => Err(f),
        Ok(v) => match member_str(v, "error"@) {
            Some(e) => Err(fault_v("awp-wallet send-tx reported error: "@ + e)),
            None => match hash_member(v) {
                Some(JsonV::Str(h)) => Ok(h),
                _ => Err(
                    fault_v("awp-wallet send-tx response missing txHash field: "@ + json_text(v)),
                ),
            },
        },
    }
}

/// Reads the hash of the transaction that the wallet sent.
pub fn read_sent(end: &ProcessEnd) -> (r: Result<String, Fault>)
    ensures
        text_result(r) == sent_hash(*end),
{
    let v = match read_wallet_doc("send-tx", end) {
        Ok(v) => v,
        Err(f) => {
            return Err(f);
        },
    };
    match v.get_str("error") {
        Some(e) => {
            return Err(Fault::new(cat2("awp-wallet send-tx reported error: ", e)));
        },
        None => {},
    }
    let found = match v.get("txHash") {
        Some(h) => Some(h),
        None => match v.get("transactionHash") {
            Some(h) => Some(h),
            None => v.get("hash"),
        },
    };
    match found {
        Some(Json::Str(h)) => Ok(h.clone()),
        _ => {
            let t = v.render();
            Err(Fault::new(cat2("awp-wallet send-tx response missing txHash field: ", t.as_str())))
        },
    }
}

/// The signature that the wallet made, or why there is none.
pub open spec fn signature_of(end: ProcessEnd) -> Result<Seq<char>, Seq<Seq<char>>> {
    match wallet_doc("sign-typed-data"@, end) {
        Err(f) => Err(f),
        Ok(v) => match member_str(v, "error"@) {
            Some(e) => Err(fault_v("awp-wallet sign-typed-data error: "@ + e)),
            None => match member_str(v, "signature"@) {
                Some(s) => Ok(s),
                None => Err(
                    fault_v(
                        "awp-wallet sign-typed-data response missing signature: "@ + json_text(v),
                    ),
                ),
            },
        },
    }
}

/// Reads the signature that the wallet made.
pub fn read_signature(end: &ProcessEnd) -> (r: Result<String, Fault>)
    ensures
        text_result(r) == signature_of(*end),
{
    let v = match read_wallet_doc("sign-typed-data", end) {
        Ok(v) => v,
        Err(f) => {
            return Err(f);
        },
    };
    match v.get_str("error") {
        Some(e) => {
            return Err(Fault::new(cat2("awp-wallet sign-typed-data error: ", e)));
        },
        None => {},
    }
    match v.get_str("signature") {
        Some(s) => Ok(s.to_owned()),
        None => {
            let t = v.render();
            Err(
                Fault::new(
                    cat2("awp-wallet sign-typed-data response missing signature: ", t.as_str()),
                ),
            )
        },
    }
}

/// Whether a step ends with this text or error.
pub open spec fn ends_text<S>(r: Step<S, Result<String, Fault>>, x: Result<Seq<char>, Seq<Seq<char>>>) -> bool {
    match r {
        Step::End(t) => text_result(t) == x,
        Step::Act(_, _) => false,
    }
}

/// Finding the wallet program.
pub enum Locate {
    /// Where a place is set for it is asked for.
    Place,
    /// The search path is asked for.
    Search(Option<String>),
    /// The files are looked at.
    Look,
}

/// What comes next when the wallet program is looked for.
pub open spec fn locate_next(s: Locate, reply: Reply, r: Step<Locate, Result<String, Fault>>) -> bool {
    match (s, reply) {
        (Locate::Place, Reply::Maybe(p)) => {
            &&& r matches Step::Act(Locate::Search(q), a)
            &&& q == p
            &&& a@ == ActionV::Env("PATH"@)
        },
        (Locate::Search(set), Reply::Maybe(search)) => {
            &&& r matches Step::Act(Locate::Look, a)
            &&& a@ == ActionV::FirstFile(candidates_v(opt_text_view(set), opt_text_view(search)))
        },
        (Locate::Look, Reply::Maybe(Some(p))) => ends_text(r, Ok(p@)),
        (Locate::Look, Reply::Maybe(None)) => ends_text(
            r,
            Err(fault_v("`awp-wallet` not found on PATH"@)),
        ),
        _ => ends_text(r, Err(stray_v())),
    }
}

/// Starts to look for the wallet program.
pub fn which() -> (r: Step<Locate, Result<String, Fault>>)
    ensures
        r matches Step::Act(Locate::Place, a) && a@ == ActionV::Env("AWP_WALLET_BIN"@),
{
    Step::Act(Locate::Place, Action::Env("AWP_WALLET_BIN".to_owned()))
}

impl Locate {
    /// Goes on with the reply.
    pub fn step(self, reply: Reply) -> (r: Step<Locate, Result<String, Fault>>)
        ensures
            locate_next(self, reply, r),
    {
        match (self, reply) {
            (Locate::Place, Reply::Maybe(p)) => Step::Act(
                Locate::Search(p),
                Action::Env("PATH".to_owned()),
            ),
            (Locate::Search(set), Reply::Maybe(search)) => Step::Act(
                Locate::Look,
                Action::FirstFile(candidates(set, search)),
            ),
            (Locate::Look, Reply::Maybe(found)) => match found {
                Some(p) => Step::End(Ok(p)),
                None => Step::End(Err(Fault::of("`awp-wallet` not found on PATH"))),
            },
            _ => Step::End(Err(stray())),
        }
    }
}

/// The wallet program, or how to install it.
pub open spec fn wallet_bin_v(found: Result<Seq<char>, Seq<Seq<char>>>) -> Result<Seq<char>, Seq<Seq<char>>> {
    match found {
        Ok(p) => Ok(p),
        Err(f) => Err(
            caused_v(
                "awp-wallet not installed. Install via: `git clone https://github.com/awp-core/awp-wallet ~/awp-wallet && cd ~/awp-wallet && bash install.sh && awp-wallet setup`"@,
                f,
            ),
        ),
    }
}

/// The wallet program, or how to install it.
pub fn awp_wallet_bin(found: Result<String, Fault>) -> (r: Result<String, Fault>)
    ensures
        text_result(r) == wallet_bin_v(text_result(found)),
{
    match found {
        Ok(p) => Ok(p),
        Err(f) => Err(
            f.because(
                "awp-wallet not installed. Install via: `git clone https://github.com/awp-core/awp-wallet ~/awp-wallet && cd ~/awp-wallet && bash install.sh && awp-wallet setup`",
            ),
        ),
    }
}

/// Looking at the wallet.
pub enum Checking {
    /// The program is looked for.
    Bin,
    /// The home directory is asked for.
    Home(String),
    /// The directory of the wallet is looked for.
    Dir(String, String),
    /// The wallet itself is looked for.
    Keystore(String, bool),
    /// The program is asked for its address.
    Receive(String, bool, bool),
}

/// The directory of the wallet.
pub open spec fn wallet_dir_v(home: Option<Seq<char>>) -> Seq<char> {
    path_in(match home { Some(h) => h, None => "/root"@ }, ".awp-wallet"@)
}

/// The directory of the wallet.
pub fn wallet_dir(home: Option<String>) -> (r: String)
    ensures
        r@ == wallet_dir_v(opt_text_view(home)),
{
    match home {
        Some(h) => join_path(h.as_str(), ".awp-wallet"),
        None => join_path("/root", ".awp-wallet"),
    }
}

/// One text as a list.
pub fn one(t: &str) -> (r: Vec<String>)
    ensures
        texts(r@) == seq![t@],
{
    let none: Vec<String> = Vec::new();
    let r = pushed(none, t);
    assert(texts(r@) =~= seq![t@]);
    r
}

/// Two texts as a list.
pub fn two(a: &str, b: &str) -> (r: Vec<String>)
    ensures
        texts(r@) == seq![a@, b@],
{
    let r = pushed(one(a), b);
    assert(texts(r@) =~= seq![a@, b@]);
    r
}

/// What comes next when the wallet is looked at.
pub open spec fn checking_next(s: Checking, reply: Reply, r: Step<Checking, WalletStatus>) -> bool {
    match (s, reply) {
        (Checking::Bin, Reply::Text(Ok(p))) => {
            &&& r matches Step::Act(Checking::Home(q), a)
            &&& q == p
            &&& a@ == ActionV::Env("HOME"@)
        },
        (Checking::Home(p), Reply::Maybe(home)) => {
            &&& r matches Step::Act(Checking::Dir(q, d), a)
            &&& q == p
            &&& d@ == wallet_dir_v(opt_text_view(home))
            &&& a@ == ActionV::FirstFile(seq![d@])
        },
        (Checking::Dir(p, d), Reply::Maybe(found)) => {
            &&& r matches Step::Act(Checking::Keystore(q, dir), a)
            &&& q == p
            &&& dir == (found is Some)
            &&& a@ == ActionV::FirstFile(
                seq![path_in(d@, "keystore.json"@), path_in(d@, "wallet.json"@)],
            )
        },
        (Checking::Keystore(p, dir), Reply::Maybe(found)) => {
            &&& r matches Step::Act(Checking::Receive(q, dir2, keystore), a)
            &&& q == p
            &&& dir2 == dir
            &&& keystore == (found is Some)
            &&& a@ == ActionV::Exec(p@, seq!["receive"@])
        },
        (Checking::Receive(p, dir, keystore), Reply::Process(end)) => {
            &&& r matches Step::End(w)
            &&& present_wallet(
                w,
                p@,
                dir,
                keystore,
                match end {
                    Ok(e) => receive_address(e),
                    Err(_) => None,
                },
            )
            &&& w.address matches Some(a) ==> (end matches Ok(e) && (stated_address(e) matches Some(t)
                && is_lower_of(a@, t)))
        },
        _ => r matches Step::End(w) && missing_wallet(w),
    }
}

/// What holds of every status of a wallet.
pub open spec fn status_holds(s: WalletStatus) -> bool {
    &&& s.cli_installed == (s.cli_path is Some)
    &&& s.can_receive == (s.address is Some)
    &&& (s.wallet_dir_exists || s.has_keystore || s.can_receive) ==> s.cli_installed
    &&& (s.human_status@ == "awp-wallet not installed"@) == !s.cli_installed
}

/// The parts of the status of a wallet agree: the program is there if and only if its path is known, it tells an
/// address if and only if there is one, nothing is found without the program, and the words say so. The address
/// is in lower case; where the wallet states it in ASCII, its lower case is the same.
pub proof fn law_wallet_status(s: Checking, reply: Reply, w: WalletStatus)
    requires
        checking_next(s, reply, Step::End(w)),
    ensures
        status_holds(w),
        w.address matches Some(a) ==> (reply matches Reply::Process(Ok(e)) && (stated_address(e) matches Some(t)
            && is_lower_of(a@, t) && (is_ascii_chars(t) ==> ascii_lowered(a@) == a@))),
{
    reveal_strlit("awp-wallet not installed");
    reveal_strlit("awp-wallet installed but no wallet — run `awp-wallet setup`");
    reveal_strlit("awp-wallet ready; agent = ");
    reveal_strlit("wallet exists but inaccessible (do NOT re-run setup — overwrites)");
    let none = "awp-wallet not installed"@;
    assert(none[11] == 'n' && none[0] == 'a');
    assert("awp-wallet installed but no wallet — run `awp-wallet setup`"@[11] == 'i');
    assert("awp-wallet ready; agent = "@[11] == 'r');
    assert("wallet exists but inaccessible (do NOT re-run setup — overwrites)"@[0] == 'w');
    if let Some(a) = w.address {
        assert(("awp-wallet ready; agent = "@ + a@)[11] == 'r');
        if let Reply::Process(Ok(e)) = reply {
            if let Some(t) = stated_address(e) {
                if is_ascii_chars(t) {
                    law_ascii_lower_twice(t);
                }
            }
        }
    }
}

impl Checking {
    /// Goes on with the reply.
    pub fn step(self, reply: Reply) -> (r: Step<Checking, WalletStatus>)
        ensures
            checking_next(self, reply, r),
    {
        match (self, reply) {
            (Checking::Bin, Reply::Text(Ok(p))) => Step::Act(
                Checking::Home(p),
                Action::Env("HOME".to_owned()),
            ),
            (Checking::Home(p), Reply::Maybe(home)) => {
                let d = wallet_dir(home);
                let a = Action::FirstFile(one(d.as_str()));
                Step::Act(Checking::Dir(p, d), a)
            },
            (Checking::Dir(p, d), Reply::Maybe(found)) => {
                let k = join_path(d.as_str(), "keystore.json");
                let w = join_path(d.as_str(), "wallet.json");
                Step::Act(
                    Checking::Keystore(p, found.is_some()),
                    Action::FirstFile(two(k.as_str(), w.as_str())),
                )
            },
            (Checking::Keystore(p, dir), Reply::Maybe(found)) => {
                let a = Action::Exec(p.clone(), one("receive"));
                Step::Act(Checking::Receive(p, dir, found.is_some()), a)
            },
            (Checking::Receive(p, dir, keystore), Reply::Process(end)) => {
                let address = match &end {
                    Ok(e) => read_receive(e),
                    Err(_) => None,
                };
                Step::End(WalletStatus::present(p, dir, keystore, address))
            },
            _ => Step::End(WalletStatus::missing()),
        }
    }
}

/// What the wallet is asked to do.
pub enum Order {
    /// Send a transaction.
    Send,
    /// Sign typed data.
    Sign,
}

/// Having the wallet do something.
pub enum Using {
    /// The program is looked for.
    Bin(Order, Json),
    /// The program is asked for its version.
    Version(Order, Json, String),
    /// It is waited until no other process sends.
    Locked(Json, String),
    /// The program runs.
    Run(Order),
}

/// The error of a program that could not be run.
pub open spec fn not_run_v(order: Order, f: Seq<Seq<char>>) -> Seq<Seq<char>> {
    match order {
        Order::Send => caused_v("failed to invoke `awp-wallet send-tx`"@, f),
        Order::Sign => caused_v("failed to invoke `awp-wallet sign-typed-data`"@, f),
    }
}

/// What comes next when the wallet is used.
pub open spec fn using_next(s: Using, reply: Reply, r: Step<Using, Result<String, Fault>>) -> bool {
    match (s, reply) {
        (Using::Bin(order, doc), Reply::Text(found)) => match wallet_bin_v(text_result(found)) {
            Ok(p) => {
                &&& r matches Step::Act(Using::Version(o, d, q), a)
                &&& o == order
                &&& d == doc
                &&& q@ == p
                &&& a@ == ActionV::Exec(p, seq!["--version"@])
            },
            Err(f) => ends_text(r, Err(f)),
        },
        (Using::Version(order, doc, p), Reply::Process(Ok(end))) => match min_wallet_v(
            end.stdout@,
        ) {
            Err(f) => ends_text(r, Err(f)),
            Ok(_) => match order {
                Order::Send => {
                    &&& r matches Step::Act(Using::Locked(d, q), a)
                    &&& d == doc
                    &&& q == p
                    &&& a@ == ActionV::Lock
                },
                Order::Sign => {
                    &&& r matches Step::Act(Using::Run(Order::Sign), a)
                    &&& a@ == ActionV::Exec(
                        p@,
                        seq!["sign-typed-data"@, "--data"@, json_text(doc@)],
                    )
                },
            },
        },
        (Using::Version(_, _, _), Reply::Process(Err(f))) => ends_text(
            r,
            Err(caused_v("failed to run `awp-wallet --version`"@, f@)),
        ),
        (Using::Locked(doc, p), Reply::Done(Ok(_))) => match send_args_v(doc@) {
            Ok(args) => {
                &&& r matches Step::Act(Using::Run(Order::Send), a)
                &&& a@ == ActionV::Exec(p@, args)
            },
            Err(f) => ends_text(r, Err(f)),
        },
        (Using::Locked(_, _), Reply::Done(Err(f))) => ends_text(r, Err(f@)),
        (Using::Run(order), Reply::Process(Ok(end))) => match order {
            Order::Send => ends_text(r, sent_hash(end)),
            Order::Sign => ends_text(r, signature_of(end)),
        },
        (Using::Run(order), Reply::Process(Err(f))) => ends_text(r, Err(not_run_v(order, f@))),
        _ => ends_text(r, Err(stray_v())),
    }
}

/// Starts to have the wallet sign and send a transaction.
pub fn send_tx(tx: Json) -> (r: Step<Using, Result<String, Fault>>)
    ensures
        r matches Step::Act(Using::Bin(Order::Send, d), a) && d == tx && a@ == ActionV::FindWallet,
{
    Step::Act(Using::Bin(Order::Send, tx), Action::FindWallet)
}

/// Starts to have the wallet sign typed data.
pub fn sign_typed_data(typed: Json) -> (r: Step<Using, Result<String, Fault>>)
    ensures
        r matches Step::Act(Using::Bin(Order::Sign, d), a) && d == typed && a@
            == ActionV::FindWallet,
{
    Step::Act(Using::Bin(Order::Sign, typed), Action::FindWallet)
}

impl Using {
    /// Goes on with the reply.
    pub fn step(self, reply: Reply) -> (r: Step<Using, Result<String, Fault>>)
        ensures
            using_next(self, reply, r),
    {
        match (self, reply) {
            (Using::Bin(order, doc), Reply::Text(found)) => match awp_wallet_bin(found) {
                Ok(p) => {
                    let a = Action::Exec(p.clone(), one("--version"));
                    Step::Act(Using::Version(order, doc, p), a)
                },
                Err(f) => Step::End(Err(f)),
            },
            (Using::Version(order, doc, p), Reply::Process(Ok(end))) => match require_min_wallet(
                end.stdout.as_str(),
            ) {
                Err(f) => Step::End(Err(f)),
                Ok(_) => match order {
                    Order::Send => Step::Act(Using::Locked(doc, p), Action::Lock),
                    Order::Sign => {
                        let payload = doc.render();
                        let args = pushed(two("sign-typed-data", "--data"), payload.as_str());
                        assert(texts(args@) =~= seq![
                            "sign-typed-data"@,
                            "--data"@,
                            json_text(doc@),
                        ]);
                        Step::Act(Using::Run(Order::Sign), Action::Exec(p, args))
                    },
                },
            },
            (Using::Version(_, _, _), Reply::Process(Err(f))) => Step::End(
                Err(f.because("failed to run `awp-wallet --version`")),
            ),
            (Using::Locked(doc, p), Reply::Done(Ok(_))) => match send_args(&doc) {
                Ok(args) => Step::Act(Using::Run(Order::Send), Action::Exec(p, args)),
                Err(f) => Step::End(Err(f)),
            },
            (Using::Locked(_, _), Reply::Done(Err(f))) => Step::End(Err(f)),
            (Using::Run(order), Reply::Process(Ok(end))) => match order {
                Order::Send => Step::End(read_sent(&end)),
                Order::Sign => Step::End(read_signature(&end)),
            },
            (Using::Run(order), Reply::Process(Err(f))) => match order {
                Order::Send => Step::End(Err(f.because("failed to invoke `awp-wallet send-tx`"))),
                Order::Sign => Step::End(
                    Err(f.because("failed to invoke `awp-wallet sign-typed-data`")),
                ),
            },
            _ => Step::End(Err(stray())),
        }
    }
}

/// Version 1.5.0 of the wallet and any later one will do, and no earlier one.
pub proof fn law_wallet_version_is_ordered(a: nat, b: nat, c: nat, x: nat, y: nat, z: nat)
    requires
        a < x || (a == x && b < y) || (a == x && b == y && c <= z),
    ensures
        recent_enough(1, 5, 0),
        recent_enough(a, b, c) ==> recent_enough(x, y, z),
        recent_enough(a, b, c) <==> (a > 1 || (a == 1 && b > 5) || (a == 1 && b == 5 && c >= 0)),
{
}

/// The wallet's program is looked for first where it is set, then in the directories of the search path, in their order.
pub proof fn law_wallet_is_looked_for_in_order(set: Seq<char>, search: Seq<char>, k: int)
    requires
        0 <= k < pieces(search, ':').len(),
    ensures
        candidates_v(Some(set), Some(search))[0] == set,
        candidates_v(Some(set), Some(search))[k + 1] == path_in(pieces(search, ':')[k], "awp-wallet"@),
        candidates_v(None, Some(search))[k] == path_in(pieces(search, ':')[k], "awp-wallet"@),
{
}

/// A wallet that exists is never to be set up anew.
pub proof fn law_setup_never_overwrites(installed: bool, keystore: bool)
    ensures
        setup_v(installed, keystore) == "awp-wallet setup"@ ==> installed && !keystore,
{
    reveal_strlit("awp-wallet setup");
    reveal_strlit("(wallet already exists — do not re-init)");
    reveal_strlit("git clone https://github.com/awp-core/awp-wallet ~/awp-wallet && cd ~/awp-wallet && bash install.sh && awp-wallet setup");
    assert("awp-wallet setup"@[0] == 'a');
    assert("(wallet already exists — do not re-init)"@[0] == '(');
    assert("git clone https://github.com/awp-core/awp-wallet ~/awp-wallet && cd ~/awp-wallet && bash install.sh && awp-wallet setup"@[0] == 'g');
}

/// The wallet sends only once its version is known to do and no other process sends, and then with the arguments of the
/// document that it was handed; it signs the document that it was handed. Either way what the program tells is what comes
/// back.
pub proof fn law_wallet_runs_what_it_was_handed(s: Using, reply: Reply, r: Step<Using, Result<String, Fault>>)
    requires
        using_next(s, reply, r),
    ensures
        r matches Step::Act(Using::Version(order, doc, _), a) ==> s == Using::Bin(order, doc) && (a@ matches ActionV::Exec(
            _,
            args,
        ) && args == seq!["--version"@]),
        r matches Step::Act(Using::Locked(doc, p), a) ==> s == Using::Version(Order::Send, doc, p) && a@ == ActionV::Lock && (
        reply matches Reply::Process(Ok(end)) && min_wallet_v(end.stdout@) is Ok),
        r matches Step::Act(Using::Run(Order::Send), a) ==> (s matches Using::Locked(doc, p) && (reply matches Reply::Done(
            Ok(_),
        )) && (a@ matches ActionV::Exec(q, args) && q == p@ && send_args_v(doc@) == Ok::<Seq<Seq<char>>, Seq<Seq<char>>>(
            args,
        ))),
        r matches Step::Act(Using::Run(Order::Sign), a) ==> (s matches Using::Version(Order::Sign, doc, p) && a@
            == ActionV::Exec(p@, seq!["sign-typed-data"@, "--data"@, json_text(doc@)])),
        s matches Using::Run(Order::Send) ==> (reply matches Reply::Process(Ok(end)) ==> (r matches Step::End(x)
            && text_result(x) == sent_hash(end))),
        s matches Using::Run(Order::Sign) ==> (reply matches Reply::Process(Ok(end)) ==> (r matches Step::End(x)
            && text_result(x) == signature_of(end))),
{
}

/// The hash of a transaction is the one that the wallet tells, under any of its names, and a failure or an error of the
/// wallet is an error.
pub proof fn law_hash_is_what_the_wallet_tells(end: ProcessEnd, v: JsonV, h: Seq<char>)
    requires
        json_parsed(trimmed(end.stdout@)) == Ok::<JsonV, Seq<char>>(v),
    ensures
        !end.success ==> sent_hash(end) is Err && signature_of(end) is Err,
        member_str(v, "error"@) is Some ==> sent_hash(end) is Err && signature_of(end) is Err,
        end.success && member_str(v, "error"@) is None && member(v, "txHash"@) == Some(JsonV::Str(h)) ==> sent_hash(end)
            == Ok::<Seq<char>, Seq<Seq<char>>>(h),
        end.success && member_str(v, "error"@) is None && member(v, "txHash"@) is None && member(v, "transactionHash"@)
            == Some(JsonV::Str(h)) ==> sent_hash(end) == Ok::<Seq<char>, Seq<Seq<char>>>(h),
        end.success && member_str(v, "error"@) is None && member(v, "txHash"@) is None && member(v, "transactionHash"@)
            is None && member(v, "hash"@) == Some(JsonV::Str(h)) ==> sent_hash(end) == Ok::<Seq<char>, Seq<Seq<char>>>(h),
        end.success && member_str(v, "error"@) is None && member(v, "signature"@) == Some(JsonV::Str(h)) ==> signature_of(
            end,
        ) == Ok::<Seq<char>, Seq<Seq<char>>>(h),
{
}

/// A wallet that is looked at is told as it was found: the directory, the keystore and the address each by itself.
pub proof fn law_wallet_is_told_as_found(s: Checking, reply: Reply, r: Step<Checking, WalletStatus>)
    requires
        checking_next(s, reply, r),
    ensures
        s matches Checking::Receive(p, dir, keystore) ==> (reply matches Reply::Process(_) ==> (r matches Step::End(w)
            && w.cli_installed && w.wallet_dir_exists == dir && w.has_keystore == keystore && w.can_receive == (w.address is Some)
            && (w.cli_path matches Some(q) && q@ == p@))),
        s matches Checking::Dir(p, d) ==> (reply matches Reply::Maybe(found) ==> (r matches Step::Act(
            Checking::Keystore(_, dir),
            _,
        ) && dir == (found is Some))),
        s matches Checking::Keystore(p, dir) ==> (reply matches Reply::Maybe(found) ==> (r matches Step::Act(
            Checking::Receive(_, x, k),
            _,
        ) && x == dir && k == (found is Some))),
{
}

/// What is suggested: to install where nothing is installed, to set up where there is no wallet, never to set up where there is
/// one.
pub proof fn law_suggestion_follows_the_wallet(installed: bool, keystore: bool, receive: bool)
    ensures
        has_prefix(suggestion_v(installed, keystore, receive), "Install"@) <==> !installed,
        has_prefix(suggestion_v(installed, keystore, receive), "Run `awp-wallet setup`"@) <==> installed && !keystore,
        has_prefix(suggestion_v(installed, keystore, receive), "Wallet exists but unreadable. DO NOT run setup"@) <==> installed
            && keystore && !receive,
        has_prefix(suggestion_v(installed, keystore, receive), "Wallet OK"@) <==> installed && keystore && receive,
{
    reveal_strlit("Install");
    reveal_strlit("Run `awp-wallet setup`");
    reveal_strlit("Wallet exists but unreadable. DO NOT run setup");
    reveal_strlit("Wallet OK");
    reveal_strlit("Wallet OK.");
    reveal_strlit("Run `awp-wallet setup` to create your wallet.");
    reveal_strlit(
        "Wallet exists but unreadable. DO NOT run setup — that overwrites. Investigate awp-wallet install.",
    );
    reveal_strlit(
        "Install awp-wallet first: `git clone https://github.com/awp-core/awp-wallet ~/awp-wallet && cd ~/awp-wallet && bash install.sh && awp-wallet setup`.",
    );
    let t = suggestion_v(installed, keystore, receive);
    let a = "Install"@;
    let b = "Run `awp-wallet setup`"@;
    let c = "Wallet exists but unreadable. DO NOT run setup"@;
    let d = "Wallet OK"@;
    assert(a[0] == 'I' && b[0] == 'R' && c[7] == 'e' && d[7] == 'O' && c[0] == 'W' && d[0] == 'W');
    assert(has_prefix(t, a) ==> t[0] == t.take(a.len() as int)[0]);
    assert(has_prefix(t, b) ==> t[0] == t.take(b.len() as int)[0]);
    assert(has_prefix(t, c) ==> t[0] == t.take(c.len() as int)[0] && t[7] == t.take(c.len() as int)[7]);
    assert(has_prefix(t, d) ==> t[0] == t.take(d.len() as int)[0] && t[7] == t.take(d.len() as int)[7]);
    if !installed {
        assert(t.take(a.len() as int) =~= a);
    } else if !keystore {
        assert(t.take(b.len() as int) =~= b);
    } else if !receive {
        assert(t.take(c.len() as int) =~= c);
    } else {
        assert(t.take(d.len() as int) =~= d);
    }
}

/// A file in a directory begins with the directory and ends with the file.
pub proof fn law_path_is_directory_then_file(dir: Seq<char>, file: Seq<char>)
    ensures
        has_prefix(path_in(dir, file), dir),
        path_in(dir, file).skip(path_in(dir, file).len() - file.len()) == file,
        path_in(dir, file).len() <= dir.len() + 1 + file.len(),
        dir.len() > 0 ==> path_in(dir, file)[path_in(dir, file).len() - file.len() - 1] == '/',
{
    reveal_strlit("/");
    let p = path_in(dir, file);
    assert(p.take(dir.len() as int) =~= dir);
    assert(p.skip(p.len() - file.len()) =~= file);
}

/// A wallet that is too old is named by its version, the greatest part first.
pub proof fn law_old_version_is_named(a: nat, b: nat, c: nat)
    ensures
        too_old_v(a, b, c).len() > 0,
        has_prefix(too_old_v(a, b, c)[0], "awp-wallet "@ + dec_text(a) + "."@ + dec_text(b) + "."@ + dec_text(c)),
{
    let head = "awp-wallet "@ + dec_text(a) + "."@ + dec_text(b) + "."@ + dec_text(c);
    assert(too_old_v(a, b, c)[0].take(head.len() as int) =~= head);
}

/// A version is read part by part from the left, and a wallet is refused exactly where its version is before 1.5.
pub proof fn law_version_parts_are_read_in_order(out: Seq<char>)
    ensures
        version_v(out) matches Ok(v) ==> ({
            let p = pieces(trimmed(out), '.');
            &&& p.len() >= 3
            &&& version_part(p[0]) == Ok::<nat, Seq<Seq<char>>>(v.0)
            &&& version_part(p[1]) == Ok::<nat, Seq<Seq<char>>>(v.1)
            &&& version_part(p[2]) == Ok::<nat, Seq<Seq<char>>>(v.2)
            &&& min_wallet_v(out) is Ok <==> v.0 > 1 || (v.0 == 1 && v.1 >= 5)
            &&& min_wallet_v(out) matches Err(f) ==> f.len() > 0 && has_prefix(
                f[0],
                "awp-wallet "@ + dec_text(v.0) + "."@ + dec_text(v.1) + "."@ + dec_text(v.2),
            )
        }),
{
    if let Ok(v) = version_v(out) {
        law_old_version_is_named(v.0, v.1, v.2);
    }
}

} // verus!
