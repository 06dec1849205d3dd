//! The two secrets that the client keeps on the device (the session token
//! and the history key): their exact shapes, where they are stored, and the
//! in-memory cache in front of the operating system's store.

use vstd::prelude::*;
use vstd::string::*;
use vstd::utf8::encode_utf8;
use crate::account::{check_session_token_shape, session_token_ok};
use crate::hex::{decode_hex, hex_decode};
use crate::text::{all_ascii_hex, all_hex_digits, chars_of};

verus! {

broadcast use vstd::string::group_string_axioms;

/// Account name of the session token.
pub const SESSION_KEY: &'static str = "session-token";

/// Account name of the history encryption key.
pub const HISTORY_KEY: &'static str = "history-key";

/// Largest secret file that is read, in bytes.
pub const MAX_SECRET_FILE: u64 = 128;

/// A stored secret has the exact shape of its account: a session token, or
/// 64 hexadecimal digits for the history key. Other accounts hold nothing.
pub open spec fn secret_value_ok(account: Seq<char>, value: Seq<char>) -> bool {
    if account == SESSION_KEY@ {
        session_token_ok(value)
    } else if account == HISTORY_KEY@ {
        value.len() == 64 && all_ascii_hex(value)
    } else {
        false
    }
}

fn is_account(account: &str, name: &str) -> (r: bool)
    ensures
        r == (account@ == name@),
{
    String::from_str(account) == String::from_str(name)
}

pub fn valid_secret_value(account: &str, value: &str) -> (r: bool)
    ensures
        r == secret_value_ok(account@, value@),
{
    if is_account(account, SESSION_KEY) {
        check_session_token_shape(value)
    } else if is_account(account, HISTORY_KEY) {
        let v = chars_of(value);
        v.len() == 64 && all_hex_digits(&v)
    } else {
        false
    }
}

/// The file that holds the secret of `account` in the private directory.
pub fn secret_filename(account: &str) -> (r: Result<&'static str, String>)
    ensures
        account@ == SESSION_KEY@ ==> (r matches Ok(f) && f@ == "session-token.secret"@),
        account@ == HISTORY_KEY@ ==> (r matches Ok(f) && f@ == "history-key.secret"@),
        account@ != SESSION_KEY@ && account@ != HISTORY_KEY@ ==> (r matches Err(e) && e@
            == "로컬 보안 정보 이름이 올바르지 않습니다."@),
{
    proof {
        lemma_keys_differ();
    }
    if is_account(account, SESSION_KEY) {
        Ok("session-token.secret")
    } else if is_account(account, HISTORY_KEY) {
        Ok("history-key.secret")
    } else {
        Err(String::from_str("로컬 보안 정보 이름이 올바르지 않습니다."))
    }
}

pub open spec fn msg_secret_invalid() -> Seq<char> {
    "로컬 보안 정보가 올바르지 않습니다."@
}

proof fn lemma_keys_differ()
    ensures
        SESSION_KEY@ != HISTORY_KEY@,
{
    reveal_strlit("session-token");
    reveal_strlit("history-key");
    assert(SESSION_KEY@.len() != HISTORY_KEY@.len());
}

/// A secret file must be at most `MAX_SECRET_FILE` bytes long.
pub fn check_secret_file_len(len: u64) -> (r: Result<(), String>)
    ensures
        len <= MAX_SECRET_FILE <==> r is Ok,
        r matches Err(e) ==> e@ == msg_secret_invalid(),
{
    if len > MAX_SECRET_FILE {
        Err(String::from_str("로컬 보안 정보가 올바르지 않습니다."))
    } else {
        Ok(())
    }
}

/// A secret read back (or about to be stored) must have its account's shape.
pub fn check_secret_value(account: &str, value: &str) -> (r: Result<(), String>)
    ensures
        secret_value_ok(account@, value@) <==> r is Ok,
        r matches Err(e) ==> e@ == msg_secret_invalid(),
{
    if valid_secret_value(account, value) {
        Ok(())
    } else {
        Err(String::from_str("로컬 보안 정보가 올바르지 않습니다."))
    }
}

/// A private path must be of the expected kind, owned by this user, and
/// closed to group and others.
pub open spec fn private_path_verdict(directory: bool, is_dir: bool, is_file: bool, uid: u32, euid: u32, mode: u32) -> Result<
    (),
    Seq<char>,
> {
    if (directory && !is_dir) || (!directory && !is_file) {
        Err("로컬 보안 저장소 경로가 올바르지 않습니다."@)
    } else if uid != euid || mode & 0o077u32 != 0 {
        Err("로컬 보안 저장소 권한이 안전하지 않습니다."@)
    } else {
        Ok(())
    }
}

pub fn check_private_path(directory: bool, is_dir: bool, is_file: bool, uid: u32, euid: u32, mode: u32) -> (r:
    Result<(), String>)
    ensures
        match private_path_verdict(directory, is_dir, is_file, uid, euid, mode) {
            Ok(()) => r is Ok,
            Err(m) => r matches Err(e) && e@ == m,
        },
{
    if (directory && !is_dir) || (!directory && !is_file) {
        return Err(String::from_str("로컬 보안 저장소 경로가 올바르지 않습니다."));
    }
    if uid != euid || mode & 0o077u32 != 0 {
        return Err(String::from_str("로컬 보안 저장소 권한이 안전하지 않습니다."));
    }
    Ok(())
}

/// The 32-byte history key that the stored text spells, or an error.
pub fn history_key_bytes(value: &str) -> (r: Result<Vec<u8>, String>)
    ensures
        match hex_decode(value@) {
            Some(b) => if b.len() == 32 {
                r matches Ok(k) && k@ == b
            } else {
                r matches Err(e) && e@ == "클립보드 암호화 키가 올바르지 않습니다."@
            },
            None => r matches Err(e) && e@ == "클립보드 암호화 키가 올바르지 않습니다."@,
        },
{
    match decode_hex(value) {
        Some(b) => {
            if b.len() == 32 {
                Ok(b)
            } else {
                Err(String::from_str("클립보드 암호화 키가 올바르지 않습니다."))
            }
        },
        None => Err(String::from_str("클립보드 암호화 키가 올바르지 않습니다.")),
    }
}

/// What the cache knows of the two secrets: `None` until it was read from
/// (or written to) the store.
pub struct SecretCacheView {
    pub session: Option<Seq<char>>,
    pub history_key: Option<Seq<char>>,
}

/// In-memory copies of the two secrets.
pub struct SecretCache {
    session: Option<String>,
    history_key: Option<String>,
}

pub open spec fn opt_chars(o: Option<String>) -> Option<Seq<char>> {
    match o {
        Some(s) => Some(s@),
        None => None,
    }
}

/// The slot that `account` uses: the session slot for the session token,
/// the history-key slot for every other name.
pub open spec fn cached_for(c: SecretCacheView, account: Seq<char>) -> Option<Seq<char>> {
    if account == SESSION_KEY@ {
        c.session
    } else {
        c.history_key
    }
}

pub open spec fn with_cached(c: SecretCacheView, account: Seq<char>, v: Seq<char>) -> SecretCacheView {
    if account == SESSION_KEY@ {
        SecretCacheView { session: Some(v), history_key: c.history_key }
    } else {
        SecretCacheView { session: c.session, history_key: Some(v) }
    }
}

impl View for SecretCache {
    type V = SecretCacheView;

    closed spec fn view(&self) -> SecretCacheView {
        SecretCacheView { session: opt_chars(self.session), history_key: opt_chars(self.history_key) }
    }
}

fn clone_opt(o: &Option<String>) -> (r: Option<String>)
    ensures
        opt_chars(r) == opt_chars(*o),
{
    match o {
        Some(s) => Some(s.clone()),
        None => None,
    }
}

impl SecretCache {
    pub fn new() -> (r: SecretCache)
        ensures
            r@.session is None,
            r@.history_key is None,
    {
        SecretCache { session: None, history_key: None }
    }

    /// The cached secret of `account`; `None` means it must be read from the store.
    pub fn get_secret(&self, account: &str) -> (r: Option<String>)
        ensures
            opt_chars(r) == cached_for(self@, account@),
    {
        if is_account(account, SESSION_KEY) {
            clone_opt(&self.session)
        } else {
            clone_opt(&self.history_key)
        }
    }

    /// Remembers the secret of `account` once the store holds it (or after it
    /// was read from the store).
    pub fn set_secret(&mut self, account: &str, value: &str)
        ensures
            final(self)@ == with_cached(old(self)@, account@, value@),
    {
        if is_account(account, SESSION_KEY) {
            self.session = Some(String::from_str(value));
        } else {
            self.history_key = Some(String::from_str(value));
        }
    }

    /// Remembers that `account` holds nothing, before the store entry is removed.
    pub fn delete_secret(&mut self, account: &str)
        ensures
            final(self)@ == with_cached(old(self)@, account@, Seq::empty()),
    {
        if is_account(account, SESSION_KEY) {
            self.session = Some(String::new());
        } else {
            self.history_key = Some(String::new());
        }
    }

    /// The cached session token, if known.
    pub fn session_token(&self) -> (r: Option<String>)
        ensures
            opt_chars(r) == self@.session,
    {
        clone_opt(&self.session)
    }
}

/// What was written is what is read back, without going to the store.
pub proof fn law_read_gives_back_write(c: SecretCacheView, account: Seq<char>, v: Seq<char>)
    ensures
        cached_for(with_cached(c, account, v), account) == Some(v),
{
}

/// After a secret is deleted, reading it gives the empty text.
pub proof fn law_deleted_reads_empty(c: SecretCacheView, account: Seq<char>)
    ensures
        cached_for(with_cached(c, account, Seq::empty()), account) == Some(Seq::<char>::empty()),
{
}

/// Writing the session token leaves the history key alone, and the other way round.
pub proof fn law_secrets_are_separate(c: SecretCacheView, v: Seq<char>)
    ensures
        cached_for(with_cached(c, SESSION_KEY@, v), HISTORY_KEY@) == c.history_key,
        cached_for(with_cached(c, HISTORY_KEY@, v), SESSION_KEY@) == c.session,
{
    lemma_keys_differ();
}

} // verus!
