//! Signing in, changing the password, and saving preferences.

use vstd::prelude::*;
use vstd::string::*;
use vstd::utf8::encode_utf8;
use crate::settings::{Settings, MAX_HISTORY_LIMIT};
use crate::shortcut::{shortcut_verdict, validate_shortcut};
use crate::text::{chars_of, has_control, range_has_control, starts_with, utf16_len, utf16_len_capped, utf8_len_capped, vec_starts_with};
use crate::transfer::{is_success, message_with_status, with_status, TOO_MANY_REQUESTS, UNAUTHORIZED};

verus! {

broadcast use vstd::string::group_string_axioms;

/// Longest password, in UTF-16 code units (and, at sign-in, in UTF-8 bytes).
pub const MAX_PASSWORD_LEN: usize = 256;

/// Shortest new password, in UTF-16 code units.
pub const MIN_NEW_PASSWORD_LEN: usize = 8;

pub open spec fn msg_current_password() -> Seq<char> {
    "현재 비밀번호를 입력해 주세요."@
}

pub open spec fn msg_new_password() -> Seq<char> {
    "비밀번호는 제어 문자를 제외하고 8자 이상 입력해 주세요."@
}

pub open spec fn msg_same_password() -> Seq<char> {
    "현재 비밀번호와 다른 비밀번호를 입력해 주세요."@
}

pub open spec fn msg_expired() -> Seq<char> {
    "로그인이 만료되었습니다. 다시 로그인해 주세요."@
}

pub open spec fn msg_credentials() -> Seq<char> {
    "아이디 또는 비밀번호를 확인해 주세요."@
}

/// The current password must be given and be at most 256 UTF-16 units long.
pub open spec fn current_password_ok(p: Seq<char>) -> bool {
    p.len() > 0 && utf16_len(p) <= MAX_PASSWORD_LEN
}

/// A new password has 8 to 256 UTF-16 units and no control character.
pub open spec fn new_password_ok(p: Seq<char>) -> bool {
    MIN_NEW_PASSWORD_LEN <= utf16_len(p) <= MAX_PASSWORD_LEN && !has_control(p)
}

pub fn validate_current_password(password: &str) -> (r: Result<(), String>)
    ensures
        current_password_ok(password@) <==> r is Ok,
        r matches Err(e) ==> e@ == msg_current_password(),
{
    let v = chars_of(password);
    if v.len() == 0 || utf16_len_capped(&v, MAX_PASSWORD_LEN + 1) > MAX_PASSWORD_LEN {
        return Err(String::from_str("현재 비밀번호를 입력해 주세요."));
    }
    Ok(())
}

pub fn validate_new_password(password: &str) -> (r: Result<(), String>)
    ensures
        new_password_ok(password@) <==> r is Ok,
        r matches Err(e) ==> e@ == msg_new_password(),
{
    let v = chars_of(password);
    let length = utf16_len_capped(&v, MAX_PASSWORD_LEN + 1);
    let n = v.len();
    let control = range_has_control(&v, 0, n);
    assert(v@.subrange(0, n as int) =~= v@);
    if length < MIN_NEW_PASSWORD_LEN || length > MAX_PASSWORD_LEN || control {
        return Err(String::from_str("비밀번호는 제어 문자를 제외하고 8자 이상 입력해 주세요."));
    }
    Ok(())
}

/// A password change needs a valid current password, a valid new password,
/// and the two must differ.
pub fn check_password_change(current: &str, new: &str) -> (r: Result<(), String>)
    ensures
        !current_password_ok(current@) ==> (r matches Err(e) && e@ == msg_current_password()),
        current_password_ok(current@) && !new_password_ok(new@) ==> (r matches Err(e) && e@
            == msg_new_password()),
        current_password_ok(current@) && new_password_ok(new@) && current@ == new@ ==> (r matches Err(
            e,
        ) && e@ == msg_same_password()),
        current_password_ok(current@) && new_password_ok(new@) && current@ != new@ ==> r is Ok,
{
    if let Err(e) = validate_current_password(current) {
        return Err(e);
    }
    if let Err(e) = validate_new_password(new) {
        return Err(e);
    }
    if String::from_str(current) == String::from_str(new) {
        return Err(String::from_str("현재 비밀번호와 다른 비밀번호를 입력해 주세요."));
    }
    Ok(())
}

/// A password change needs a stored session.
pub fn require_session_for_password_change(token: &str) -> (r: Result<(), String>)
    ensures
        token@.len() > 0 <==> r is Ok,
        r matches Err(e) ==> e@ == "다시 로그인해 주세요."@,
{
    if token.unicode_len() == 0 {
        Err(String::from_str("다시 로그인해 주세요."))
    } else {
        Ok(())
    }
}

/// A sync that a user starts needs a stored session.
pub fn require_session_for_sync(token: &str) -> (r: Result<(), String>)
    ensures
        token@.len() > 0 <==> r is Ok,
        r matches Err(e) ==> e@ == "로그인이 필요합니다."@,
{
    if token.unicode_len() == 0 {
        Err(String::from_str("로그인이 필요합니다."))
    } else {
        Ok(())
    }
}

/// The error of the server's answer to a password change, from its status
/// and the `error` code of its body; `None` on success.
pub open spec fn password_change_failure(status: u16, status_text: Seq<char>, code: Option<Seq<char>>) -> Option<
    Seq<char>,
> {
    if is_success(status) {
        None
    } else if code == Some("current_password_invalid"@) || code == Some("invalid_credentials"@) {
        Some("현재 비밀번호가 맞지 않습니다."@)
    } else if code == Some("password_unchanged"@) {
        Some(msg_same_password())
    } else if code == Some("password_invalid"@) {
        Some(msg_new_password())
    } else if status == UNAUTHORIZED {
        Some(msg_expired())
    } else if status == TOO_MANY_REQUESTS {
        Some("요청이 많습니다. 잠시 후 다시 시도해 주세요."@)
    } else {
        Some(with_status("비밀번호를 변경하지 못했습니다."@, status_text))
    }
}

pub open spec fn failure_is(r: Option<String>, s: Option<Seq<char>>) -> bool {
    match (r, s) {
        (Some(a), Some(b)) => a@ == b,
        (None, None) => true,
        _ => false,
    }
}

fn text_is(s: &String, lit: &str) -> (r: bool)
    ensures
        r == (s@ == lit@),
{
    *s == String::from_str(lit)
}

pub fn password_change_error(status: u16, status_text: &str, code: Option<&str>) -> (r: Option<String>)
    ensures
        failure_is(
            r,
            password_change_failure(
                status,
                status_text@,
                match code {
                    Some(c) => Some(c@),
                    None => None,
                },
            ),
        ),
{
    if 200 <= status && status <= 299 {
        return None;
    }
    match code {
        Some(c) => {
            let c = String::from_str(c);
            if text_is(&c, "current_password_invalid") || text_is(&c, "invalid_credentials") {
                return Some(String::from_str("현재 비밀번호가 맞지 않습니다."));
            }
            if text_is(&c, "password_unchanged") {
                return Some(String::from_str("현재 비밀번호와 다른 비밀번호를 입력해 주세요."));
            }
            if text_is(&c, "password_invalid") {
                return Some(
                    String::from_str("비밀번호는 제어 문자를 제외하고 8자 이상 입력해 주세요."),
                );
            }
        },
        None => {},
    }
    if status == UNAUTHORIZED {
        return Some(String::from_str("로그인이 만료되었습니다. 다시 로그인해 주세요."));
    }
    if status == TOO_MANY_REQUESTS {
        return Some(String::from_str("요청이 많습니다. 잠시 후 다시 시도해 주세요."));
    }
    Some(message_with_status("비밀번호를 변경하지 못했습니다.", status_text))
}

/// A sign-in password is given and at most 256 bytes long.
pub open spec fn login_password_ok(p: Seq<char>) -> bool {
    p.len() > 0 && encode_utf8(p).len() <= MAX_PASSWORD_LEN
}

pub fn check_login_password(password: &str) -> (r: Result<(), String>)
    ensures
        login_password_ok(password@) <==> r is Ok,
        r matches Err(e) ==> e@ == msg_credentials(),
{
    let v = chars_of(password);
    let n = v.len();
    if n == 0 || utf8_len_capped(&v, 0, n, MAX_PASSWORD_LEN + 1) > MAX_PASSWORD_LEN {
        assert(v@.subrange(0, n as int) =~= v@);
        return Err(String::from_str("아이디 또는 비밀번호를 확인해 주세요."));
    }
    assert(v@.subrange(0, n as int) =~= v@);
    Ok(())
}

/// The error of the server's answer to a sign-in; `None` on success.
pub open spec fn login_failure(status: u16, status_text: Seq<char>) -> Option<Seq<char>> {
    if status == UNAUTHORIZED {
        Some(msg_credentials())
    } else if status == TOO_MANY_REQUESTS {
        Some("로그인 시도가 많습니다. 잠시 후 다시 시도해 주세요."@)
    } else if !is_success(status) {
        Some(with_status("로그인 서버가 응답하지 않았습니다."@, status_text))
    } else {
        None
    }
}

pub fn login_error(status: u16, status_text: &str) -> (r: Option<String>)
    ensures
        failure_is(r, login_failure(status, status_text@)),
{
    if status == UNAUTHORIZED {
        Some(String::from_str("아이디 또는 비밀번호를 확인해 주세요."))
    } else if status == TOO_MANY_REQUESTS {
        Some(String::from_str("로그인 시도가 많습니다. 잠시 후 다시 시도해 주세요."))
    } else if !(200 <= status && status <= 299) {
        Some(message_with_status("로그인 서버가 응답하지 않았습니다.", status_text))
    } else {
        None
    }
}

/// A session token is `smc_` followed by 43 more bytes.
pub open spec fn session_token_ok(t: Seq<char>) -> bool {
    starts_with(t, "smc_"@) && encode_utf8(t).len() == 47
}

pub fn check_session_token_shape(token: &str) -> (r: bool)
    ensures
        r == session_token_ok(token@),
{
    let v = chars_of(token);
    let n = v.len();
    let ok = vec_starts_with(&v, &chars_of("smc_")) && utf8_len_capped(&v, 0, n, 48) == 47;
    assert(v@.subrange(0, n as int) =~= v@);
    ok
}

/// The token that a sign-in answer carries must have the session shape.
pub fn check_login_token(token: &str) -> (r: Result<(), String>)
    ensures
        session_token_ok(token@) <==> r is Ok,
        r matches Err(e) ==> e@ == "로그인 응답이 올바르지 않습니다."@,
{
    if !check_session_token_shape(token) {
        return Err(String::from_str("로그인 응답이 올바르지 않습니다."));
    }
    Ok(())
}

/// `s` with every trailing `/` removed (`str::trim_end_matches('/')`).
pub open spec fn without_trailing_slashes(s: Seq<char>) -> Seq<char>
    decreases s.len(),
{
    if s.len() > 0 && s.last() == '/' {
        without_trailing_slashes(s.drop_last())
    } else {
        s
    }
}

proof fn lemma_strip_slashes(s: Seq<char>, j: int)
    requires
        0 <= j <= s.len(),
        forall|k: int| j <= k < s.len() ==> s[k] == '/',
    ensures
        without_trailing_slashes(s) == without_trailing_slashes(s.subrange(0, j)),
    decreases s.len() - j,
{
    if j == s.len() {
        assert(s.subrange(0, j) =~= s);
    } else {
        let t = s.drop_last();
        assert(t =~= s.subrange(0, s.len() - 1));
        lemma_strip_slashes(t, j);
        assert(t.subrange(0, j) =~= s.subrange(0, j));
    }
}

pub fn trim_trailing_slashes(s: &str) -> (r: String)
    ensures
        r@ == without_trailing_slashes(s@),
{
    let v = chars_of(s);
    let mut b = v.len();
    while b > 0 && v[b - 1] == '/'
        invariant
            b <= v@.len(),
            v@ == s@,
            forall|k: int| b <= k < v@.len() ==> v@[k] == '/',
        decreases b,
    {
        b = b - 1;
    }
    proof {
        lemma_strip_slashes(v@, b as int);
        let u = v@.subrange(0, b as int);
        if u.len() > 0 {
            assert(u.last() == v@[b - 1]);
        }
    }
    String::from_str(s.substring_char(0, b))
}

/// Signing in as another user, or to another server, first clears the
/// local history.
pub open spec fn login_needs_purge(settings: Settings, username: Seq<char>, server_url: Seq<char>) -> bool {
    settings.username@ != username || without_trailing_slashes(settings.server_url@)
        != without_trailing_slashes(server_url)
}

pub fn needs_purge_on_login(settings: &Settings, username: &str, server_url: &str) -> (r: bool)
    ensures
        r == login_needs_purge(*settings, username@, server_url@),
{
    settings.username != String::from_str(username) || trim_trailing_slashes(
        settings.server_url.as_str(),
    ) != trim_trailing_slashes(server_url)
}

/// Records a successful sign-in: the server (without trailing slashes), the
/// account, and capture switched on.
pub fn apply_login(settings: &mut Settings, server_url: &str, username: String, display_name: String)
    ensures
        final(settings).server_url@ == without_trailing_slashes(server_url@),
        final(settings).username == username,
        final(settings).display_name == display_name,
        final(settings).enabled,
        final(settings).device_id == old(settings).device_id,
        final(settings).device_name == old(settings).device_name,
        final(settings).shortcut == old(settings).shortcut,
        final(settings).history_limit == old(settings).history_limit,
{
    settings.server_url = trim_trailing_slashes(server_url);
    settings.username = username;
    settings.display_name = display_name;
    settings.enabled = true;
}

/// A shortcut change needs a valid shortcut and a history size of 1 to 500.
pub fn check_preferences(shortcut: &str, history_limit: usize) -> (r: Result<(), String>)
    ensures
        shortcut_verdict(shortcut@) matches Err(m) ==> (r matches Err(e) && e@ == m),
        shortcut_verdict(shortcut@) is Ok && !(1 <= history_limit <= MAX_HISTORY_LIMIT) ==> (r matches Err(
            e,
        ) && e@ == "최근 기록 개수는 1개에서 500개 사이로 입력해 주세요."@),
        shortcut_verdict(shortcut@) is Ok && 1 <= history_limit <= MAX_HISTORY_LIMIT ==> r is Ok,
{
    if let Err(e) = validate_shortcut(shortcut) {
        return Err(e);
    }
    if !(1 <= history_limit && history_limit <= MAX_HISTORY_LIMIT) {
        return Err(String::from_str("최근 기록 개수는 1개에서 500개 사이로 입력해 주세요."));
    }
    Ok(())
}

/// What saving preferences does to the local history.
#[derive(PartialEq, Eq, Structural, Clone, Copy, Debug)]
pub enum HistoryCleanup {
    /// Capture was switched off: the local history is removed.
    Purge,
    /// Otherwise the history is trimmed to the chosen size.
    Trim,
}

pub fn history_cleanup(previously_enabled: bool, enabled: bool) -> (r: HistoryCleanup)
    ensures
        r == if previously_enabled && !enabled {
            HistoryCleanup::Purge
        } else {
            HistoryCleanup::Trim
        },
{
    if previously_enabled && !enabled {
        HistoryCleanup::Purge
    } else {
        HistoryCleanup::Trim
    }
}

/// The shortcut to register after the settings change: none when capture is
/// off or no one is signed in, else the configured one once it is valid.
pub fn shortcut_to_register(settings: &Settings, token: &str) -> (r: Result<Option<String>, String>)
    ensures
        !(settings.enabled && token@.len() > 0) ==> r == Ok::<Option<String>, String>(None),
        settings.enabled && token@.len() > 0 ==> match shortcut_verdict(settings.shortcut@) {
            Ok(()) => r == Ok::<Option<String>, String>(Some(settings.shortcut)),
            Err(m) => r matches Err(e) && e@ == m,
        },
{
    if settings.enabled && token.unicode_len() > 0 {
        match validate_shortcut(settings.shortcut.as_str()) {
            Ok(()) => Ok(Some(settings.shortcut.clone())),
            Err(e) => Err(e),
        }
    } else {
        Ok(None)
    }
}

/// The message shown when the server ended the session.
pub fn session_expired_message() -> (r: String)
    ensures
        r@ == msg_expired(),
{
    String::from_str("로그인이 만료되었습니다. 다시 로그인해 주세요.")
}

} // verus!
