//! The server addresses that the client accepts, and the API address of a
//! request.

use vstd::prelude::*;
use vstd::string::*;

verus! {

broadcast use vstd::string::group_string_axioms;

/// The parts of a URL that the address check reads: scheme, host, port
/// (or the scheme's default), user name, whether a password is given, path,
/// and whether a query or a fragment is given.
pub type UrlPartsView = (Seq<char>, Option<Seq<char>>, Option<u16>, Seq<char>, bool, Seq<char>, bool, bool);

/// The parts of `text` parsed as an absolute URL, `None` when it is not one.
pub uninterp spec fn url_parts(text: Seq<char>) -> Option<UrlPartsView>;

/// The serialisation of `text` parsed as a URL, with its path set to `path`
/// and no query; `None` when `text` is not a URL.
pub uninterp spec fn url_with_path(text: Seq<char>, path: Seq<char>) -> Option<Seq<char>>;

/// The parts of a parsed URL, as plain values.
pub struct UrlParts {
    pub scheme: String,
    pub host: Option<String>,
    pub port: Option<u16>,
    pub username: String,
    pub has_password: bool,
    pub path: String,
    pub has_query: bool,
    pub has_fragment: bool,
}

pub open spec fn opt_chars(o: Option<String>) -> Option<Seq<char>> {
    match o {
        Some(s) => Some(s@),
        None => None,
    }
}

impl UrlParts {
    pub open spec fn parts(&self) -> UrlPartsView {
        (
            self.scheme@,
            opt_chars(self.host),
            self.port,
            self.username@,
            self.has_password,
            self.path@,
            self.has_query,
            self.has_fragment,
        )
    }
}

/// Calls `url::Url::parse` and reads `scheme`, `host_str`,
/// `port_or_known_default`, `username`, `password`, `path`, `query` and
/// `fragment`. Claimed: the result is the named `url_parts` of `text`.
#[verifier::external_body]
fn parse_url(text: &str) -> (r: Option<UrlParts>)
    ensures
        match url_parts(text@) {
            Some(t) => r matches Some(p) && p.parts() == t,
            None => r is None,
        },
{
    let url = url::Url::parse(text).ok()?;
    Some(UrlParts {
        scheme: url.scheme().to_string(),
        host: url.host_str().map(|h| h.to_string()),
        port: url.port_or_known_default(),
        username: url.username().to_string(),
        has_password: url.password().is_some(),
        path: url.path().to_string(),
        has_query: url.query().is_some(),
        has_fragment: url.fragment().is_some(),
    })
}

/// Longest server address, in characters, that is accepted. The `url` crate
/// keeps a URL's text under 4 GiB and panics when a new path takes it past
/// that; a character of the address grows to well under 64 bytes once
/// parsed, so 8 Mi characters leave room for a long path.
pub const MAX_URL_TEXT: usize = 0x80_0000;

/// Longest request path, in characters: a character grows to at most 12
/// bytes when percent-encoded, so the URL text stays under 4 GiB.
pub const MAX_URL_PATH: usize = 0x1000_0000;

/// Calls `url::Url::parse`, then `set_path(path)`, `set_query(None)` and
/// `as_str`. Claimed: the result is the named `url_with_path`, and it exists
/// exactly when `text` parses. Both texts are bounded so that `set_path`
/// cannot overflow the crate's 32-bit offsets.
#[verifier::external_body]
fn replace_url_path(text: &str, path: &str) -> (r: Option<String>)
    requires
        text@.len() <= MAX_URL_TEXT,
        path@.len() <= MAX_URL_PATH,
    ensures
        match url_with_path(text@, path@) {
            Some(s) => r matches Some(v) && v@ == s,
            None => r is None,
        },
        r is Some <==> url_parts(text@) is Some,
{
    let mut url = url::Url::parse(text).ok()?;
    url.set_path(path);
    url.set_query(None);
    Some(url.as_str().to_string())
}

/// The production server: `https://memos.my` on port 443.
pub open spec fn is_production(p: UrlPartsView) -> bool {
    p.0 == "https"@ && p.1 == Some("memos.my"@) && p.2 == Some(443u16)
}

/// A local development server over plain HTTP, when local servers are allowed.
pub open spec fn is_safe_local(p: UrlPartsView, allow_local: bool) -> bool {
    allow_local && p.0 == "http"@ && (p.1 == Some("127.0.0.1"@) || p.1 == Some("localhost"@))
}

/// A server address is accepted when it is the production server (or an
/// allowed local one) given as a bare origin: no user name, no password,
/// the root path, no query and no fragment.
pub open spec fn server_accepted(p: UrlPartsView, allow_local: bool) -> bool {
    (is_production(p) || is_safe_local(p, allow_local)) && p.3.len() == 0 && !p.4 && p.5 == "/"@
        && !p.6 && !p.7
}

/// Path prefix of the clipboard API.
pub open spec fn api_prefix() -> Seq<char> {
    "/api/clipboard/v1"@
}

/// The API address of `path` on `server_url`, or why there is none. An
/// address text longer than `MAX_URL_TEXT` is refused like any other
/// address that is not a bare accepted origin.
pub open spec fn endpoint_spec(server_url: Seq<char>, path: Seq<char>, allow_local: bool) -> Result<
    Seq<char>,
    Seq<char>,
> {
    match url_parts(server_url) {
        None => Err("서버 주소가 올바르지 않습니다."@),
        Some(p) => if !server_accepted(p, allow_local) || server_url.len() > MAX_URL_TEXT {
            Err("마이메모 HTTPS 주소를 확인해 주세요."@)
        } else {
            Ok(url_with_path(server_url, api_prefix() + path).unwrap())
        },
    }
}

fn is_text(s: &String, lit: &str) -> (r: bool)
    ensures
        r == (s@ == lit@),
{
    *s == String::from_str(lit)
}

fn opt_is_text(o: &Option<String>, lit: &str) -> (r: bool)
    ensures
        r == (opt_chars(*o) == Some(lit@)),
{
    match o {
        Some(s) => is_text(s, lit),
        None => false,
    }
}

/// The API address of `path`, allowing local development servers when
/// `allow_local` is set.
pub fn endpoint_for(server_url: &str, path: &str, allow_local: bool) -> (r: Result<String, String>)
    requires
        path@.len() + 17 <= MAX_URL_PATH,
    ensures
        match endpoint_spec(server_url@, path@, allow_local) {
            Ok(u) => r matches Ok(v) && v@ == u,
            Err(m) => r matches Err(e) && e@ == m,
        },
{
    let parts = match parse_url(server_url) {
        Some(p) => p,
        None => {
            return Err(String::from_str("서버 주소가 올바르지 않습니다."));
        },
    };
    let production = is_text(&parts.scheme, "https") && opt_is_text(&parts.host, "memos.my")
        && parts.port == Some(443u16);
    let safe_local = allow_local && is_text(&parts.scheme, "http") && (opt_is_text(
        &parts.host,
        "127.0.0.1",
    ) || opt_is_text(&parts.host, "localhost"));
    if (!production && !safe_local) || parts.username.as_str().unicode_len() != 0
        || parts.has_password || !is_text(&parts.path, "/") || parts.has_query
        || parts.has_fragment || server_url.unicode_len() > MAX_URL_TEXT {
        return Err(String::from_str("마이메모 HTTPS 주소를 확인해 주세요."));
    }
    let mut full = String::from_str("/api/clipboard/v1");
    proof {
        reveal_strlit("/api/clipboard/v1");
    }
    full.append(path);
    match replace_url_path(server_url, full.as_str()) {
        Some(u) => Ok(u),
        None => Err(String::from_str("서버 주소가 올바르지 않습니다.")),
    }
}

/// The API address of `path` on a release build: only the production server.
pub fn endpoint(server_url: &str, path: &str) -> (r: Result<String, String>)
    requires
        path@.len() + 17 <= MAX_URL_PATH,
    ensures
        match endpoint_spec(server_url@, path@, false) {
            Ok(u) => r matches Ok(v) && v@ == u,
            Err(m) => r matches Err(e) && e@ == m,
        },
{
    endpoint_for(server_url, path, false)
}

/// A release build never sends anything anywhere but the production server.
pub proof fn law_release_pins_production(server_url: Seq<char>, path: Seq<char>)
    ensures
        endpoint_spec(server_url, path, false) is Ok ==> (url_parts(server_url) matches Some(p)
            && is_production(p)),
{
}

} // verus!
