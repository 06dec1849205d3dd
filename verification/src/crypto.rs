//! Hashing, encryption, randomness and encoding, and the sealed format of
//! the local history file.
//!
//! The algorithms themselves come from the RustCrypto, `getrandom` and
//! `base64` crates; what they compute is named here (Base64 is written out), and the library's own
//! rules (the file layout, its limits, the error texts) are verified on top.

use vstd::prelude::*;
use vstd::string::*;
use crate::hex::{hex, hex_encode};

use aes_gcm::aead::Aead;
use aes_gcm::KeyInit;
use base64::Engine;
use sha2::Digest;

verus! {

/// The SHA-256 digest of `data`.
pub uninterp spec fn sha256(data: Seq<u8>) -> Seq<u8>;

/// AES-256-GCM encryption of `plain` under `key` and `nonce`, with no
/// associated data: the ciphertext followed by the 16-byte tag.
pub uninterp spec fn aes256gcm_seal(key: Seq<u8>, nonce: Seq<u8>, plain: Seq<u8>) -> Seq<u8>;

/// AES-256-GCM decryption of `sealed` (ciphertext then tag) under `key` and
/// `nonce`; `None` when the tag does not verify.
pub uninterp spec fn aes256gcm_open(key: Seq<u8>, nonce: Seq<u8>, sealed: Seq<u8>) -> Option<Seq<u8>>;

/// The Base64 digit of value `v` (0 to 63): `A`-`Z`, `a`-`z`, `0`-`9`, `+`, `/`.
pub open spec fn base64_digit(v: int) -> char {
    if v < 26 {
        (65 + v) as char
    } else if v < 52 {
        (97 + v - 26) as char
    } else if v < 62 {
        (48 + v - 52) as char
    } else if v == 62 {
        '+'
    } else {
        '/'
    }
}

/// Standard Base64 (RFC 4648 alphabet, with `=` padding) of `data`: each
/// three bytes become four digits of six bits, high bits first; a last group
/// of one or two bytes is padded.
pub open spec fn base64_standard(data: Seq<u8>) -> Seq<char>
    decreases data.len(),
{
    if data.len() == 0 {
        Seq::empty()
    } else if data.len() == 1 {
        seq![base64_digit((data[0] as int) / 4), base64_digit(((data[0] as int) % 4) * 16), '=', '=']
    } else if data.len() == 2 {
        seq![
            base64_digit((data[0] as int) / 4),
            base64_digit(((data[0] as int) % 4) * 16 + (data[1] as int) / 16),
            base64_digit(((data[1] as int) % 16) * 4),
            '=',
        ]
    } else {
        seq![
            base64_digit((data[0] as int) / 4),
            base64_digit(((data[0] as int) % 4) * 16 + (data[1] as int) / 16),
            base64_digit(((data[1] as int) % 16) * 4 + (data[2] as int) / 64),
            base64_digit((data[2] as int) % 64),
        ] + base64_standard(data.subrange(3, data.len() as int))
    }
}

/// Largest plaintext that AES-GCM accepts, in bytes.
pub const GCM_MAX_PLAIN: u64 = 0x10_0000_0000;

/// Calls `sha2::Sha256::digest`. Claimed: the result is the SHA-256 digest of
/// `data` (named `sha256`), 32 bytes long.
#[verifier::external_body]
pub(crate) fn sha256_digest(data: &[u8]) -> (r: Vec<u8>)
    ensures
        r@ == sha256(data@),
        r@.len() == 32,
{
    sha2::Sha256::digest(data).to_vec()
}

/// Calls `Aes256Gcm::new_from_slice` and `Aead::encrypt` with an empty
/// associated data. Claimed, as the `aes-gcm` source shows: for a 32-byte key
/// and a 12-byte nonce the call succeeds exactly when the plaintext is at most
/// 2^36 bytes; the result is the named `aes256gcm_seal`, 16 bytes longer than
/// the plaintext; and decrypting it under the same key and nonce gives the
/// plaintext back (the correctness of an AEAD).
#[verifier::external_body]
fn aes_encrypt(key: &[u8], nonce: &[u8], plain: &[u8]) -> (r: Option<Vec<u8>>)
    requires
        key@.len() == 32,
        nonce@.len() == 12,
    ensures
        r is Some <==> plain@.len() <= GCM_MAX_PLAIN,
        r matches Some(c) ==> c@ == aes256gcm_seal(key@, nonce@, plain@) && c@.len() == plain@.len()
            + 16 && aes256gcm_open(key@, nonce@, c@) == Some(plain@),
{
    let cipher = aes_gcm::Aes256Gcm::new_from_slice(key).ok()?;
    cipher.encrypt(aes_gcm::Nonce::from_slice(nonce), plain).ok()
}

/// Calls `Aes256Gcm::new_from_slice` and `Aead::decrypt` with an empty
/// associated data. Claimed: the result is the named `aes256gcm_open`.
#[verifier::external_body]
fn aes_decrypt(key: &[u8], nonce: &[u8], sealed: &[u8]) -> (r: Option<Vec<u8>>)
    requires
        key@.len() == 32,
        nonce@.len() == 12,
    ensures
        match aes256gcm_open(key@, nonce@, sealed@) {
            Some(p) => r matches Some(v) && v@ == p,
            None => r is None,
        },
{
    let cipher = aes_gcm::Aes256Gcm::new_from_slice(key).ok()?;
    cipher.decrypt(aes_gcm::Nonce::from_slice(nonce), sealed).ok()
}

/// Calls `getrandom::fill` on a buffer of `len` bytes. Claimed: on success the
/// buffer has `len` bytes; nothing is claimed of their values.
#[verifier::external_body]
fn random_bytes(len: usize) -> (r: Option<Vec<u8>>)
    ensures
        r matches Some(v) ==> v@.len() == len,
{
    let mut buffer = vec![0u8; len];
    getrandom::fill(&mut buffer).ok()?;
    Some(buffer)
}

/// Calls `base64::engine::general_purpose::STANDARD.encode`. Claimed: the
/// result is `base64_standard` of `data`, standard Base64 with padding.
#[verifier::external_body]
pub(crate) fn base64_encode(data: &[u8]) -> (r: String)
    requires
        data@.len() <= usize::MAX / 2,
    ensures
        r@ == base64_standard(data@),
{
    base64::engine::general_purpose::STANDARD.encode(data)
}

pub open spec fn msg_history_invalid() -> Seq<char> {
    "로컬 클립보드 기록이 올바르지 않습니다."@
}

pub open spec fn msg_key_invalid() -> Seq<char> {
    "암호화 키가 올바르지 않습니다."@
}

pub open spec fn msg_history_unreadable() -> Seq<char> {
    "로컬 클립보드 기록을 열 수 없습니다."@
}

pub open spec fn msg_history_unsealable() -> Seq<char> {
    "클립보드 기록을 암호화할 수 없습니다."@
}

/// Largest history file that the client opens, in bytes.
pub const MAX_HISTORY_FILE: usize = 40 * 1024 * 1024;

/// The history file: the 12-byte nonce, then the sealed serialised state.
pub open spec fn sealed_history(key: Seq<u8>, nonce: Seq<u8>, plain: Seq<u8>) -> Seq<u8> {
    nonce + aes256gcm_seal(key, nonce, plain)
}

/// What opening a history file yields.
pub open spec fn opened_history(key: Seq<u8>, file: Seq<u8>) -> Result<Seq<u8>, Seq<char>> {
    if file.len() < 13 || file.len() > MAX_HISTORY_FILE {
        Err(msg_history_invalid())
    } else if key.len() != 32 {
        Err(msg_key_invalid())
    } else {
        match aes256gcm_open(key, file.subrange(0, 12), file.subrange(12, file.len() as int)) {
            Some(p) => Ok(p),
            None => Err(msg_history_unreadable()),
        }
    }
}

pub open spec fn result_matches(r: Result<Vec<u8>, String>, s: Result<Seq<u8>, Seq<char>>) -> bool {
    match (r, s) {
        (Ok(v), Ok(b)) => v@ == b,
        (Err(e), Err(m)) => e@ == m,
        _ => false,
    }
}

/// Seals the serialised history `plain` under `key` with `nonce`.
pub fn seal_history(key: &[u8], nonce: &[u8], plain: &[u8]) -> (r: Result<Vec<u8>, String>)
    requires
        nonce@.len() == 12,
    ensures
        key@.len() != 32 ==> (r matches Err(e) && e@ == msg_key_invalid()),
        key@.len() == 32 && plain@.len() > GCM_MAX_PLAIN ==> (r matches Err(e) && e@
            == msg_history_unsealable()),
        key@.len() == 32 && plain@.len() <= GCM_MAX_PLAIN ==> (r matches Ok(v) && v@
            == sealed_history(key@, nonce@, plain@)),
        key@.len() == 32 && plain@.len() + 28 <= MAX_HISTORY_FILE ==> (r matches Ok(v)
            && opened_history(key@, v@) == Ok::<Seq<u8>, Seq<char>>(plain@)),
{
    if key.len() != 32 {
        return Err(String::from_str("암호화 키가 올바르지 않습니다."));
    }
    match aes_encrypt(key, nonce, plain) {
        Some(sealed) => {
            let mut out: Vec<u8> = Vec::new();
            let mut i: usize = 0;
            while i < nonce.len()
                invariant
                    i <= nonce@.len(),
                    out@ == nonce@.subrange(0, i as int),
                decreases nonce@.len() - i,
            {
                out.push(nonce[i]);
                assert(out@ =~= nonce@.subrange(0, i as int + 1));
                i = i + 1;
            }
            let mut j: usize = 0;
            while j < sealed.len()
                invariant
                    j <= sealed@.len(),
                    out@ == nonce@ + sealed@.subrange(0, j as int),
                decreases sealed@.len() - j,
            {
                out.push(sealed[j]);
                assert(out@ =~= nonce@ + sealed@.subrange(0, j as int + 1));
                j = j + 1;
            }
            assert(sealed@.subrange(0, sealed@.len() as int) =~= sealed@);
            assert(out@.subrange(0, 12) =~= nonce@);
            assert(out@.subrange(12, out@.len() as int) =~= sealed@);
            Ok(out)
        },
        None => Err(String::from_str("클립보드 기록을 암호화할 수 없습니다.")),
    }
}

fn slice_range(b: &[u8], lo: usize, hi: usize) -> (r: Vec<u8>)
    requires
        lo <= hi <= b@.len(),
    ensures
        r@ == b@.subrange(lo as int, hi as int),
{
    let mut out: Vec<u8> = Vec::new();
    let mut i = lo;
    while i < hi
        invariant
            lo <= i <= hi <= b@.len(),
            out@ == b@.subrange(lo as int, i as int),
        decreases hi - i,
    {
        out.push(b[i]);
        assert(out@ =~= b@.subrange(lo as int, i as int + 1));
        i = i + 1;
    }
    out
}

/// A history file has room for a nonce and a tag, and is at most
/// `MAX_HISTORY_FILE` bytes long.
pub fn check_history_file(len: usize) -> (r: Result<(), String>)
    ensures
        (13 <= len && len <= MAX_HISTORY_FILE) <==> r is Ok,
        r matches Err(e) ==> e@ == msg_history_invalid(),
{
    if len < 13 || len > MAX_HISTORY_FILE {
        Err(String::from_str("로컬 클립보드 기록이 올바르지 않습니다."))
    } else {
        Ok(())
    }
}

/// Opens a history file: checks its size, then decrypts it under `key`.
pub fn open_history(key: &[u8], file: &[u8]) -> (r: Result<Vec<u8>, String>)
    ensures
        result_matches(r, opened_history(key@, file@)),
{
    check_history_file(file.len())?;
    if key.len() != 32 {
        return Err(String::from_str("암호화 키가 올바르지 않습니다."));
    }
    let nonce = slice_range(file, 0, 12);
    let sealed = slice_range(file, 12, file.len());
    match aes_decrypt(key, nonce.as_slice(), sealed.as_slice()) {
        Some(plain) => Ok(plain),
        None => Err(String::from_str("로컬 클립보드 기록을 열 수 없습니다.")),
    }
}

/// `prefix` followed by the lower-case hex text of `bytes`.
pub open spec fn tagged_hex(prefix: Seq<char>, bytes: Seq<u8>) -> Seq<char> {
    prefix + hex_encode(bytes)
}

/// `prefix` followed by the hex text of `bytes`.
pub fn prefixed_hex(prefix: &str, bytes: &[u8]) -> (r: String)
    ensures
        r@ == tagged_hex(prefix@, bytes@),
{
    let mut out = String::from_str(prefix);
    let h = hex(bytes);
    out.append(h.as_str());
    out
}

/// Lower-case hex text of the SHA-256 digest of `data`.
pub fn sha256_hex(data: &[u8]) -> (r: String)
    ensures
        r@ == hex_encode(sha256(data@)),
{
    let d = sha256_digest(data);
    hex(d.as_slice())
}

/// `prefix` followed by the hex text of `len` fresh random bytes; `err` when
/// the operating system gives no randomness.
pub fn random_tagged_hex(prefix: &str, len: usize, err: &str) -> (r: Result<String, String>)
    ensures
        r matches Ok(s) ==> exists|b: Seq<u8>| b.len() == len && s@ == #[trigger] tagged_hex(prefix@, b),
        r matches Err(e) ==> e@ == err@,
{
    match random_bytes(len) {
        Some(b) => Ok(prefixed_hex(prefix, b.as_slice())),
        None => Err(String::from_str(err)),
    }
}

/// A fresh identifier for a capture event: `clip_` and 32 hex digits.
pub fn random_event_id() -> (r: Result<String, String>)
    ensures
        r matches Ok(s) ==> exists|b: Seq<u8>| b.len() == 16 && s@ == #[trigger] tagged_hex("clip_"@, b),
        r matches Err(e) ==> e@ == "이벤트 ID를 만들 수 없습니다."@,
{
    random_tagged_hex("clip_", 16, "이벤트 ID를 만들 수 없습니다.")
}

/// A fresh device identifier: `device_` and 32 hex digits.
pub fn random_device_id() -> (r: Result<String, String>)
    ensures
        r matches Ok(s) ==> exists|b: Seq<u8>| b.len() == 16 && s@ == #[trigger] tagged_hex("device_"@, b),
        r matches Err(e) ==> e@ == "기기 ID를 만들 수 없습니다."@,
{
    random_tagged_hex("device_", 16, "기기 ID를 만들 수 없습니다.")
}

/// A fresh history key, as the 64 hex digits that the secret store keeps.
pub fn random_history_key_text() -> (r: Result<String, String>)
    ensures
        r matches Ok(s) ==> exists|b: Seq<u8>| b.len() == 32 && s@ == #[trigger] tagged_hex(""@, b),
        r matches Err(e) ==> e@ == "암호화 키를 만들 수 없습니다."@,
{
    random_tagged_hex("", 32, "암호화 키를 만들 수 없습니다.")
}

/// A fresh 12-byte nonce for sealing the history.
pub fn random_nonce() -> (r: Result<Vec<u8>, String>)
    ensures
        r matches Ok(v) ==> v@.len() == 12,
        r matches Err(e) ==> e@ == "암호화 nonce를 만들 수 없습니다."@,
{
    match random_bytes(12) {
        Some(v) => Ok(v),
        None => Err(String::from_str("암호화 nonce를 만들 수 없습니다.")),
    }
}

/// A fresh name for the temporary file of an atomic write.
pub fn random_temp_name(prefix: &str) -> (r: Result<String, String>)
    ensures
        r matches Ok(s) ==> exists|b: Seq<u8>| b.len() == 8 && s@ == #[trigger] tagged_hex(prefix@, b)
            + ".tmp"@,
        r matches Err(e) ==> e@ == "임시 파일을 만들 수 없습니다."@,
{
    match random_bytes(8) {
        Some(b) => {
            let mut s = prefixed_hex(prefix, b.as_slice());
            s.append(".tmp");
            Ok(s)
        },
        None => Err(String::from_str("임시 파일을 만들 수 없습니다.")),
    }
}

} // verus!
