//! What the client does on an operating system where it has neither a
//! clipboard integration nor a secret store: it reads nothing, refuses to
//! write, and keeps no secret.

use vstd::prelude::*;
use vstd::string::*;

verus! {

pub open spec fn msg_unsupported_os() -> Seq<char> {
    "이 운영체제는 아직 지원하지 않습니다."@
}

/// No copied file is ever found.
pub fn read_file_clipboard() -> (r: Result<Option<String>, String>)
    ensures
        r == Ok::<Option<String>, String>(None),
{
    Ok(None)
}

/// Putting a file on the clipboard is refused.
pub fn write_file_clipboard(_path: &str) -> (r: Result<(), String>)
    ensures
        r matches Err(e) && e@ == msg_unsupported_os(),
{
    Err(String::from_str("이 운영체제는 아직 지원하지 않습니다."))
}

/// No clipboard text is ever found.
pub fn read_clipboard() -> (r: Result<Option<String>, String>)
    ensures
        r == Ok::<Option<String>, String>(None),
{
    Ok(None)
}

/// Putting text on the clipboard is refused.
pub fn write_clipboard(_text: &str) -> (r: Result<(), String>)
    ensures
        r matches Err(e) && e@ == msg_unsupported_os(),
{
    Err(String::from_str("이 운영체제는 아직 지원하지 않습니다."))
}

/// Every stored secret reads as empty.
pub fn load_platform_secret(_account: &str) -> (r: Result<String, String>)
    ensures
        r matches Ok(v) && v@.len() == 0,
{
    Ok(String::new())
}

/// Storing a secret is refused.
pub fn store_platform_secret(_account: &str, _value: &str) -> (r: Result<(), String>)
    ensures
        r matches Err(e) && e@ == "이 운영체제에서는 보안 저장소를 지원하지 않습니다."@,
{
    Err(String::from_str("이 운영체제에서는 보안 저장소를 지원하지 않습니다."))
}

/// Deleting a secret always succeeds: there is none.
pub fn delete_platform_secret(_account: &str) -> (r: Result<(), String>)
    ensures
        r == Ok::<(), String>(()),
{
    Ok(())
}

} // verus!
