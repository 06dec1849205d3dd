//! The client's preferences and account fields.

use vstd::prelude::*;
use vstd::string::*;
use crate::crypto::{random_device_id, tagged_hex};

verus! {

broadcast use vstd::string::group_string_axioms;

/// The only server that release builds talk to.
pub const DEFAULT_SERVER: &'static str = "https://memos.my";

/// Shortcut that opens the history on macOS.
pub const DEFAULT_SHORTCUT_MACOS: &'static str = "Command+Shift+V";

/// Shortcut that opens the history elsewhere.
pub const DEFAULT_SHORTCUT_OTHER: &'static str = "Ctrl+Shift+V";

/// History entries that the popup lists by default.
pub const DEFAULT_HISTORY_LIMIT: usize = 200;

/// Most history entries that a user may ask for.
pub const MAX_HISTORY_LIMIT: usize = 500;

/// Longest device name, in characters.
pub const MAX_DEVICE_NAME_CHARS: usize = 80;

/// Preferences and account fields, as the settings file holds them.
#[derive(Clone, Debug, PartialEq)]
pub struct Settings {
    pub server_url: String,
    pub username: String,
    pub display_name: String,
    pub device_id: String,
    pub device_name: String,
    pub enabled: bool,
    pub shortcut: String,
    pub history_limit: usize,
}

/// What the settings screen is shown.
#[derive(Clone, Debug, PartialEq)]
pub struct PublicSettings {
    pub server_url: String,
    pub username: String,
    pub display_name: String,
    pub device_name: String,
    pub logged_in: bool,
    pub enabled: bool,
    pub shortcut: String,
    pub history_limit: usize,
}

/// The shortcut that the platform uses by default.
pub fn default_shortcut(macos: bool) -> (r: &'static str)
    ensures
        r@ == if macos {
            DEFAULT_SHORTCUT_MACOS@
        } else {
            DEFAULT_SHORTCUT_OTHER@
        },
{
    if macos {
        DEFAULT_SHORTCUT_MACOS
    } else {
        DEFAULT_SHORTCUT_OTHER
    }
}

/// The device name taken from the first of the given names that exists,
/// else `내 기기`, cut to its first `MAX_DEVICE_NAME_CHARS` characters.
pub open spec fn device_name_spec(computer: Option<String>, host: Option<String>) -> Seq<char> {
    let name = match computer {
        Some(c) => c@,
        None => match host {
            Some(h) => h@,
            None => "내 기기"@,
        },
    };
    if name.len() > MAX_DEVICE_NAME_CHARS {
        name.take(MAX_DEVICE_NAME_CHARS as int)
    } else {
        name
    }
}

pub fn device_name_from(computer: Option<String>, host: Option<String>) -> (r: String)
    ensures
        r@ == device_name_spec(computer, host),
{
    let name = match computer {
        Some(c) => c,
        None => match host {
            Some(h) => h,
            None => String::from_str("내 기기"),
        },
    };
    let n = name.as_str().unicode_len();
    if n > MAX_DEVICE_NAME_CHARS {
        let part = name.as_str().substring_char(0, MAX_DEVICE_NAME_CHARS);
        let r = String::from_str(part);
        assert(r@ =~= name@.take(MAX_DEVICE_NAME_CHARS as int));
        r
    } else {
        name
    }
}

impl Settings {
    /// The settings of a fresh installation.
    pub fn defaults(device_name: String, shortcut: &str) -> (r: Settings)
        ensures
            r.server_url@ == DEFAULT_SERVER@,
            r.username@.len() == 0,
            r.display_name@.len() == 0,
            r.device_id@.len() == 0,
            r.device_name == device_name,
            r.enabled,
            r.shortcut@ == shortcut@,
            r.history_limit == DEFAULT_HISTORY_LIMIT,
    {
        Settings {
            server_url: String::from_str(DEFAULT_SERVER),
            username: String::new(),
            display_name: String::new(),
            device_id: String::new(),
            device_name,
            enabled: true,
            shortcut: String::from_str(shortcut),
            history_limit: DEFAULT_HISTORY_LIMIT,
        }
    }

    /// Gives a device without an id a fresh `device_…` id. Returns whether the
    /// settings changed (and must be written).
    pub fn assign_device_id(&mut self) -> (r: Result<bool, String>)
        ensures
            old(self).device_id@.len() > 0 ==> (r == Ok::<bool, String>(false) && *final(self)
                == *old(self)),
            old(self).device_id@.len() == 0 ==> (match r {
                Ok(changed) => changed && (exists|b: Seq<u8>|
                    b.len() == 16 && final(self).device_id@ == #[trigger] tagged_hex(
                        "device_"@,
                        b,
                    )),
                Err(e) => e@ == "기기 ID를 만들 수 없습니다."@,
            }),
            final(self).server_url == old(self).server_url,
            final(self).username == old(self).username,
            final(self).display_name == old(self).display_name,
            final(self).device_name == old(self).device_name,
            final(self).enabled == old(self).enabled,
            final(self).shortcut == old(self).shortcut,
            final(self).history_limit == old(self).history_limit,
    {
        if self.device_id.as_str().unicode_len() > 0 {
            return Ok(false);
        }
        match random_device_id() {
            Ok(id) => {
                self.device_id = id;
                Ok(true)
            },
            Err(e) => Err(e),
        }
    }

    /// Forgets the signed-in account (name and display name).
    pub fn clear_account(&mut self)
        ensures
            final(self).username@.len() == 0,
            final(self).display_name@.len() == 0,
            final(self).server_url == old(self).server_url,
            final(self).device_id == old(self).device_id,
            final(self).device_name == old(self).device_name,
            final(self).enabled == old(self).enabled,
            final(self).shortcut == old(self).shortcut,
            final(self).history_limit == old(self).history_limit,
    {
        self.username = String::new();
        self.display_name = String::new();
    }

    /// What the settings screen shows: the settings, and whether a session exists.
    pub fn public_view(&self, token: &str) -> (r: PublicSettings)
        ensures
            r.server_url == self.server_url,
            r.username == self.username,
            r.display_name == self.display_name,
            r.device_name == self.device_name,
            r.logged_in == (token@.len() > 0),
            r.enabled == self.enabled,
            r.shortcut == self.shortcut,
            r.history_limit == self.history_limit,
    {
        PublicSettings {
            server_url: self.server_url.clone(),
            username: self.username.clone(),
            display_name: self.display_name.clone(),
            device_name: self.device_name.clone(),
            logged_in: token.unicode_len() > 0,
            enabled: self.enabled,
            shortcut: self.shortcut.clone(),
            history_limit: self.history_limit,
        }
    }

    /// The settings with new preferences.
    pub fn with_preferences(&self, enabled: bool, shortcut: String, history_limit: usize) -> (r:
        Settings)
        ensures
            r.server_url == self.server_url,
            r.username == self.username,
            r.display_name == self.display_name,
            r.device_id == self.device_id,
            r.device_name == self.device_name,
            r.enabled == enabled,
            r.shortcut == shortcut,
            r.history_limit == history_limit,
    {
        Settings {
            server_url: self.server_url.clone(),
            username: self.username.clone(),
            display_name: self.display_name.clone(),
            device_id: self.device_id.clone(),
            device_name: self.device_name.clone(),
            enabled,
            shortcut,
            history_limit,
        }
    }
}

} // verus!
