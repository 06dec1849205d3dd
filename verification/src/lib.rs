//! Verified core of the MyMemo clipboard synchronisation client.
//!
//! The modules hold the rules that decide what the desktop client captures,
//! how its local history evolves, which credentials and addresses it accepts,
//! and how it reacts to the server's answers. Operating-system and network
//! access live in the application crate that surrounds this library.

pub mod text;

pub mod hex;
pub mod selection;
pub mod history;
pub mod crypto;
pub mod shortcut;
pub mod capture;
pub mod transfer;
pub mod paste;
pub mod settings;
pub mod account;
pub mod secrets;
pub mod endpoint;
pub mod monitor;
pub mod images;
pub mod platform;
pub mod fallback;
pub mod path;
