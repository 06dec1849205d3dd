# MyMemo Clipboard

A desktop client that shares clipboard history between devices through a
MyMemo account. The crate `mymemo_clipboard` holds the client's rules,
written in Verus and proved against their contracts; `app/` is the Tauri
application that does the input and output around them.

## Layout

- `src/history.rs`: the local history (entries, waiting captures, local file
  sources) and every change made to it: feed pages, publish answers, new
  captures, trimming and cleaning, and a whole sync once its answers are in
  (`apply_sync`). Laws: ids stay unique, a published entry
  goes first, a replayed event changes nothing, the history holds at most
  500 entries, kept sources belong to active entries.
- `src/selection.rs`: the popup's single-flight selection run and its
  cancellation.
- `src/capture.rs`, `src/images.rs`: what is captured from the clipboard and
  the records made of it.
- `src/transfer.rs`, `src/paste.rs`: reading the server's answers, the
  fields of a published capture, fetching a file from another device as a
  step function (`fetch_step`: nothing is asked of the server once the
  selection is cancelled), checking files that are sent and received, and
  pasting an entry.
- `src/path.rs`: file names and extensions of path text, with the
  separators of the system given explicitly.
- `src/crypto.rs`, `src/hex.rs`: digests, the sealed history file, random
  identifiers, hex and decimal text.
- `src/account.rs`, `src/settings.rs`, `src/secrets.rs`, `src/endpoint.rs`:
  sign-in, passwords, preferences, the secret cache and the accepted server
  addresses.
- `src/monitor.rs`: the background monitor as a state machine
  (`monitor_step`): from its state and what just happened, the next state
  and the next action (wait, pause, capture, sync, send requested files,
  sign out, report, read the change counter). `app/monitor.rs` only performs
  the actions. Laws: an event-driven monitor never polls, nothing runs
  without a session, a polling monitor captures only after a good sync, a
  rejected session signs the device out.
- `src/shortcut.rs`, `src/platform.rs`, `src/fallback.rs`: shortcuts and the
  platform-facing rules.
- `src/text.rs`: character classes and text measures shared by the rest.

Calls into `sha2`, `aes-gcm`, `getrandom`, `base64`, `url`, `image` and
`mime_guess` stand behind small trusted wrappers whose doc comments say what
is assumed of them.
