# iuv_windows

The decision logic of the iuv input method on Windows, written in Rust and verified with Verus:
what a key does, when the candidates show and where, what the toolbar answers to the mouse, how
the settings are read and written, and how the daemon, the programs and the toolbar talk to each
other.

The library does no input or output of its own. Where the system, the engine or the user decides
in between, a function takes what they gave and says what is to be done next. Every function
states in its contract what it returns or changes; the laws that span functions are the public
proof functions whose names begin with `law_`.

## Layout

- `src/` – the library
  - `key_routing`, `session_bridge`, `text_service`, `composition` – from a key to the text
  - `candwin`, `ui_element`, `menu`, `tray` – windows of the programs
  - `toolbar` – the floating toolbar: its board of instances, its window and its messages
  - `daemon`, `daemon_client`, `ctl`, `wire` – the daemon and what is said to it
  - `config`, `settings`, `capture`, `hotkey`, `jsonc`, `json` – settings and shortcuts
  - `registration`, `imm`, `paths`, `logs`, `perf`, `sprites`, `geometry`, `text`, `ime` – the rest
- `tests/` – tests of the library
- `app/` – the daemon's program: files, threads and the settings window

## What is trusted

The contracts of a few functions of other crates are taken as they are: `serde_json` for JSON
values, `windows_core` for reading a GUID, `tiny_skia` for reading a PNG file, and of the standard
library `String::push` and `char::from_u32`. Each is stated, with what it claims, where it is
declared.
