# kimcli

The verified core of kimcli, a coding agent for the terminal that never
phones home: it does not self-update, does not sync or download plugins or
pet assets from remote services, and never issues remote plugin requests.

The crate is written in Verus. Every function in `src/` carries a contract
that Verus proves; the few calls into other crates (`shlex` for shell
quoting, `uuid` for thread ids) and into std (`String::push`) go through
small trusted wrappers whose contracts state what those crates document.

## Layout

- `src/text.rs`, `src/paths.rs` — characters, trimming, splitting, decimal
  numbers, and '/'-separated paths (`join`, `file_name`, path equality), each
  against a spec function of what std computes.
- `src/thread_id.rs`, `src/resume_command.rs` — thread ids and the
  `kimcli resume` hints.
- `src/startup_sync.rs` — the curated-plugins snapshot under CODEX_HOME, the
  disabled sync transports, and resolving the git sha of an extracted backup
  archive (HEAD, loose refs, `packed-refs`).
- `src/updates.rs`, `src/doctor_updates.rs` — the update popup (never shown)
  and the "updates" row of `kimcli doctor`.
- `src/asset_pack.rs` — the built-in pet spritesheet cache.
- `src/draft_state.rs` — plain-data state of the composer draft.
- `src/remote_catalog.rs`, `src/remote_legacy.rs`, `src/share.rs` — the
  remote plugin service: sign-in checks, share types and targets, archive
  naming, and the request builders that always refuse.
- `src/app_cmd.rs` — `kimcli app`, which always refuses.
- `app/` — the unverified shell around the library: file-system reads,
  image decoding, JSON parsing, process setup, logging.
- `tests/` — scenario tests run against the compiled library.
