# the_agency

A verified core for a generic AI agent framework, written in Verus.

- `src/` is the library. Every function there is verified against its
  `requires`/`ensures`: conversation limits, workflow steps and the engine's
  decisions, the saga state machine, provider fallback, organizational roles
  and prompts, knowledge chunking and synthesis, tool catalogs and storage.
  Calls into `chrono`, `uuid`, `regex` and `serde_json` stand behind a few
  trusted wrappers in `src/ids.rs`, `src/json.rs`, `src/text.rs` and
  `src/knowledge/fetcher.rs`, each documented with what it assumes.
- `app/` is the unverified shell around it: HTTP, SQLite and file I/O, the
  async loops that drive the library's state machines, serde copies of the
  library's types, and the few computations on floating-point numbers.
- `tests/` exercises the library on concrete values.
