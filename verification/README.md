# cockpit_instances

The core of a Codex multi-instance manager and of the kiro-proxy sidecar manager, written in
Verus: every operation on the instance store, the history merges between an instance and the
default Codex home, and the decisions taken about shared folders, files, the Electron login state
and the sidecar are proved against their contracts. What `serde_json` and `std::path` compute is
stated through names for their results, in `src/json.rs` and `src/history.rs`.

Layout:

- `src/text.rs` — string primitives stated over `Seq<char>`, decimal rendering and parsing.
- `src/json.rs` — the calls into `serde_json`, each named by what it returns.
- `src/store.rs` — the instance store and every change made to it; `src/store_laws.rs` — what
  those changes keep (distinct ids, names and directories) and what repeating one does.
- `src/history.rs` — session index, global state and state database merges, with their laws.
- `src/sync.rs` — what each observed state of a shared folder or file calls for.
- `src/electron.rs` — the Electron login reset and its marker.
- `src/kiro_proxy.rs` — sidecar configuration, status, Node.js check and HTTP replies.
- `app/` — file system, processes, HTTP and SQLite: it observes, asks the library, and carries
  the answer out.
- `tests/` — tests of the library on concrete values.
