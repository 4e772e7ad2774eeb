# homebuhg

The core of a household bookkeeping application, written in Verus. The
functions under `src/` carry contracts that Verus proves, with two kinds of
exceptions that a reader should know about:

- the calls into outside crates (`chrono`, `csv`, `rust_xlsxwriter`, `uuid`,
  `serde_json`) and the few std calls that vstd does not specify (the system
  clock, `String::push`) stand behind small `#[verifier::external_body]`
  wrappers, each with a doc comment that says what its contract claims of the
  outside code; those claims are trusted, not proved;
- `repository::now_ms` reads the system clock and promises nothing of the
  value; `millis_or_zero` beside it states the conversion.

- `models/` — accounts, categories, operations, budgets, receipts and the
  rendering of amounts ("1 234,56 ₽");
- `domain/` — how operations move account balances, and the records of a
  fresh installation;
- `commands/` — what the user interface's commands decide: validation and
  defaults of new records, budget periods, operation edits, reports, the
  sign-in state, and the CSV/Excel export;
- `sync/` — Firestore documents: their mapping to records and back, request
  endpoints, query and error responses, batching, and the last-write-wins
  choice of what a round uploads and stores;
- `text.rs`, `calendar.rs`, `ids.rs` — text helpers, UTC calendar facts (via
  `chrono`) and fresh identifiers (via `uuid`).

`app/` holds the desktop shell around the library: the SQLite database, HTTPS
calls to Firebase, file dialogs and the Tauri command handlers. `tests/` runs
the library on concrete inputs.
