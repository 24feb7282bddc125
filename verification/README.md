# Setlyst

The rules of the Setlyst setlist platform, as a library verified with Verus,
and the server around it.

- `src/` — the library. Its functions carry contracts; only the clock and the
  making of identifiers promise nothing.
  - `export/` — song sheets, setlists and songbooks: chord parsing,
    page plans, ChordPro files, file names, the render limiter.
  - `import/` — the ChordPro importer, and what it gives back of an export.
  - `email/` — wording, templates, rendering, the outbox, the delivery
    worker's decisions and unsubscribe tokens.
  - `middlewares/` — session checks and client addresses.
  - `models/` — the records, their payloads and the rules on them.
  - `errors/` — error values and the answers they become.
  - `jobs.rs` — the periodic jobs and what they remove.
  - `text.rs`, `time.rs`, `ids.rs`, `json.rs`, `fields.rs`, `validation.rs` —
    the values all of these are written in.
- `tests/` — tests of the library.
- `app/` — the server: configuration, database, mail transport, HTTP and the
  drawing of planned PDF pages.

Calls into other crates stand behind small functions marked
`#[verifier::external_body]`; the comment above each says what is taken on
trust. The laws of the library are the public proof functions beside the
definitions that they speak of.
