# moosic

A self-hosted music server: it scans music libraries into a SQLite database,
watches them for changes, and serves an HTTP API (and a web client) for
browsing, streaming, playlists, bookmarks, shares, stars, ratings and play
history.

The rules of the server are written in Verus and proved against their
contracts; the HTTP, database and filesystem plumbing around them is ordinary
Rust.

## Layout

- `src/` — the verified library (crate `moosic`):
  - `cache/` — the expiring key/value store behind the in-process caches,
    with its read-after-write and expiry laws;
  - `schema.rs` — the database migration as a list of steps, with the laws
    that rolling back undoes it and that every step refers only to what
    exists when it runs;
  - `middleware/auth.rs` — public paths, bearer tokens, privileges and
    session checks;
  - `services/` — the rules for accounts, libraries, scans, the watcher,
    metadata, playlists, bookmarks, shares, annotations and search;
  - `handlers/` — request types, list plans, paging and the replies;
  - `config.rs`, `error.rs`, `entities.rs`, `state.rs`, `text.rs`,
    `utils.rs` — configuration, errors, database rows, scan state and
    text helpers.
- `tests/` — tests of the library on concrete values.
- `app/` — the server: axum routes, sea-orm queries, the migrator, the scan
  and watcher tasks, and `main`.

The server reads its configuration from the JSON file named by
`MOOSIC_CONFIG` (`config.json` by default).
