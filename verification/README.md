# kanban

A kanban service: boards ("kanbans") hold columns, columns hold cards. The
server answers a REST API over a SQLite database and keeps six read caches
(the list of boards, each board, each board's columns, each column, each
column's cards, each card); the command-line client sends one request per
command.

## Layout

- `src/` — the verified library (Verus).
  - `model.rs`: boards, columns, cards, request bodies; how a new or updated
    row is formed.
  - `status.rs`: the HTTP statuses answered and how database failures map to them.
  - `text.rs`, `clock.rs`, `ids.rs`: decimal timestamps and fresh UUIDs.
  - `db.rs`: the database as the server's statements see it (spec only).
  - `cache.rs`: cache operations, what "the caches agree with the database"
    means, the operations each handler performs, and the moka caches.
  - `handlers.rs`: each handler's answer and cache operations for what the
    database returned.
  - `exchange.rs`: a request as a state machine — the server program performs
    each database action it issues and hands back the result.
  - `coherence.rs`: the laws, stated over what the caches may hold
    (`CacheView`, the view of `AppCache`) and over the database (`DbView`):
    a new server's caches agree with any database; every step keeps the
    server's caches in agreement with the database; a step that fails
    changes no cache; a hit answers as the database would; a new column or
    card goes last; repeating an update changes nothing more; a read after a
    write sees the write.
    Each moka cache is paired with a ghost map of what it may hold, which
    only its `insert` and `invalidate` change; a lookup answers the held value
    or misses (expiry, eviction). `AppCache::perform`, `apply` and
    `exchange::advance` state exactly what they do to that view.
  - `cli.rs`: the client's request for each command, the server's routes,
    and how responses are judged.
- `app/` — the program: with the first argument `server` it runs the HTTP
  server (axum, sqlx, tokio) on port 3001; otherwise its arguments are a
  client command (clap, reqwest), e.g. `kanban list`.
- `tests/` — tests of the library on concrete values.
