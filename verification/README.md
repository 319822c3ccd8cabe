# turso_pg

The PostgreSQL frontend of a SQLite-compatible engine, as a verified library.

`src/` holds the frontend's own logic, proved with Verus:

- `text` — trimming (Unicode white space), ASCII case folding, substring
  search, quote doubling, decimal numbers and `i64` parsing, on characters.
- `error` — the two kinds of error that the frontend reports.
- `statement` — the first checks on statement text, splitting a request
  into statements and handing them out, refusing writes to the catalog.
- `literal` — what an `EXECUTE` argument stands for and how arguments bind.
- `session_state` — the search path and the prepared statements of a session.
- `settings` — `SET` and `SHOW`.
- `schema` — the steps and SQL of `CREATE SCHEMA` and `DROP SCHEMA`.
- `copy_from` — the `INSERT` and reading rules of `COPY ... FROM`.
- `special` — the statements that the frontend answers itself: the session's
  next state and what remains to be done.
- `srf` — the rewrite of table-valued function calls in select lists.
- `compat_state` — the per-connection relation-size hook and its registry.

`app/` connects this to the engine: it parses and translates SQL, runs
statements, reads files and holds the process-wide registry.
