# shopping_list

The user directory of a small shopping-list web service, written in Verus.

- `src/` is the verified library: the error model and the status codes that
  answer errors, the user records, the table of users keyed by UUID, the two
  in-memory user stores (the repository and the self-contained service), what
  the SQLite repository makes of its queries' outcomes, the decisions of the
  HTTP handlers (reading a path id, building the user to update, choosing the
  reply to each outcome), the route table and the steps of the database
  setup at start-up. UUIDs are held as their 128-bit
  value; parsing, formatting and random generation call the `uuid` crate.
- `app/` is the axum service around it: the asynchronous service and
  repository interfaces, the locks that share the in-memory stores, the SQLite
  queries, the JSON forms of the records, the handlers and `main`.
- `tests/` runs the library on concrete values.
