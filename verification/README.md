# pyew

The core of a desktop database client, verified with Verus.

- `src/` — the library, proved against its contracts:
  SQL identifier quoting and the insert/update/delete/select statements
  of the MySQL and SQLite plugins (values are always bound, never written
  into the SQL text), schema metadata grouping, result-row decoding, the
  connection form and connection list, the plugin registry, the opening
  of the workspace at start-up (as a state machine), and the application
  state kept between requests.
  A few small wrappers around calls into `uuid`, `sqlx` and `String::push`
  are trusted: their contracts are assumed from those crates' behaviour,
  not proved.
- `app/` — the program around it: the application's own SQLite database
  (sea-orm entities and migrations), the sqlx drivers that run the
  library's statements, and the start-up sequence.
- `tests/` — tests of the library on concrete values.
