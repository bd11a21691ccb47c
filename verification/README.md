# asset_portal

The verified core of a small asset-management web application: what it
decides and what text it produces, proved with Verus against contracts over
plain values.

- `src/` — the library, verified by Verus:
  - `errors` — the application's error values and the report of an error
    with its chain of causes;
  - `settings` — configuration values, the database connection URL and the
    server address;
  - `uploads` — the fields of an uploaded form, the map of processed fields
    by name, and the notices shown after an upload;
  - `records` — what is computed from database rows (bulk-insert summary,
    role ids, test user description, page index);
  - `auth` — the session's user, the client, and whether a request may go on;
  - `components`, `pages` — the page components and route answers;
  - `checks` — constraint checks on database errors and field checks on
    validation errors;
  - `seeds` — the rows the database is seeded with.
- `app/` — the web server around the library (actix-web, SeaORM, sessions,
  file I/O); it is not verified.
- `tests/` — tests of the library.
