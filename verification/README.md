# nt_server

The verified core of a small topic-subscription server (accounts, sessions,
topics, services publishing entries, subscribers reading them) that keeps its
data in Neo4j and answers over HTTP and GraphQL.

- `src/` — the library, verified with Verus:
  - `authority`, `models`, `accounts`: roles and records, with the text forms
    of roles and service kinds;
  - `record`, `extract`: result rows as plain key/value records and how the
    server's records are read from them;
  - `database`: every database operation as a named query with its exact
    parameters, and what the server concludes from the counts it gets back;
  - `session`: registration and log-in decisions, session claims and cookies,
    and how a request's caller is identified;
  - `graphql`: which authority each GraphQL operation admits;
  - `config`: the settings, with a decimal reader for the token age;
  - `passwords`, `fresh`: the trusted calls into `argon2`, `uuid` and `chrono`.
- `app/` — the program around it: Actix handlers, the GraphQL schema, the
  Neo4j driver calls, JWT encoding and decoding, and the serde copies of the
  records.
- `tests/` — tests of the library.
