# resolve

The server of RESOLVE, a multi-tenant bug tracker: groups are tenants, two
layers of roles govern access (Contributor / Group Admin inside a group, a
separate System Admin for system metadata), and AI assistance summarises,
triages and discusses tickets.

## Layout

- `src/` — the library, written in Verus and verified: every request check,
  access-control decision, identifier codec, the ticket search and paging,
  thread and link bookkeeping, reaction summaries, the AI prompts, reply
  parsing, caching and rate limit, the group report statistics, access and
  refresh tokens, the user-deletion plan with the ordered list of writes it
  performs, the order a group is purged in, and the table of store indexes
  (the uniqueness guards). Each function states
  what it returns in its contract; the rules that span functions (a group
  never loses its last Group Admin, a stored link set stays free of
  duplicates, deleting a comment never orphans a reply, a status change keeps
  the AI cache fresh, ...) are proof functions named `law_*`.
- `app/` — the HTTP server around it: configuration from the environment,
  MongoDB storage (which performs the writes and indexes the library lists), the actix-web routes and extractors, the Gemini client,
  and the JSON shapes of the API.
- `tests/` — tests of the library on concrete values.

Calls into outside crates (bcrypt, jsonwebtoken, sha2, rand, serde_json,
chrono, and `str::to_lowercase`) sit behind small trusted functions in `src/`
whose contracts say what is assumed of them.
