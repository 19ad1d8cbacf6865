# grid_daemon

The verified core of a supply-chain daemon's track-and-trace service.

- `src/versioned.rs` — versioned tables in the abstract: a row is the current
  version of its entity while its end commit is `MAX_COMMIT_NUM`; writing a
  version ends the versions it supersedes. The laws of such tables (history is
  kept, ending versions twice is ending them once, one current version per
  entity and service, a written version is the one listed) are proved here.
- `src/table.rs` — the shared operations on rows in memory, proved against
  those definitions.
- `src/models.rs` — the rows of the track-and-trace tables and their views.
- `src/track_and_trace.rs` — the store and its reads and writes: inserting
  versions, ending versions, listing and fetching current rows, and joining
  properties with the data types of their definitions.
- `src/event_error.rs`, `src/rest_api_error.rs` — the error types, their
  messages, and the HTTP answer that each request error gets.
- `src/agents.rs` — what the REST API shows of an agent and how it answers
  listing and fetching agents.
- `app/` — the edges: the PostgreSQL queries, the HTTP responses and the
  `Display` and `Error` impls.
