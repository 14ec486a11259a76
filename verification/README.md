# sdlc_graph

A commit graph service: users, repositories and commits, the links that
place a commit in a repository and attribute it to a user, and the queries
over them (a repository's commits, a user's commits, and a cursor-paged list
of the repositories a user committed to).

The library under `src/` is verified with Verus:

- `model` states the graph abstractly (`GraphState`) and what every operation
  does to it and answers; `laws` proves properties of those operations
  (well-formedness is kept, refused operations change nothing, a read gives
  back what was created, paging by cursor neither loses nor repeats, a page
  is determined by the graph).
- `repository` is the store interface, stated over `GraphState`; `store`
  implements it in memory (`table` holds its keyed entries, `sorted` the
  ordered id sets) and `service` puts the application service in front of it.
- `handlers` holds the request checks and the flows of the HTTP endpoints,
  `error` the errors with their HTTP status and text, `postgres` the parts of
  the database-backed store that are computation (error classification,
  query text, outcomes), `dates` reading instants, `telemetry` the metrics,
  and `text` the string functions everything above relies on.

`app/` is the HTTP server (axum, sqlx, Prometheus) around the library.
