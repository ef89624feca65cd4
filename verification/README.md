# assement

A task-management service with email-based two-factor login, bearer access
tokens, role-based access and a per-user cache of task views.

- `src/` is the verified library (Verus): roles, task status and priority
  texts; reading stored rows; one-time codes and their hashes; the claims of
  access tokens and the `Authorization` header; the per-user view cache with
  its time to live; Argon2 password checks and hashing; and the decisions
  each request makes (who may create or
  assign tasks, how a second-factor code is judged, whether a view is served
  from the cache, stored or dropped, whether seeding reuses or creates an
  account, what each answer holds).
  Laws are public proof functions next to the code they speak of
  (`law_*`, `lemma_*`).
- `app/` is the HTTP service around it (axum, SQLite through sqlx, JSON,
  JWT signing): it reads requests and the store and
  hands plain values to the library. It keeps the SQL (which user's tasks
  are listed, in which order), JSON, token signing and checking, and locking.
- `tests/` runs the library on concrete values.
