# qq_banner

A ban-list service for chat accounts: managers ban and unban account ids,
anyone can ask whether an id is banned, and the service keeps request counters.

- `src/` is the verified library (Verus): ranks and access policies
  (`model`, `policy`), ban expiry and the answers to ban, unban and status
  requests (`ban`), paging and the purge of expired bans (`listing`), decimal
  ids and id filters (`text`), counters and their 8-byte storage format
  (`metrics`), report counts (`report`), manager accounts and sessions
  (`account`), error answers (`error`) and profile requests (`info`).
- `app/` is the unverified program around it: HTTP routes (axum), the
  database (toasty), the counter store (sled), session tokens (jsonwebtoken),
  the daily counter job and logging.
- `tests/` runs the library on concrete values.
