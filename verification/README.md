# github_mirror

A library that keeps a local mirror of GitHub repositories: what to fetch and
how fast, which row each fetched page becomes, who may read what, and how a sync
moves from a request to a finished session.

Every function in `src/` is verified by Verus against its contract, but for the
small wrappers that call other crates: their contracts are taken on trust. They
stand in `json` (`serde_json`), `moment` (`chrono`), `client` (`http`), `config`
(`url`), `chat_engine::owner_guard` (`uuid`), `rate_limit::registry`
(`aws-lc-rs`, `hex`) and `scheduler::worker` (the debug text of `std`). Decisions
that alternate with network or database work are state machines: the library
says what to do next, the caller does it and hands back what happened.

- `rate_limit`: the quota of each token, when a request may go out, and how the
  number of requests in flight adapts.
- `sync`, `scheduler`: the queue of jobs shared fairly between tenants, the
  worker pool, and the tasks of one run with their order, retries and progress.
- `client`, `fetch`, `wire`, `convert`, `records`, `ports`, `summary`: the
  requests a repository takes, and what their answers become.
- `service`: access, queries, sessions, progress, and a sync from leave to its
  last write.
- `cache`, `endpoints`, `models`, `config`, `scope`, `error`, `gear`, `metrics`,
  `migration`, `chat_engine`: what the surrounding service needs.
- `json`, `moment`, `text`, `decimal`: JSON values, time, strings and numbers.

`app/` is ordinary Rust around the library: HTTP, timers, channels, and the
copies of the library's types that serde reads and writes. `tests/` runs the
library from outside.
