# bullrs

A job queue on Redis that speaks BullMQ's protocol: jobs are added, picked up by
workers, finished, retried and scheduled through BullMQ's Lua scripts, so that
Rust and JavaScript producers and workers can share a queue.

## Layout

- `src/` — the verified core, checked by Verus. It holds what does not talk to
  Redis itself: validated queue names and identifiers and the Redis key layout of a
  queue; job options and their BullMQ wire form; the keys and arguments of every
  script invocation and the reading of every script's answer; reading job and
  scheduler hashes; the scheduler's arithmetic; parsing of the event stream; the
  decisions of the worker's loops (lock tokens, waiting after a pull, which locks to
  extend); retrying a pipeline of added jobs; flows of jobs.
- `app/` — the Redis connection pool, the async loops (pulling jobs, refreshing
  locks, moving stalled jobs, reading events), serde encodings, and the public
  `Queue` / `Worker` API built on the core.
- `tests/` — tests of the core.

The Lua scripts themselves are BullMQ's; `LuaScripts::load` reads them from
BullMQ's `commands` directory.
