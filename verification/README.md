# orca_deploy

Deploys of services to the agents of a cluster, over control sessions, verified with Verus.

The master sends an agent a deploy and waits twice: briefly for the agent to acknowledge the
receipt, then for its result. An agent that misses the first wait and has gone silent is given
up, and its session with it. One that still heartbeats is busy and is waited for, as long as a
deploy may take. On the agent's side the receipt is written at once, whatever work is unfinished.

- `src/` is the library. It does no input or output and reads no clock: it is handed what
  happened and when, and says what to do. Its contracts are stated over views of the state;
  `src/laws.rs` holds what is proved of deploys as a whole.
- `app/` is the input and output around it: web sockets, JSON, channels, tasks and the clock.
- `tests/` runs the library on concrete values.

Times are in milliseconds, limits in seconds.
