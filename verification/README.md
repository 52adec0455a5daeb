# baton

The sender side of cross-window delegation: a sender types a prompt into a
visible session in another window by publishing an RPC envelope on a bus,
and waits for the receiver's reply.

- `src/` is the library, verified with Verus: request ids (`id`), envelopes
  (`envelope`), replies, outcomes and exit codes (`reply`), the surface cache's
  file names, record order and surface kinds (`surface`), bus topics
  (`topic`), printed text (`report`), byte-wise string comparison (`text`),
  the clock (`clock`) and the scan terms (`scan`).
- `app/` is the command-line program: argument parsing, the cache directory on
  disk, JSON with serde, and the bus processes it starts.
- `tests/` runs the library on concrete values.

Exit codes: 0 success, 2 unreachable, 3 cooldown, 4 not found, 5 timeout,
6 not owner, 7 replay, 8 unknown method, 9 any other error.
