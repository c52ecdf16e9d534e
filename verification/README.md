# raft_demo3

A node of a small Raft key-value cluster, as a Verus-verified library with a
thin program around it.

- `src/` — the verified library: the node's text form and data directory, the
  Raft timing settings it starts with (proved acceptable to openraft), the
  key-value map and the read API on it, cluster membership handling
  (add-learner, change-membership, init), the routing tables of both HTTP APIs,
  the task queue between the HTTP server and the worker, and the requests with
  which a new node joins a cluster.
- `app/` — the program: option parsing, the ntex HTTP server, the openraft
  engine and its RPC transport, and the worker that sends the join requests.
- `tests/` — tests of the library on concrete values.
