# vrrb_cli

The decision logic of the VRRB node's terminal client, verified with Verus.

- `src/` is the library. It covers the dashboard's menu, its key handling and
  its lists (`menu`, `navigation`), the command line editor (`command_input`),
  the dashboard's copy of node data and its message cache (`app_state`,
  `message_cache`), the blockchain worker's decisions on incoming blocks and
  on catching up (`chain_sync`), and the miner's decisions on whose turn it is
  and on abandoned claims (`mining`). It also holds the input thread's tick
  timing (`ticker`). The laws that the steps obey are proved in
  `navigation_laws` and `worker_laws`.
- `app/` is the program around it: the terminal, the threads and channels,
  the network, the files and the node's own crates.
- `tests/` runs the library on concrete inputs.
