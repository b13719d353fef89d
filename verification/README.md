# daw_backend

The verified core of an audio backend.

- `src/timeline.rs`: sample times and what the timeline transport reports
  for a block.
- `src/declick.rs`: the declicker of audio clips as a state machine that
  turns each block into an ordered list of fade operations;
  `src/declick_laws.rs` proves properties of whole blocks.
- `src/resource_pool.rs`: the pool of shared audio graph nodes and port
  buffers, held in `basedrop` cells.
- `app/`: the floating-point fades that carry out the declicker's
  operations, the port buffer types and their clearing, and the save state.
