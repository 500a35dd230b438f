# oamdp

Planning domains for observer-aware Markov decision processes, written in
Verus.

`src/` is the verified library:

- `domains/` — the action, state and transition models of the domains:
  blocks world (successor function and the proof that it keeps every
  arrangement physically possible), rescue grid (state enumeration,
  transition distribution counted in tenths, costs), grid turning (heading
  algebra), race track, Salome grid, search and rescue, recycling, Baker
  grid, and the grid-world map reader.
- `common/` — grid coordinates.
- `algorithms/`, `domain_evaluator.rs` — the planner-side types that do not
  depend on floating point.
- `sampling.rs`, `text.rs` — the calls into `rand` and into `str` that the
  library makes, with the contracts it relies on.

`app/` holds what works on floating point or on files: belief cost
functions, the value table, probabilities as `f32`, the blocks-world slip
draw, reading a map file, and YAML round trips of grid-turning traces.

`tests/` exercises the library on concrete values.
