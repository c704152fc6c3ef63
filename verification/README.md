# fulgor

A renderer toolkit: renderer factories and a manager that registers them and
creates renderers, renderer configurations parsed from `key=value` parameter
text, events with a drop-oldest event buffer, bump-allocating memory pools,
grid views and a scene graph.

Layout:

- `src/` is the library, written in Verus: every function carries a contract
  that Verus proves, and the `law_*` proof functions state properties that span
  several calls (validation agrees with creation, created renderers get
  distinct identifiers, a registered factory is found by its name, a reset
  undoes an allocation, allocations are disjoint, the event buffer stays
  within its room, the event stream is first in first out, a lookup by name
  finds the first node of that name).
- `tests/` runs the library on concrete values.
- `app/` is ordinary Rust around the library: the asynchronous channels and
  their waiting, the event loop of a renderer, the shutdown of a manager's
  renderers, floating-point numerics, worlds and pool figures, and PNG output.
