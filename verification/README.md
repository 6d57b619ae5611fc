# bevy_godot4

Runs a Bevy app inside a Godot node.

- `src/` is the verified library: handles that name Godot objects by instance
  id (`erased_gd`), the state of the node that drives the Bevy app (`app`), a
  per-system delta clock (`delta_timer`), and the planning of component merges
  from marked child entities into their Godot parents (`components`).
- `app/` is the Godot- and Bevy-facing glue: the Godot node class, the Bevy
  components, resources and events, signal wiring, the engine lookups behind
  the handles, and the code generators of the procedural macros.
