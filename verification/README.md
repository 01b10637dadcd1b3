# dark_city_engine

A small game engine core. `src/` is the verified library:

- `asset`: mesh data (vertex components held as IEEE 754 binary32 bit
  patterns), the cube and ground-plane meshes, and the name-keyed mesh
  registry, with their exact contents and laws stated and proved.
- `renderer`: the decisions a frame and a surface setup make: which resource
  is missing, the surface extent, the surface format choice.
- `controls`: the WASD camera key bindings and the direction of each move.
- `LoggingSystem` (crate root): the line it logs each tick.

`app/` is the runtime around it: the `bevy_ecs` world, the game loop with its
floating-point clock, and the `wgpu` renderer. `tests/` exercises the library.
