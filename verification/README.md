# dao_game

The rules of a procedural exploration game, written in Verus and proved
against their contracts: collision layers and collider roles, stable
identifiers, the region graph, its per-frame step and its boundary
crossings, the village's herding walk and house doors, terrain chunk
streaming (which chunks the camera needs, in which order, the build queue,
the least-recently-used chunk cache and the triangle layout of a chunk's
mesh grid), meaningful places and their tags, omens and guidance, the
presentation tour, and the wording of the HUD.

Layout:

- `src/` — the verified library, one module per part of the game.
- `tests/` — tests of the library on concrete values.
- `app/` — engine-side glue: conversions to Avian collision layers, the
  floating-point measurements that the library receives as judged
  thresholds, and the per-frame loops that carry out the library's
  streaming and region decisions.
