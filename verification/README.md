# cc_render

A real-time avatar renderer for audio pipelines: facial weights, body poses and
speech go in; pictures and the matching stretch of sound come out, on one clock.

- `src/` is the library. It holds every rule of the renderer, each with a contract
  that Verus proves: the node that pairs pictures with sound (`node`, `audio`,
  `node_laws`), what messages and files say (`envelope`, `arkit`, `manifest`,
  `sidecar`, `cc5_json`, `morph_map`, `glb`), how poses reach the skeleton
  (`bind`, `skeleton`, `retarget`, `motion`, `morph`, `face`), and how props, hands, hair
  and colliders behave (`grab`, `props`, `secondary`, `colliders`, `world`).
  Measurements are carried, not computed with: where a rule needs arithmetic on
  them it takes the operation as an argument and says how it is used.
- `app/` is the Bevy application and the plugin around it: assets, the
  graphics card, the physics engine, and the geometry in floating point.
- `tests/` runs the library from outside.
