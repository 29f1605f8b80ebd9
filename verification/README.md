# bevy_seedling_spatial

Verified decision logic of spatial audio components for bevy and firewheel, in
Verus.

- `src/spatial.rs`: listener kinds, the choice of the nearest listener under
  `f32::total_cmp` (squared distances are passed as `f32` bit patterns), and the
  choice of where an effect takes its position from.
- `src/itd.rs`: the interaural time difference node's input configuration,
  channel layout, silence decision and per-block processing step.
- `src/channels.rs`: channel counts in `1..=64`.
- `src/firewheel_bridge.rs`: the calls into firewheel, with their contracts.
- `app/`: bevy components, resources and systems, and the floating point
  arithmetic (offsets, velocities, Doppler factors) around the library.
