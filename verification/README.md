# nbody_sim

A GPU Barnes–Hut N-body simulation (Vulkan compute through `sgpu`, windowing
through `winit`), split in two:

- `src/` is the verified library (Verus). It plans everything the GPU layer
  does as plain values with contracts: buffer sizes and workgroup counts, the
  command sequences of a simulation frame (bounds, Morton codes, a four-pass
  8-bit radix sort, LBVH construction, parent pointers, centres of mass,
  traversal and integration), the same work split into timed passes, the
  level-of-detail grid pyramid and its downsampling step, the particle draw,
  the keyboard/mouse-button state machine (kept in `rustc_hash::FxHashSet`s),
  the camera's key-to-direction mapping, and the consistency check of the
  tree read back from the GPU.
- `app/` is the program around it: window and event loop, GPU resources,
  replaying the planned commands on `sgpu`/`nexion` command buffers, the
  floating-point camera, particle generation and timing.

Shaders are expected as compiled SPIR-V under `compiled/`.
