# vk_utils

The decision logic of a small Vulkan toolkit used by two ray tracers, with
its behaviour stated in contracts and proved with Verus.

- `src/` — the verified library. Queue-family and physical-device
  selection, swap-chain configuration (format, present mode, extent, image
  count, sharing), memory-type lookup, validation-layer and extension checks,
  image-layout barriers, descriptor pool sizes and layouts, the render loop's
  frame bookkeeping, the event loop's reactions, and the error texts of all
  of these. Vulkan enumerations and flags appear as their raw registry values
  (`src/vk.rs`); Vulkan objects as raw handles.
  `src/weekend/` holds the same kind of logic for the first, single-queue
  renderer.
- `app/` — the Vulkan side: loading Vulkan, creating and destroying
  objects through `ash`, the window and its event loop. It gathers what the
  driver reports, hands it to the library as plain values, and carries out
  what the library decides.
- `tests/` — tests of the library on concrete values.
