# ignis

A small graphics instance layer with a Vulkan backend.

- `src/` is the verified library: packed versions (`version.rs`), backend and
  feature flag sets (`flags.rs`), descriptors and errors, and the Vulkan
  backend's decisions (`vulkan/`): which adapter to pick, how result codes map
  to errors, what an instance is created with, and the order of the setup
  steps (`vulkan/instance.rs`).
- `app/` drives the Vulkan driver through `vulkanalia`: it runs the setup
  steps and reports each outcome to the library, lists the devices, and holds
  the error types with their messages.
- `tests/` runs the library on concrete values and checks its Vulkan constants
  against `vulkanalia`.
