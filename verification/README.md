# renderer

The decision logic of a small Vulkan game engine, written in Verus and
proved against its contracts.

`src/` is the verified library:

- `version` packs and prints Vulkan API versions (`major.minor.patch`).
- `instance` checks the loader version and the validation layer and plans
  the instance's extensions.
- `device` scores physical devices, picks one (headless or for a surface),
  probes a device for presentation and searches its queue families.
- `swapchain` plans a swapchain from what the surface reports.
- `frame` is the state machine of drawing one frame and the list of draw
  commands for a batch of models.
- `game` is the window's event-handling state machine.
- `memory`, `buffer`, `texture`, `resources` choose memory types, plan
  uploads and writes, build the checkerboard texture and order the release
  of objects when building a resource fails.
- `pipeline` decodes SPIR-V shaders.
- `renderer` describes the renderer and the engine's status.
- `vk` holds the raw Vulkan values the decisions read.

`app/` is the game itself: the window (winit), every Vulkan call (ash), the
floating-point transforms (glam) and the editor's serialized status (serde).
It asks the library what to do and does it.
