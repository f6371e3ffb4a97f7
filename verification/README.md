# lesson5-camera

The decisions of a small wgpu demo that shows a textured pentagon through a
keyboard-driven camera, as a verified Verus library, with the GPU and window
work around it.

- `src/controller.rs`: keyboard events, the camera controller's pressed keys,
  and which camera moves a frame makes.
- `src/state.rs`: the window state (surface size and the configuration that
  follows it), resizing, input, and what a frame draws.
- `src/event_loop.rs`: what the demo does with each event of the event loop and
  with the outcome of each rendered frame.
- `src/geometry.rs`: the pentagon's indices, the index buffer's bytes and the
  vertex buffer layout.
- `src/surface.rs`: the choice of the surface's texture format.
- `app/`: the wgpu renderer, the winit event loop and the floating-point camera
  math, which carry out what the library decides.
