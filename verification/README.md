# gpu_scene

A small 2D renderer on wgpu, verified with Verus.

- `src/buffer.rs`: `GpuBuffer`, a GPU buffer that 16-bit data is appended
  to. Every write it sends starts and ends on wgpu's four-byte copy
  alignment; data that starts halfway through a word resends the halfword
  stored there, and data that ends halfway through one is padded. The buffer
  grows by reallocating and copying its used words. The contracts describe
  the buffer's contents as halfwords: after an append, the used halfwords are
  the earlier ones followed by the new data.
- `src/object.rs`: `Material` (a texture, its meshes and their vertex,
  index and instance buffers), `Mesh`, `ColoredObject`.
- `src/scene.rs`: `Scene`, coloured geometry kept on the CPU and mirrored in
  GPU buffers, and the scene's materials.
- `src/lib.rs`: `GpuContext` (a device with wgpu's default limits and its
  queue) and `Renderer`, which configures its surface and records and
  presents frames of the active scene.
- `src/surface.rs`: the surface, its configuration (built in verified code
  from the capabilities the surface reports), frame acquisition, the frame's
  render pass and its presentation; validation errors of configuring and of
  drawing are caught in error scopes and reported.
- `src/utils.rs`: `SurfaceError` and the choice of surface format.
- `src/vertex.rs`: the layouts of coloured vertices, textured vertices and
  instance transforms in GPU buffers, as plain values the pipelines are
  built from.
- `src/gpu.rs`: the wgpu and image types and calls for devices, buffers,
  textures, samplers and render passes, each with the contract the proofs
  rely on. Every object is tied by name to the device that made it, and
  every call that combines objects asks for one device.
- `app/`: the window, the event loop, pipeline creation, image and shader
  loading, and the vertex and transform types, whose fields are `f32`.

Contents of GPU buffers and textures, render-pass commands and the frames
presented on a surface are modelled by
named functions of the wgpu values (`gpu::gpu_halfwords`, `gpu::gpu_texels`,
`gpu::pass_commands`, `surface::surface_presented`); the commands name the
pipeline, bind group and buffers they bind;
images are decoded in the library through the `image` crate
(`gpu::decoded_rgba`);
the tests check the buffer contents on wgpu's no-op backend, which runs
copies and maps buffers without a GPU.
