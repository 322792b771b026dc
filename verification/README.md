# three_d

The verified core of a small 3D rendering toolkit for OpenGL and WebGL.

`src/` holds the logic that decides what the toolkit does, each function with a
contract proved by Verus:

- render states (culling, depth test, write masks, blending), the scissor box and
  the viewport, as lists of graphics API calls (`command`, `render_states`,
  `context`, `state`, `scissor_box`);
- index buffers and mesh validity, the index buffers of the basic shapes, and
  meshes loaded from model files (`cpu_element_buffer`, `cpu_mesh`,
  `object_cpu_mesh`, `static_mesh`, `renderable`, `instanced`);
- uniform block layout, texture unit and uniform block bookkeeping, shader headers,
  link errors and the program cache (`uniform_buffer`, `program`, `cache`,
  `buffer`);
- render target layouts, mip sizes, sample counts, clear and blit masks and the
  row flip of read pixels (`render_target`);
- input events and what a user interface toolkit or a camera control reads of
  them (`control`, `camerahandler`);
- texture formats and data types (`data_type`, `ogl`, `glenum`).

`app/` is the code around it that calls the graphics driver, the window toolkit
and the model file loader, and computes in floating point. `tests/` runs the core
on concrete values.
