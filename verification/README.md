# fna3d

Verified core of a Rust wrapper around [FNA3D](https://github.com/FNA-XNA/FNA3D), the graphics
library of FNA.

`src/` is checked by Verus. It holds the parts of the wrapper that compute on plain values:

* `enums`: the FNA3D enumerations, their integer values (`to_u32`) and decoding (`from_u32`);
* `flags`: the clear options and color mask flag sets with their set operations;
* `color`, `rasterizer`, `sampler`, `blend`, `depth_stencil`: colors and render states with
  their defaults, presets and accessors;
* `vertex`, `params`, `render_target`, `handles`: vertex declarations, presentation parameters,
  render target bindings and handles of device objects;
* `mojo`, `img`: effect parameter lookup and loading outcome, image decoder stream decisions;
* `imgui_renderer`, `sdl2_backend`, `fontbook`: the bookkeeping of the ImGui renderer, its SDL2
  input backend and the font atlas texture.

`app/` holds what Verus does not check: floating-point helpers, the driver loop over
`std::io::Read`, error types with `Display`, and the SDL2/ImGui glue of the input backend.
