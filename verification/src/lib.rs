//! Verified core of a wrapper around FNA3D, the graphics library for FNA
//!
//! The crate holds the value-level parts of the wrapper: the FNA3D enumerations with their
//! integer values, bit flags, render state structures with their presets and accessors, vertex
//! declarations, presentation parameters, and the bookkeeping decisions of the renderer helpers.

pub mod blend;
pub mod color;
pub mod depth_stencil;
pub mod enums;
pub mod flags;
pub mod fontbook;
pub mod handles;
pub mod img;
pub mod imgui_renderer;
pub mod mojo;
pub mod params;
pub mod rasterizer;
pub mod render_target;
pub mod sampler;
pub mod sdl2_backend;
pub mod utils;
pub mod vertex;

pub use crate::blend::{BlendState, RawBlendState};
pub use crate::color::{Color, RawColor};
pub use crate::depth_stencil::{DepthStencilState, RawDepthStencilState};
pub use crate::handles::{
    BufferHandle, EffectDataHandle, EffectHandle, RenderbufferHandle, TextureHandle, WindowHandle,
};
pub use crate::params::{PresentationParameters, Rect, SdlWindowFlags, Viewport};
pub use crate::rasterizer::{RasterizerState, RawRasterizerState};
pub use crate::render_target::{
    RawRenderTargetBinding, RenderTargetBinding, RenderTargetExtent, RenderTargetType,
};
pub use crate::sampler::{RawSamplerState, SamplerState};
pub use crate::vertex::{
    VertexBufferBinding, VertexDeclaration, VertexDeclarationUtils, VertexElement,
    VertexElementUtils,
};
pub use crate::flags::{ClearOptions, ColorMask};
pub use crate::enums::{
    Blend, BlendFunction, BufferUsage, ColorWriteChannels, CompareFunction, CubeMapFace, CullMode,
    DepthFormat, DisplayOrientation, FillMode, IndexElementSize, PresentInterval, PrimitiveType,
    RenderTargetUsage, SetDataOptions, StencilOperation, SurfaceFormat, TextureAddressMode,
    TextureFilter, VertexElementFormat, VertexElementUsage,
};
