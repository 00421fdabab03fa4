//! Render target bindings: where draw calls write to

use vstd::prelude::*;
use crate::enums::{CubeMapFace, RenderTargetUsage};
use crate::handles::{RenderbufferHandle, TextureHandle};

verus! {

/// 2D | Cube
#[derive(Debug, Clone, Copy, PartialEq, Eq, Hash, Structural)]
pub enum RenderTargetType {
    /// w, h
    TwoD,
    /// size, face
    Cube,
}

impl RenderTargetType {
    /// The FNA3D value of this variant
    pub open spec fn code(self) -> u8 {
        match self {
            RenderTargetType::TwoD => 0,
            RenderTargetType::Cube => 1,
        }
    }

    /// The FNA3D value of this variant (the `as u8` conversion)
    pub fn to_u8(&self) -> (r: u8)
        ensures
            r == self.code(),
    {
        match self {
            RenderTargetType::TwoD => 0,
            RenderTargetType::Cube => 1,
        }
    }
}

/// The extent of a render target: width and height of a 2D target, or edge size and face of a
/// cube target
#[derive(Debug, Clone, Copy, PartialEq, Eq, Structural)]
pub enum RenderTargetExtent {
    TwoD { width: i32, height: i32 },
    Cube { size: i32, face: u32 },
}

/// The fields of a render target binding as FNA3D reads them
#[derive(Debug, Clone, Copy, PartialEq, Eq, Structural)]
pub struct RawRenderTargetBinding {
    pub type_: u8,
    pub extent: RenderTargetExtent,
    pub level_count: i32,
    pub multi_sample_count: i32,
    pub texture: TextureHandle,
    pub color_buffer: RenderbufferHandle,
}

/// A render target: a texture, optionally with a multisample color buffer
pub struct RenderTargetBinding {
    raw: RawRenderTargetBinding,
}

impl View for RenderTargetBinding {
    type V = RawRenderTargetBinding;

    closed spec fn view(&self) -> RawRenderTargetBinding {
        self.raw
    }
}

impl RenderTargetBinding {
    /// The raw fields
    pub fn raw(&self) -> (r: &RawRenderTargetBinding)
        ensures
            *r == self@,
    {
        &self.raw
    }

    /// Mutable access to the raw fields
    pub fn raw_mut(&mut self) -> (r: &mut RawRenderTargetBinding)
        ensures
            *r == old(self)@,
            final(self)@ == *final(r),
    {
        &mut self.raw
    }

    /// Binding of a 2D target; counts and sizes are stored as signed 32-bit values
    pub fn new_2d(
        type_: RenderTargetType,
        level_count: u32,
        multi_sample_count: u32,
        texture: TextureHandle,
        w: u32,
        h: u32,
        color_buffer: RenderbufferHandle,
    ) -> (r: RenderTargetBinding)
        ensures
            r@ == (RawRenderTargetBinding {
                type_: type_.code(),
                extent: RenderTargetExtent::TwoD { width: w as i32, height: h as i32 },
                level_count: level_count as i32,
                multi_sample_count: multi_sample_count as i32,
                texture,
                color_buffer,
            }),
    {
        RenderTargetBinding {
            raw: RawRenderTargetBinding {
                type_: type_.to_u8(),
                extent: RenderTargetExtent::TwoD { width: w as i32, height: h as i32 },
                level_count: level_count as i32,
                multi_sample_count: multi_sample_count as i32,
                texture,
                color_buffer,
            },
        }
    }

    /// Binding of a cube target, tagged as a cube; the usage does not enter the binding
    pub fn new_cube(
        _usage: RenderTargetUsage,
        level_count: u32,
        multi_sample_count: u32,
        texture: TextureHandle,
        size: u32,
        face: CubeMapFace,
        color_buffer: RenderbufferHandle,
    ) -> (r: RenderTargetBinding)
        ensures
            r@ == (RawRenderTargetBinding {
                type_: RenderTargetType::Cube.code(),
                extent: RenderTargetExtent::Cube { size: size as i32, face: face.code() },
                level_count: level_count as i32,
                multi_sample_count: multi_sample_count as i32,
                texture,
                color_buffer,
            }),
    {
        RenderTargetBinding {
            raw: RawRenderTargetBinding {
                type_: RenderTargetType::Cube.to_u8(),
                extent: RenderTargetExtent::Cube { size: size as i32, face: face.to_u32() },
                level_count: level_count as i32,
                multi_sample_count: multi_sample_count as i32,
                texture,
                color_buffer,
            },
        }
    }
}

} // verus!
