//! Handles of GPU resources owned by the FNA3D device
//!
//! A handle carries the address of a device object through the library unchanged. The library
//! never reads through a handle; address 0 stands for "no object".

use vstd::prelude::*;

verus! {

/// Vertex or index buffer on the device
#[derive(Debug, Clone, Copy, PartialEq, Eq, Hash, Structural)]
pub struct BufferHandle(pub usize);

/// 2D, 3D or cube texture on the device
#[derive(Debug, Clone, Copy, PartialEq, Eq, Hash, Structural)]
pub struct TextureHandle(pub usize);

/// Color or depth/stencil render buffer on the device
#[derive(Debug, Clone, Copy, PartialEq, Eq, Hash, Structural)]
pub struct RenderbufferHandle(pub usize);

/// Compiled effect on the device
#[derive(Debug, Clone, Copy, PartialEq, Eq, Hash, Structural)]
pub struct EffectHandle(pub usize);

/// Effect data (parameters and techniques) of a compiled effect
#[derive(Debug, Clone, Copy, PartialEq, Eq, Hash, Structural)]
pub struct EffectDataHandle(pub usize);

/// OS window the device presents to
#[derive(Debug, Clone, Copy, PartialEq, Eq, Hash, Structural)]
pub struct WindowHandle(pub usize);

impl TextureHandle {
    /// The handle of no texture
    pub fn null() -> (r: TextureHandle)
        ensures
            r.0 == 0,
    {
        TextureHandle(0)
    }

    /// Whether this is the handle of no texture
    pub fn is_null(&self) -> (r: bool)
        ensures
            r == (self.0 == 0),
    {
        self.0 == 0
    }
}

} // verus!
