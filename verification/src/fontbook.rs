//! Font atlas texture bookkeeping of the font stash renderer
//!
//! The font stash rasterizes glyphs into an alpha atlas; the font book keeps a GPU texture of
//! the same size and refreshes it from the atlas when it is marked dirty.

use vstd::prelude::*;
use crate::handles::TextureHandle;

verus! {

/// State of the font book's GPU texture
pub struct FontBookInternal {
    /// The atlas texture, or the null handle before one is created
    pub texture: TextureHandle,
    /// Width of the texture, kept equal to the atlas width
    pub w: u32,
    /// Height of the texture, kept equal to the atlas height
    pub h: u32,
    /// Whether the texture is to be refreshed from the atlas
    pub is_dirty: bool,
}

/// Pixels of an RGBA texture that shows an alpha atlas in white: four bytes per atlas pixel,
/// 255 for red, green and blue and the atlas value for alpha
pub open spec fn is_white_rgba_of(data: Seq<u8>, pixels: Seq<u8>, area: int) -> bool {
    &&& data.len() == 4 * area
    &&& forall|i: int|
        0 <= i < area ==> {
            &&& #[trigger] data[4 * i] == 255
            &&& data[4 * i + 1] == 255
            &&& data[4 * i + 2] == 255
            &&& data[4 * i + 3] == pixels[i]
        }
}

impl FontBookInternal {
    /// A font book for an atlas of `w` by `h` pixels, with no texture yet and marked dirty
    pub fn new(w: u32, h: u32) -> (r: FontBookInternal)
        ensures
            r.texture.0 == 0,
            r.w == w,
            r.h == h,
            r.is_dirty,
    {
        FontBookInternal { texture: TextureHandle::null(), w, h, is_dirty: true }
    }

    /// Marks the texture to be refreshed
    pub fn update(&mut self)
        ensures
            final(self).is_dirty,
            final(self).texture == old(self).texture,
            final(self).w == old(self).w,
            final(self).h == old(self).h,
    {
        self.is_dirty = true;
    }

    /// The atlas texture
    pub fn texture(&self) -> (r: TextureHandle)
        ensures
            r == self.texture,
    {
        self.texture
    }

    /// The texture to dispose before a new one is created (or the book is dropped): the current
    /// one, unless there is none
    pub fn texture_to_dispose(&self) -> (r: Option<TextureHandle>)
        ensures
            self.texture.0 == 0 ==> r is None,
            self.texture.0 != 0 ==> r == Some(self.texture),
    {
        if self.texture.is_null() {
            None
        } else {
            Some(self.texture)
        }
    }

    /// Records the texture created for an atlas of `width` by `height` pixels (sizes read
    /// unsigned) and marks it dirty
    pub fn on_created(&mut self, texture: TextureHandle, width: i32, height: i32)
        ensures
            final(self).texture == texture,
            final(self).w == width as u32,
            final(self).h == height as u32,
            final(self).is_dirty,
    {
        self.texture = texture;
        self.w = width as u32;
        self.h = height as u32;
        self.is_dirty = true;
    }

    /// Size the atlas is asked to grow to when it is full: twice the current size
    pub fn expanded_size(&self) -> (r: (u32, u32))
        requires
            self.w * 2 <= u32::MAX,
            self.h * 2 <= u32::MAX,
        ensures
            r.0 == self.w * 2,
            r.1 == self.h * 2,
    {
        (self.w * 2, self.h * 2)
    }

    /// Decides whether to refresh the texture now. A dirty book is refreshed and becomes clean;
    /// a clean one is not refreshed and becomes dirty, so it is refreshed on the next call.
    pub fn maybe_update_texture(&mut self) -> (r: bool)
        ensures
            r == old(self).is_dirty,
            final(self).is_dirty == !old(self).is_dirty,
            final(self).texture == old(self).texture,
            final(self).w == old(self).w,
            final(self).h == old(self).h,
    {
        if !self.is_dirty {
            self.is_dirty = true;
            return false;
        }
        self.is_dirty = false;
        true
    }
}

/// Texture data for an alpha atlas of `w` by `h` pixels: each atlas pixel becomes white with
/// the atlas value as alpha. The pixel count is computed in 32 bits.
pub fn white_rgba_from_alpha(pixels: &[u8], w: u32, h: u32) -> (r: Vec<u8>)
    requires
        w * h <= u32::MAX,
        pixels@.len() >= w * h,
        4 * (w * h) <= usize::MAX,
    ensures
        is_white_rgba_of(r@, pixels@, (w * h) as int),
{
    let area = (w * h) as usize;
    let mut data: Vec<u8> = Vec::with_capacity(4 * area);
    let mut i: usize = 0;
    while i < area
        invariant
            area == w * h,
            i <= area,
            pixels@.len() >= area,
            is_white_rgba_of(data@, pixels@, i as int),
        decreases area - i,
    {
        let ghost before = data@;
        data.push(255);
        data.push(255);
        data.push(255);
        data.push(pixels[i]);
        assert forall|k: int| 0 <= k < i + 1 implies {
            &&& #[trigger] data@[4 * k] == 255
            &&& data@[4 * k + 1] == 255
            &&& data@[4 * k + 2] == 255
            &&& data@[4 * k + 3] == pixels@[k]
        } by {
            if k < i {
                assert(data@[4 * k] == before[4 * k]);
                assert(data@[4 * k + 1] == before[4 * k + 1]);
                assert(data@[4 * k + 2] == before[4 * k + 2]);
                assert(data@[4 * k + 3] == before[4 * k + 3]);
            }
        }
        i = i + 1;
    }
    data
}

} // verus!
