//! Blend state: how source and destination colors are combined

use vstd::prelude::*;
use crate::color::{Color, RawColor};
use crate::enums::{Blend, BlendFunction, ColorWriteChannels};

verus! {

/// The fields of a blend state as FNA3D reads them
#[derive(Debug, Clone, Copy, PartialEq, Eq, Structural)]
pub struct RawBlendState {
    pub color_source_blend: u32,
    pub color_destination_blend: u32,
    pub color_blend_function: u32,
    pub alpha_source_blend: u32,
    pub alpha_destination_blend: u32,
    pub alpha_blend_function: u32,
    pub color_write_enable: u32,
    pub color_write_enable1: u32,
    pub color_write_enable2: u32,
    pub color_write_enable3: u32,
    pub blend_factor: RawColor,
    pub multi_sample_mask: i32,
}

impl RawBlendState {
    /// Every enumerated field holds the value of a variant, so every accessor can read it
    pub open spec fn is_valid(self) -> bool {
        &&& Blend::decode(self.color_source_blend) is Some
        &&& Blend::decode(self.color_destination_blend) is Some
        &&& BlendFunction::decode(self.color_blend_function) is Some
        &&& Blend::decode(self.alpha_source_blend) is Some
        &&& Blend::decode(self.alpha_destination_blend) is Some
        &&& BlendFunction::decode(self.alpha_blend_function) is Some
        &&& ColorWriteChannels::decode(self.color_write_enable) is Some
        &&& ColorWriteChannels::decode(self.color_write_enable1) is Some
        &&& ColorWriteChannels::decode(self.color_write_enable2) is Some
        &&& ColorWriteChannels::decode(self.color_write_enable3) is Some
    }
}

/// Blend state of the pipeline
#[derive(Debug, Clone)]
pub struct BlendState {
    raw: RawBlendState,
}

impl View for BlendState {
    type V = RawBlendState;

    closed spec fn view(&self) -> RawBlendState {
        self.raw
    }
}

/// The default blend state: source alpha over inverse source alpha for color and alpha, added;
/// all channels written on the four targets; white blend factor; multisample mask -1 (all bits)
pub open spec fn default_blend_state() -> RawBlendState {
    RawBlendState {
        color_source_blend: Blend::SourceAlpha.code(),
        color_destination_blend: Blend::InverseSourceAlpha.code(),
        color_blend_function: BlendFunction::Add.code(),
        alpha_source_blend: Blend::SourceAlpha.code(),
        alpha_destination_blend: Blend::InverseSourceAlpha.code(),
        alpha_blend_function: BlendFunction::Add.code(),
        color_write_enable: ColorWriteChannels::All.code(),
        color_write_enable1: ColorWriteChannels::All.code(),
        color_write_enable2: ColorWriteChannels::All.code(),
        color_write_enable3: ColorWriteChannels::All.code(),
        blend_factor: RawColor { r: 255, g: 255, b: 255, a: 255 },
        multi_sample_mask: -1i32,
    }
}

/// The default blend state with the given source and destination factors
pub open spec fn blend_with(color_src: Blend, alpha_src: Blend, color_dest: Blend, alpha_dest: Blend) -> RawBlendState {
    RawBlendState {
        color_source_blend: color_src.code(),
        alpha_source_blend: alpha_src.code(),
        color_destination_blend: color_dest.code(),
        alpha_destination_blend: alpha_dest.code(),
        ..default_blend_state()
    }
}

/// The default blend state in FNA3D's numbering: source alpha (4) over inverse source alpha
/// (5), added (0), for color and for alpha; all four channels (15) written on each of the four
/// targets; an opaque white blend factor; multisample mask -1. The presets keep all of it but
/// the four factors, which are, as (color source, alpha source, color destination, alpha
/// destination): additive (4, 4, 0, 0), alpha blending (0, 0, 5, 5), non-premultiplied
/// (4, 4, 5, 5) and opaque (0, 0, 1, 1), where 0 is the unit factor and 1 the zero factor.
pub proof fn lemma_default_blend_values(color_src: Blend, alpha_src: Blend, color_dest: Blend, alpha_dest: Blend)
    ensures
        default_blend_state().color_source_blend == 4,
        default_blend_state().alpha_source_blend == 4,
        default_blend_state().color_destination_blend == 5,
        default_blend_state().alpha_destination_blend == 5,
        default_blend_state().color_blend_function == 0,
        default_blend_state().alpha_blend_function == 0,
        default_blend_state().color_write_enable == 15,
        default_blend_state().color_write_enable1 == 15,
        default_blend_state().color_write_enable2 == 15,
        default_blend_state().color_write_enable3 == 15,
        default_blend_state().blend_factor == (RawColor { r: 255, g: 255, b: 255, a: 255 }),
        default_blend_state().multi_sample_mask == -1,
        blend_with(color_src, alpha_src, color_dest, alpha_dest).color_blend_function == 0,
        blend_with(color_src, alpha_src, color_dest, alpha_dest).alpha_blend_function == 0,
        blend_with(color_src, alpha_src, color_dest, alpha_dest).color_write_enable == 15,
        blend_with(color_src, alpha_src, color_dest, alpha_dest).multi_sample_mask == -1,
        blend_with(Blend::SourceAlpha, Blend::SourceAlpha, Blend::One, Blend::One).color_source_blend == 4,
        blend_with(Blend::SourceAlpha, Blend::SourceAlpha, Blend::One, Blend::One).alpha_source_blend == 4,
        blend_with(Blend::SourceAlpha, Blend::SourceAlpha, Blend::One, Blend::One).color_destination_blend == 0,
        blend_with(Blend::SourceAlpha, Blend::SourceAlpha, Blend::One, Blend::One).alpha_destination_blend == 0,
        blend_with(Blend::One, Blend::One, Blend::InverseSourceAlpha, Blend::InverseSourceAlpha).color_source_blend == 0,
        blend_with(Blend::One, Blend::One, Blend::InverseSourceAlpha, Blend::InverseSourceAlpha).alpha_source_blend == 0,
        blend_with(Blend::One, Blend::One, Blend::InverseSourceAlpha, Blend::InverseSourceAlpha).color_destination_blend == 5,
        blend_with(Blend::One, Blend::One, Blend::InverseSourceAlpha, Blend::InverseSourceAlpha).alpha_destination_blend == 5,
        blend_with(Blend::SourceAlpha, Blend::SourceAlpha, Blend::InverseSourceAlpha, Blend::InverseSourceAlpha)
            == default_blend_state(),
        blend_with(Blend::One, Blend::One, Blend::Zero, Blend::Zero).color_source_blend == 0,
        blend_with(Blend::One, Blend::One, Blend::Zero, Blend::Zero).alpha_source_blend == 0,
        blend_with(Blend::One, Blend::One, Blend::Zero, Blend::Zero).color_destination_blend == 1,
        blend_with(Blend::One, Blend::One, Blend::Zero, Blend::Zero).alpha_destination_blend == 1,
{
    Blend::lemma_values();
    BlendFunction::lemma_values();
    ColorWriteChannels::lemma_values();
}

impl Default for BlendState {
    fn default() -> (r: BlendState)
        ensures
            r@ == default_blend_state(),
            r@.is_valid(),
            r@.color_source_blend == 4 && r@.alpha_source_blend == 4,
            r@.color_destination_blend == 5 && r@.alpha_destination_blend == 5,
            r@.color_blend_function == 0 && r@.alpha_blend_function == 0,
            r@.color_write_enable == 15 && r@.color_write_enable1 == 15,
            r@.color_write_enable2 == 15 && r@.color_write_enable3 == 15,
            r@.blend_factor == (RawColor { r: 255, g: 255, b: 255, a: 255 }),
            r@.multi_sample_mask == -1,
    {
        proof {
            lemma_default_blend_values(Blend::One, Blend::One, Blend::One, Blend::One);
        }
        BlendState {
            raw: RawBlendState {
                color_source_blend: Blend::SourceAlpha.to_u32(),
                color_destination_blend: Blend::InverseSourceAlpha.to_u32(),
                color_blend_function: BlendFunction::Add.to_u32(),
                alpha_source_blend: Blend::SourceAlpha.to_u32(),
                alpha_destination_blend: Blend::InverseSourceAlpha.to_u32(),
                alpha_blend_function: BlendFunction::Add.to_u32(),
                color_write_enable: ColorWriteChannels::All.to_u32(),
                color_write_enable1: ColorWriteChannels::All.to_u32(),
                color_write_enable2: ColorWriteChannels::All.to_u32(),
                color_write_enable3: ColorWriteChannels::All.to_u32(),
                blend_factor: Color::rgba(0xff, 0xff, 0xff, 0xff).raw(),
                multi_sample_mask: -1,
            },
        }
    }
}

impl BlendState {
    /// The raw fields
    pub fn raw(&self) -> (r: &RawBlendState)
        ensures
            *r == self@,
    {
        &self.raw
    }

    /// Mutable access to the raw fields
    pub fn raw_mut(&mut self) -> (r: &mut RawBlendState)
        ensures
            *r == old(self)@,
            final(self)@ == *final(r),
    {
        &mut self.raw
    }

    /// The default state with the given source and destination factors
    pub fn with_blend(color_src: Blend, alpha_src: Blend, color_dest: Blend, alpha_dest: Blend) -> (r: BlendState)
        ensures
            r@ == blend_with(color_src, alpha_src, color_dest, alpha_dest),
            r@.is_valid(),
    {
        let mut me = Self::default();
        me.raw.color_source_blend = color_src.to_u32();
        me.raw.alpha_source_blend = alpha_src.to_u32();
        me.raw.color_destination_blend = color_dest.to_u32();
        me.raw.alpha_destination_blend = alpha_dest.to_u32();
        me
    }

    /// Adds the source, weighted by its alpha, onto the destination
    pub fn additive() -> (r: BlendState)
        ensures
            r@ == blend_with(Blend::SourceAlpha, Blend::SourceAlpha, Blend::One, Blend::One),
            r@.is_valid(),
    {
        Self::with_blend(Blend::SourceAlpha, Blend::SourceAlpha, Blend::One, Blend::One)
    }

    /// Blending for premultiplied alpha
    pub fn alpha_blend() -> (r: BlendState)
        ensures
            r@ == blend_with(Blend::One, Blend::One, Blend::InverseSourceAlpha, Blend::InverseSourceAlpha),
            r@.is_valid(),
    {
        Self::with_blend(Blend::One, Blend::One, Blend::InverseSourceAlpha, Blend::InverseSourceAlpha)
    }

    /// Blending for non-premultiplied alpha; the ImGui font texture uses it
    pub fn non_premultiplied() -> (r: BlendState)
        ensures
            r@ == blend_with(Blend::SourceAlpha, Blend::SourceAlpha, Blend::InverseSourceAlpha, Blend::InverseSourceAlpha),
            r@.is_valid(),
    {
        Self::with_blend(Blend::SourceAlpha, Blend::SourceAlpha, Blend::InverseSourceAlpha, Blend::InverseSourceAlpha)
    }

    /// Same blending as `non_premultiplied`
    pub fn not_premultiplied() -> (r: BlendState)
        ensures
            r@ == blend_with(Blend::SourceAlpha, Blend::SourceAlpha, Blend::InverseSourceAlpha, Blend::InverseSourceAlpha),
            r@.is_valid(),
    {
        Self::with_blend(Blend::SourceAlpha, Blend::SourceAlpha, Blend::InverseSourceAlpha, Blend::InverseSourceAlpha)
    }

    /// Opaque drawing: the source replaces the destination (unit source factor, zero
    /// destination factor, for color and alpha)
    pub fn opaque() -> (r: BlendState)
        ensures
            r@ == blend_with(Blend::One, Blend::One, Blend::Zero, Blend::Zero),
            r@.is_valid(),
    {
        Self::with_blend(Blend::One, Blend::One, Blend::Zero, Blend::Zero)
    }

    /// Source factor of color blending; the raw value has to name a variant
    pub fn color_src_blend(&self) -> (r: Blend)
        requires
            Blend::decode(self@.color_source_blend) is Some,
        ensures
            Blend::decode(self@.color_source_blend) == Some(r),
    {
        Blend::from_u32(self.raw.color_source_blend).unwrap()
    }

    pub fn set_color_src_blend(&mut self, blend: Blend)
        ensures
            final(self)@ == (RawBlendState { color_source_blend: blend.code(), ..old(self)@ }),
    {
        self.raw.color_source_blend = blend.to_u32();
    }

    /// Destination factor of color blending; the raw value has to name a variant
    pub fn color_dest_blend(&self) -> (r: Blend)
        requires
            Blend::decode(self@.color_destination_blend) is Some,
        ensures
            Blend::decode(self@.color_destination_blend) == Some(r),
    {
        Blend::from_u32(self.raw.color_destination_blend).unwrap()
    }

    pub fn set_color_dest_blend(&mut self, blend: Blend)
        ensures
            final(self)@ == (RawBlendState { color_destination_blend: blend.code(), ..old(self)@ }),
    {
        self.raw.color_destination_blend = blend.to_u32();
    }

    /// Color blending function; the raw value has to name a variant
    pub fn color_blend_fn(&self) -> (r: BlendFunction)
        requires
            BlendFunction::decode(self@.color_blend_function) is Some,
        ensures
            BlendFunction::decode(self@.color_blend_function) == Some(r),
    {
        BlendFunction::from_u32(self.raw.color_blend_function).unwrap()
    }

    pub fn set_color_blend_fn(&mut self, value: BlendFunction)
        ensures
            final(self)@ == (RawBlendState { color_blend_function: value.code(), ..old(self)@ }),
    {
        self.raw.color_blend_function = value.to_u32();
    }

    /// Source factor of alpha blending; the raw value has to name a variant
    pub fn alpha_src_blend(&self) -> (r: Blend)
        requires
            Blend::decode(self@.alpha_source_blend) is Some,
        ensures
            Blend::decode(self@.alpha_source_blend) == Some(r),
    {
        Blend::from_u32(self.raw.alpha_source_blend).unwrap()
    }

    pub fn set_alpha_src_blend(&mut self, blend: Blend)
        ensures
            final(self)@ == (RawBlendState { alpha_source_blend: blend.code(), ..old(self)@ }),
    {
        self.raw.alpha_source_blend = blend.to_u32();
    }

    /// Destination factor of alpha blending; the raw value has to name a variant
    pub fn alpha_dest_blend(&self) -> (r: Blend)
        requires
            Blend::decode(self@.alpha_destination_blend) is Some,
        ensures
            Blend::decode(self@.alpha_destination_blend) == Some(r),
    {
        Blend::from_u32(self.raw.alpha_destination_blend).unwrap()
    }

    pub fn set_alpha_dest_blend(&mut self, blend: Blend)
        ensures
            final(self)@ == (RawBlendState { alpha_destination_blend: blend.code(), ..old(self)@ }),
    {
        self.raw.alpha_destination_blend = blend.to_u32();
    }

    /// Alpha blending function; the raw value has to name a variant
    pub fn alpha_blend_fn(&self) -> (r: BlendFunction)
        requires
            BlendFunction::decode(self@.alpha_blend_function) is Some,
        ensures
            BlendFunction::decode(self@.alpha_blend_function) == Some(r),
    {
        BlendFunction::from_u32(self.raw.alpha_blend_function).unwrap()
    }

    pub fn set_alpha_blend_fn(&mut self, blend_fn: BlendFunction)
        ensures
            final(self)@ == (RawBlendState { alpha_blend_function: blend_fn.code(), ..old(self)@ }),
    {
        self.raw.alpha_blend_function = blend_fn.to_u32();
    }

    /// Channels written to render target 0; the raw value has to name a variant
    pub fn color_write_enable(&self) -> (r: ColorWriteChannels)
        requires
            ColorWriteChannels::decode(self@.color_write_enable) is Some,
        ensures
            ColorWriteChannels::decode(self@.color_write_enable) == Some(r),
    {
        ColorWriteChannels::from_u32(self.raw.color_write_enable).unwrap()
    }

    pub fn set_color_write_enable(&mut self, channel: ColorWriteChannels)
        ensures
            final(self)@ == (RawBlendState { color_write_enable: channel.code(), ..old(self)@ }),
    {
        self.raw.color_write_enable = channel.to_u32();
    }

    /// Channels written to render target 1; the raw value has to name a variant
    pub fn color_write_enable1(&self) -> (r: ColorWriteChannels)
        requires
            ColorWriteChannels::decode(self@.color_write_enable1) is Some,
        ensures
            ColorWriteChannels::decode(self@.color_write_enable1) == Some(r),
    {
        ColorWriteChannels::from_u32(self.raw.color_write_enable1).unwrap()
    }

    pub fn set_color_write_enable1(&mut self, channel: ColorWriteChannels)
        ensures
            final(self)@ == (RawBlendState { color_write_enable1: channel.code(), ..old(self)@ }),
    {
        self.raw.color_write_enable1 = channel.to_u32();
    }

    /// Channels written to render target 2; the raw value has to name a variant
    pub fn color_write_enable2(&self) -> (r: ColorWriteChannels)
        requires
            ColorWriteChannels::decode(self@.color_write_enable2) is Some,
        ensures
            ColorWriteChannels::decode(self@.color_write_enable2) == Some(r),
    {
        ColorWriteChannels::from_u32(self.raw.color_write_enable2).unwrap()
    }

    pub fn set_color_write_enable2(&mut self, channel: ColorWriteChannels)
        ensures
            final(self)@ == (RawBlendState { color_write_enable2: channel.code(), ..old(self)@ }),
    {
        self.raw.color_write_enable2 = channel.to_u32();
    }

    /// Channels written to render target 3; the raw value has to name a variant
    pub fn color_write_enable3(&self) -> (r: ColorWriteChannels)
        requires
            ColorWriteChannels::decode(self@.color_write_enable3) is Some,
        ensures
            ColorWriteChannels::decode(self@.color_write_enable3) == Some(r),
    {
        ColorWriteChannels::from_u32(self.raw.color_write_enable3).unwrap()
    }

    pub fn set_color_write_enable3(&mut self, channel: ColorWriteChannels)
        ensures
            final(self)@ == (RawBlendState { color_write_enable3: channel.code(), ..old(self)@ }),
    {
        self.raw.color_write_enable3 = channel.to_u32();
    }
}

/// Reading a field back after writing a variant into it gives that variant, and writing a
/// variant into a field of a valid state leaves the state valid.
pub proof fn lemma_blend_state_read_after_write(
    s: RawBlendState,
    color_source_blend: Blend,
    color_destination_blend: Blend,
    color_blend_function: BlendFunction,
    alpha_source_blend: Blend,
    alpha_destination_blend: Blend,
    alpha_blend_function: BlendFunction,
    color_write_enable: ColorWriteChannels,
    color_write_enable1: ColorWriteChannels,
    color_write_enable2: ColorWriteChannels,
    color_write_enable3: ColorWriteChannels,
)
    ensures
        Blend::decode((RawBlendState { color_source_blend: color_source_blend.code(), ..s }).color_source_blend) == Some(color_source_blend),
        s.is_valid() ==> (RawBlendState { color_source_blend: color_source_blend.code(), ..s }).is_valid(),
        Blend::decode((RawBlendState { color_destination_blend: color_destination_blend.code(), ..s }).color_destination_blend) == Some(color_destination_blend),
        s.is_valid() ==> (RawBlendState { color_destination_blend: color_destination_blend.code(), ..s }).is_valid(),
        BlendFunction::decode((RawBlendState { color_blend_function: color_blend_function.code(), ..s }).color_blend_function) == Some(color_blend_function),
        s.is_valid() ==> (RawBlendState { color_blend_function: color_blend_function.code(), ..s }).is_valid(),
        Blend::decode((RawBlendState { alpha_source_blend: alpha_source_blend.code(), ..s }).alpha_source_blend) == Some(alpha_source_blend),
        s.is_valid() ==> (RawBlendState { alpha_source_blend: alpha_source_blend.code(), ..s }).is_valid(),
        Blend::decode((RawBlendState { alpha_destination_blend: alpha_destination_blend.code(), ..s }).alpha_destination_blend) == Some(alpha_destination_blend),
        s.is_valid() ==> (RawBlendState { alpha_destination_blend: alpha_destination_blend.code(), ..s }).is_valid(),
        BlendFunction::decode((RawBlendState { alpha_blend_function: alpha_blend_function.code(), ..s }).alpha_blend_function) == Some(alpha_blend_function),
        s.is_valid() ==> (RawBlendState { alpha_blend_function: alpha_blend_function.code(), ..s }).is_valid(),
        ColorWriteChannels::decode((RawBlendState { color_write_enable: color_write_enable.code(), ..s }).color_write_enable) == Some(color_write_enable),
        s.is_valid() ==> (RawBlendState { color_write_enable: color_write_enable.code(), ..s }).is_valid(),
        ColorWriteChannels::decode((RawBlendState { color_write_enable1: color_write_enable1.code(), ..s }).color_write_enable1) == Some(color_write_enable1),
        s.is_valid() ==> (RawBlendState { color_write_enable1: color_write_enable1.code(), ..s }).is_valid(),
        ColorWriteChannels::decode((RawBlendState { color_write_enable2: color_write_enable2.code(), ..s }).color_write_enable2) == Some(color_write_enable2),
        s.is_valid() ==> (RawBlendState { color_write_enable2: color_write_enable2.code(), ..s }).is_valid(),
        ColorWriteChannels::decode((RawBlendState { color_write_enable3: color_write_enable3.code(), ..s }).color_write_enable3) == Some(color_write_enable3),
        s.is_valid() ==> (RawBlendState { color_write_enable3: color_write_enable3.code(), ..s }).is_valid(),
{
    color_source_blend.lemma_decode_code();
    color_destination_blend.lemma_decode_code();
    color_blend_function.lemma_decode_code();
    alpha_source_blend.lemma_decode_code();
    alpha_destination_blend.lemma_decode_code();
    alpha_blend_function.lemma_decode_code();
    color_write_enable.lemma_decode_code();
    color_write_enable1.lemma_decode_code();
    color_write_enable2.lemma_decode_code();
    color_write_enable3.lemma_decode_code();
}

} // verus!
