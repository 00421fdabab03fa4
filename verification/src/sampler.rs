//! Sampler state: texture filtering and addressing
//!
//! The mip-map level-of-detail bias is a float and is held as its IEEE-754 bit pattern.

use vstd::prelude::*;
use crate::enums::{TextureAddressMode, TextureFilter};

verus! {

/// The fields of a sampler state as FNA3D reads them
#[derive(Debug, Clone, Copy, PartialEq, Eq, Structural)]
pub struct RawSamplerState {
    pub filter: u32,
    pub address_u: u32,
    pub address_v: u32,
    pub address_w: u32,
    pub mip_map_level_of_detail_bias_bits: u32,
    pub max_anisotropy: i32,
    pub max_mip_level: i32,
}

impl RawSamplerState {
    /// Every enumerated field holds the value of a variant, so every accessor can read it
    pub open spec fn is_valid(self) -> bool {
        &&& TextureFilter::decode(self.filter) is Some
        &&& TextureAddressMode::decode(self.address_u) is Some
        &&& TextureAddressMode::decode(self.address_v) is Some
        &&& TextureAddressMode::decode(self.address_w) is Some
    }
}

/// Texture sampling method: wrap, mirror, etc.
#[derive(Debug, Clone)]
pub struct SamplerState {
    raw: RawSamplerState,
}

impl View for SamplerState {
    type V = RawSamplerState;

    closed spec fn view(&self) -> RawSamplerState {
        self.raw
    }
}

/// The default sampler state: linear filtering, wrapping on all three axes, no level-of-detail
/// bias, anisotropy 4, top mip level 0
pub open spec fn default_sampler_state() -> RawSamplerState {
    RawSamplerState {
        filter: TextureFilter::Linear.code(),
        address_u: TextureAddressMode::Wrap.code(),
        address_v: TextureAddressMode::Wrap.code(),
        address_w: TextureAddressMode::Wrap.code(),
        mip_map_level_of_detail_bias_bits: 0,
        max_anisotropy: 4,
        max_mip_level: 0,
    }
}

/// The default sampler state with the given filter and the same addressing on all three axes
pub open spec fn preset_sampler_state(filter: TextureFilter, address: TextureAddressMode) -> RawSamplerState {
    RawSamplerState {
        filter: filter.code(),
        address_u: address.code(),
        address_v: address.code(),
        address_w: address.code(),
        ..default_sampler_state()
    }
}

/// The default sampler state in FNA3D's numbering: linear filtering (0), wrapping (0) along u,
/// v and w, a level-of-detail bias of +0.0 (bit pattern 0), anisotropy 4 and top mip level 0.
/// Each preset keeps those last three and sets the filter (linear 0, point 1, anisotropic 2) and
/// one addressing (wrap 0, clamp 1) on all three axes.
pub proof fn lemma_default_sampler_values(filter: TextureFilter, address: TextureAddressMode)
    ensures
        default_sampler_state().filter == 0,
        default_sampler_state().address_u == 0,
        default_sampler_state().address_v == 0,
        default_sampler_state().address_w == 0,
        default_sampler_state().mip_map_level_of_detail_bias_bits == 0,
        default_sampler_state().max_anisotropy == 4,
        default_sampler_state().max_mip_level == 0,
        preset_sampler_state(filter, address).mip_map_level_of_detail_bias_bits == 0,
        preset_sampler_state(filter, address).max_anisotropy == 4,
        preset_sampler_state(filter, address).max_mip_level == 0,
        preset_sampler_state(filter, address).address_u == preset_sampler_state(filter, address).address_v,
        preset_sampler_state(filter, address).address_v == preset_sampler_state(filter, address).address_w,
        preset_sampler_state(TextureFilter::Linear, TextureAddressMode::Wrap).filter == 0,
        preset_sampler_state(TextureFilter::Linear, TextureAddressMode::Wrap).address_u == 0,
        preset_sampler_state(TextureFilter::Linear, TextureAddressMode::Clamp).filter == 0,
        preset_sampler_state(TextureFilter::Linear, TextureAddressMode::Clamp).address_u == 1,
        preset_sampler_state(TextureFilter::Point, TextureAddressMode::Wrap).filter == 1,
        preset_sampler_state(TextureFilter::Point, TextureAddressMode::Wrap).address_u == 0,
        preset_sampler_state(TextureFilter::Point, TextureAddressMode::Clamp).filter == 1,
        preset_sampler_state(TextureFilter::Point, TextureAddressMode::Clamp).address_u == 1,
        preset_sampler_state(TextureFilter::Anisotropic, TextureAddressMode::Wrap).filter == 2,
        preset_sampler_state(TextureFilter::Anisotropic, TextureAddressMode::Wrap).address_u == 0,
        preset_sampler_state(TextureFilter::Anisotropic, TextureAddressMode::Clamp).filter == 2,
        preset_sampler_state(TextureFilter::Anisotropic, TextureAddressMode::Clamp).address_u == 1,
{
    TextureFilter::lemma_values();
    TextureAddressMode::lemma_values();
}

impl Default for SamplerState {
    fn default() -> (r: SamplerState)
        ensures
            r@ == default_sampler_state(),
            r@.is_valid(),
            r@.filter == 0,
            r@.address_u == 0,
            r@.address_v == 0,
            r@.address_w == 0,
            r@.mip_map_level_of_detail_bias_bits == 0,
            r@.max_anisotropy == 4,
            r@.max_mip_level == 0,
    {
        proof {
            lemma_default_sampler_values(TextureFilter::Linear, TextureAddressMode::Wrap);
        }
        SamplerState {
            raw: RawSamplerState {
                filter: TextureFilter::Linear.to_u32(),
                address_u: TextureAddressMode::Wrap.to_u32(),
                address_v: TextureAddressMode::Wrap.to_u32(),
                address_w: TextureAddressMode::Wrap.to_u32(),
                mip_map_level_of_detail_bias_bits: 0,
                max_anisotropy: 4,
                max_mip_level: 0,
            },
        }
    }
}

impl SamplerState {
    /// Mutable access to the raw fields
    pub fn raw_mut(&mut self) -> (r: &mut RawSamplerState)
        ensures
            *r == old(self)@,
            final(self)@ == *final(r),
    {
        &mut self.raw
    }

    /// Texture filter; the raw value has to name a filter
    pub fn filter(&self) -> (r: TextureFilter)
        requires
            TextureFilter::decode(self@.filter) is Some,
        ensures
            TextureFilter::decode(self@.filter) == Some(r),
    {
        TextureFilter::from_u32(self.raw.filter).unwrap()
    }

    pub fn set_filter(&mut self, filter: TextureFilter)
        ensures
            final(self)@ == (RawSamplerState { filter: filter.code(), ..old(self)@ }),
    {
        self.raw.filter = filter.to_u32();
    }

    /// Addressing along u; the raw value has to name an address mode
    pub fn address_u(&self) -> (r: TextureAddressMode)
        requires
            TextureAddressMode::decode(self@.address_u) is Some,
        ensures
            TextureAddressMode::decode(self@.address_u) == Some(r),
    {
        TextureAddressMode::from_u32(self.raw.address_u).unwrap()
    }

    pub fn set_address_u(&mut self, address: TextureAddressMode)
        ensures
            final(self)@ == (RawSamplerState { address_u: address.code(), ..old(self)@ }),
    {
        self.raw.address_u = address.to_u32();
    }

    /// Addressing along v; the raw value has to name an address mode
    pub fn address_v(&self) -> (r: TextureAddressMode)
        requires
            TextureAddressMode::decode(self@.address_v) is Some,
        ensures
            TextureAddressMode::decode(self@.address_v) == Some(r),
    {
        TextureAddressMode::from_u32(self.raw.address_v).unwrap()
    }

    pub fn set_address_v(&mut self, address: TextureAddressMode)
        ensures
            final(self)@ == (RawSamplerState { address_v: address.code(), ..old(self)@ }),
    {
        self.raw.address_v = address.to_u32();
    }

    /// Addressing along w; the raw value has to name an address mode
    pub fn address_w(&self) -> (r: TextureAddressMode)
        requires
            TextureAddressMode::decode(self@.address_w) is Some,
        ensures
            TextureAddressMode::decode(self@.address_w) == Some(r),
    {
        TextureAddressMode::from_u32(self.raw.address_w).unwrap()
    }

    pub fn set_address_w(&mut self, address: TextureAddressMode)
        ensures
            final(self)@ == (RawSamplerState { address_w: address.code(), ..old(self)@ }),
    {
        self.raw.address_w = address.to_u32();
    }

    /// Bit pattern of the mip-map level-of-detail bias
    pub fn mip_map_level_of_detail_bias_bits(&self) -> (r: u32)
        ensures
            r == self@.mip_map_level_of_detail_bias_bits,
    {
        self.raw.mip_map_level_of_detail_bias_bits
    }

    pub fn set_mip_map_level_of_detail_bias_bits(&mut self, value: u32)
        ensures
            final(self)@ == (RawSamplerState {
                mip_map_level_of_detail_bias_bits: value,
                ..old(self)@
            }),
    {
        self.raw.mip_map_level_of_detail_bias_bits = value;
    }

    pub fn max_anisotropy(&self) -> (r: i32)
        ensures
            r == self@.max_anisotropy,
    {
        self.raw.max_anisotropy
    }

    pub fn set_max_anisotropy(&mut self, value: i32)
        ensures
            final(self)@ == (RawSamplerState { max_anisotropy: value, ..old(self)@ }),
    {
        self.raw.max_anisotropy = value;
    }

    pub fn max_mip_level(&self) -> (r: i32)
        ensures
            r == self@.max_mip_level,
    {
        self.raw.max_mip_level
    }

    pub fn set_max_mip_level(&mut self, value: i32)
        ensures
            final(self)@ == (RawSamplerState { max_mip_level: value, ..old(self)@ }),
    {
        self.raw.max_mip_level = value;
    }

    fn new_(
        filter: TextureFilter,
        address_u: TextureAddressMode,
        address_v: TextureAddressMode,
        address_w: TextureAddressMode,
    ) -> (r: SamplerState)
        ensures
            r@ == (RawSamplerState {
                filter: filter.code(),
                address_u: address_u.code(),
                address_v: address_v.code(),
                address_w: address_w.code(),
                ..default_sampler_state()
            }),
            r@.is_valid(),
    {
        let mut me = Self::default();
        me.set_filter(filter);
        me.set_address_u(address_u);
        me.set_address_v(address_v);
        me.set_address_w(address_w);
        me
    }

    pub fn anisotropic_clamp() -> (r: SamplerState)
        ensures
            r@ == preset_sampler_state(TextureFilter::Anisotropic, TextureAddressMode::Clamp),
            r@.is_valid(),
    {
        Self::new_(
            TextureFilter::Anisotropic,
            TextureAddressMode::Clamp,
            TextureAddressMode::Clamp,
            TextureAddressMode::Clamp,
        )
    }

    pub fn anisotropic_wrap() -> (r: SamplerState)
        ensures
            r@ == preset_sampler_state(TextureFilter::Anisotropic, TextureAddressMode::Wrap),
            r@.is_valid(),
    {
        Self::new_(
            TextureFilter::Anisotropic,
            TextureAddressMode::Wrap,
            TextureAddressMode::Wrap,
            TextureAddressMode::Wrap,
        )
    }

    pub fn linear_clamp() -> (r: SamplerState)
        ensures
            r@ == preset_sampler_state(TextureFilter::Linear, TextureAddressMode::Clamp),
            r@.is_valid(),
    {
        Self::new_(
            TextureFilter::Linear,
            TextureAddressMode::Clamp,
            TextureAddressMode::Clamp,
            TextureAddressMode::Clamp,
        )
    }

    pub fn linear_wrap() -> (r: SamplerState)
        ensures
            r@ == preset_sampler_state(TextureFilter::Linear, TextureAddressMode::Wrap),
            r@.is_valid(),
    {
        Self::new_(
            TextureFilter::Linear,
            TextureAddressMode::Wrap,
            TextureAddressMode::Wrap,
            TextureAddressMode::Wrap,
        )
    }

    pub fn point_clamp() -> (r: SamplerState)
        ensures
            r@ == preset_sampler_state(TextureFilter::Point, TextureAddressMode::Clamp),
            r@.is_valid(),
    {
        Self::new_(
            TextureFilter::Point,
            TextureAddressMode::Clamp,
            TextureAddressMode::Clamp,
            TextureAddressMode::Clamp,
        )
    }

    pub fn point_wrap() -> (r: SamplerState)
        ensures
            r@ == preset_sampler_state(TextureFilter::Point, TextureAddressMode::Wrap),
            r@.is_valid(),
    {
        Self::new_(
            TextureFilter::Point,
            TextureAddressMode::Wrap,
            TextureAddressMode::Wrap,
            TextureAddressMode::Wrap,
        )
    }
}

/// Reading a field back after writing a variant into it gives that variant, and writing a
/// variant into a field of a valid state leaves the state valid.
pub proof fn lemma_sampler_state_read_after_write(
    s: RawSamplerState,
    filter: TextureFilter,
    address_u: TextureAddressMode,
    address_v: TextureAddressMode,
    address_w: TextureAddressMode,
)
    ensures
        TextureFilter::decode((RawSamplerState { filter: filter.code(), ..s }).filter) == Some(filter),
        s.is_valid() ==> (RawSamplerState { filter: filter.code(), ..s }).is_valid(),
        TextureAddressMode::decode((RawSamplerState { address_u: address_u.code(), ..s }).address_u) == Some(address_u),
        s.is_valid() ==> (RawSamplerState { address_u: address_u.code(), ..s }).is_valid(),
        TextureAddressMode::decode((RawSamplerState { address_v: address_v.code(), ..s }).address_v) == Some(address_v),
        s.is_valid() ==> (RawSamplerState { address_v: address_v.code(), ..s }).is_valid(),
        TextureAddressMode::decode((RawSamplerState { address_w: address_w.code(), ..s }).address_w) == Some(address_w),
        s.is_valid() ==> (RawSamplerState { address_w: address_w.code(), ..s }).is_valid(),
{
    filter.lemma_decode_code();
    address_u.lemma_decode_code();
    address_v.lemma_decode_code();
    address_w.lemma_decode_code();
}

} // verus!
