//! Rasterizer state
//!
//! Floating-point fields are held as their IEEE-754 bit patterns (`f32::to_bits`); the
//! library stores and hands them back unchanged.

use vstd::prelude::*;
use crate::enums::{CullMode, FillMode};

verus! {

/// The fields of a rasterizer state as FNA3D reads them
#[derive(Debug, Clone, Copy, PartialEq, Eq, Structural)]
pub struct RawRasterizerState {
    pub fill_mode: u32,
    pub cull_mode: u32,
    pub depth_bias_bits: u32,
    pub slope_scale_depth_bias_bits: u32,
    pub scissor_test_enable: u8,
    pub multi_sample_anti_alias: u8,
}

impl RawRasterizerState {
    /// Every enumerated field holds the value of a variant, so every accessor can read it
    pub open spec fn is_valid(self) -> bool {
        &&& FillMode::decode(self.fill_mode) is Some
        &&& CullMode::decode(self.cull_mode) is Some
    }
}

/// Rasterizer state of the pipeline
#[derive(Debug, Clone)]
pub struct RasterizerState {
    raw: RawRasterizerState,
}

impl View for RasterizerState {
    type V = RawRasterizerState;

    closed spec fn view(&self) -> RawRasterizerState {
        self.raw
    }
}

/// The default rasterizer state: solid fill, counter-clockwise faces culled, no depth bias,
/// no scissor test, multisample anti-aliasing on
pub open spec fn default_rasterizer_state() -> RawRasterizerState {
    RawRasterizerState {
        fill_mode: FillMode::Solid.code(),
        cull_mode: CullMode::CullCounterClockwiseFace.code(),
        depth_bias_bits: 0,
        slope_scale_depth_bias_bits: 0,
        scissor_test_enable: 0,
        multi_sample_anti_alias: 1,
    }
}

/// The default rasterizer state in FNA3D's numbering: solid fill (0), counter-clockwise faces
/// culled (2), both depth biases +0.0 (bit pattern 0), scissor test off (0) and multisample
/// anti-aliasing on (1). A state made for a cull mode differs from it in the cull mode alone.
pub proof fn lemma_default_rasterizer_values(mode: CullMode)
    ensures
        default_rasterizer_state().fill_mode == 0,
        default_rasterizer_state().cull_mode == 2,
        default_rasterizer_state().depth_bias_bits == 0,
        default_rasterizer_state().slope_scale_depth_bias_bits == 0,
        default_rasterizer_state().scissor_test_enable == 0,
        default_rasterizer_state().multi_sample_anti_alias == 1,
        (RawRasterizerState { cull_mode: mode.code(), ..default_rasterizer_state() }).cull_mode
            == mode.code(),
        mode == CullMode::NoCulling ==> mode.code() == 0,
        mode == CullMode::CullClockWiseFace ==> mode.code() == 1,
        mode == CullMode::CullCounterClockwiseFace ==> (RawRasterizerState {
            cull_mode: mode.code(),
            ..default_rasterizer_state()
        }) == default_rasterizer_state(),
{
    FillMode::lemma_values();
    CullMode::lemma_values();
}

impl Default for RasterizerState {
    fn default() -> (r: RasterizerState)
        ensures
            r@ == default_rasterizer_state(),
            r@.is_valid(),
            r@.fill_mode == 0,
            r@.cull_mode == 2,
            r@.depth_bias_bits == 0,
            r@.slope_scale_depth_bias_bits == 0,
            r@.scissor_test_enable == 0,
            r@.multi_sample_anti_alias == 1,
    {
        proof {
            lemma_default_rasterizer_values(CullMode::CullCounterClockwiseFace);
        }
        RasterizerState {
            raw: RawRasterizerState {
                fill_mode: FillMode::Solid.to_u32(),
                cull_mode: CullMode::CullCounterClockwiseFace.to_u32(),
                depth_bias_bits: 0,
                slope_scale_depth_bias_bits: 0,
                scissor_test_enable: 0,
                multi_sample_anti_alias: 1,
            },
        }
    }
}

impl RasterizerState {
    /// The raw fields
    pub fn raw(&self) -> (r: &RawRasterizerState)
        ensures
            *r == self@,
    {
        &self.raw
    }

    /// Mutable access to the raw fields
    pub fn raw_mut(&mut self) -> (r: &mut RawRasterizerState)
        ensures
            *r == old(self)@,
            final(self)@ == *final(r),
    {
        &mut self.raw
    }

    /// The default state with the given cull mode
    pub fn from_cull_mode(mode: CullMode) -> (r: RasterizerState)
        ensures
            r@ == (RawRasterizerState { cull_mode: mode.code(), ..default_rasterizer_state() }),
            r@.is_valid(),
    {
        let mut me = Self::default();
        me.set_cull_mode(mode);
        me
    }

    /// Fill mode; the raw value has to name a fill mode
    pub fn fill_mode(&self) -> (r: FillMode)
        requires
            FillMode::decode(self@.fill_mode) is Some,
        ensures
            FillMode::decode(self@.fill_mode) == Some(r),
    {
        FillMode::from_u32(self.raw.fill_mode).unwrap()
    }

    pub fn set_fill_mode(&mut self, fill_mode: FillMode)
        ensures
            final(self)@ == (RawRasterizerState { fill_mode: fill_mode.code(), ..old(self)@ }),
    {
        self.raw.fill_mode = fill_mode.to_u32();
    }

    /// Cull mode; the raw value has to name a cull mode
    pub fn cull_mode(&self) -> (r: CullMode)
        requires
            CullMode::decode(self@.cull_mode) is Some,
        ensures
            CullMode::decode(self@.cull_mode) == Some(r),
    {
        CullMode::from_u32(self.raw.cull_mode).unwrap()
    }

    pub fn set_cull_mode(&mut self, value: CullMode)
        ensures
            final(self)@ == (RawRasterizerState { cull_mode: value.code(), ..old(self)@ }),
    {
        self.raw.cull_mode = value.to_u32();
    }

    /// Bit pattern of the depth bias
    pub fn depth_bias_bits(&self) -> (r: u32)
        ensures
            r == self@.depth_bias_bits,
    {
        self.raw.depth_bias_bits
    }

    pub fn set_depth_bias_bits(&mut self, value: u32)
        ensures
            final(self)@ == (RawRasterizerState { depth_bias_bits: value, ..old(self)@ }),
    {
        self.raw.depth_bias_bits = value;
    }

    /// Bit pattern of the slope-scaled depth bias
    pub fn slope_scale_depth_bias_bits(&self) -> (r: u32)
        ensures
            r == self@.slope_scale_depth_bias_bits,
    {
        self.raw.slope_scale_depth_bias_bits
    }

    pub fn set_slope_scale_depth_bias_bits(&mut self, value: u32)
        ensures
            final(self)@ == (RawRasterizerState {
                slope_scale_depth_bias_bits: value,
                ..old(self)@
            }),
    {
        self.raw.slope_scale_depth_bias_bits = value;
    }

    pub fn scissor_test_enable(&self) -> (r: u8)
        ensures
            r == self@.scissor_test_enable,
    {
        self.raw.scissor_test_enable
    }

    pub fn set_scissor_test_enable(&mut self, value: u8)
        ensures
            final(self)@ == (RawRasterizerState { scissor_test_enable: value, ..old(self)@ }),
    {
        self.raw.scissor_test_enable = value;
    }

    pub fn multi_sample_anti_alias(&self) -> (r: u8)
        ensures
            r == self@.multi_sample_anti_alias,
    {
        self.raw.multi_sample_anti_alias
    }

    pub fn set_multi_sample_anti_alias(&mut self, value: u8)
        ensures
            final(self)@ == (RawRasterizerState { multi_sample_anti_alias: value, ..old(self)@ }),
    {
        self.raw.multi_sample_anti_alias = value;
    }
}

/// Reading a field back after writing a variant into it gives that variant, and writing a
/// variant into a field of a valid state leaves the state valid.
pub proof fn lemma_rasterizer_state_read_after_write(
    s: RawRasterizerState,
    fill_mode: FillMode,
    cull_mode: CullMode,
)
    ensures
        FillMode::decode((RawRasterizerState { fill_mode: fill_mode.code(), ..s }).fill_mode) == Some(fill_mode),
        s.is_valid() ==> (RawRasterizerState { fill_mode: fill_mode.code(), ..s }).is_valid(),
        CullMode::decode((RawRasterizerState { cull_mode: cull_mode.code(), ..s }).cull_mode) == Some(cull_mode),
        s.is_valid() ==> (RawRasterizerState { cull_mode: cull_mode.code(), ..s }).is_valid(),
{
    fill_mode.lemma_decode_code();
    cull_mode.lemma_decode_code();
}

} // verus!
