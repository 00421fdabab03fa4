//! Depth/stencil state of the pipeline

use vstd::prelude::*;
use crate::enums::{CompareFunction, StencilOperation};

verus! {

/// The fields of a depth/stencil state as FNA3D reads them
#[derive(Debug, Clone, Copy, PartialEq, Eq, Structural)]
pub struct RawDepthStencilState {
    pub depth_buffer_enable: u8,
    pub depth_buffer_write_enable: u8,
    pub depth_buffer_function: u32,
    pub stencil_enable: u8,
    pub stencil_mask: i32,
    pub stencil_write_mask: i32,
    pub two_sided_stencil_mode: u8,
    pub stencil_fail: u32,
    pub stencil_depth_buffer_fail: u32,
    pub stencil_pass: u32,
    pub stencil_function: u32,
    pub ccw_stencil_fail: u32,
    pub ccw_stencil_depth_buffer_fail: u32,
    pub ccw_stencil_pass: u32,
    pub ccw_stencil_function: u32,
    pub reference_stencil: i32,
}

impl RawDepthStencilState {
    /// Every enumerated field holds the value of a variant, so every accessor can read it
    pub open spec fn is_valid(self) -> bool {
        &&& CompareFunction::decode(self.depth_buffer_function) is Some
        &&& StencilOperation::decode(self.stencil_fail) is Some
        &&& StencilOperation::decode(self.stencil_depth_buffer_fail) is Some
        &&& StencilOperation::decode(self.stencil_pass) is Some
        &&& CompareFunction::decode(self.stencil_function) is Some
        &&& StencilOperation::decode(self.ccw_stencil_fail) is Some
        &&& StencilOperation::decode(self.ccw_stencil_depth_buffer_fail) is Some
        &&& StencilOperation::decode(self.ccw_stencil_pass) is Some
        &&& StencilOperation::decode(self.ccw_stencil_function) is Some
    }
}

/// Depth/stencil state of the pipeline
#[derive(Debug, Clone)]
pub struct DepthStencilState {
    raw: RawDepthStencilState,
}

impl View for DepthStencilState {
    type V = RawDepthStencilState;

    closed spec fn view(&self) -> RawDepthStencilState {
        self.raw
    }
}

/// A boolean as FNA3D stores it: 1 or 0
pub open spec fn bool_byte(b: bool) -> u8 {
    if b {
        1
    } else {
        0
    }
}

/// The default depth/stencil state: depth test (less) and depth writes on, stencil off with
/// zero masks, every stencil operation `Keep`, stencil functions `Always`, reference 0
pub open spec fn default_depth_stencil_state() -> RawDepthStencilState {
    RawDepthStencilState {
        depth_buffer_enable: 1,
        depth_buffer_write_enable: 1,
        depth_buffer_function: CompareFunction::Less.code(),
        stencil_enable: 0,
        stencil_mask: 0,
        stencil_write_mask: 0,
        two_sided_stencil_mode: 0,
        stencil_fail: StencilOperation::Keep.code(),
        stencil_depth_buffer_fail: StencilOperation::Keep.code(),
        stencil_pass: StencilOperation::Keep.code(),
        stencil_function: CompareFunction::Always.code(),
        ccw_stencil_fail: StencilOperation::Keep.code(),
        ccw_stencil_depth_buffer_fail: StencilOperation::Keep.code(),
        ccw_stencil_pass: StencilOperation::Keep.code(),
        ccw_stencil_function: CompareFunction::Always.code(),
        reference_stencil: 0,
    }
}

/// The default depth/stencil state in FNA3D's numbering: depth test and depth writes on (1),
/// depth function less (2); stencil off (0), one-sided (0), with masks 0 and reference 0; every
/// stencil operation keep (0) and both stencil functions always (0).
pub proof fn lemma_default_depth_stencil_values()
    ensures
        default_depth_stencil_state().depth_buffer_enable == 1,
        default_depth_stencil_state().depth_buffer_write_enable == 1,
        default_depth_stencil_state().depth_buffer_function == 2,
        default_depth_stencil_state().stencil_enable == 0,
        default_depth_stencil_state().stencil_mask == 0,
        default_depth_stencil_state().stencil_write_mask == 0,
        default_depth_stencil_state().two_sided_stencil_mode == 0,
        default_depth_stencil_state().stencil_fail == 0,
        default_depth_stencil_state().stencil_depth_buffer_fail == 0,
        default_depth_stencil_state().stencil_pass == 0,
        default_depth_stencil_state().stencil_function == 0,
        default_depth_stencil_state().ccw_stencil_fail == 0,
        default_depth_stencil_state().ccw_stencil_depth_buffer_fail == 0,
        default_depth_stencil_state().ccw_stencil_pass == 0,
        default_depth_stencil_state().ccw_stencil_function == 0,
        default_depth_stencil_state().reference_stencil == 0,
{
    CompareFunction::lemma_values();
    StencilOperation::lemma_values();
}

impl Default for DepthStencilState {
    fn default() -> (r: DepthStencilState)
        ensures
            r@ == default_depth_stencil_state(),
            r@.is_valid(),
            r@.depth_buffer_enable == 1 && r@.depth_buffer_write_enable == 1,
            r@.depth_buffer_function == 2,
            r@.stencil_enable == 0 && r@.two_sided_stencil_mode == 0,
            r@.stencil_function == 0 && r@.ccw_stencil_function == 0,
            r@.stencil_fail == 0 && r@.stencil_depth_buffer_fail == 0 && r@.stencil_pass == 0,
    {
        proof {
            lemma_default_depth_stencil_values();
        }
        DepthStencilState {
            raw: RawDepthStencilState {
                depth_buffer_enable: 1,
                depth_buffer_write_enable: 1,
                depth_buffer_function: CompareFunction::Less.to_u32(),
                stencil_enable: 0,
                stencil_mask: 0,
                stencil_write_mask: 0,
                two_sided_stencil_mode: 0,
                stencil_fail: StencilOperation::Keep.to_u32(),
                stencil_depth_buffer_fail: StencilOperation::Keep.to_u32(),
                stencil_pass: StencilOperation::Keep.to_u32(),
                stencil_function: CompareFunction::Always.to_u32(),
                ccw_stencil_fail: StencilOperation::Keep.to_u32(),
                ccw_stencil_depth_buffer_fail: StencilOperation::Keep.to_u32(),
                ccw_stencil_pass: StencilOperation::Keep.to_u32(),
                ccw_stencil_function: CompareFunction::Always.to_u32(),
                reference_stencil: 0,
            },
        }
    }
}

impl DepthStencilState {
    /// The raw fields
    pub fn raw(&self) -> (r: &RawDepthStencilState)
        ensures
            *r == self@,
    {
        &self.raw
    }

    /// Mutable access to the raw fields
    pub fn raw_mut(&mut self) -> (r: &mut RawDepthStencilState)
        ensures
            *r == old(self)@,
            final(self)@ == *final(r),
    {
        &mut self.raw
    }

    /// The default state with the depth test and depth writes off
    pub fn none() -> (r: DepthStencilState)
        ensures
            r@ == (RawDepthStencilState {
                depth_buffer_enable: 0,
                depth_buffer_write_enable: 0,
                ..default_depth_stencil_state()
            }),
            r@.is_valid(),
    {
        let mut me = Self::default();
        me.raw.depth_buffer_enable = 0;
        me.raw.depth_buffer_write_enable = 0;
        me
    }

    /// Whether the depth test is on: the raw byte is not zero
    pub fn is_depth_buffer_enabled(&self) -> (r: bool)
        ensures
            r == (self@.depth_buffer_enable != 0),
    {
        self.raw.depth_buffer_enable != 0
    }

    pub fn set_is_depth_buffer_enabled(&mut self, b: bool)
        ensures
            final(self)@ == (RawDepthStencilState { depth_buffer_enable: bool_byte(b), ..old(self)@ }),
    {
        self.raw.depth_buffer_enable = if b { 1 } else { 0 };
    }

    /// Whether depth values are written: the raw byte is not zero
    pub fn is_depth_buffer_write_enabled(&self) -> (r: bool)
        ensures
            r == (self@.depth_buffer_write_enable != 0),
    {
        self.raw.depth_buffer_write_enable != 0
    }

    pub fn set_is_depth_buffer_write_enabled(&mut self, b: bool)
        ensures
            final(self)@ == (RawDepthStencilState { depth_buffer_write_enable: bool_byte(b), ..old(self)@ }),
    {
        self.raw.depth_buffer_write_enable = if b { 1 } else { 0 };
    }

    /// Whether the stencil test is on: the raw byte is not zero
    pub fn is_stencil_enabled(&self) -> (r: bool)
        ensures
            r == (self@.stencil_enable != 0),
    {
        self.raw.stencil_enable != 0
    }

    pub fn set_is_stencil_enabled(&mut self, b: bool)
        ensures
            final(self)@ == (RawDepthStencilState { stencil_enable: bool_byte(b), ..old(self)@ }),
    {
        self.raw.stencil_enable = if b { 1 } else { 0 };
    }

    /// Whether counter-clockwise faces have their own stencil operations: the raw byte is not zero
    pub fn is_two_sided_stencil_mode(&self) -> (r: bool)
        ensures
            r == (self@.two_sided_stencil_mode != 0),
    {
        self.raw.two_sided_stencil_mode != 0
    }

    pub fn set_two_sided_stencil_mode(&mut self, b: bool)
        ensures
            final(self)@ == (RawDepthStencilState { two_sided_stencil_mode: bool_byte(b), ..old(self)@ }),
    {
        self.raw.two_sided_stencil_mode = if b { 1 } else { 0 };
    }

    /// Comparison of the depth test; the raw value has to name a variant
    pub fn depth_buffer_function(&self) -> (r: CompareFunction)
        requires
            CompareFunction::decode(self@.depth_buffer_function) is Some,
        ensures
            CompareFunction::decode(self@.depth_buffer_function) == Some(r),
    {
        CompareFunction::from_u32(self.raw.depth_buffer_function).unwrap()
    }

    pub fn set_depth_buffer_function(&mut self, f: CompareFunction)
        ensures
            final(self)@ == (RawDepthStencilState { depth_buffer_function: f.code(), ..old(self)@ }),
    {
        self.raw.depth_buffer_function = f.to_u32();
    }

    /// Operation when the stencil test fails; the raw value has to name a variant
    pub fn stencil_fail(&self) -> (r: StencilOperation)
        requires
            StencilOperation::decode(self@.stencil_fail) is Some,
        ensures
            StencilOperation::decode(self@.stencil_fail) == Some(r),
    {
        StencilOperation::from_u32(self.raw.stencil_fail).unwrap()
    }

    pub fn set_stencil_fail(&mut self, stencil: StencilOperation)
        ensures
            final(self)@ == (RawDepthStencilState { stencil_fail: stencil.code(), ..old(self)@ }),
    {
        self.raw.stencil_fail = stencil.to_u32();
    }

    /// Operation when the stencil test passes and the depth test fails; the raw value has to name a variant
    pub fn stencil_depth_buffer_fail(&self) -> (r: StencilOperation)
        requires
            StencilOperation::decode(self@.stencil_depth_buffer_fail) is Some,
        ensures
            StencilOperation::decode(self@.stencil_depth_buffer_fail) == Some(r),
    {
        StencilOperation::from_u32(self.raw.stencil_depth_buffer_fail).unwrap()
    }

    pub fn set_stencil_depth_buffer_fail(&mut self, stencil: StencilOperation)
        ensures
            final(self)@ == (RawDepthStencilState { stencil_depth_buffer_fail: stencil.code(), ..old(self)@ }),
    {
        self.raw.stencil_depth_buffer_fail = stencil.to_u32();
    }

    /// Operation when both tests pass; the raw value has to name a variant
    pub fn stencil_pass(&self) -> (r: StencilOperation)
        requires
            StencilOperation::decode(self@.stencil_pass) is Some,
        ensures
            StencilOperation::decode(self@.stencil_pass) == Some(r),
    {
        StencilOperation::from_u32(self.raw.stencil_pass).unwrap()
    }

    pub fn set_stencil_pass(&mut self, stencil: StencilOperation)
        ensures
            final(self)@ == (RawDepthStencilState { stencil_pass: stencil.code(), ..old(self)@ }),
    {
        self.raw.stencil_pass = stencil.to_u32();
    }

    /// Counter-clockwise faces: operation when the stencil test fails; the raw value has to name a variant
    pub fn ccw_stencil_fail(&self) -> (r: StencilOperation)
        requires
            StencilOperation::decode(self@.ccw_stencil_fail) is Some,
        ensures
            StencilOperation::decode(self@.ccw_stencil_fail) == Some(r),
    {
        StencilOperation::from_u32(self.raw.ccw_stencil_fail).unwrap()
    }

    pub fn set_ccw_stencil_fail(&mut self, stencil: StencilOperation)
        ensures
            final(self)@ == (RawDepthStencilState { ccw_stencil_fail: stencil.code(), ..old(self)@ }),
    {
        self.raw.ccw_stencil_fail = stencil.to_u32();
    }

    /// Counter-clockwise faces: operation when the depth test fails; the raw value has to name a variant
    pub fn ccw_stencil_depth_buffer_fail(&self) -> (r: StencilOperation)
        requires
            StencilOperation::decode(self@.ccw_stencil_depth_buffer_fail) is Some,
        ensures
            StencilOperation::decode(self@.ccw_stencil_depth_buffer_fail) == Some(r),
    {
        StencilOperation::from_u32(self.raw.ccw_stencil_depth_buffer_fail).unwrap()
    }

    pub fn set_ccw_stencil_depth_buffer_fail(&mut self, stencil: StencilOperation)
        ensures
            final(self)@ == (RawDepthStencilState { ccw_stencil_depth_buffer_fail: stencil.code(), ..old(self)@ }),
    {
        self.raw.ccw_stencil_depth_buffer_fail = stencil.to_u32();
    }

    /// Counter-clockwise faces: operation when both tests pass; the raw value has to name a variant
    pub fn ccw_stencil_pass(&self) -> (r: StencilOperation)
        requires
            StencilOperation::decode(self@.ccw_stencil_pass) is Some,
        ensures
            StencilOperation::decode(self@.ccw_stencil_pass) == Some(r),
    {
        StencilOperation::from_u32(self.raw.ccw_stencil_pass).unwrap()
    }

    pub fn set_ccw_stencil_pass(&mut self, stencil: StencilOperation)
        ensures
            final(self)@ == (RawDepthStencilState { ccw_stencil_pass: stencil.code(), ..old(self)@ }),
    {
        self.raw.ccw_stencil_pass = stencil.to_u32();
    }

    /// Counter-clockwise faces: the stencil function field, read and written as a stencil operation; the raw value has to name a variant
    pub fn ccw_stencil_function(&self) -> (r: StencilOperation)
        requires
            StencilOperation::decode(self@.ccw_stencil_function) is Some,
        ensures
            StencilOperation::decode(self@.ccw_stencil_function) == Some(r),
    {
        StencilOperation::from_u32(self.raw.ccw_stencil_function).unwrap()
    }

    pub fn set_ccw_stencil_function(&mut self, stencil: StencilOperation)
        ensures
            final(self)@ == (RawDepthStencilState { ccw_stencil_function: stencil.code(), ..old(self)@ }),
    {
        self.raw.ccw_stencil_function = stencil.to_u32();
    }

    /// The stencil function, as read from the depth buffer function field
    pub fn stencil_function(&self) -> (r: CompareFunction)
        requires
            CompareFunction::decode(self@.depth_buffer_function) is Some,
        ensures
            CompareFunction::decode(self@.depth_buffer_function) == Some(r),
    {
        CompareFunction::from_u32(self.raw.depth_buffer_function).unwrap()
    }

    pub fn stencil_mask(&self) -> (r: i32)
        ensures
            r == self@.stencil_mask,
    {
        self.raw.stencil_mask
    }

    pub fn set_stencil_mask(&mut self, mask: i32)
        ensures
            final(self)@ == (RawDepthStencilState { stencil_mask: mask, ..old(self)@ }),
    {
        self.raw.stencil_mask = mask;
    }

    pub fn stencik_write_mask(&self) -> (r: i32)
        ensures
            r == self@.stencil_write_mask,
    {
        self.raw.stencil_write_mask
    }

    pub fn set_stencik_write_mask(&mut self, mask: i32)
        ensures
            final(self)@ == (RawDepthStencilState { stencil_write_mask: mask, ..old(self)@ }),
    {
        self.raw.stencil_write_mask = mask;
    }

    pub fn reference_stencil(&self) -> (r: i32)
        ensures
            r == self@.reference_stencil,
    {
        self.raw.reference_stencil
    }

    pub fn set_renference_stencil(&mut self, stencil: i32)
        ensures
            final(self)@ == (RawDepthStencilState { reference_stencil: stencil, ..old(self)@ }),
    {
        self.raw.reference_stencil = stencil;
    }
}

/// Reading a field back after writing a variant into it gives that variant, and writing a
/// variant into a field of a valid state leaves the state valid.
pub proof fn lemma_depth_stencil_state_read_after_write(
    s: RawDepthStencilState,
    depth_buffer_function: CompareFunction,
    stencil_fail: StencilOperation,
    stencil_depth_buffer_fail: StencilOperation,
    stencil_pass: StencilOperation,
    ccw_stencil_fail: StencilOperation,
    ccw_stencil_depth_buffer_fail: StencilOperation,
    ccw_stencil_pass: StencilOperation,
    ccw_stencil_function: StencilOperation,
)
    ensures
        CompareFunction::decode((RawDepthStencilState { depth_buffer_function: depth_buffer_function.code(), ..s }).depth_buffer_function) == Some(depth_buffer_function),
        s.is_valid() ==> (RawDepthStencilState { depth_buffer_function: depth_buffer_function.code(), ..s }).is_valid(),
        StencilOperation::decode((RawDepthStencilState { stencil_fail: stencil_fail.code(), ..s }).stencil_fail) == Some(stencil_fail),
        s.is_valid() ==> (RawDepthStencilState { stencil_fail: stencil_fail.code(), ..s }).is_valid(),
        StencilOperation::decode((RawDepthStencilState { stencil_depth_buffer_fail: stencil_depth_buffer_fail.code(), ..s }).stencil_depth_buffer_fail) == Some(stencil_depth_buffer_fail),
        s.is_valid() ==> (RawDepthStencilState { stencil_depth_buffer_fail: stencil_depth_buffer_fail.code(), ..s }).is_valid(),
        StencilOperation::decode((RawDepthStencilState { stencil_pass: stencil_pass.code(), ..s }).stencil_pass) == Some(stencil_pass),
        s.is_valid() ==> (RawDepthStencilState { stencil_pass: stencil_pass.code(), ..s }).is_valid(),
        StencilOperation::decode((RawDepthStencilState { ccw_stencil_fail: ccw_stencil_fail.code(), ..s }).ccw_stencil_fail) == Some(ccw_stencil_fail),
        s.is_valid() ==> (RawDepthStencilState { ccw_stencil_fail: ccw_stencil_fail.code(), ..s }).is_valid(),
        StencilOperation::decode((RawDepthStencilState { ccw_stencil_depth_buffer_fail: ccw_stencil_depth_buffer_fail.code(), ..s }).ccw_stencil_depth_buffer_fail) == Some(ccw_stencil_depth_buffer_fail),
        s.is_valid() ==> (RawDepthStencilState { ccw_stencil_depth_buffer_fail: ccw_stencil_depth_buffer_fail.code(), ..s }).is_valid(),
        StencilOperation::decode((RawDepthStencilState { ccw_stencil_pass: ccw_stencil_pass.code(), ..s }).ccw_stencil_pass) == Some(ccw_stencil_pass),
        s.is_valid() ==> (RawDepthStencilState { ccw_stencil_pass: ccw_stencil_pass.code(), ..s }).is_valid(),
        StencilOperation::decode((RawDepthStencilState { ccw_stencil_function: ccw_stencil_function.code(), ..s }).ccw_stencil_function) == Some(ccw_stencil_function),
        s.is_valid() ==> (RawDepthStencilState { ccw_stencil_function: ccw_stencil_function.code(), ..s }).is_valid(),
{
    depth_buffer_function.lemma_decode_code();
    stencil_fail.lemma_decode_code();
    stencil_depth_buffer_fail.lemma_decode_code();
    stencil_pass.lemma_decode_code();
    ccw_stencil_fail.lemma_decode_code();
    ccw_stencil_depth_buffer_fail.lemma_decode_code();
    ccw_stencil_pass.lemma_decode_code();
    ccw_stencil_function.lemma_decode_code();
}

} // verus!
