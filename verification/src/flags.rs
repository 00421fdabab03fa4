//! Bit flag sets: the clear options of the device and the color channel mask
//!
//! A flag set holds a `u32` whose bits are all among the bits of its declared flags. The
//! operations are the usual set operations on those bits; every result is again a valid set.

use vstd::prelude::*;

verus! {

/// Bits of the clear options: color target, depth buffer and stencil buffer
pub const CLEAR_OPTIONS_ALL_BITS: u32 = 7;

/// Bits of the color mask: red, green, blue and alpha channels
pub const COLOR_MASK_ALL_BITS: u32 = 15;

/// Bit-level facts shared by the flag sets, for any mask `all`.
pub proof fn lemma_bits_algebra(a: u32, b: u32, c: u32, all: u32)
    by (bit_vector)
    ensures
        a | b == b | a,
        a & b == b & a,
        (a | b) | c == a | (b | c),
        (a & b) & c == a & (b & c),
        a & (b | c) == (a & b) | (a & c),
        a | (b & c) == (a | b) & (a | c),
        (a & !b) & b == 0,
        a ^ b ^ b == a,
        a & all == a ==> !(!a & all) & all == a,
        a & all == a ==> (a | (!a & all)) == all,
        a & all == a ==> (a & (!a & all)) == 0,
        a & all == a && b & all == b ==> (a | b) & all == a | b,
        a & all == a ==> (a & b) & all == a & b,
        a & all == a ==> (a & !b) & all == a & !b,
        a & all == a && b & all == b ==> (a ^ b) & all == a ^ b,
        (!a & all) & all == !a & all,
        (a & all) & all == a & all,
        (a | b) & b == b,
        (a & b) & b == a & b,
        (a & !b) & b == 0,
        a & 0 == 0,
        a | 0 == a,
        a & a == a,
        a | a == a,
        (a & b == b) && (b & c == c) ==> (a & c == c),
        (a & b == b) && (b & a == a) ==> a == b,
{
}

/// Options of the device's clear operation: which buffers are cleared
#[derive(Debug, Clone, Copy, PartialEq, Eq, Hash, Structural)]
pub struct ClearOptions {
    bits: u32,
}

impl View for ClearOptions {
    type V = u32;

    closed spec fn view(&self) -> u32 {
        self.bits
    }
}

impl ClearOptions {
    /// The set holds no bit outside the declared flags.
    #[verifier::type_invariant]
    pub closed spec fn inv(self) -> bool {
        self.bits & CLEAR_OPTIONS_ALL_BITS == self.bits
    }

    /// Color buffer
    pub fn target() -> (r: ClearOptions)
        ensures
            r@ == 1,
    {
        assert(1u32 & 7 == 1) by (bit_vector);
        ClearOptions { bits: 1 }
    }

    /// Depth buffer
    pub fn depth_buffer() -> (r: ClearOptions)
        ensures
            r@ == 2,
    {
        assert(2u32 & 7 == 2) by (bit_vector);
        ClearOptions { bits: 2 }
    }

    /// Stencil buffer
    pub fn stencil() -> (r: ClearOptions)
        ensures
            r@ == 4,
    {
        assert(4u32 & 7 == 4) by (bit_vector);
        ClearOptions { bits: 4 }
    }

    /// The empty set
    pub fn empty() -> (r: ClearOptions)
        ensures
            r@ == 0,
    {
        assert(0u32 & 7 == 0) by (bit_vector);
        ClearOptions { bits: 0 }
    }

    /// The set of all declared flags
    pub fn all() -> (r: ClearOptions)
        ensures
            r@ == CLEAR_OPTIONS_ALL_BITS,
    {
        assert(7u32 & 7 == 7) by (bit_vector);
        ClearOptions { bits: CLEAR_OPTIONS_ALL_BITS }
    }

    /// The raw bits
    pub fn bits(&self) -> (r: u32)
        ensures
            r == self@,
            r & CLEAR_OPTIONS_ALL_BITS == r,
    {
        proof {
            use_type_invariant(self);
        }
        self.bits
    }

    /// The set with exactly these bits, or `None` when a bit is not a declared flag
    pub fn from_bits(bits: u32) -> (r: Option<ClearOptions>)
        ensures
            r is Some <==> bits & CLEAR_OPTIONS_ALL_BITS == bits,
            r matches Some(o) ==> o@ == bits,
    {
        if bits & CLEAR_OPTIONS_ALL_BITS == bits {
            Some(ClearOptions { bits })
        } else {
            None
        }
    }

    /// The set of the declared flags among these bits; other bits are dropped
    pub fn from_bits_truncate(bits: u32) -> (r: ClearOptions)
        ensures
            r@ == bits & CLEAR_OPTIONS_ALL_BITS,
    {
        proof {
            lemma_bits_algebra(bits, 0, 0, CLEAR_OPTIONS_ALL_BITS);
        }
        ClearOptions { bits: bits & CLEAR_OPTIONS_ALL_BITS }
    }

    /// Whether no flag is set
    pub fn is_empty(&self) -> (r: bool)
        ensures
            r == (self@ == 0),
    {
        self.bits == 0
    }

    /// Whether every declared flag is set
    pub fn is_all(&self) -> (r: bool)
        ensures
            r == (self@ == CLEAR_OPTIONS_ALL_BITS),
    {
        self.bits == CLEAR_OPTIONS_ALL_BITS
    }

    /// Whether the two sets share a flag
    pub fn intersects(&self, other: ClearOptions) -> (r: bool)
        ensures
            r == (self@ & other@ != 0),
    {
        self.bits & other.bits != 0
    }

    /// Whether every flag of `other` is in this set
    pub fn contains(&self, other: ClearOptions) -> (r: bool)
        ensures
            r == (self@ & other@ == other@),
    {
        self.bits & other.bits == other.bits
    }

    /// Adds the flags of `other`
    pub fn insert(&mut self, other: ClearOptions)
        ensures
            final(self)@ == old(self)@ | other@,
    {
        proof {
            use_type_invariant(&*self);
            use_type_invariant(&other);
            lemma_bits_algebra(self.bits, other.bits, 0, CLEAR_OPTIONS_ALL_BITS);
        }
        self.bits = self.bits | other.bits;
    }

    /// Removes the flags of `other`
    pub fn remove(&mut self, other: ClearOptions)
        ensures
            final(self)@ == old(self)@ & !other@,
    {
        proof {
            use_type_invariant(&*self);
            lemma_bits_algebra(self.bits, other.bits, 0, CLEAR_OPTIONS_ALL_BITS);
        }
        self.bits = self.bits & !other.bits;
    }

    /// Flips the flags of `other`
    pub fn toggle(&mut self, other: ClearOptions)
        ensures
            final(self)@ == old(self)@ ^ other@,
    {
        proof {
            use_type_invariant(&*self);
            use_type_invariant(&other);
            lemma_bits_algebra(self.bits, other.bits, 0, CLEAR_OPTIONS_ALL_BITS);
        }
        self.bits = self.bits ^ other.bits;
    }

    /// Inserts the flags of `other` when `value` holds, removes them otherwise
    pub fn set(&mut self, other: ClearOptions, value: bool)
        ensures
            final(self)@ == (if value { old(self)@ | other@ } else { old(self)@ & !other@ }),
    {
        if value {
            self.insert(other);
        } else {
            self.remove(other);
        }
    }

    /// The flags in both sets
    pub fn intersection(self, other: ClearOptions) -> (r: ClearOptions)
        ensures
            r@ == self@ & other@,
    {
        proof {
            use_type_invariant(&self);
            lemma_bits_algebra(self.bits, other.bits, 0, CLEAR_OPTIONS_ALL_BITS);
        }
        ClearOptions { bits: self.bits & other.bits }
    }

    /// The flags in either set
    pub fn union(self, other: ClearOptions) -> (r: ClearOptions)
        ensures
            r@ == self@ | other@,
    {
        proof {
            use_type_invariant(&self);
            use_type_invariant(&other);
            lemma_bits_algebra(self.bits, other.bits, 0, CLEAR_OPTIONS_ALL_BITS);
        }
        ClearOptions { bits: self.bits | other.bits }
    }

    /// The flags of this set that are not in `other`
    pub fn difference(self, other: ClearOptions) -> (r: ClearOptions)
        ensures
            r@ == self@ & !other@,
    {
        proof {
            use_type_invariant(&self);
            lemma_bits_algebra(self.bits, other.bits, 0, CLEAR_OPTIONS_ALL_BITS);
        }
        ClearOptions { bits: self.bits & !other.bits }
    }

    /// The flags in exactly one of the sets
    pub fn symmetric_difference(self, other: ClearOptions) -> (r: ClearOptions)
        ensures
            r@ == self@ ^ other@,
    {
        proof {
            use_type_invariant(&self);
            use_type_invariant(&other);
            lemma_bits_algebra(self.bits, other.bits, 0, CLEAR_OPTIONS_ALL_BITS);
        }
        ClearOptions { bits: self.bits ^ other.bits }
    }

    /// The declared flags that are not in this set
    pub fn complement(self) -> (r: ClearOptions)
        ensures
            r@ == !self@ & CLEAR_OPTIONS_ALL_BITS,
    {
        proof {
            lemma_bits_algebra(self.bits, 0, 0, CLEAR_OPTIONS_ALL_BITS);
        }
        ClearOptions { bits: !self.bits & CLEAR_OPTIONS_ALL_BITS }
    }
}

/// Laws of the flag set operations, stated over the bits of valid sets (those within `all`).
///
/// Complementing twice gives the set back; a set and its complement are disjoint and together
/// make up `all`; union and intersection are commutative; a set contains what was inserted into
/// it and shares nothing with what was removed from it; toggling twice is the identity; a
/// subset of a subset is a subset.
pub proof fn lemma_flag_set_laws(a: u32, b: u32, c: u32, all: u32)
    requires
        a & all == a,
        b & all == b,
    ensures
        !(!a & all) & all == a,
        (a | (!a & all)) == all,
        (a & (!a & all)) == 0,
        a | b == b | a,
        a & b == b & a,
        (a | b) & b == b,
        ((a & !b) & b) == 0,
        (a ^ b) ^ b == a,
        (a & b == b) && (b & c == c) ==> (a & c == c),
        (a | b) & all == a | b,
        (a & !b) & all == a & !b,
        (a ^ b) & all == a ^ b,
{
    lemma_bits_algebra(a, b, c, all);
}

/// Mask of color channels
#[derive(Debug, Clone, Copy, PartialEq, Eq, Hash, Structural)]
pub struct ColorMask {
    bits: u32,
}

impl View for ColorMask {
    type V = u32;

    closed spec fn view(&self) -> u32 {
        self.bits
    }
}

impl ColorMask {
    /// The set holds no bit outside the declared flags.
    #[verifier::type_invariant]
    pub closed spec fn inv(self) -> bool {
        self.bits & COLOR_MASK_ALL_BITS == self.bits
    }

    /// The flag named `NONE`, which has the bits of the red channel
    pub fn none() -> (r: ColorMask)
        ensures
            r@ == 1,
    {
        assert(1u32 & 15 == 1) by (bit_vector);
        ColorMask { bits: 1 }
    }

    /// Red channel
    pub fn r() -> (r: ColorMask)
        ensures
            r@ == 1,
    {
        assert(1u32 & 15 == 1) by (bit_vector);
        ColorMask { bits: 1 }
    }

    /// Green channel
    pub fn g() -> (r: ColorMask)
        ensures
            r@ == 2,
    {
        assert(2u32 & 15 == 2) by (bit_vector);
        ColorMask { bits: 2 }
    }

    /// Blue channel
    pub fn b() -> (r: ColorMask)
        ensures
            r@ == 4,
    {
        assert(4u32 & 15 == 4) by (bit_vector);
        ColorMask { bits: 4 }
    }

    /// Alpha channel
    pub fn a() -> (r: ColorMask)
        ensures
            r@ == 8,
    {
        assert(8u32 & 15 == 8) by (bit_vector);
        ColorMask { bits: 8 }
    }

    /// Red, green and blue channels
    pub fn rgb() -> (r: ColorMask)
        ensures
            r@ == 7,
    {
        assert(7u32 & 15 == 7) by (bit_vector);
        ColorMask { bits: 7 }
    }

    /// All four channels
    pub fn rgba() -> (r: ColorMask)
        ensures
            r@ == 15,
    {
        assert(15u32 & 15 == 15) by (bit_vector);
        ColorMask { bits: 15 }
    }

    /// The empty set
    pub fn empty() -> (r: ColorMask)
        ensures
            r@ == 0,
    {
        assert(0u32 & 15 == 0) by (bit_vector);
        ColorMask { bits: 0 }
    }

    /// The set of all declared flags
    pub fn all() -> (r: ColorMask)
        ensures
            r@ == COLOR_MASK_ALL_BITS,
    {
        assert(15u32 & 15 == 15) by (bit_vector);
        ColorMask { bits: COLOR_MASK_ALL_BITS }
    }

    /// The raw bits
    pub fn bits(&self) -> (r: u32)
        ensures
            r == self@,
            r & COLOR_MASK_ALL_BITS == r,
    {
        proof {
            use_type_invariant(self);
        }
        self.bits
    }

    /// The set with exactly these bits, or `None` when a bit is not a declared flag
    pub fn from_bits(bits: u32) -> (r: Option<ColorMask>)
        ensures
            r is Some <==> bits & COLOR_MASK_ALL_BITS == bits,
            r matches Some(o) ==> o@ == bits,
    {
        if bits & COLOR_MASK_ALL_BITS == bits {
            Some(ColorMask { bits })
        } else {
            None
        }
    }

    /// The set of the declared flags among these bits; other bits are dropped
    pub fn from_bits_truncate(bits: u32) -> (r: ColorMask)
        ensures
            r@ == bits & COLOR_MASK_ALL_BITS,
    {
        proof {
            lemma_bits_algebra(bits, 0, 0, COLOR_MASK_ALL_BITS);
        }
        ColorMask { bits: bits & COLOR_MASK_ALL_BITS }
    }

    /// Whether no flag is set
    pub fn is_empty(&self) -> (r: bool)
        ensures
            r == (self@ == 0),
    {
        self.bits == 0
    }

    /// Whether every declared flag is set
    pub fn is_all(&self) -> (r: bool)
        ensures
            r == (self@ == COLOR_MASK_ALL_BITS),
    {
        self.bits == COLOR_MASK_ALL_BITS
    }

    /// Whether the two sets share a flag
    pub fn intersects(&self, other: ColorMask) -> (r: bool)
        ensures
            r == (self@ & other@ != 0),
    {
        self.bits & other.bits != 0
    }

    /// Whether every flag of `other` is in this set
    pub fn contains(&self, other: ColorMask) -> (r: bool)
        ensures
            r == (self@ & other@ == other@),
    {
        self.bits & other.bits == other.bits
    }

    /// Adds the flags of `other`
    pub fn insert(&mut self, other: ColorMask)
        ensures
            final(self)@ == old(self)@ | other@,
    {
        proof {
            use_type_invariant(&*self);
            use_type_invariant(&other);
            lemma_bits_algebra(self.bits, other.bits, 0, COLOR_MASK_ALL_BITS);
        }
        self.bits = self.bits | other.bits;
    }

    /// Removes the flags of `other`
    pub fn remove(&mut self, other: ColorMask)
        ensures
            final(self)@ == old(self)@ & !other@,
    {
        proof {
            use_type_invariant(&*self);
            lemma_bits_algebra(self.bits, other.bits, 0, COLOR_MASK_ALL_BITS);
        }
        self.bits = self.bits & !other.bits;
    }

    /// Flips the flags of `other`
    pub fn toggle(&mut self, other: ColorMask)
        ensures
            final(self)@ == old(self)@ ^ other@,
    {
        proof {
            use_type_invariant(&*self);
            use_type_invariant(&other);
            lemma_bits_algebra(self.bits, other.bits, 0, COLOR_MASK_ALL_BITS);
        }
        self.bits = self.bits ^ other.bits;
    }

    /// Inserts the flags of `other` when `value` holds, removes them otherwise
    pub fn set(&mut self, other: ColorMask, value: bool)
        ensures
            final(self)@ == (if value { old(self)@ | other@ } else { old(self)@ & !other@ }),
    {
        if value {
            self.insert(other);
        } else {
            self.remove(other);
        }
    }

    /// The flags in both sets
    pub fn intersection(self, other: ColorMask) -> (r: ColorMask)
        ensures
            r@ == self@ & other@,
    {
        proof {
            use_type_invariant(&self);
            lemma_bits_algebra(self.bits, other.bits, 0, COLOR_MASK_ALL_BITS);
        }
        ColorMask { bits: self.bits & other.bits }
    }

    /// The flags in either set
    pub fn union(self, other: ColorMask) -> (r: ColorMask)
        ensures
            r@ == self@ | other@,
    {
        proof {
            use_type_invariant(&self);
            use_type_invariant(&other);
            lemma_bits_algebra(self.bits, other.bits, 0, COLOR_MASK_ALL_BITS);
        }
        ColorMask { bits: self.bits | other.bits }
    }

    /// The flags of this set that are not in `other`
    pub fn difference(self, other: ColorMask) -> (r: ColorMask)
        ensures
            r@ == self@ & !other@,
    {
        proof {
            use_type_invariant(&self);
            lemma_bits_algebra(self.bits, other.bits, 0, COLOR_MASK_ALL_BITS);
        }
        ColorMask { bits: self.bits & !other.bits }
    }

    /// The flags in exactly one of the sets
    pub fn symmetric_difference(self, other: ColorMask) -> (r: ColorMask)
        ensures
            r@ == self@ ^ other@,
    {
        proof {
            use_type_invariant(&self);
            use_type_invariant(&other);
            lemma_bits_algebra(self.bits, other.bits, 0, COLOR_MASK_ALL_BITS);
        }
        ColorMask { bits: self.bits ^ other.bits }
    }

    /// The declared flags that are not in this set
    pub fn complement(self) -> (r: ColorMask)
        ensures
            r@ == !self@ & COLOR_MASK_ALL_BITS,
    {
        proof {
            lemma_bits_algebra(self.bits, 0, 0, COLOR_MASK_ALL_BITS);
        }
        ColorMask { bits: !self.bits & COLOR_MASK_ALL_BITS }
    }
}

} // verus!
