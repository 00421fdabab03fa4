//! FNA3D enumerations and their FNA3D values
//!
//! Each enum maps one-to-one onto the integer constants of `FNA3D.h`. `to_u32` gives the value
//! of a variant and `from_u32` decodes a value, returning `None` for values that name no variant.

use vstd::prelude::*;

verus! {

/// How the backbuffer is presented: a component of the presentation parameters
#[derive(Debug, Clone, Copy, PartialEq, Eq, Hash, Structural)]
pub enum PresentInterval {
    Default,
    One,
    Two,
    Immediate,
}

impl PresentInterval {
    /// The FNA3D value of this variant
    pub open spec fn code(self) -> u32 {
        match self {
            PresentInterval::Default => 0,
            PresentInterval::One => 1,
            PresentInterval::Two => 2,
            PresentInterval::Immediate => 3,
        }
    }

    /// The variant whose FNA3D value is `n`, if there is one
    pub open spec fn decode(n: u32) -> Option<PresentInterval> {
        if n == 0 {
            Option::Some(PresentInterval::Default)
        } else if n == 1 {
            Option::Some(PresentInterval::One)
        } else if n == 2 {
            Option::Some(PresentInterval::Two)
        } else if n == 3 {
            Option::Some(PresentInterval::Immediate)
        } else {
            Option::None
        }
    }

    /// The FNA3D value of this variant (the `as u32` conversion)
    pub fn to_u32(&self) -> (r: u32)
        ensures
            r == self.code(),
    {
        match self {
            PresentInterval::Default => 0,
            PresentInterval::One => 1,
            PresentInterval::Two => 2,
            PresentInterval::Immediate => 3,
        }
    }

    /// Converts an FNA3D value into a variant; `None` when no variant has that value
    pub fn from_u32(n: u32) -> (r: Option<PresentInterval>)
        ensures
            r == PresentInterval::decode(n),
    {
        match n {
            0 => Option::Some(PresentInterval::Default),
            1 => Option::Some(PresentInterval::One),
            2 => Option::Some(PresentInterval::Two),
            3 => Option::Some(PresentInterval::Immediate),
            _ => Option::None,
        }
    }

    /// Decoding the value of a variant gives the variant back.
    pub proof fn lemma_decode_code(self)
        ensures
            PresentInterval::decode(self.code()) == Option::Some(self),
    {
    }

    /// A value decodes to a variant only if it is that variant's value.
    pub proof fn lemma_code_decode(n: u32)
        ensures
            PresentInterval::decode(n) matches Option::Some(e) ==> e.code() == n,
            PresentInterval::decode(n) is None <==> (forall|e: PresentInterval| e.code() != n),
    {
        if PresentInterval::decode(n) is None {
            assert forall|e: PresentInterval| e.code() != n by {
                match e {
                    PresentInterval::Default => {},
                    PresentInterval::One => {},
                    PresentInterval::Two => {},
                    PresentInterval::Immediate => {},
                }
            }
        } else {
            assert(PresentInterval::decode(n).unwrap().code() == n);
        }
    }
}

/// Display orientation: a component of the presentation parameters
#[derive(Debug, Clone, Copy, PartialEq, Eq, Hash, Structural)]
pub enum DisplayOrientation {
    Defaut,
    LandscapeLeft,
    LandscapeRight,
    Portrait,
}

impl DisplayOrientation {
    /// The FNA3D value of this variant
    pub open spec fn code(self) -> u32 {
        match self {
            DisplayOrientation::Defaut => 0,
            DisplayOrientation::LandscapeLeft => 1,
            DisplayOrientation::LandscapeRight => 2,
            DisplayOrientation::Portrait => 3,
        }
    }

    /// The variant whose FNA3D value is `n`, if there is one
    pub open spec fn decode(n: u32) -> Option<DisplayOrientation> {
        if n == 0 {
            Option::Some(DisplayOrientation::Defaut)
        } else if n == 1 {
            Option::Some(DisplayOrientation::LandscapeLeft)
        } else if n == 2 {
            Option::Some(DisplayOrientation::LandscapeRight)
        } else if n == 3 {
            Option::Some(DisplayOrientation::Portrait)
        } else {
            Option::None
        }
    }

    /// The FNA3D value of this variant (the `as u32` conversion)
    pub fn to_u32(&self) -> (r: u32)
        ensures
            r == self.code(),
    {
        match self {
            DisplayOrientation::Defaut => 0,
            DisplayOrientation::LandscapeLeft => 1,
            DisplayOrientation::LandscapeRight => 2,
            DisplayOrientation::Portrait => 3,
        }
    }

    /// Converts an FNA3D value into a variant; `None` when no variant has that value
    pub fn from_u32(n: u32) -> (r: Option<DisplayOrientation>)
        ensures
            r == DisplayOrientation::decode(n),
    {
        match n {
            0 => Option::Some(DisplayOrientation::Defaut),
            1 => Option::Some(DisplayOrientation::LandscapeLeft),
            2 => Option::Some(DisplayOrientation::LandscapeRight),
            3 => Option::Some(DisplayOrientation::Portrait),
            _ => Option::None,
        }
    }

    /// Decoding the value of a variant gives the variant back.
    pub proof fn lemma_decode_code(self)
        ensures
            DisplayOrientation::decode(self.code()) == Option::Some(self),
    {
    }

    /// A value decodes to a variant only if it is that variant's value.
    pub proof fn lemma_code_decode(n: u32)
        ensures
            DisplayOrientation::decode(n) matches Option::Some(e) ==> e.code() == n,
            DisplayOrientation::decode(n) is None <==> (forall|e: DisplayOrientation| e.code() != n),
    {
        if DisplayOrientation::decode(n) is None {
            assert forall|e: DisplayOrientation| e.code() != n by {
                match e {
                    DisplayOrientation::Defaut => {},
                    DisplayOrientation::LandscapeLeft => {},
                    DisplayOrientation::LandscapeRight => {},
                    DisplayOrientation::Portrait => {},
                }
            }
        } else {
            assert(DisplayOrientation::decode(n).unwrap().code() == n);
        }
    }
}

/// What happens to render target contents: a component of the presentation parameters
#[derive(Debug, Clone, Copy, PartialEq, Eq, Hash, Structural)]
pub enum RenderTargetUsage {
    DiscardContents,
    PreserveContents,
    PlatformContents,
}

impl RenderTargetUsage {
    /// The FNA3D value of this variant
    pub open spec fn code(self) -> u32 {
        match self {
            RenderTargetUsage::DiscardContents => 0,
            RenderTargetUsage::PreserveContents => 1,
            RenderTargetUsage::PlatformContents => 2,
        }
    }

    /// The variant whose FNA3D value is `n`, if there is one
    pub open spec fn decode(n: u32) -> Option<RenderTargetUsage> {
        if n == 0 {
            Option::Some(RenderTargetUsage::DiscardContents)
        } else if n == 1 {
            Option::Some(RenderTargetUsage::PreserveContents)
        } else if n == 2 {
            Option::Some(RenderTargetUsage::PlatformContents)
        } else {
            Option::None
        }
    }

    /// The FNA3D value of this variant (the `as u32` conversion)
    pub fn to_u32(&self) -> (r: u32)
        ensures
            r == self.code(),
    {
        match self {
            RenderTargetUsage::DiscardContents => 0,
            RenderTargetUsage::PreserveContents => 1,
            RenderTargetUsage::PlatformContents => 2,
        }
    }

    /// Converts an FNA3D value into a variant; `None` when no variant has that value
    pub fn from_u32(n: u32) -> (r: Option<RenderTargetUsage>)
        ensures
            r == RenderTargetUsage::decode(n),
    {
        match n {
            0 => Option::Some(RenderTargetUsage::DiscardContents),
            1 => Option::Some(RenderTargetUsage::PreserveContents),
            2 => Option::Some(RenderTargetUsage::PlatformContents),
            _ => Option::None,
        }
    }

    /// Decoding the value of a variant gives the variant back.
    pub proof fn lemma_decode_code(self)
        ensures
            RenderTargetUsage::decode(self.code()) == Option::Some(self),
    {
    }

    /// A value decodes to a variant only if it is that variant's value.
    pub proof fn lemma_code_decode(n: u32)
        ensures
            RenderTargetUsage::decode(n) matches Option::Some(e) ==> e.code() == n,
            RenderTargetUsage::decode(n) is None <==> (forall|e: RenderTargetUsage| e.code() != n),
    {
        if RenderTargetUsage::decode(n) is None {
            assert forall|e: RenderTargetUsage| e.code() != n by {
                match e {
                    RenderTargetUsage::DiscardContents => {},
                    RenderTargetUsage::PreserveContents => {},
                    RenderTargetUsage::PlatformContents => {},
                }
            }
        } else {
            assert(RenderTargetUsage::decode(n).unwrap().code() == n);
        }
    }
}

/// Primitive type used for drawing
#[derive(Debug, Clone, Copy, PartialEq, Eq, Hash, Structural)]
pub enum PrimitiveType {
    TriangleList,
    TriangleStrip,
    LineList,
    LineStrip,
    PointListExt,
}

impl PrimitiveType {
    /// The FNA3D value of this variant
    pub open spec fn code(self) -> u32 {
        match self {
            PrimitiveType::TriangleList => 0,
            PrimitiveType::TriangleStrip => 1,
            PrimitiveType::LineList => 2,
            PrimitiveType::LineStrip => 3,
            PrimitiveType::PointListExt => 4,
        }
    }

    /// The variant whose FNA3D value is `n`, if there is one
    pub open spec fn decode(n: u32) -> Option<PrimitiveType> {
        if n == 0 {
            Option::Some(PrimitiveType::TriangleList)
        } else if n == 1 {
            Option::Some(PrimitiveType::TriangleStrip)
        } else if n == 2 {
            Option::Some(PrimitiveType::LineList)
        } else if n == 3 {
            Option::Some(PrimitiveType::LineStrip)
        } else if n == 4 {
            Option::Some(PrimitiveType::PointListExt)
        } else {
            Option::None
        }
    }

    /// The FNA3D value of this variant (the `as u32` conversion)
    pub fn to_u32(&self) -> (r: u32)
        ensures
            r == self.code(),
    {
        match self {
            PrimitiveType::TriangleList => 0,
            PrimitiveType::TriangleStrip => 1,
            PrimitiveType::LineList => 2,
            PrimitiveType::LineStrip => 3,
            PrimitiveType::PointListExt => 4,
        }
    }

    /// Converts an FNA3D value into a variant; `None` when no variant has that value
    pub fn from_u32(n: u32) -> (r: Option<PrimitiveType>)
        ensures
            r == PrimitiveType::decode(n),
    {
        match n {
            0 => Option::Some(PrimitiveType::TriangleList),
            1 => Option::Some(PrimitiveType::TriangleStrip),
            2 => Option::Some(PrimitiveType::LineList),
            3 => Option::Some(PrimitiveType::LineStrip),
            4 => Option::Some(PrimitiveType::PointListExt),
            _ => Option::None,
        }
    }

    /// Decoding the value of a variant gives the variant back.
    pub proof fn lemma_decode_code(self)
        ensures
            PrimitiveType::decode(self.code()) == Option::Some(self),
    {
    }

    /// A value decodes to a variant only if it is that variant's value.
    pub proof fn lemma_code_decode(n: u32)
        ensures
            PrimitiveType::decode(n) matches Option::Some(e) ==> e.code() == n,
            PrimitiveType::decode(n) is None <==> (forall|e: PrimitiveType| e.code() != n),
    {
        if PrimitiveType::decode(n) is None {
            assert forall|e: PrimitiveType| e.code() != n by {
                match e {
                    PrimitiveType::TriangleList => {},
                    PrimitiveType::TriangleStrip => {},
                    PrimitiveType::LineList => {},
                    PrimitiveType::LineStrip => {},
                    PrimitiveType::PointListExt => {},
                }
            }
        } else {
            assert(PrimitiveType::decode(n).unwrap().code() == n);
        }
    }
}

/// 16 bits | 32 bits per index
#[derive(Debug, Clone, Copy, PartialEq, Eq, Hash, Structural)]
pub enum IndexElementSize {
    Bits16,
    Bits32,
}

impl IndexElementSize {
    /// The FNA3D value of this variant
    pub open spec fn code(self) -> u32 {
        match self {
            IndexElementSize::Bits16 => 0,
            IndexElementSize::Bits32 => 1,
        }
    }

    /// The variant whose FNA3D value is `n`, if there is one
    pub open spec fn decode(n: u32) -> Option<IndexElementSize> {
        if n == 0 {
            Option::Some(IndexElementSize::Bits16)
        } else if n == 1 {
            Option::Some(IndexElementSize::Bits32)
        } else {
            Option::None
        }
    }

    /// The FNA3D value of this variant (the `as u32` conversion)
    pub fn to_u32(&self) -> (r: u32)
        ensures
            r == self.code(),
    {
        match self {
            IndexElementSize::Bits16 => 0,
            IndexElementSize::Bits32 => 1,
        }
    }

    /// Converts an FNA3D value into a variant; `None` when no variant has that value
    pub fn from_u32(n: u32) -> (r: Option<IndexElementSize>)
        ensures
            r == IndexElementSize::decode(n),
    {
        match n {
            0 => Option::Some(IndexElementSize::Bits16),
            1 => Option::Some(IndexElementSize::Bits32),
            _ => Option::None,
        }
    }

    /// Decoding the value of a variant gives the variant back.
    pub proof fn lemma_decode_code(self)
        ensures
            IndexElementSize::decode(self.code()) == Option::Some(self),
    {
    }

    /// A value decodes to a variant only if it is that variant's value.
    pub proof fn lemma_code_decode(n: u32)
        ensures
            IndexElementSize::decode(n) matches Option::Some(e) ==> e.code() == n,
            IndexElementSize::decode(n) is None <==> (forall|e: IndexElementSize| e.code() != n),
    {
        if IndexElementSize::decode(n) is None {
            assert forall|e: IndexElementSize| e.code() != n by {
                match e {
                    IndexElementSize::Bits16 => {},
                    IndexElementSize::Bits32 => {},
                }
            }
        } else {
            assert(IndexElementSize::decode(n).unwrap().code() == n);
        }
    }
}

/// Surface pixel data format; memory layout of each pixel in a 2D image
#[derive(Debug, Clone, Copy, PartialEq, Eq, Hash, Structural)]
pub enum SurfaceFormat {
    Color,
    Bgr565,
    Bgra5551,
    Bgra4444,
    Dxt1,
    Dxt3,
    Dxt5,
    NormalizedByte2,
    NormalizedByte4,
    Rgba1010102,
    Rg32,
    Rgba64,
    Alpha8,
    Single,
    Vector2,
    Vector4,
    HalfSingle,
    HalfVector2,
    HalfVector4,
    HdrBlendable,
    ColorBgraExt,
}

impl SurfaceFormat {
    /// The FNA3D value of this variant
    pub open spec fn code(self) -> u32 {
        match self {
            SurfaceFormat::Color => 0,
            SurfaceFormat::Bgr565 => 1,
            SurfaceFormat::Bgra5551 => 2,
            SurfaceFormat::Bgra4444 => 3,
            SurfaceFormat::Dxt1 => 4,
            SurfaceFormat::Dxt3 => 5,
            SurfaceFormat::Dxt5 => 6,
            SurfaceFormat::NormalizedByte2 => 7,
            SurfaceFormat::NormalizedByte4 => 8,
            SurfaceFormat::Rgba1010102 => 9,
            SurfaceFormat::Rg32 => 10,
            SurfaceFormat::Rgba64 => 11,
            SurfaceFormat::Alpha8 => 12,
            SurfaceFormat::Single => 13,
            SurfaceFormat::Vector2 => 14,
            SurfaceFormat::Vector4 => 15,
            SurfaceFormat::HalfSingle => 16,
            SurfaceFormat::HalfVector2 => 17,
            SurfaceFormat::HalfVector4 => 18,
            SurfaceFormat::HdrBlendable => 19,
            SurfaceFormat::ColorBgraExt => 20,
        }
    }

    /// The variant whose FNA3D value is `n`, if there is one
    pub open spec fn decode(n: u32) -> Option<SurfaceFormat> {
        if n == 0 {
            Option::Some(SurfaceFormat::Color)
        } else if n == 1 {
            Option::Some(SurfaceFormat::Bgr565)
        } else if n == 2 {
            Option::Some(SurfaceFormat::Bgra5551)
        } else if n == 3 {
            Option::Some(SurfaceFormat::Bgra4444)
        } else if n == 4 {
            Option::Some(SurfaceFormat::Dxt1)
        } else if n == 5 {
            Option::Some(SurfaceFormat::Dxt3)
        } else if n == 6 {
            Option::Some(SurfaceFormat::Dxt5)
        } else if n == 7 {
            Option::Some(SurfaceFormat::NormalizedByte2)
        } else if n == 8 {
            Option::Some(SurfaceFormat::NormalizedByte4)
        } else if n == 9 {
            Option::Some(SurfaceFormat::Rgba1010102)
        } else if n == 10 {
            Option::Some(SurfaceFormat::Rg32)
        } else if n == 11 {
            Option::Some(SurfaceFormat::Rgba64)
        } else if n == 12 {
            Option::Some(SurfaceFormat::Alpha8)
        } else if n == 13 {
            Option::Some(SurfaceFormat::Single)
        } else if n == 14 {
            Option::Some(SurfaceFormat::Vector2)
        } else if n == 15 {
            Option::Some(SurfaceFormat::Vector4)
        } else if n == 16 {
            Option::Some(SurfaceFormat::HalfSingle)
        } else if n == 17 {
            Option::Some(SurfaceFormat::HalfVector2)
        } else if n == 18 {
            Option::Some(SurfaceFormat::HalfVector4)
        } else if n == 19 {
            Option::Some(SurfaceFormat::HdrBlendable)
        } else if n == 20 {
            Option::Some(SurfaceFormat::ColorBgraExt)
        } else {
            Option::None
        }
    }

    /// The FNA3D value of this variant (the `as u32` conversion)
    pub fn to_u32(&self) -> (r: u32)
        ensures
            r == self.code(),
    {
        match self {
            SurfaceFormat::Color => 0,
            SurfaceFormat::Bgr565 => 1,
            SurfaceFormat::Bgra5551 => 2,
            SurfaceFormat::Bgra4444 => 3,
            SurfaceFormat::Dxt1 => 4,
            SurfaceFormat::Dxt3 => 5,
            SurfaceFormat::Dxt5 => 6,
            SurfaceFormat::NormalizedByte2 => 7,
            SurfaceFormat::NormalizedByte4 => 8,
            SurfaceFormat::Rgba1010102 => 9,
            SurfaceFormat::Rg32 => 10,
            SurfaceFormat::Rgba64 => 11,
            SurfaceFormat::Alpha8 => 12,
            SurfaceFormat::Single => 13,
            SurfaceFormat::Vector2 => 14,
            SurfaceFormat::Vector4 => 15,
            SurfaceFormat::HalfSingle => 16,
            SurfaceFormat::HalfVector2 => 17,
            SurfaceFormat::HalfVector4 => 18,
            SurfaceFormat::HdrBlendable => 19,
            SurfaceFormat::ColorBgraExt => 20,
        }
    }

    /// Converts an FNA3D value into a variant; `None` when no variant has that value
    pub fn from_u32(n: u32) -> (r: Option<SurfaceFormat>)
        ensures
            r == SurfaceFormat::decode(n),
    {
        match n {
            0 => Option::Some(SurfaceFormat::Color),
            1 => Option::Some(SurfaceFormat::Bgr565),
            2 => Option::Some(SurfaceFormat::Bgra5551),
            3 => Option::Some(SurfaceFormat::Bgra4444),
            4 => Option::Some(SurfaceFormat::Dxt1),
            5 => Option::Some(SurfaceFormat::Dxt3),
            6 => Option::Some(SurfaceFormat::Dxt5),
            7 => Option::Some(SurfaceFormat::NormalizedByte2),
            8 => Option::Some(SurfaceFormat::NormalizedByte4),
            9 => Option::Some(SurfaceFormat::Rgba1010102),
            10 => Option::Some(SurfaceFormat::Rg32),
            11 => Option::Some(SurfaceFormat::Rgba64),
            12 => Option::Some(SurfaceFormat::Alpha8),
            13 => Option::Some(SurfaceFormat::Single),
            14 => Option::Some(SurfaceFormat::Vector2),
            15 => Option::Some(SurfaceFormat::Vector4),
            16 => Option::Some(SurfaceFormat::HalfSingle),
            17 => Option::Some(SurfaceFormat::HalfVector2),
            18 => Option::Some(SurfaceFormat::HalfVector4),
            19 => Option::Some(SurfaceFormat::HdrBlendable),
            20 => Option::Some(SurfaceFormat::ColorBgraExt),
            _ => Option::None,
        }
    }

    /// Decoding the value of a variant gives the variant back.
    pub proof fn lemma_decode_code(self)
        ensures
            SurfaceFormat::decode(self.code()) == Option::Some(self),
    {
    }

    /// A value decodes to a variant only if it is that variant's value.
    pub proof fn lemma_code_decode(n: u32)
        ensures
            SurfaceFormat::decode(n) matches Option::Some(e) ==> e.code() == n,
            SurfaceFormat::decode(n) is None <==> (forall|e: SurfaceFormat| e.code() != n),
    {
        if SurfaceFormat::decode(n) is None {
            assert forall|e: SurfaceFormat| e.code() != n by {
                match e {
                    SurfaceFormat::Color => {},
                    SurfaceFormat::Bgr565 => {},
                    SurfaceFormat::Bgra5551 => {},
                    SurfaceFormat::Bgra4444 => {},
                    SurfaceFormat::Dxt1 => {},
                    SurfaceFormat::Dxt3 => {},
                    SurfaceFormat::Dxt5 => {},
                    SurfaceFormat::NormalizedByte2 => {},
                    SurfaceFormat::NormalizedByte4 => {},
                    SurfaceFormat::Rgba1010102 => {},
                    SurfaceFormat::Rg32 => {},
                    SurfaceFormat::Rgba64 => {},
                    SurfaceFormat::Alpha8 => {},
                    SurfaceFormat::Single => {},
                    SurfaceFormat::Vector2 => {},
                    SurfaceFormat::Vector4 => {},
                    SurfaceFormat::HalfSingle => {},
                    SurfaceFormat::HalfVector2 => {},
                    SurfaceFormat::HalfVector4 => {},
                    SurfaceFormat::HdrBlendable => {},
                    SurfaceFormat::ColorBgraExt => {},
                }
            }
        } else {
            assert(SurfaceFormat::decode(n).unwrap().code() == n);
        }
    }
}

/// Format of a depth/stencil buffer
#[derive(Debug, Clone, Copy, PartialEq, Eq, Hash, Structural)]
pub enum DepthFormat {
    NoDepth,
    D16,
    D24,
    D24S8,
}

impl DepthFormat {
    /// The FNA3D value of this variant
    pub open spec fn code(self) -> u32 {
        match self {
            DepthFormat::NoDepth => 0,
            DepthFormat::D16 => 1,
            DepthFormat::D24 => 2,
            DepthFormat::D24S8 => 3,
        }
    }

    /// The variant whose FNA3D value is `n`, if there is one
    pub open spec fn decode(n: u32) -> Option<DepthFormat> {
        if n == 0 {
            Option::Some(DepthFormat::NoDepth)
        } else if n == 1 {
            Option::Some(DepthFormat::D16)
        } else if n == 2 {
            Option::Some(DepthFormat::D24)
        } else if n == 3 {
            Option::Some(DepthFormat::D24S8)
        } else {
            Option::None
        }
    }

    /// The FNA3D value of this variant (the `as u32` conversion)
    pub fn to_u32(&self) -> (r: u32)
        ensures
            r == self.code(),
    {
        match self {
            DepthFormat::NoDepth => 0,
            DepthFormat::D16 => 1,
            DepthFormat::D24 => 2,
            DepthFormat::D24S8 => 3,
        }
    }

    /// Converts an FNA3D value into a variant; `None` when no variant has that value
    pub fn from_u32(n: u32) -> (r: Option<DepthFormat>)
        ensures
            r == DepthFormat::decode(n),
    {
        match n {
            0 => Option::Some(DepthFormat::NoDepth),
            1 => Option::Some(DepthFormat::D16),
            2 => Option::Some(DepthFormat::D24),
            3 => Option::Some(DepthFormat::D24S8),
            _ => Option::None,
        }
    }

    /// Decoding the value of a variant gives the variant back.
    pub proof fn lemma_decode_code(self)
        ensures
            DepthFormat::decode(self.code()) == Option::Some(self),
    {
    }

    /// A value decodes to a variant only if it is that variant's value.
    pub proof fn lemma_code_decode(n: u32)
        ensures
            DepthFormat::decode(n) matches Option::Some(e) ==> e.code() == n,
            DepthFormat::decode(n) is None <==> (forall|e: DepthFormat| e.code() != n),
    {
        if DepthFormat::decode(n) is None {
            assert forall|e: DepthFormat| e.code() != n by {
                match e {
                    DepthFormat::NoDepth => {},
                    DepthFormat::D16 => {},
                    DepthFormat::D24 => {},
                    DepthFormat::D24S8 => {},
                }
            }
        } else {
            assert(DepthFormat::decode(n).unwrap().code() == n);
        }
    }
}

/// Face of a cube map texture
#[derive(Debug, Clone, Copy, PartialEq, Eq, Hash, Structural)]
pub enum CubeMapFace {
    PositiveX,
    NegativeX,
    PositiveY,
    NegativeY,
    PositiveZ,
    NegativeZ,
}

impl CubeMapFace {
    /// The FNA3D value of this variant
    pub open spec fn code(self) -> u32 {
        match self {
            CubeMapFace::PositiveX => 0,
            CubeMapFace::NegativeX => 1,
            CubeMapFace::PositiveY => 2,
            CubeMapFace::NegativeY => 3,
            CubeMapFace::PositiveZ => 4,
            CubeMapFace::NegativeZ => 5,
        }
    }

    /// The variant whose FNA3D value is `n`, if there is one
    pub open spec fn decode(n: u32) -> Option<CubeMapFace> {
        if n == 0 {
            Option::Some(CubeMapFace::PositiveX)
        } else if n == 1 {
            Option::Some(CubeMapFace::NegativeX)
        } else if n == 2 {
            Option::Some(CubeMapFace::PositiveY)
        } else if n == 3 {
            Option::Some(CubeMapFace::NegativeY)
        } else if n == 4 {
            Option::Some(CubeMapFace::PositiveZ)
        } else if n == 5 {
            Option::Some(CubeMapFace::NegativeZ)
        } else {
            Option::None
        }
    }

    /// The FNA3D value of this variant (the `as u32` conversion)
    pub fn to_u32(&self) -> (r: u32)
        ensures
            r == self.code(),
    {
        match self {
            CubeMapFace::PositiveX => 0,
            CubeMapFace::NegativeX => 1,
            CubeMapFace::PositiveY => 2,
            CubeMapFace::NegativeY => 3,
            CubeMapFace::PositiveZ => 4,
            CubeMapFace::NegativeZ => 5,
        }
    }

    /// Converts an FNA3D value into a variant; `None` when no variant has that value
    pub fn from_u32(n: u32) -> (r: Option<CubeMapFace>)
        ensures
            r == CubeMapFace::decode(n),
    {
        match n {
            0 => Option::Some(CubeMapFace::PositiveX),
            1 => Option::Some(CubeMapFace::NegativeX),
            2 => Option::Some(CubeMapFace::PositiveY),
            3 => Option::Some(CubeMapFace::NegativeY),
            4 => Option::Some(CubeMapFace::PositiveZ),
            5 => Option::Some(CubeMapFace::NegativeZ),
            _ => Option::None,
        }
    }

    /// Decoding the value of a variant gives the variant back.
    pub proof fn lemma_decode_code(self)
        ensures
            CubeMapFace::decode(self.code()) == Option::Some(self),
    {
    }

    /// A value decodes to a variant only if it is that variant's value.
    pub proof fn lemma_code_decode(n: u32)
        ensures
            CubeMapFace::decode(n) matches Option::Some(e) ==> e.code() == n,
            CubeMapFace::decode(n) is None <==> (forall|e: CubeMapFace| e.code() != n),
    {
        if CubeMapFace::decode(n) is None {
            assert forall|e: CubeMapFace| e.code() != n by {
                match e {
                    CubeMapFace::PositiveX => {},
                    CubeMapFace::NegativeX => {},
                    CubeMapFace::PositiveY => {},
                    CubeMapFace::NegativeY => {},
                    CubeMapFace::PositiveZ => {},
                    CubeMapFace::NegativeZ => {},
                }
            }
        } else {
            assert(CubeMapFace::decode(n).unwrap().code() == n);
        }
    }
}

/// Vertex/index buffer usage hint for memory placement
#[derive(Debug, Clone, Copy, PartialEq, Eq, Hash, Structural)]
pub enum BufferUsage {
    NoUsage,
    WriteOnly,
}

impl BufferUsage {
    /// The FNA3D value of this variant
    pub open spec fn code(self) -> u32 {
        match self {
            BufferUsage::NoUsage => 0,
            BufferUsage::WriteOnly => 1,
        }
    }

    /// The variant whose FNA3D value is `n`, if there is one
    pub open spec fn decode(n: u32) -> Option<BufferUsage> {
        if n == 0 {
            Option::Some(BufferUsage::NoUsage)
        } else if n == 1 {
            Option::Some(BufferUsage::WriteOnly)
        } else {
            Option::None
        }
    }

    /// The FNA3D value of this variant (the `as u32` conversion)
    pub fn to_u32(&self) -> (r: u32)
        ensures
            r == self.code(),
    {
        match self {
            BufferUsage::NoUsage => 0,
            BufferUsage::WriteOnly => 1,
        }
    }

    /// Converts an FNA3D value into a variant; `None` when no variant has that value
    pub fn from_u32(n: u32) -> (r: Option<BufferUsage>)
        ensures
            r == BufferUsage::decode(n),
    {
        match n {
            0 => Option::Some(BufferUsage::NoUsage),
            1 => Option::Some(BufferUsage::WriteOnly),
            _ => Option::None,
        }
    }

    /// Decoding the value of a variant gives the variant back.
    pub proof fn lemma_decode_code(self)
        ensures
            BufferUsage::decode(self.code()) == Option::Some(self),
    {
    }

    /// A value decodes to a variant only if it is that variant's value.
    pub proof fn lemma_code_decode(n: u32)
        ensures
            BufferUsage::decode(n) matches Option::Some(e) ==> e.code() == n,
            BufferUsage::decode(n) is None <==> (forall|e: BufferUsage| e.code() != n),
    {
        if BufferUsage::decode(n) is None {
            assert forall|e: BufferUsage| e.code() != n by {
                match e {
                    BufferUsage::NoUsage => {},
                    BufferUsage::WriteOnly => {},
                }
            }
        } else {
            assert(BufferUsage::decode(n).unwrap().code() == n);
        }
    }
}

/// How vertex or index buffer data is flushed during a set-data operation
#[derive(Debug, Clone, Copy, PartialEq, Eq, Hash, Structural)]
pub enum SetDataOptions {
    NoOptions,
    Discard,
    NoOverwrite,
}

impl SetDataOptions {
    /// The FNA3D value of this variant
    pub open spec fn code(self) -> u32 {
        match self {
            SetDataOptions::NoOptions => 0,
            SetDataOptions::Discard => 1,
            SetDataOptions::NoOverwrite => 2,
        }
    }

    /// The variant whose FNA3D value is `n`, if there is one
    pub open spec fn decode(n: u32) -> Option<SetDataOptions> {
        if n == 0 {
            Option::Some(SetDataOptions::NoOptions)
        } else if n == 1 {
            Option::Some(SetDataOptions::Discard)
        } else if n == 2 {
            Option::Some(SetDataOptions::NoOverwrite)
        } else {
            Option::None
        }
    }

    /// The FNA3D value of this variant (the `as u32` conversion)
    pub fn to_u32(&self) -> (r: u32)
        ensures
            r == self.code(),
    {
        match self {
            SetDataOptions::NoOptions => 0,
            SetDataOptions::Discard => 1,
            SetDataOptions::NoOverwrite => 2,
        }
    }

    /// Converts an FNA3D value into a variant; `None` when no variant has that value
    pub fn from_u32(n: u32) -> (r: Option<SetDataOptions>)
        ensures
            r == SetDataOptions::decode(n),
    {
        match n {
            0 => Option::Some(SetDataOptions::NoOptions),
            1 => Option::Some(SetDataOptions::Discard),
            2 => Option::Some(SetDataOptions::NoOverwrite),
            _ => Option::None,
        }
    }

    /// Decoding the value of a variant gives the variant back.
    pub proof fn lemma_decode_code(self)
        ensures
            SetDataOptions::decode(self.code()) == Option::Some(self),
    {
    }

    /// A value decodes to a variant only if it is that variant's value.
    pub proof fn lemma_code_decode(n: u32)
        ensures
            SetDataOptions::decode(n) matches Option::Some(e) ==> e.code() == n,
            SetDataOptions::decode(n) is None <==> (forall|e: SetDataOptions| e.code() != n),
    {
        if SetDataOptions::decode(n) is None {
            assert forall|e: SetDataOptions| e.code() != n by {
                match e {
                    SetDataOptions::NoOptions => {},
                    SetDataOptions::Discard => {},
                    SetDataOptions::NoOverwrite => {},
                }
            }
        } else {
            assert(SetDataOptions::decode(n).unwrap().code() == n);
        }
    }
}

/// Blend factor of a blend state
#[derive(Debug, Clone, Copy, PartialEq, Eq, Hash, Structural)]
pub enum Blend {
    One,
    Zero,
    SourceColor,
    InverseSourceColor,
    SourceAlpha,
    InverseSourceAlpha,
    DestinationColor,
    InveseDestinationColor,
    DestinaitonAlpha,
    InverseDetinationAlpha,
    BlendFactor,
    InverseBlendFactor,
    SourceAlphaSaturation,
}

impl Blend {
    /// The FNA3D value of this variant
    pub open spec fn code(self) -> u32 {
        match self {
            Blend::One => 0,
            Blend::Zero => 1,
            Blend::SourceColor => 2,
            Blend::InverseSourceColor => 3,
            Blend::SourceAlpha => 4,
            Blend::InverseSourceAlpha => 5,
            Blend::DestinationColor => 6,
            Blend::InveseDestinationColor => 7,
            Blend::DestinaitonAlpha => 8,
            Blend::InverseDetinationAlpha => 9,
            Blend::BlendFactor => 10,
            Blend::InverseBlendFactor => 11,
            Blend::SourceAlphaSaturation => 12,
        }
    }

    /// The variant whose FNA3D value is `n`, if there is one
    pub open spec fn decode(n: u32) -> Option<Blend> {
        if n == 0 {
            Option::Some(Blend::One)
        } else if n == 1 {
            Option::Some(Blend::Zero)
        } else if n == 2 {
            Option::Some(Blend::SourceColor)
        } else if n == 3 {
            Option::Some(Blend::InverseSourceColor)
        } else if n == 4 {
            Option::Some(Blend::SourceAlpha)
        } else if n == 5 {
            Option::Some(Blend::InverseSourceAlpha)
        } else if n == 6 {
            Option::Some(Blend::DestinationColor)
        } else if n == 7 {
            Option::Some(Blend::InveseDestinationColor)
        } else if n == 8 {
            Option::Some(Blend::DestinaitonAlpha)
        } else if n == 9 {
            Option::Some(Blend::InverseDetinationAlpha)
        } else if n == 10 {
            Option::Some(Blend::BlendFactor)
        } else if n == 11 {
            Option::Some(Blend::InverseBlendFactor)
        } else if n == 12 {
            Option::Some(Blend::SourceAlphaSaturation)
        } else {
            Option::None
        }
    }

    /// The FNA3D value of this variant (the `as u32` conversion)
    pub fn to_u32(&self) -> (r: u32)
        ensures
            r == self.code(),
    {
        match self {
            Blend::One => 0,
            Blend::Zero => 1,
            Blend::SourceColor => 2,
            Blend::InverseSourceColor => 3,
            Blend::SourceAlpha => 4,
            Blend::InverseSourceAlpha => 5,
            Blend::DestinationColor => 6,
            Blend::InveseDestinationColor => 7,
            Blend::DestinaitonAlpha => 8,
            Blend::InverseDetinationAlpha => 9,
            Blend::BlendFactor => 10,
            Blend::InverseBlendFactor => 11,
            Blend::SourceAlphaSaturation => 12,
        }
    }

    /// Converts an FNA3D value into a variant; `None` when no variant has that value
    pub fn from_u32(n: u32) -> (r: Option<Blend>)
        ensures
            r == Blend::decode(n),
    {
        match n {
            0 => Option::Some(Blend::One),
            1 => Option::Some(Blend::Zero),
            2 => Option::Some(Blend::SourceColor),
            3 => Option::Some(Blend::InverseSourceColor),
            4 => Option::Some(Blend::SourceAlpha),
            5 => Option::Some(Blend::InverseSourceAlpha),
            6 => Option::Some(Blend::DestinationColor),
            7 => Option::Some(Blend::InveseDestinationColor),
            8 => Option::Some(Blend::DestinaitonAlpha),
            9 => Option::Some(Blend::InverseDetinationAlpha),
            10 => Option::Some(Blend::BlendFactor),
            11 => Option::Some(Blend::InverseBlendFactor),
            12 => Option::Some(Blend::SourceAlphaSaturation),
            _ => Option::None,
        }
    }

    /// Decoding the value of a variant gives the variant back.
    pub proof fn lemma_decode_code(self)
        ensures
            Blend::decode(self.code()) == Option::Some(self),
    {
    }

    /// A value decodes to a variant only if it is that variant's value.
    pub proof fn lemma_code_decode(n: u32)
        ensures
            Blend::decode(n) matches Option::Some(e) ==> e.code() == n,
            Blend::decode(n) is None <==> (forall|e: Blend| e.code() != n),
    {
        if Blend::decode(n) is None {
            assert forall|e: Blend| e.code() != n by {
                match e {
                    Blend::One => {},
                    Blend::Zero => {},
                    Blend::SourceColor => {},
                    Blend::InverseSourceColor => {},
                    Blend::SourceAlpha => {},
                    Blend::InverseSourceAlpha => {},
                    Blend::DestinationColor => {},
                    Blend::InveseDestinationColor => {},
                    Blend::DestinaitonAlpha => {},
                    Blend::InverseDetinationAlpha => {},
                    Blend::BlendFactor => {},
                    Blend::InverseBlendFactor => {},
                    Blend::SourceAlphaSaturation => {},
                }
            }
        } else {
            assert(Blend::decode(n).unwrap().code() == n);
        }
    }
}

/// Color blending function of a blend state
#[derive(Debug, Clone, Copy, PartialEq, Eq, Hash, Structural)]
pub enum BlendFunction {
    Add,
    Substract,
    ReverseSubstract,
    Max,
    Min,
}

impl BlendFunction {
    /// The FNA3D value of this variant
    pub open spec fn code(self) -> u32 {
        match self {
            BlendFunction::Add => 0,
            BlendFunction::Substract => 1,
            BlendFunction::ReverseSubstract => 2,
            BlendFunction::Max => 3,
            BlendFunction::Min => 4,
        }
    }

    /// The variant whose FNA3D value is `n`, if there is one
    pub open spec fn decode(n: u32) -> Option<BlendFunction> {
        if n == 0 {
            Option::Some(BlendFunction::Add)
        } else if n == 1 {
            Option::Some(BlendFunction::Substract)
        } else if n == 2 {
            Option::Some(BlendFunction::ReverseSubstract)
        } else if n == 3 {
            Option::Some(BlendFunction::Max)
        } else if n == 4 {
            Option::Some(BlendFunction::Min)
        } else {
            Option::None
        }
    }

    /// The FNA3D value of this variant (the `as u32` conversion)
    pub fn to_u32(&self) -> (r: u32)
        ensures
            r == self.code(),
    {
        match self {
            BlendFunction::Add => 0,
            BlendFunction::Substract => 1,
            BlendFunction::ReverseSubstract => 2,
            BlendFunction::Max => 3,
            BlendFunction::Min => 4,
        }
    }

    /// Converts an FNA3D value into a variant; `None` when no variant has that value
    pub fn from_u32(n: u32) -> (r: Option<BlendFunction>)
        ensures
            r == BlendFunction::decode(n),
    {
        match n {
            0 => Option::Some(BlendFunction::Add),
            1 => Option::Some(BlendFunction::Substract),
            2 => Option::Some(BlendFunction::ReverseSubstract),
            3 => Option::Some(BlendFunction::Max),
            4 => Option::Some(BlendFunction::Min),
            _ => Option::None,
        }
    }

    /// Decoding the value of a variant gives the variant back.
    pub proof fn lemma_decode_code(self)
        ensures
            BlendFunction::decode(self.code()) == Option::Some(self),
    {
    }

    /// A value decodes to a variant only if it is that variant's value.
    pub proof fn lemma_code_decode(n: u32)
        ensures
            BlendFunction::decode(n) matches Option::Some(e) ==> e.code() == n,
            BlendFunction::decode(n) is None <==> (forall|e: BlendFunction| e.code() != n),
    {
        if BlendFunction::decode(n) is None {
            assert forall|e: BlendFunction| e.code() != n by {
                match e {
                    BlendFunction::Add => {},
                    BlendFunction::Substract => {},
                    BlendFunction::ReverseSubstract => {},
                    BlendFunction::Max => {},
                    BlendFunction::Min => {},
                }
            }
        } else {
            assert(BlendFunction::decode(n).unwrap().code() == n);
        }
    }
}

/// Color channels written by render target blending operations
#[derive(Debug, Clone, Copy, PartialEq, Eq, Hash, Structural)]
pub enum ColorWriteChannels {
    NoChannels,
    Red,
    Green,
    Blue,
    Alpha,
    All,
}

impl ColorWriteChannels {
    /// The FNA3D value of this variant
    pub open spec fn code(self) -> u32 {
        match self {
            ColorWriteChannels::NoChannels => 0,
            ColorWriteChannels::Red => 1,
            ColorWriteChannels::Green => 2,
            ColorWriteChannels::Blue => 4,
            ColorWriteChannels::Alpha => 8,
            ColorWriteChannels::All => 15,
        }
    }

    /// The variant whose FNA3D value is `n`, if there is one
    pub open spec fn decode(n: u32) -> Option<ColorWriteChannels> {
        if n == 0 {
            Option::Some(ColorWriteChannels::NoChannels)
        } else if n == 1 {
            Option::Some(ColorWriteChannels::Red)
        } else if n == 2 {
            Option::Some(ColorWriteChannels::Green)
        } else if n == 4 {
            Option::Some(ColorWriteChannels::Blue)
        } else if n == 8 {
            Option::Some(ColorWriteChannels::Alpha)
        } else if n == 15 {
            Option::Some(ColorWriteChannels::All)
        } else {
            Option::None
        }
    }

    /// The FNA3D value of this variant (the `as u32` conversion)
    pub fn to_u32(&self) -> (r: u32)
        ensures
            r == self.code(),
    {
        match self {
            ColorWriteChannels::NoChannels => 0,
            ColorWriteChannels::Red => 1,
            ColorWriteChannels::Green => 2,
            ColorWriteChannels::Blue => 4,
            ColorWriteChannels::Alpha => 8,
            ColorWriteChannels::All => 15,
        }
    }

    /// Converts an FNA3D value into a variant; `None` when no variant has that value
    pub fn from_u32(n: u32) -> (r: Option<ColorWriteChannels>)
        ensures
            r == ColorWriteChannels::decode(n),
    {
        match n {
            0 => Option::Some(ColorWriteChannels::NoChannels),
            1 => Option::Some(ColorWriteChannels::Red),
            2 => Option::Some(ColorWriteChannels::Green),
            4 => Option::Some(ColorWriteChannels::Blue),
            8 => Option::Some(ColorWriteChannels::Alpha),
            15 => Option::Some(ColorWriteChannels::All),
            _ => Option::None,
        }
    }

    /// Decoding the value of a variant gives the variant back.
    pub proof fn lemma_decode_code(self)
        ensures
            ColorWriteChannels::decode(self.code()) == Option::Some(self),
    {
    }

    /// A value decodes to a variant only if it is that variant's value.
    pub proof fn lemma_code_decode(n: u32)
        ensures
            ColorWriteChannels::decode(n) matches Option::Some(e) ==> e.code() == n,
            ColorWriteChannels::decode(n) is None <==> (forall|e: ColorWriteChannels| e.code() != n),
    {
        if ColorWriteChannels::decode(n) is None {
            assert forall|e: ColorWriteChannels| e.code() != n by {
                match e {
                    ColorWriteChannels::NoChannels => {},
                    ColorWriteChannels::Red => {},
                    ColorWriteChannels::Green => {},
                    ColorWriteChannels::Blue => {},
                    ColorWriteChannels::Alpha => {},
                    ColorWriteChannels::All => {},
                }
            }
        } else {
            assert(ColorWriteChannels::decode(n).unwrap().code() == n);
        }
    }
}

/// Stencil operation of a depth/stencil state
#[derive(Debug, Clone, Copy, PartialEq, Eq, Hash, Structural)]
pub enum StencilOperation {
    Keep,
    Zero,
    Replace,
    Increment,
    Decrement,
    IncrementSaturation,
    DecrementSaturation,
    Invert,
}

impl StencilOperation {
    /// The FNA3D value of this variant
    pub open spec fn code(self) -> u32 {
        match self {
            StencilOperation::Keep => 0,
            StencilOperation::Zero => 1,
            StencilOperation::Replace => 2,
            StencilOperation::Increment => 3,
            StencilOperation::Decrement => 4,
            StencilOperation::IncrementSaturation => 5,
            StencilOperation::DecrementSaturation => 6,
            StencilOperation::Invert => 7,
        }
    }

    /// The variant whose FNA3D value is `n`, if there is one
    pub open spec fn decode(n: u32) -> Option<StencilOperation> {
        if n == 0 {
            Option::Some(StencilOperation::Keep)
        } else if n == 1 {
            Option::Some(StencilOperation::Zero)
        } else if n == 2 {
            Option::Some(StencilOperation::Replace)
        } else if n == 3 {
            Option::Some(StencilOperation::Increment)
        } else if n == 4 {
            Option::Some(StencilOperation::Decrement)
        } else if n == 5 {
            Option::Some(StencilOperation::IncrementSaturation)
        } else if n == 6 {
            Option::Some(StencilOperation::DecrementSaturation)
        } else if n == 7 {
            Option::Some(StencilOperation::Invert)
        } else {
            Option::None
        }
    }

    /// The FNA3D value of this variant (the `as u32` conversion)
    pub fn to_u32(&self) -> (r: u32)
        ensures
            r == self.code(),
    {
        match self {
            StencilOperation::Keep => 0,
            StencilOperation::Zero => 1,
            StencilOperation::Replace => 2,
            StencilOperation::Increment => 3,
            StencilOperation::Decrement => 4,
            StencilOperation::IncrementSaturation => 5,
            StencilOperation::DecrementSaturation => 6,
            StencilOperation::Invert => 7,
        }
    }

    /// Converts an FNA3D value into a variant; `None` when no variant has that value
    pub fn from_u32(n: u32) -> (r: Option<StencilOperation>)
        ensures
            r == StencilOperation::decode(n),
    {
        match n {
            0 => Option::Some(StencilOperation::Keep),
            1 => Option::Some(StencilOperation::Zero),
            2 => Option::Some(StencilOperation::Replace),
            3 => Option::Some(StencilOperation::Increment),
            4 => Option::Some(StencilOperation::Decrement),
            5 => Option::Some(StencilOperation::IncrementSaturation),
            6 => Option::Some(StencilOperation::DecrementSaturation),
            7 => Option::Some(StencilOperation::Invert),
            _ => Option::None,
        }
    }

    /// Decoding the value of a variant gives the variant back.
    pub proof fn lemma_decode_code(self)
        ensures
            StencilOperation::decode(self.code()) == Option::Some(self),
    {
    }

    /// A value decodes to a variant only if it is that variant's value.
    pub proof fn lemma_code_decode(n: u32)
        ensures
            StencilOperation::decode(n) matches Option::Some(e) ==> e.code() == n,
            StencilOperation::decode(n) is None <==> (forall|e: StencilOperation| e.code() != n),
    {
        if StencilOperation::decode(n) is None {
            assert forall|e: StencilOperation| e.code() != n by {
                match e {
                    StencilOperation::Keep => {},
                    StencilOperation::Zero => {},
                    StencilOperation::Replace => {},
                    StencilOperation::Increment => {},
                    StencilOperation::Decrement => {},
                    StencilOperation::IncrementSaturation => {},
                    StencilOperation::DecrementSaturation => {},
                    StencilOperation::Invert => {},
                }
            }
        } else {
            assert(StencilOperation::decode(n).unwrap().code() == n);
        }
    }
}

/// Comparison operator for depth and stencil testing
#[derive(Debug, Clone, Copy, PartialEq, Eq, Hash, Structural)]
pub enum CompareFunction {
    Always,
    Never,
    Less,
    LessEqual,
    Equal,
    GreaterEqual,
    Greater,
    NonEqual,
}

impl CompareFunction {
    /// The FNA3D value of this variant
    pub open spec fn code(self) -> u32 {
        match self {
            CompareFunction::Always => 0,
            CompareFunction::Never => 1,
            CompareFunction::Less => 2,
            CompareFunction::LessEqual => 3,
            CompareFunction::Equal => 4,
            CompareFunction::GreaterEqual => 5,
            CompareFunction::Greater => 6,
            CompareFunction::NonEqual => 7,
        }
    }

    /// The variant whose FNA3D value is `n`, if there is one
    pub open spec fn decode(n: u32) -> Option<CompareFunction> {
        if n == 0 {
            Option::Some(CompareFunction::Always)
        } else if n == 1 {
            Option::Some(CompareFunction::Never)
        } else if n == 2 {
            Option::Some(CompareFunction::Less)
        } else if n == 3 {
            Option::Some(CompareFunction::LessEqual)
        } else if n == 4 {
            Option::Some(CompareFunction::Equal)
        } else if n == 5 {
            Option::Some(CompareFunction::GreaterEqual)
        } else if n == 6 {
            Option::Some(CompareFunction::Greater)
        } else if n == 7 {
            Option::Some(CompareFunction::NonEqual)
        } else {
            Option::None
        }
    }

    /// The FNA3D value of this variant (the `as u32` conversion)
    pub fn to_u32(&self) -> (r: u32)
        ensures
            r == self.code(),
    {
        match self {
            CompareFunction::Always => 0,
            CompareFunction::Never => 1,
            CompareFunction::Less => 2,
            CompareFunction::LessEqual => 3,
            CompareFunction::Equal => 4,
            CompareFunction::GreaterEqual => 5,
            CompareFunction::Greater => 6,
            CompareFunction::NonEqual => 7,
        }
    }

    /// Converts an FNA3D value into a variant; `None` when no variant has that value
    pub fn from_u32(n: u32) -> (r: Option<CompareFunction>)
        ensures
            r == CompareFunction::decode(n),
    {
        match n {
            0 => Option::Some(CompareFunction::Always),
            1 => Option::Some(CompareFunction::Never),
            2 => Option::Some(CompareFunction::Less),
            3 => Option::Some(CompareFunction::LessEqual),
            4 => Option::Some(CompareFunction::Equal),
            5 => Option::Some(CompareFunction::GreaterEqual),
            6 => Option::Some(CompareFunction::Greater),
            7 => Option::Some(CompareFunction::NonEqual),
            _ => Option::None,
        }
    }

    /// Decoding the value of a variant gives the variant back.
    pub proof fn lemma_decode_code(self)
        ensures
            CompareFunction::decode(self.code()) == Option::Some(self),
    {
    }

    /// A value decodes to a variant only if it is that variant's value.
    pub proof fn lemma_code_decode(n: u32)
        ensures
            CompareFunction::decode(n) matches Option::Some(e) ==> e.code() == n,
            CompareFunction::decode(n) is None <==> (forall|e: CompareFunction| e.code() != n),
    {
        if CompareFunction::decode(n) is None {
            assert forall|e: CompareFunction| e.code() != n by {
                match e {
                    CompareFunction::Always => {},
                    CompareFunction::Never => {},
                    CompareFunction::Less => {},
                    CompareFunction::LessEqual => {},
                    CompareFunction::Equal => {},
                    CompareFunction::GreaterEqual => {},
                    CompareFunction::Greater => {},
                    CompareFunction::NonEqual => {},
                }
            }
        } else {
            assert(CompareFunction::decode(n).unwrap().code() == n);
        }
    }
}

/// Face culling of a rasterizer state
#[derive(Debug, Clone, Copy, PartialEq, Eq, Hash, Structural)]
pub enum CullMode {
    NoCulling,
    CullClockWiseFace,
    CullCounterClockwiseFace,
}

impl CullMode {
    /// The FNA3D value of this variant
    pub open spec fn code(self) -> u32 {
        match self {
            CullMode::NoCulling => 0,
            CullMode::CullClockWiseFace => 1,
            CullMode::CullCounterClockwiseFace => 2,
        }
    }

    /// The variant whose FNA3D value is `n`, if there is one
    pub open spec fn decode(n: u32) -> Option<CullMode> {
        if n == 0 {
            Option::Some(CullMode::NoCulling)
        } else if n == 1 {
            Option::Some(CullMode::CullClockWiseFace)
        } else if n == 2 {
            Option::Some(CullMode::CullCounterClockwiseFace)
        } else {
            Option::None
        }
    }

    /// The FNA3D value of this variant (the `as u32` conversion)
    pub fn to_u32(&self) -> (r: u32)
        ensures
            r == self.code(),
    {
        match self {
            CullMode::NoCulling => 0,
            CullMode::CullClockWiseFace => 1,
            CullMode::CullCounterClockwiseFace => 2,
        }
    }

    /// Converts an FNA3D value into a variant; `None` when no variant has that value
    pub fn from_u32(n: u32) -> (r: Option<CullMode>)
        ensures
            r == CullMode::decode(n),
    {
        match n {
            0 => Option::Some(CullMode::NoCulling),
            1 => Option::Some(CullMode::CullClockWiseFace),
            2 => Option::Some(CullMode::CullCounterClockwiseFace),
            _ => Option::None,
        }
    }

    /// Decoding the value of a variant gives the variant back.
    pub proof fn lemma_decode_code(self)
        ensures
            CullMode::decode(self.code()) == Option::Some(self),
    {
    }

    /// A value decodes to a variant only if it is that variant's value.
    pub proof fn lemma_code_decode(n: u32)
        ensures
            CullMode::decode(n) matches Option::Some(e) ==> e.code() == n,
            CullMode::decode(n) is None <==> (forall|e: CullMode| e.code() != n),
    {
        if CullMode::decode(n) is None {
            assert forall|e: CullMode| e.code() != n by {
                match e {
                    CullMode::NoCulling => {},
                    CullMode::CullClockWiseFace => {},
                    CullMode::CullCounterClockwiseFace => {},
                }
            }
        } else {
            assert(CullMode::decode(n).unwrap().code() == n);
        }
    }
}

/// Fill mode of a rasterizer state
#[derive(Debug, Clone, Copy, PartialEq, Eq, Hash, Structural)]
pub enum FillMode {
    Solid,
    WireFrame,
}

impl FillMode {
    /// The FNA3D value of this variant
    pub open spec fn code(self) -> u32 {
        match self {
            FillMode::Solid => 0,
            FillMode::WireFrame => 1,
        }
    }

    /// The variant whose FNA3D value is `n`, if there is one
    pub open spec fn decode(n: u32) -> Option<FillMode> {
        if n == 0 {
            Option::Some(FillMode::Solid)
        } else if n == 1 {
            Option::Some(FillMode::WireFrame)
        } else {
            Option::None
        }
    }

    /// The FNA3D value of this variant (the `as u32` conversion)
    pub fn to_u32(&self) -> (r: u32)
        ensures
            r == self.code(),
    {
        match self {
            FillMode::Solid => 0,
            FillMode::WireFrame => 1,
        }
    }

    /// Converts an FNA3D value into a variant; `None` when no variant has that value
    pub fn from_u32(n: u32) -> (r: Option<FillMode>)
        ensures
            r == FillMode::decode(n),
    {
        match n {
            0 => Option::Some(FillMode::Solid),
            1 => Option::Some(FillMode::WireFrame),
            _ => Option::None,
        }
    }

    /// Decoding the value of a variant gives the variant back.
    pub proof fn lemma_decode_code(self)
        ensures
            FillMode::decode(self.code()) == Option::Some(self),
    {
    }

    /// A value decodes to a variant only if it is that variant's value.
    pub proof fn lemma_code_decode(n: u32)
        ensures
            FillMode::decode(n) matches Option::Some(e) ==> e.code() == n,
            FillMode::decode(n) is None <==> (forall|e: FillMode| e.code() != n),
    {
        if FillMode::decode(n) is None {
            assert forall|e: FillMode| e.code() != n by {
                match e {
                    FillMode::Solid => {},
                    FillMode::WireFrame => {},
                }
            }
        } else {
            assert(FillMode::decode(n).unwrap().code() == n);
        }
    }
}

/// Addressing of texture coordinates outside of [0, 1] in a sampler state
#[derive(Debug, Clone, Copy, PartialEq, Eq, Hash, Structural)]
pub enum TextureAddressMode {
    Wrap,
    Clamp,
    Mirror,
}

impl TextureAddressMode {
    /// The FNA3D value of this variant
    pub open spec fn code(self) -> u32 {
        match self {
            TextureAddressMode::Wrap => 0,
            TextureAddressMode::Clamp => 1,
            TextureAddressMode::Mirror => 2,
        }
    }

    /// The variant whose FNA3D value is `n`, if there is one
    pub open spec fn decode(n: u32) -> Option<TextureAddressMode> {
        if n == 0 {
            Option::Some(TextureAddressMode::Wrap)
        } else if n == 1 {
            Option::Some(TextureAddressMode::Clamp)
        } else if n == 2 {
            Option::Some(TextureAddressMode::Mirror)
        } else {
            Option::None
        }
    }

    /// The FNA3D value of this variant (the `as u32` conversion)
    pub fn to_u32(&self) -> (r: u32)
        ensures
            r == self.code(),
    {
        match self {
            TextureAddressMode::Wrap => 0,
            TextureAddressMode::Clamp => 1,
            TextureAddressMode::Mirror => 2,
        }
    }

    /// Converts an FNA3D value into a variant; `None` when no variant has that value
    pub fn from_u32(n: u32) -> (r: Option<TextureAddressMode>)
        ensures
            r == TextureAddressMode::decode(n),
    {
        match n {
            0 => Option::Some(TextureAddressMode::Wrap),
            1 => Option::Some(TextureAddressMode::Clamp),
            2 => Option::Some(TextureAddressMode::Mirror),
            _ => Option::None,
        }
    }

    /// Decoding the value of a variant gives the variant back.
    pub proof fn lemma_decode_code(self)
        ensures
            TextureAddressMode::decode(self.code()) == Option::Some(self),
    {
    }

    /// A value decodes to a variant only if it is that variant's value.
    pub proof fn lemma_code_decode(n: u32)
        ensures
            TextureAddressMode::decode(n) matches Option::Some(e) ==> e.code() == n,
            TextureAddressMode::decode(n) is None <==> (forall|e: TextureAddressMode| e.code() != n),
    {
        if TextureAddressMode::decode(n) is None {
            assert forall|e: TextureAddressMode| e.code() != n by {
                match e {
                    TextureAddressMode::Wrap => {},
                    TextureAddressMode::Clamp => {},
                    TextureAddressMode::Mirror => {},
                }
            }
        } else {
            assert(TextureAddressMode::decode(n).unwrap().code() == n);
        }
    }
}

/// Texture filtering of a sampler state
#[derive(Debug, Clone, Copy, PartialEq, Eq, Hash, Structural)]
pub enum TextureFilter {
    Linear,
    Point,
    Anisotropic,
    LinearMipPoint,
    PointMipLinear,
    MinLinearMagPointMipLinear,
    MinLinearMagPointMipPoint,
    MinPointMagLinearMipLinear,
    MinPointMagLinearMipPoint,
}

impl TextureFilter {
    /// The FNA3D value of this variant
    pub open spec fn code(self) -> u32 {
        match self {
            TextureFilter::Linear => 0,
            TextureFilter::Point => 1,
            TextureFilter::Anisotropic => 2,
            TextureFilter::LinearMipPoint => 3,
            TextureFilter::PointMipLinear => 4,
            TextureFilter::MinLinearMagPointMipLinear => 5,
            TextureFilter::MinLinearMagPointMipPoint => 6,
            TextureFilter::MinPointMagLinearMipLinear => 7,
            TextureFilter::MinPointMagLinearMipPoint => 8,
        }
    }

    /// The variant whose FNA3D value is `n`, if there is one
    pub open spec fn decode(n: u32) -> Option<TextureFilter> {
        if n == 0 {
            Option::Some(TextureFilter::Linear)
        } else if n == 1 {
            Option::Some(TextureFilter::Point)
        } else if n == 2 {
            Option::Some(TextureFilter::Anisotropic)
        } else if n == 3 {
            Option::Some(TextureFilter::LinearMipPoint)
        } else if n == 4 {
            Option::Some(TextureFilter::PointMipLinear)
        } else if n == 5 {
            Option::Some(TextureFilter::MinLinearMagPointMipLinear)
        } else if n == 6 {
            Option::Some(TextureFilter::MinLinearMagPointMipPoint)
        } else if n == 7 {
            Option::Some(TextureFilter::MinPointMagLinearMipLinear)
        } else if n == 8 {
            Option::Some(TextureFilter::MinPointMagLinearMipPoint)
        } else {
            Option::None
        }
    }

    /// The FNA3D value of this variant (the `as u32` conversion)
    pub fn to_u32(&self) -> (r: u32)
        ensures
            r == self.code(),
    {
        match self {
            TextureFilter::Linear => 0,
            TextureFilter::Point => 1,
            TextureFilter::Anisotropic => 2,
            TextureFilter::LinearMipPoint => 3,
            TextureFilter::PointMipLinear => 4,
            TextureFilter::MinLinearMagPointMipLinear => 5,
            TextureFilter::MinLinearMagPointMipPoint => 6,
            TextureFilter::MinPointMagLinearMipLinear => 7,
            TextureFilter::MinPointMagLinearMipPoint => 8,
        }
    }

    /// Converts an FNA3D value into a variant; `None` when no variant has that value
    pub fn from_u32(n: u32) -> (r: Option<TextureFilter>)
        ensures
            r == TextureFilter::decode(n),
    {
        match n {
            0 => Option::Some(TextureFilter::Linear),
            1 => Option::Some(TextureFilter::Point),
            2 => Option::Some(TextureFilter::Anisotropic),
            3 => Option::Some(TextureFilter::LinearMipPoint),
            4 => Option::Some(TextureFilter::PointMipLinear),
            5 => Option::Some(TextureFilter::MinLinearMagPointMipLinear),
            6 => Option::Some(TextureFilter::MinLinearMagPointMipPoint),
            7 => Option::Some(TextureFilter::MinPointMagLinearMipLinear),
            8 => Option::Some(TextureFilter::MinPointMagLinearMipPoint),
            _ => Option::None,
        }
    }

    /// Decoding the value of a variant gives the variant back.
    pub proof fn lemma_decode_code(self)
        ensures
            TextureFilter::decode(self.code()) == Option::Some(self),
    {
    }

    /// A value decodes to a variant only if it is that variant's value.
    pub proof fn lemma_code_decode(n: u32)
        ensures
            TextureFilter::decode(n) matches Option::Some(e) ==> e.code() == n,
            TextureFilter::decode(n) is None <==> (forall|e: TextureFilter| e.code() != n),
    {
        if TextureFilter::decode(n) is None {
            assert forall|e: TextureFilter| e.code() != n by {
                match e {
                    TextureFilter::Linear => {},
                    TextureFilter::Point => {},
                    TextureFilter::Anisotropic => {},
                    TextureFilter::LinearMipPoint => {},
                    TextureFilter::PointMipLinear => {},
                    TextureFilter::MinLinearMagPointMipLinear => {},
                    TextureFilter::MinLinearMagPointMipPoint => {},
                    TextureFilter::MinPointMagLinearMipLinear => {},
                    TextureFilter::MinPointMagLinearMipPoint => {},
                }
            }
        } else {
            assert(TextureFilter::decode(n).unwrap().code() == n);
        }
    }
}

/// Data type of a vertex element
#[derive(Debug, Clone, Copy, PartialEq, Eq, Hash, Structural)]
pub enum VertexElementFormat {
    Single,
    Vector2,
    Vector3,
    Vector4,
    Color,
    Byte4,
    Short2,
    Short4,
    NormalizedShort2,
    NormalizedShort4,
    HalfVector2,
    HalfVector4,
}

impl VertexElementFormat {
    /// The FNA3D value of this variant
    pub open spec fn code(self) -> u32 {
        match self {
            VertexElementFormat::Single => 0,
            VertexElementFormat::Vector2 => 1,
            VertexElementFormat::Vector3 => 2,
            VertexElementFormat::Vector4 => 3,
            VertexElementFormat::Color => 4,
            VertexElementFormat::Byte4 => 5,
            VertexElementFormat::Short2 => 6,
            VertexElementFormat::Short4 => 7,
            VertexElementFormat::NormalizedShort2 => 8,
            VertexElementFormat::NormalizedShort4 => 9,
            VertexElementFormat::HalfVector2 => 10,
            VertexElementFormat::HalfVector4 => 11,
        }
    }

    /// The variant whose FNA3D value is `n`, if there is one
    pub open spec fn decode(n: u32) -> Option<VertexElementFormat> {
        if n == 0 {
            Option::Some(VertexElementFormat::Single)
        } else if n == 1 {
            Option::Some(VertexElementFormat::Vector2)
        } else if n == 2 {
            Option::Some(VertexElementFormat::Vector3)
        } else if n == 3 {
            Option::Some(VertexElementFormat::Vector4)
        } else if n == 4 {
            Option::Some(VertexElementFormat::Color)
        } else if n == 5 {
            Option::Some(VertexElementFormat::Byte4)
        } else if n == 6 {
            Option::Some(VertexElementFormat::Short2)
        } else if n == 7 {
            Option::Some(VertexElementFormat::Short4)
        } else if n == 8 {
            Option::Some(VertexElementFormat::NormalizedShort2)
        } else if n == 9 {
            Option::Some(VertexElementFormat::NormalizedShort4)
        } else if n == 10 {
            Option::Some(VertexElementFormat::HalfVector2)
        } else if n == 11 {
            Option::Some(VertexElementFormat::HalfVector4)
        } else {
            Option::None
        }
    }

    /// The FNA3D value of this variant (the `as u32` conversion)
    pub fn to_u32(&self) -> (r: u32)
        ensures
            r == self.code(),
    {
        match self {
            VertexElementFormat::Single => 0,
            VertexElementFormat::Vector2 => 1,
            VertexElementFormat::Vector3 => 2,
            VertexElementFormat::Vector4 => 3,
            VertexElementFormat::Color => 4,
            VertexElementFormat::Byte4 => 5,
            VertexElementFormat::Short2 => 6,
            VertexElementFormat::Short4 => 7,
            VertexElementFormat::NormalizedShort2 => 8,
            VertexElementFormat::NormalizedShort4 => 9,
            VertexElementFormat::HalfVector2 => 10,
            VertexElementFormat::HalfVector4 => 11,
        }
    }

    /// Converts an FNA3D value into a variant; `None` when no variant has that value
    pub fn from_u32(n: u32) -> (r: Option<VertexElementFormat>)
        ensures
            r == VertexElementFormat::decode(n),
    {
        match n {
            0 => Option::Some(VertexElementFormat::Single),
            1 => Option::Some(VertexElementFormat::Vector2),
            2 => Option::Some(VertexElementFormat::Vector3),
            3 => Option::Some(VertexElementFormat::Vector4),
            4 => Option::Some(VertexElementFormat::Color),
            5 => Option::Some(VertexElementFormat::Byte4),
            6 => Option::Some(VertexElementFormat::Short2),
            7 => Option::Some(VertexElementFormat::Short4),
            8 => Option::Some(VertexElementFormat::NormalizedShort2),
            9 => Option::Some(VertexElementFormat::NormalizedShort4),
            10 => Option::Some(VertexElementFormat::HalfVector2),
            11 => Option::Some(VertexElementFormat::HalfVector4),
            _ => Option::None,
        }
    }

    /// Decoding the value of a variant gives the variant back.
    pub proof fn lemma_decode_code(self)
        ensures
            VertexElementFormat::decode(self.code()) == Option::Some(self),
    {
    }

    /// A value decodes to a variant only if it is that variant's value.
    pub proof fn lemma_code_decode(n: u32)
        ensures
            VertexElementFormat::decode(n) matches Option::Some(e) ==> e.code() == n,
            VertexElementFormat::decode(n) is None <==> (forall|e: VertexElementFormat| e.code() != n),
    {
        if VertexElementFormat::decode(n) is None {
            assert forall|e: VertexElementFormat| e.code() != n by {
                match e {
                    VertexElementFormat::Single => {},
                    VertexElementFormat::Vector2 => {},
                    VertexElementFormat::Vector3 => {},
                    VertexElementFormat::Vector4 => {},
                    VertexElementFormat::Color => {},
                    VertexElementFormat::Byte4 => {},
                    VertexElementFormat::Short2 => {},
                    VertexElementFormat::Short4 => {},
                    VertexElementFormat::NormalizedShort2 => {},
                    VertexElementFormat::NormalizedShort4 => {},
                    VertexElementFormat::HalfVector2 => {},
                    VertexElementFormat::HalfVector4 => {},
                }
            }
        } else {
            assert(VertexElementFormat::decode(n).unwrap().code() == n);
        }
    }
}

/// Usage of a vertex element
#[derive(Debug, Clone, Copy, PartialEq, Eq, Hash, Structural)]
pub enum VertexElementUsage {
    Position,
    Color,
    TextureCoordinate,
    Nornal,
    BinNormal,
    Tangent,
    BlendIndices,
    BendWeight,
    Depth,
    Fog,
    PointSize,
    Sample,
    TesselateFactor,
}

impl VertexElementUsage {
    /// The FNA3D value of this variant
    pub open spec fn code(self) -> u32 {
        match self {
            VertexElementUsage::Position => 0,
            VertexElementUsage::Color => 1,
            VertexElementUsage::TextureCoordinate => 2,
            VertexElementUsage::Nornal => 3,
            VertexElementUsage::BinNormal => 4,
            VertexElementUsage::Tangent => 5,
            VertexElementUsage::BlendIndices => 6,
            VertexElementUsage::BendWeight => 7,
            VertexElementUsage::Depth => 8,
            VertexElementUsage::Fog => 9,
            VertexElementUsage::PointSize => 10,
            VertexElementUsage::Sample => 11,
            VertexElementUsage::TesselateFactor => 12,
        }
    }

    /// The variant whose FNA3D value is `n`, if there is one
    pub open spec fn decode(n: u32) -> Option<VertexElementUsage> {
        if n == 0 {
            Option::Some(VertexElementUsage::Position)
        } else if n == 1 {
            Option::Some(VertexElementUsage::Color)
        } else if n == 2 {
            Option::Some(VertexElementUsage::TextureCoordinate)
        } else if n == 3 {
            Option::Some(VertexElementUsage::Nornal)
        } else if n == 4 {
            Option::Some(VertexElementUsage::BinNormal)
        } else if n == 5 {
            Option::Some(VertexElementUsage::Tangent)
        } else if n == 6 {
            Option::Some(VertexElementUsage::BlendIndices)
        } else if n == 7 {
            Option::Some(VertexElementUsage::BendWeight)
        } else if n == 8 {
            Option::Some(VertexElementUsage::Depth)
        } else if n == 9 {
            Option::Some(VertexElementUsage::Fog)
        } else if n == 10 {
            Option::Some(VertexElementUsage::PointSize)
        } else if n == 11 {
            Option::Some(VertexElementUsage::Sample)
        } else if n == 12 {
            Option::Some(VertexElementUsage::TesselateFactor)
        } else {
            Option::None
        }
    }

    /// The FNA3D value of this variant (the `as u32` conversion)
    pub fn to_u32(&self) -> (r: u32)
        ensures
            r == self.code(),
    {
        match self {
            VertexElementUsage::Position => 0,
            VertexElementUsage::Color => 1,
            VertexElementUsage::TextureCoordinate => 2,
            VertexElementUsage::Nornal => 3,
            VertexElementUsage::BinNormal => 4,
            VertexElementUsage::Tangent => 5,
            VertexElementUsage::BlendIndices => 6,
            VertexElementUsage::BendWeight => 7,
            VertexElementUsage::Depth => 8,
            VertexElementUsage::Fog => 9,
            VertexElementUsage::PointSize => 10,
            VertexElementUsage::Sample => 11,
            VertexElementUsage::TesselateFactor => 12,
        }
    }

    /// Converts an FNA3D value into a variant; `None` when no variant has that value
    pub fn from_u32(n: u32) -> (r: Option<VertexElementUsage>)
        ensures
            r == VertexElementUsage::decode(n),
    {
        match n {
            0 => Option::Some(VertexElementUsage::Position),
            1 => Option::Some(VertexElementUsage::Color),
            2 => Option::Some(VertexElementUsage::TextureCoordinate),
            3 => Option::Some(VertexElementUsage::Nornal),
            4 => Option::Some(VertexElementUsage::BinNormal),
            5 => Option::Some(VertexElementUsage::Tangent),
            6 => Option::Some(VertexElementUsage::BlendIndices),
            7 => Option::Some(VertexElementUsage::BendWeight),
            8 => Option::Some(VertexElementUsage::Depth),
            9 => Option::Some(VertexElementUsage::Fog),
            10 => Option::Some(VertexElementUsage::PointSize),
            11 => Option::Some(VertexElementUsage::Sample),
            12 => Option::Some(VertexElementUsage::TesselateFactor),
            _ => Option::None,
        }
    }

    /// Decoding the value of a variant gives the variant back.
    pub proof fn lemma_decode_code(self)
        ensures
            VertexElementUsage::decode(self.code()) == Option::Some(self),
    {
    }

    /// A value decodes to a variant only if it is that variant's value.
    pub proof fn lemma_code_decode(n: u32)
        ensures
            VertexElementUsage::decode(n) matches Option::Some(e) ==> e.code() == n,
            VertexElementUsage::decode(n) is None <==> (forall|e: VertexElementUsage| e.code() != n),
    {
        if VertexElementUsage::decode(n) is None {
            assert forall|e: VertexElementUsage| e.code() != n by {
                match e {
                    VertexElementUsage::Position => {},
                    VertexElementUsage::Color => {},
                    VertexElementUsage::TextureCoordinate => {},
                    VertexElementUsage::Nornal => {},
                    VertexElementUsage::BinNormal => {},
                    VertexElementUsage::Tangent => {},
                    VertexElementUsage::BlendIndices => {},
                    VertexElementUsage::BendWeight => {},
                    VertexElementUsage::Depth => {},
                    VertexElementUsage::Fog => {},
                    VertexElementUsage::PointSize => {},
                    VertexElementUsage::Sample => {},
                    VertexElementUsage::TesselateFactor => {},
                }
            }
        } else {
            assert(VertexElementUsage::decode(n).unwrap().code() == n);
        }
    }
}

impl PresentInterval {
    /// The FNA3D value of every variant, as `FNA3D.h` numbers them, and the variant each of
    /// those values decodes to
    pub proof fn lemma_values()
        ensures
            PresentInterval::Default.code() == 0,
            PresentInterval::One.code() == 1,
            PresentInterval::Two.code() == 2,
            PresentInterval::Immediate.code() == 3,
            PresentInterval::decode(0) == Some(PresentInterval::Default),
            PresentInterval::decode(1) == Some(PresentInterval::One),
            PresentInterval::decode(2) == Some(PresentInterval::Two),
            PresentInterval::decode(3) == Some(PresentInterval::Immediate),
    {
    }
}

impl DisplayOrientation {
    /// The FNA3D value of every variant, as `FNA3D.h` numbers them, and the variant each of
    /// those values decodes to
    pub proof fn lemma_values()
        ensures
            DisplayOrientation::Defaut.code() == 0,
            DisplayOrientation::LandscapeLeft.code() == 1,
            DisplayOrientation::LandscapeRight.code() == 2,
            DisplayOrientation::Portrait.code() == 3,
            DisplayOrientation::decode(0) == Some(DisplayOrientation::Defaut),
            DisplayOrientation::decode(1) == Some(DisplayOrientation::LandscapeLeft),
            DisplayOrientation::decode(2) == Some(DisplayOrientation::LandscapeRight),
            DisplayOrientation::decode(3) == Some(DisplayOrientation::Portrait),
    {
    }
}

impl RenderTargetUsage {
    /// The FNA3D value of every variant, as `FNA3D.h` numbers them, and the variant each of
    /// those values decodes to
    pub proof fn lemma_values()
        ensures
            RenderTargetUsage::DiscardContents.code() == 0,
            RenderTargetUsage::PreserveContents.code() == 1,
            RenderTargetUsage::PlatformContents.code() == 2,
            RenderTargetUsage::decode(0) == Some(RenderTargetUsage::DiscardContents),
            RenderTargetUsage::decode(1) == Some(RenderTargetUsage::PreserveContents),
            RenderTargetUsage::decode(2) == Some(RenderTargetUsage::PlatformContents),
    {
    }
}

impl PrimitiveType {
    /// The FNA3D value of every variant, as `FNA3D.h` numbers them, and the variant each of
    /// those values decodes to
    pub proof fn lemma_values()
        ensures
            PrimitiveType::TriangleList.code() == 0,
            PrimitiveType::TriangleStrip.code() == 1,
            PrimitiveType::LineList.code() == 2,
            PrimitiveType::LineStrip.code() == 3,
            PrimitiveType::PointListExt.code() == 4,
            PrimitiveType::decode(0) == Some(PrimitiveType::TriangleList),
            PrimitiveType::decode(1) == Some(PrimitiveType::TriangleStrip),
            PrimitiveType::decode(2) == Some(PrimitiveType::LineList),
            PrimitiveType::decode(3) == Some(PrimitiveType::LineStrip),
            PrimitiveType::decode(4) == Some(PrimitiveType::PointListExt),
    {
    }
}

impl IndexElementSize {
    /// The FNA3D value of every variant, as `FNA3D.h` numbers them, and the variant each of
    /// those values decodes to
    pub proof fn lemma_values()
        ensures
            IndexElementSize::Bits16.code() == 0,
            IndexElementSize::Bits32.code() == 1,
            IndexElementSize::decode(0) == Some(IndexElementSize::Bits16),
            IndexElementSize::decode(1) == Some(IndexElementSize::Bits32),
    {
    }
}

impl SurfaceFormat {
    /// The FNA3D value of every variant, as `FNA3D.h` numbers them, and the variant each of
    /// those values decodes to
    pub proof fn lemma_values()
        ensures
            SurfaceFormat::Color.code() == 0,
            SurfaceFormat::Bgr565.code() == 1,
            SurfaceFormat::Bgra5551.code() == 2,
            SurfaceFormat::Bgra4444.code() == 3,
            SurfaceFormat::Dxt1.code() == 4,
            SurfaceFormat::Dxt3.code() == 5,
            SurfaceFormat::Dxt5.code() == 6,
            SurfaceFormat::NormalizedByte2.code() == 7,
            SurfaceFormat::NormalizedByte4.code() == 8,
            SurfaceFormat::Rgba1010102.code() == 9,
            SurfaceFormat::Rg32.code() == 10,
            SurfaceFormat::Rgba64.code() == 11,
            SurfaceFormat::Alpha8.code() == 12,
            SurfaceFormat::Single.code() == 13,
            SurfaceFormat::Vector2.code() == 14,
            SurfaceFormat::Vector4.code() == 15,
            SurfaceFormat::HalfSingle.code() == 16,
            SurfaceFormat::HalfVector2.code() == 17,
            SurfaceFormat::HalfVector4.code() == 18,
            SurfaceFormat::HdrBlendable.code() == 19,
            SurfaceFormat::ColorBgraExt.code() == 20,
            SurfaceFormat::decode(0) == Some(SurfaceFormat::Color),
            SurfaceFormat::decode(1) == Some(SurfaceFormat::Bgr565),
            SurfaceFormat::decode(2) == Some(SurfaceFormat::Bgra5551),
            SurfaceFormat::decode(3) == Some(SurfaceFormat::Bgra4444),
            SurfaceFormat::decode(4) == Some(SurfaceFormat::Dxt1),
            SurfaceFormat::decode(5) == Some(SurfaceFormat::Dxt3),
            SurfaceFormat::decode(6) == Some(SurfaceFormat::Dxt5),
            SurfaceFormat::decode(7) == Some(SurfaceFormat::NormalizedByte2),
            SurfaceFormat::decode(8) == Some(SurfaceFormat::NormalizedByte4),
            SurfaceFormat::decode(9) == Some(SurfaceFormat::Rgba1010102),
            SurfaceFormat::decode(10) == Some(SurfaceFormat::Rg32),
            SurfaceFormat::decode(11) == Some(SurfaceFormat::Rgba64),
            SurfaceFormat::decode(12) == Some(SurfaceFormat::Alpha8),
            SurfaceFormat::decode(13) == Some(SurfaceFormat::Single),
            SurfaceFormat::decode(14) == Some(SurfaceFormat::Vector2),
            SurfaceFormat::decode(15) == Some(SurfaceFormat::Vector4),
            SurfaceFormat::decode(16) == Some(SurfaceFormat::HalfSingle),
            SurfaceFormat::decode(17) == Some(SurfaceFormat::HalfVector2),
            SurfaceFormat::decode(18) == Some(SurfaceFormat::HalfVector4),
            SurfaceFormat::decode(19) == Some(SurfaceFormat::HdrBlendable),
            SurfaceFormat::decode(20) == Some(SurfaceFormat::ColorBgraExt),
    {
    }
}

impl DepthFormat {
    /// The FNA3D value of every variant, as `FNA3D.h` numbers them, and the variant each of
    /// those values decodes to
    pub proof fn lemma_values()
        ensures
            DepthFormat::NoDepth.code() == 0,
            DepthFormat::D16.code() == 1,
            DepthFormat::D24.code() == 2,
            DepthFormat::D24S8.code() == 3,
            DepthFormat::decode(0) == Some(DepthFormat::NoDepth),
            DepthFormat::decode(1) == Some(DepthFormat::D16),
            DepthFormat::decode(2) == Some(DepthFormat::D24),
            DepthFormat::decode(3) == Some(DepthFormat::D24S8),
    {
    }
}

impl CubeMapFace {
    /// The FNA3D value of every variant, as `FNA3D.h` numbers them, and the variant each of
    /// those values decodes to
    pub proof fn lemma_values()
        ensures
            CubeMapFace::PositiveX.code() == 0,
            CubeMapFace::NegativeX.code() == 1,
            CubeMapFace::PositiveY.code() == 2,
            CubeMapFace::NegativeY.code() == 3,
            CubeMapFace::PositiveZ.code() == 4,
            CubeMapFace::NegativeZ.code() == 5,
            CubeMapFace::decode(0) == Some(CubeMapFace::PositiveX),
            CubeMapFace::decode(1) == Some(CubeMapFace::NegativeX),
            CubeMapFace::decode(2) == Some(CubeMapFace::PositiveY),
            CubeMapFace::decode(3) == Some(CubeMapFace::NegativeY),
            CubeMapFace::decode(4) == Some(CubeMapFace::PositiveZ),
            CubeMapFace::decode(5) == Some(CubeMapFace::NegativeZ),
    {
    }
}

impl BufferUsage {
    /// The FNA3D value of every variant, as `FNA3D.h` numbers them, and the variant each of
    /// those values decodes to
    pub proof fn lemma_values()
        ensures
            BufferUsage::NoUsage.code() == 0,
            BufferUsage::WriteOnly.code() == 1,
            BufferUsage::decode(0) == Some(BufferUsage::NoUsage),
            BufferUsage::decode(1) == Some(BufferUsage::WriteOnly),
    {
    }
}

impl SetDataOptions {
    /// The FNA3D value of every variant, as `FNA3D.h` numbers them, and the variant each of
    /// those values decodes to
    pub proof fn lemma_values()
        ensures
            SetDataOptions::NoOptions.code() == 0,
            SetDataOptions::Discard.code() == 1,
            SetDataOptions::NoOverwrite.code() == 2,
            SetDataOptions::decode(0) == Some(SetDataOptions::NoOptions),
            SetDataOptions::decode(1) == Some(SetDataOptions::Discard),
            SetDataOptions::decode(2) == Some(SetDataOptions::NoOverwrite),
    {
    }
}

impl Blend {
    /// The FNA3D value of every variant, as `FNA3D.h` numbers them, and the variant each of
    /// those values decodes to
    pub proof fn lemma_values()
        ensures
            Blend::One.code() == 0,
            Blend::Zero.code() == 1,
            Blend::SourceColor.code() == 2,
            Blend::InverseSourceColor.code() == 3,
            Blend::SourceAlpha.code() == 4,
            Blend::InverseSourceAlpha.code() == 5,
            Blend::DestinationColor.code() == 6,
            Blend::InveseDestinationColor.code() == 7,
            Blend::DestinaitonAlpha.code() == 8,
            Blend::InverseDetinationAlpha.code() == 9,
            Blend::BlendFactor.code() == 10,
            Blend::InverseBlendFactor.code() == 11,
            Blend::SourceAlphaSaturation.code() == 12,
            Blend::decode(0) == Some(Blend::One),
            Blend::decode(1) == Some(Blend::Zero),
            Blend::decode(2) == Some(Blend::SourceColor),
            Blend::decode(3) == Some(Blend::InverseSourceColor),
            Blend::decode(4) == Some(Blend::SourceAlpha),
            Blend::decode(5) == Some(Blend::InverseSourceAlpha),
            Blend::decode(6) == Some(Blend::DestinationColor),
            Blend::decode(7) == Some(Blend::InveseDestinationColor),
            Blend::decode(8) == Some(Blend::DestinaitonAlpha),
            Blend::decode(9) == Some(Blend::InverseDetinationAlpha),
            Blend::decode(10) == Some(Blend::BlendFactor),
            Blend::decode(11) == Some(Blend::InverseBlendFactor),
            Blend::decode(12) == Some(Blend::SourceAlphaSaturation),
    {
    }
}

impl BlendFunction {
    /// The FNA3D value of every variant, as `FNA3D.h` numbers them, and the variant each of
    /// those values decodes to
    pub proof fn lemma_values()
        ensures
            BlendFunction::Add.code() == 0,
            BlendFunction::Substract.code() == 1,
            BlendFunction::ReverseSubstract.code() == 2,
            BlendFunction::Max.code() == 3,
            BlendFunction::Min.code() == 4,
            BlendFunction::decode(0) == Some(BlendFunction::Add),
            BlendFunction::decode(1) == Some(BlendFunction::Substract),
            BlendFunction::decode(2) == Some(BlendFunction::ReverseSubstract),
            BlendFunction::decode(3) == Some(BlendFunction::Max),
            BlendFunction::decode(4) == Some(BlendFunction::Min),
    {
    }
}

impl ColorWriteChannels {
    /// The FNA3D value of every variant, as `FNA3D.h` numbers them, and the variant each of
    /// those values decodes to
    pub proof fn lemma_values()
        ensures
            ColorWriteChannels::NoChannels.code() == 0,
            ColorWriteChannels::Red.code() == 1,
            ColorWriteChannels::Green.code() == 2,
            ColorWriteChannels::Blue.code() == 4,
            ColorWriteChannels::Alpha.code() == 8,
            ColorWriteChannels::All.code() == 15,
            ColorWriteChannels::decode(0) == Some(ColorWriteChannels::NoChannels),
            ColorWriteChannels::decode(1) == Some(ColorWriteChannels::Red),
            ColorWriteChannels::decode(2) == Some(ColorWriteChannels::Green),
            ColorWriteChannels::decode(4) == Some(ColorWriteChannels::Blue),
            ColorWriteChannels::decode(8) == Some(ColorWriteChannels::Alpha),
            ColorWriteChannels::decode(15) == Some(ColorWriteChannels::All),
    {
    }
}

impl StencilOperation {
    /// The FNA3D value of every variant, as `FNA3D.h` numbers them, and the variant each of
    /// those values decodes to
    pub proof fn lemma_values()
        ensures
            StencilOperation::Keep.code() == 0,
            StencilOperation::Zero.code() == 1,
            StencilOperation::Replace.code() == 2,
            StencilOperation::Increment.code() == 3,
            StencilOperation::Decrement.code() == 4,
            StencilOperation::IncrementSaturation.code() == 5,
            StencilOperation::DecrementSaturation.code() == 6,
            StencilOperation::Invert.code() == 7,
            StencilOperation::decode(0) == Some(StencilOperation::Keep),
            StencilOperation::decode(1) == Some(StencilOperation::Zero),
            StencilOperation::decode(2) == Some(StencilOperation::Replace),
            StencilOperation::decode(3) == Some(StencilOperation::Increment),
            StencilOperation::decode(4) == Some(StencilOperation::Decrement),
            StencilOperation::decode(5) == Some(StencilOperation::IncrementSaturation),
            StencilOperation::decode(6) == Some(StencilOperation::DecrementSaturation),
            StencilOperation::decode(7) == Some(StencilOperation::Invert),
    {
    }
}

impl CompareFunction {
    /// The FNA3D value of every variant, as `FNA3D.h` numbers them, and the variant each of
    /// those values decodes to
    pub proof fn lemma_values()
        ensures
            CompareFunction::Always.code() == 0,
            CompareFunction::Never.code() == 1,
            CompareFunction::Less.code() == 2,
            CompareFunction::LessEqual.code() == 3,
            CompareFunction::Equal.code() == 4,
            CompareFunction::GreaterEqual.code() == 5,
            CompareFunction::Greater.code() == 6,
            CompareFunction::NonEqual.code() == 7,
            CompareFunction::decode(0) == Some(CompareFunction::Always),
            CompareFunction::decode(1) == Some(CompareFunction::Never),
            CompareFunction::decode(2) == Some(CompareFunction::Less),
            CompareFunction::decode(3) == Some(CompareFunction::LessEqual),
            CompareFunction::decode(4) == Some(CompareFunction::Equal),
            CompareFunction::decode(5) == Some(CompareFunction::GreaterEqual),
            CompareFunction::decode(6) == Some(CompareFunction::Greater),
            CompareFunction::decode(7) == Some(CompareFunction::NonEqual),
    {
    }
}

impl CullMode {
    /// The FNA3D value of every variant, as `FNA3D.h` numbers them, and the variant each of
    /// those values decodes to
    pub proof fn lemma_values()
        ensures
            CullMode::NoCulling.code() == 0,
            CullMode::CullClockWiseFace.code() == 1,
            CullMode::CullCounterClockwiseFace.code() == 2,
            CullMode::decode(0) == Some(CullMode::NoCulling),
            CullMode::decode(1) == Some(CullMode::CullClockWiseFace),
            CullMode::decode(2) == Some(CullMode::CullCounterClockwiseFace),
    {
    }
}

impl FillMode {
    /// The FNA3D value of every variant, as `FNA3D.h` numbers them, and the variant each of
    /// those values decodes to
    pub proof fn lemma_values()
        ensures
            FillMode::Solid.code() == 0,
            FillMode::WireFrame.code() == 1,
            FillMode::decode(0) == Some(FillMode::Solid),
            FillMode::decode(1) == Some(FillMode::WireFrame),
    {
    }
}

impl TextureAddressMode {
    /// The FNA3D value of every variant, as `FNA3D.h` numbers them, and the variant each of
    /// those values decodes to
    pub proof fn lemma_values()
        ensures
            TextureAddressMode::Wrap.code() == 0,
            TextureAddressMode::Clamp.code() == 1,
            TextureAddressMode::Mirror.code() == 2,
            TextureAddressMode::decode(0) == Some(TextureAddressMode::Wrap),
            TextureAddressMode::decode(1) == Some(TextureAddressMode::Clamp),
            TextureAddressMode::decode(2) == Some(TextureAddressMode::Mirror),
    {
    }
}

impl TextureFilter {
    /// The FNA3D value of every variant, as `FNA3D.h` numbers them, and the variant each of
    /// those values decodes to
    pub proof fn lemma_values()
        ensures
            TextureFilter::Linear.code() == 0,
            TextureFilter::Point.code() == 1,
            TextureFilter::Anisotropic.code() == 2,
            TextureFilter::LinearMipPoint.code() == 3,
            TextureFilter::PointMipLinear.code() == 4,
            TextureFilter::MinLinearMagPointMipLinear.code() == 5,
            TextureFilter::MinLinearMagPointMipPoint.code() == 6,
            TextureFilter::MinPointMagLinearMipLinear.code() == 7,
            TextureFilter::MinPointMagLinearMipPoint.code() == 8,
            TextureFilter::decode(0) == Some(TextureFilter::Linear),
            TextureFilter::decode(1) == Some(TextureFilter::Point),
            TextureFilter::decode(2) == Some(TextureFilter::Anisotropic),
            TextureFilter::decode(3) == Some(TextureFilter::LinearMipPoint),
            TextureFilter::decode(4) == Some(TextureFilter::PointMipLinear),
            TextureFilter::decode(5) == Some(TextureFilter::MinLinearMagPointMipLinear),
            TextureFilter::decode(6) == Some(TextureFilter::MinLinearMagPointMipPoint),
            TextureFilter::decode(7) == Some(TextureFilter::MinPointMagLinearMipLinear),
            TextureFilter::decode(8) == Some(TextureFilter::MinPointMagLinearMipPoint),
    {
    }
}

impl VertexElementFormat {
    /// The FNA3D value of every variant, as `FNA3D.h` numbers them, and the variant each of
    /// those values decodes to
    pub proof fn lemma_values()
        ensures
            VertexElementFormat::Single.code() == 0,
            VertexElementFormat::Vector2.code() == 1,
            VertexElementFormat::Vector3.code() == 2,
            VertexElementFormat::Vector4.code() == 3,
            VertexElementFormat::Color.code() == 4,
            VertexElementFormat::Byte4.code() == 5,
            VertexElementFormat::Short2.code() == 6,
            VertexElementFormat::Short4.code() == 7,
            VertexElementFormat::NormalizedShort2.code() == 8,
            VertexElementFormat::NormalizedShort4.code() == 9,
            VertexElementFormat::HalfVector2.code() == 10,
            VertexElementFormat::HalfVector4.code() == 11,
            VertexElementFormat::decode(0) == Some(VertexElementFormat::Single),
            VertexElementFormat::decode(1) == Some(VertexElementFormat::Vector2),
            VertexElementFormat::decode(2) == Some(VertexElementFormat::Vector3),
            VertexElementFormat::decode(3) == Some(VertexElementFormat::Vector4),
            VertexElementFormat::decode(4) == Some(VertexElementFormat::Color),
            VertexElementFormat::decode(5) == Some(VertexElementFormat::Byte4),
            VertexElementFormat::decode(6) == Some(VertexElementFormat::Short2),
            VertexElementFormat::decode(7) == Some(VertexElementFormat::Short4),
            VertexElementFormat::decode(8) == Some(VertexElementFormat::NormalizedShort2),
            VertexElementFormat::decode(9) == Some(VertexElementFormat::NormalizedShort4),
            VertexElementFormat::decode(10) == Some(VertexElementFormat::HalfVector2),
            VertexElementFormat::decode(11) == Some(VertexElementFormat::HalfVector4),
    {
    }
}

impl VertexElementUsage {
    /// The FNA3D value of every variant, as `FNA3D.h` numbers them, and the variant each of
    /// those values decodes to
    pub proof fn lemma_values()
        ensures
            VertexElementUsage::Position.code() == 0,
            VertexElementUsage::Color.code() == 1,
            VertexElementUsage::TextureCoordinate.code() == 2,
            VertexElementUsage::Nornal.code() == 3,
            VertexElementUsage::BinNormal.code() == 4,
            VertexElementUsage::Tangent.code() == 5,
            VertexElementUsage::BlendIndices.code() == 6,
            VertexElementUsage::BendWeight.code() == 7,
            VertexElementUsage::Depth.code() == 8,
            VertexElementUsage::Fog.code() == 9,
            VertexElementUsage::PointSize.code() == 10,
            VertexElementUsage::Sample.code() == 11,
            VertexElementUsage::TesselateFactor.code() == 12,
            VertexElementUsage::decode(0) == Some(VertexElementUsage::Position),
            VertexElementUsage::decode(1) == Some(VertexElementUsage::Color),
            VertexElementUsage::decode(2) == Some(VertexElementUsage::TextureCoordinate),
            VertexElementUsage::decode(3) == Some(VertexElementUsage::Nornal),
            VertexElementUsage::decode(4) == Some(VertexElementUsage::BinNormal),
            VertexElementUsage::decode(5) == Some(VertexElementUsage::Tangent),
            VertexElementUsage::decode(6) == Some(VertexElementUsage::BlendIndices),
            VertexElementUsage::decode(7) == Some(VertexElementUsage::BendWeight),
            VertexElementUsage::decode(8) == Some(VertexElementUsage::Depth),
            VertexElementUsage::decode(9) == Some(VertexElementUsage::Fog),
            VertexElementUsage::decode(10) == Some(VertexElementUsage::PointSize),
            VertexElementUsage::decode(11) == Some(VertexElementUsage::Sample),
            VertexElementUsage::decode(12) == Some(VertexElementUsage::TesselateFactor),
    {
    }
}

/// Byte size of one texel of a surface format (one 4x4 block for the DXT formats)
pub open spec fn surface_format_size(f: SurfaceFormat) -> usize {
    match f {
        SurfaceFormat::Dxt1 => 8,
        SurfaceFormat::Dxt3 | SurfaceFormat::Dxt5 => 16,
        SurfaceFormat::Alpha8 => 1,
        SurfaceFormat::Bgr565
        | SurfaceFormat::Bgra4444
        | SurfaceFormat::Bgra5551
        | SurfaceFormat::HalfSingle
        | SurfaceFormat::NormalizedByte2 => 2,
        SurfaceFormat::Color
        | SurfaceFormat::Single
        | SurfaceFormat::Rg32
        | SurfaceFormat::HalfVector2
        | SurfaceFormat::NormalizedByte4
        | SurfaceFormat::Rgba1010102
        | SurfaceFormat::ColorBgraExt => 4,
        SurfaceFormat::HalfVector4 | SurfaceFormat::Rgba64 | SurfaceFormat::Vector2 => 8,
        SurfaceFormat::Vector4 => 16,
        SurfaceFormat::HdrBlendable => 0,
    }
}

/// The byte size of a texel of each surface format: the bits of its channels over eight (8-bit
/// alpha 1; 16-bit packings and half floats 2; 32-bit packings, one float or two half floats 4;
/// two floats, four half floats or four 16-bit channels 8; four floats 16), and for the
/// block-compressed formats the size of one 4x4 block (DXT1 8, DXT3 and DXT5 16). Only
/// `HdrBlendable` has no size.
pub proof fn lemma_surface_format_sizes(f: SurfaceFormat)
    ensures
        f == SurfaceFormat::Color ==> surface_format_size(f) == 4,
        f == SurfaceFormat::Bgr565 ==> surface_format_size(f) == 2,
        f == SurfaceFormat::Bgra5551 ==> surface_format_size(f) == 2,
        f == SurfaceFormat::Bgra4444 ==> surface_format_size(f) == 2,
        f == SurfaceFormat::Dxt1 ==> surface_format_size(f) == 8,
        f == SurfaceFormat::Dxt3 ==> surface_format_size(f) == 16,
        f == SurfaceFormat::Dxt5 ==> surface_format_size(f) == 16,
        f == SurfaceFormat::NormalizedByte2 ==> surface_format_size(f) == 2,
        f == SurfaceFormat::NormalizedByte4 ==> surface_format_size(f) == 4,
        f == SurfaceFormat::Rgba1010102 ==> surface_format_size(f) == 4,
        f == SurfaceFormat::Rg32 ==> surface_format_size(f) == 4,
        f == SurfaceFormat::Rgba64 ==> surface_format_size(f) == 8,
        f == SurfaceFormat::Alpha8 ==> surface_format_size(f) == 1,
        f == SurfaceFormat::Single ==> surface_format_size(f) == 4,
        f == SurfaceFormat::Vector2 ==> surface_format_size(f) == 8,
        f == SurfaceFormat::Vector4 ==> surface_format_size(f) == 16,
        f == SurfaceFormat::HalfSingle ==> surface_format_size(f) == 2,
        f == SurfaceFormat::HalfVector2 ==> surface_format_size(f) == 4,
        f == SurfaceFormat::HalfVector4 ==> surface_format_size(f) == 8,
        f == SurfaceFormat::ColorBgraExt ==> surface_format_size(f) == 4,
        f == SurfaceFormat::HdrBlendable <==> surface_format_size(f) == 0,
{
}

impl SurfaceFormat {
    /// Byte size of a texel. `HdrBlendable` is only used for render targets and has no size.
    pub fn size(&self) -> (r: usize)
        requires
            *self != SurfaceFormat::HdrBlendable,
        ensures
            r == surface_format_size(*self),
            r > 0,
    {
        match self {
            SurfaceFormat::Dxt1 => 8,
            SurfaceFormat::Dxt3 | SurfaceFormat::Dxt5 => 16,
            SurfaceFormat::Alpha8 => 1,
            SurfaceFormat::Bgr565
            | SurfaceFormat::Bgra4444
            | SurfaceFormat::Bgra5551
            | SurfaceFormat::HalfSingle
            | SurfaceFormat::NormalizedByte2 => 2,
            SurfaceFormat::Color
            | SurfaceFormat::Single
            | SurfaceFormat::Rg32
            | SurfaceFormat::HalfVector2
            | SurfaceFormat::NormalizedByte4
            | SurfaceFormat::Rgba1010102
            | SurfaceFormat::ColorBgraExt => 4,
            SurfaceFormat::HalfVector4 | SurfaceFormat::Rgba64 | SurfaceFormat::Vector2 => 8,
            SurfaceFormat::Vector4 => 16,
            SurfaceFormat::HdrBlendable => 0,
        }
    }
}

/// Byte size of a vertex element of the given format
pub open spec fn vertex_element_format_size(f: VertexElementFormat) -> u8 {
    match f {
        VertexElementFormat::Single => 4,
        VertexElementFormat::Vector2 => 8,
        VertexElementFormat::Vector3 => 12,
        VertexElementFormat::Vector4 => 16,
        VertexElementFormat::Color => 4,
        VertexElementFormat::Byte4 => 4,
        VertexElementFormat::Short2 => 4,
        VertexElementFormat::Short4 => 8,
        VertexElementFormat::NormalizedShort2 => 4,
        VertexElementFormat::NormalizedShort4 => 8,
        VertexElementFormat::HalfVector2 => 4,
        VertexElementFormat::HalfVector4 => 8,
    }
}

/// The byte size of a vertex element of each format is its number of components times the
/// bytes of one component: floats take 4 bytes (one for `Single`, two to four for the vectors),
/// bytes 1 (four each for `Color` and `Byte4`), and shorts and half floats 2 (two or four).
pub proof fn lemma_vertex_element_format_sizes(f: VertexElementFormat)
    ensures
        f == VertexElementFormat::Single ==> vertex_element_format_size(f) == 1 * 4,
        f == VertexElementFormat::Vector2 ==> vertex_element_format_size(f) == 2 * 4,
        f == VertexElementFormat::Vector3 ==> vertex_element_format_size(f) == 3 * 4,
        f == VertexElementFormat::Vector4 ==> vertex_element_format_size(f) == 4 * 4,
        f == VertexElementFormat::Color ==> vertex_element_format_size(f) == 4 * 1,
        f == VertexElementFormat::Byte4 ==> vertex_element_format_size(f) == 4 * 1,
        f == VertexElementFormat::Short2 ==> vertex_element_format_size(f) == 2 * 2,
        f == VertexElementFormat::Short4 ==> vertex_element_format_size(f) == 4 * 2,
        f == VertexElementFormat::NormalizedShort2 ==> vertex_element_format_size(f) == 2 * 2,
        f == VertexElementFormat::NormalizedShort4 ==> vertex_element_format_size(f) == 4 * 2,
        f == VertexElementFormat::HalfVector2 ==> vertex_element_format_size(f) == 2 * 2,
        f == VertexElementFormat::HalfVector4 ==> vertex_element_format_size(f) == 4 * 2,
{
}

impl VertexElementFormat {
    /// Byte size of an element of this format
    pub fn size(&self) -> (r: u8)
        ensures
            r == vertex_element_format_size(*self),
            4 <= r <= 16,
    {
        match self {
            VertexElementFormat::Single => 4,
            VertexElementFormat::Vector2 => 8,
            VertexElementFormat::Vector3 => 12,
            VertexElementFormat::Vector4 => 16,
            VertexElementFormat::Color => 4,
            VertexElementFormat::Byte4 => 4,
            VertexElementFormat::Short2 => 4,
            VertexElementFormat::Short4 => 8,
            VertexElementFormat::NormalizedShort2 => 4,
            VertexElementFormat::NormalizedShort4 => 8,
            VertexElementFormat::HalfVector2 => 4,
            VertexElementFormat::HalfVector4 => 8,
        }
    }
}

} // verus!
