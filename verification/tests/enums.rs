use fna3d::{
    Blend, ColorWriteChannels, CompareFunction, IndexElementSize, StencilOperation, SurfaceFormat,
    VertexElementFormat,
};

#[test]
fn index_element_size_from_u32() {
    assert_eq!(IndexElementSize::from_u32(0), Some(IndexElementSize::Bits16));
    assert_eq!(IndexElementSize::from_u32(1), Some(IndexElementSize::Bits32));
    assert_eq!(IndexElementSize::from_u32(2), None);
}

#[test]
fn color_write_channels_values() {
    assert_eq!(ColorWriteChannels::NoChannels.to_u32(), 0);
    assert_eq!(ColorWriteChannels::Red.to_u32(), 1);
    assert_eq!(ColorWriteChannels::Green.to_u32(), 2);
    assert_eq!(ColorWriteChannels::Blue.to_u32(), 4);
    assert_eq!(ColorWriteChannels::Alpha.to_u32(), 8);
    assert_eq!(ColorWriteChannels::All.to_u32(), 15);
    assert_eq!(ColorWriteChannels::from_u32(3), None);
    assert_eq!(ColorWriteChannels::from_u32(8), Some(ColorWriteChannels::Alpha));
}

#[test]
fn enum_round_trip() {
    for n in 0..13u32 {
        let b = Blend::from_u32(n).unwrap();
        assert_eq!(b.to_u32(), n);
    }
    assert_eq!(Blend::from_u32(13), None);
    for n in 0..8u32 {
        assert_eq!(CompareFunction::from_u32(n).unwrap().to_u32(), n);
        assert_eq!(StencilOperation::from_u32(n).unwrap().to_u32(), n);
    }
    assert_eq!(SurfaceFormat::ColorBgraExt.to_u32(), 20);
    assert_eq!(SurfaceFormat::from_u32(21), None);
}

#[test]
fn surface_format_sizes() {
    assert_eq!(SurfaceFormat::Color.size(), 4);
    assert_eq!(SurfaceFormat::Dxt1.size(), 8);
    assert_eq!(SurfaceFormat::Dxt5.size(), 16);
    assert_eq!(SurfaceFormat::Alpha8.size(), 1);
    assert_eq!(SurfaceFormat::Bgr565.size(), 2);
    assert_eq!(SurfaceFormat::Rgba64.size(), 8);
    assert_eq!(SurfaceFormat::Vector4.size(), 16);
}

#[test]
fn vertex_element_format_sizes() {
    assert_eq!(VertexElementFormat::Single.size(), 4);
    assert_eq!(VertexElementFormat::Vector3.size(), 12);
    assert_eq!(VertexElementFormat::Vector4.size(), 16);
    assert_eq!(VertexElementFormat::Short4.size(), 8);
    assert_eq!(VertexElementFormat::HalfVector2.size(), 4);
}
