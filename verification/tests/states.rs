use fna3d::blend::BlendState;
use fna3d::depth_stencil::DepthStencilState;
use fna3d::rasterizer::RasterizerState;
use fna3d::sampler::SamplerState;
use fna3d::{
    Blend, BlendFunction, ColorWriteChannels, CompareFunction, CullMode, FillMode,
    StencilOperation, TextureAddressMode, TextureFilter,
};

#[test]
fn rasterizer_default_and_accessors() {
    let mut r = RasterizerState::default();
    assert_eq!(r.fill_mode(), FillMode::Solid);
    assert_eq!(r.cull_mode(), CullMode::CullCounterClockwiseFace);
    assert_eq!(r.depth_bias_bits(), 0);
    assert_eq!(r.scissor_test_enable(), 0);
    assert_eq!(r.multi_sample_anti_alias(), 1);
    r.set_fill_mode(FillMode::WireFrame);
    assert_eq!(r.fill_mode(), FillMode::WireFrame);
    assert_eq!(r.raw().fill_mode, 1);
    r.set_depth_bias_bits(0.5f32.to_bits());
    assert_eq!(f32::from_bits(r.depth_bias_bits()), 0.5);
    r.set_slope_scale_depth_bias_bits(7);
    assert_eq!(r.slope_scale_depth_bias_bits(), 7);
    r.set_scissor_test_enable(1);
    assert_eq!(r.scissor_test_enable(), 1);
    r.set_multi_sample_anti_alias(0);
    assert_eq!(r.multi_sample_anti_alias(), 0);
    assert_eq!(r.cull_mode(), CullMode::CullCounterClockwiseFace);
}

#[test]
fn rasterizer_from_cull_mode_and_raw_mut() {
    let mut r = RasterizerState::from_cull_mode(CullMode::NoCulling);
    assert_eq!(r.cull_mode(), CullMode::NoCulling);
    assert_eq!(r.fill_mode(), FillMode::Solid);
    r.raw_mut().cull_mode = 1;
    assert_eq!(r.cull_mode(), CullMode::CullClockWiseFace);
}

#[test]
fn sampler_presets() {
    let d = SamplerState::default();
    assert_eq!(d.filter(), TextureFilter::Linear);
    assert_eq!(d.address_u(), TextureAddressMode::Wrap);
    assert_eq!(d.max_anisotropy(), 4);
    assert_eq!(d.max_mip_level(), 0);
    assert_eq!(d.mip_map_level_of_detail_bias_bits(), 0);
    let a = SamplerState::anisotropic_clamp();
    assert_eq!(a.filter(), TextureFilter::Anisotropic);
    assert_eq!(a.address_u(), TextureAddressMode::Clamp);
    assert_eq!(a.address_v(), TextureAddressMode::Clamp);
    assert_eq!(a.address_w(), TextureAddressMode::Clamp);
    assert_eq!(a.max_anisotropy(), 4);
    let p = SamplerState::point_wrap();
    assert_eq!(p.filter(), TextureFilter::Point);
    assert_eq!(p.address_w(), TextureAddressMode::Wrap);
    assert_eq!(SamplerState::linear_clamp().address_v(), TextureAddressMode::Clamp);
    assert_eq!(SamplerState::linear_wrap().filter(), TextureFilter::Linear);
    assert_eq!(SamplerState::anisotropic_wrap().address_u(), TextureAddressMode::Wrap);
    assert_eq!(SamplerState::point_clamp().filter(), TextureFilter::Point);
}

#[test]
fn sampler_setters() {
    let mut s = SamplerState::default();
    s.set_filter(TextureFilter::MinPointMagLinearMipPoint);
    assert_eq!(s.filter(), TextureFilter::MinPointMagLinearMipPoint);
    s.set_address_v(TextureAddressMode::Mirror);
    assert_eq!(s.address_v(), TextureAddressMode::Mirror);
    assert_eq!(s.address_u(), TextureAddressMode::Wrap);
    s.set_max_anisotropy(16);
    s.set_max_mip_level(3);
    s.set_mip_map_level_of_detail_bias_bits(1);
    assert_eq!(s.max_anisotropy(), 16);
    assert_eq!(s.max_mip_level(), 3);
    assert_eq!(s.mip_map_level_of_detail_bias_bits(), 1);
    s.raw_mut().filter = 2;
    assert_eq!(s.filter(), TextureFilter::Anisotropic);
}

#[test]
fn blend_default_and_presets() {
    let d = BlendState::default();
    assert_eq!(d.color_src_blend(), Blend::SourceAlpha);
    assert_eq!(d.color_dest_blend(), Blend::InverseSourceAlpha);
    assert_eq!(d.color_blend_fn(), BlendFunction::Add);
    assert_eq!(d.alpha_blend_fn(), BlendFunction::Add);
    assert_eq!(d.color_write_enable(), ColorWriteChannels::All);
    assert_eq!(d.color_write_enable3(), ColorWriteChannels::All);
    assert_eq!(d.raw().multi_sample_mask, -1);
    assert_eq!(d.raw().blend_factor.a, 255);

    let a = BlendState::alpha_blend();
    assert_eq!(a.color_src_blend(), Blend::One);
    assert_eq!(a.alpha_src_blend(), Blend::One);
    assert_eq!(a.color_dest_blend(), Blend::InverseSourceAlpha);
    assert_eq!(a.alpha_dest_blend(), Blend::InverseSourceAlpha);

    let add = BlendState::additive();
    assert_eq!(add.color_src_blend(), Blend::SourceAlpha);
    assert_eq!(add.color_dest_blend(), Blend::One);

    let o = BlendState::opaque();
    assert_eq!(o.color_src_blend(), Blend::One);
    assert_eq!(o.alpha_src_blend(), Blend::One);
    assert_eq!(o.color_dest_blend(), Blend::Zero);
    assert_eq!(o.alpha_dest_blend(), Blend::Zero);
    assert_eq!(o.color_blend_fn(), BlendFunction::Add);
    assert_eq!(o.raw().multi_sample_mask, -1);

    let n = BlendState::non_premultiplied();
    assert_eq!(n.alpha_src_blend(), Blend::SourceAlpha);
    assert_eq!(n.alpha_dest_blend(), Blend::InverseSourceAlpha);
    assert_eq!(BlendState::not_premultiplied().raw(), n.raw());
}

#[test]
fn blend_setters() {
    let mut b = BlendState::default();
    b.set_color_src_blend(Blend::DestinationColor);
    b.set_color_dest_blend(Blend::Zero);
    b.set_color_blend_fn(BlendFunction::Max);
    b.set_alpha_src_blend(Blend::BlendFactor);
    b.set_alpha_dest_blend(Blend::SourceAlphaSaturation);
    b.set_alpha_blend_fn(BlendFunction::ReverseSubstract);
    b.set_color_write_enable(ColorWriteChannels::Red);
    b.set_color_write_enable1(ColorWriteChannels::Green);
    b.set_color_write_enable2(ColorWriteChannels::Blue);
    b.set_color_write_enable3(ColorWriteChannels::NoChannels);
    assert_eq!(b.color_src_blend(), Blend::DestinationColor);
    assert_eq!(b.color_dest_blend(), Blend::Zero);
    assert_eq!(b.color_blend_fn(), BlendFunction::Max);
    assert_eq!(b.alpha_src_blend(), Blend::BlendFactor);
    assert_eq!(b.alpha_dest_blend(), Blend::SourceAlphaSaturation);
    assert_eq!(b.alpha_blend_fn(), BlendFunction::ReverseSubstract);
    assert_eq!(b.color_write_enable(), ColorWriteChannels::Red);
    assert_eq!(b.color_write_enable1(), ColorWriteChannels::Green);
    assert_eq!(b.color_write_enable2(), ColorWriteChannels::Blue);
    assert_eq!(b.color_write_enable3(), ColorWriteChannels::NoChannels);
    b.raw_mut().color_write_enable = 8;
    assert_eq!(b.color_write_enable(), ColorWriteChannels::Alpha);
}

#[test]
fn depth_stencil_default_and_none() {
    let d = DepthStencilState::default();
    assert!(d.is_depth_buffer_enabled());
    assert!(d.is_depth_buffer_write_enabled());
    assert_eq!(d.depth_buffer_function(), CompareFunction::Less);
    assert!(!d.is_stencil_enabled());
    assert!(!d.is_two_sided_stencil_mode());
    assert_eq!(d.stencil_fail(), StencilOperation::Keep);
    assert_eq!(d.ccw_stencil_pass(), StencilOperation::Keep);
    assert_eq!(d.reference_stencil(), 0);
    // the stencil function is read from the depth function field
    assert_eq!(d.stencil_function(), CompareFunction::Less);
    // the counter-clockwise stencil function holds `Always`, read as a stencil operation
    assert_eq!(d.ccw_stencil_function(), StencilOperation::Keep);

    let n = DepthStencilState::none();
    assert!(!n.is_depth_buffer_enabled());
    assert!(!n.is_depth_buffer_write_enabled());
    assert_eq!(n.depth_buffer_function(), CompareFunction::Less);
}

#[test]
fn depth_stencil_setters() {
    let mut d = DepthStencilState::default();
    d.set_is_stencil_enabled(true);
    assert!(d.is_stencil_enabled());
    assert_eq!(d.raw().stencil_enable, 1);
    d.set_two_sided_stencil_mode(true);
    assert!(d.is_two_sided_stencil_mode());
    d.set_is_depth_buffer_enabled(false);
    assert!(!d.is_depth_buffer_enabled());
    d.set_is_depth_buffer_write_enabled(false);
    assert!(!d.is_depth_buffer_write_enabled());
    d.set_depth_buffer_function(CompareFunction::GreaterEqual);
    assert_eq!(d.depth_buffer_function(), CompareFunction::GreaterEqual);
    assert_eq!(d.stencil_function(), CompareFunction::GreaterEqual);
    d.set_stencil_mask(0xff);
    d.set_stencik_write_mask(0x0f);
    d.set_renference_stencil(3);
    assert_eq!(d.stencil_mask(), 0xff);
    assert_eq!(d.stencik_write_mask(), 0x0f);
    assert_eq!(d.reference_stencil(), 3);
    d.set_stencil_fail(StencilOperation::Zero);
    d.set_stencil_depth_buffer_fail(StencilOperation::Replace);
    d.set_stencil_pass(StencilOperation::Increment);
    d.set_ccw_stencil_fail(StencilOperation::Decrement);
    d.set_ccw_stencil_depth_buffer_fail(StencilOperation::IncrementSaturation);
    d.set_ccw_stencil_pass(StencilOperation::DecrementSaturation);
    d.set_ccw_stencil_function(StencilOperation::Invert);
    assert_eq!(d.stencil_fail(), StencilOperation::Zero);
    assert_eq!(d.stencil_depth_buffer_fail(), StencilOperation::Replace);
    assert_eq!(d.stencil_pass(), StencilOperation::Increment);
    assert_eq!(d.ccw_stencil_fail(), StencilOperation::Decrement);
    assert_eq!(d.ccw_stencil_depth_buffer_fail(), StencilOperation::IncrementSaturation);
    assert_eq!(d.ccw_stencil_pass(), StencilOperation::DecrementSaturation);
    assert_eq!(d.ccw_stencil_function(), StencilOperation::Invert);
    d.raw_mut().depth_buffer_function = 0;
    assert_eq!(d.depth_buffer_function(), CompareFunction::Always);
}
