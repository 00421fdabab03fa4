use fna3d::imgui_renderer::{vertex_declaration, vertex_elements};
use fna3d::utils::{default_params_from_window_handle, params_from_window_handle};
use fna3d::{
    Color, CubeMapFace, RawColor, RenderTargetBinding, RenderTargetExtent, RenderTargetType,
    RenderTargetUsage, RenderbufferHandle, TextureHandle, VertexDeclarationUtils,
    VertexElementFormat, VertexElementUsage, VertexElementUtils, WindowHandle,
};

#[test]
fn color_constructors() {
    assert_eq!(Color::rgb(1, 2, 3).raw(), RawColor { r: 1, g: 2, b: 3, a: 255 });
    assert_eq!(Color::transparent().raw(), RawColor { r: 0, g: 0, b: 0, a: 0 });
    assert_eq!(Color::white(), Color::rgba(255, 255, 255, 255));
    assert_eq!(Color::cornflower_blue().raw(), RawColor { r: 100, g: 149, b: 237, a: 255 });
    assert_ne!(Color::rgba(1, 2, 3, 4), Color::rgba(1, 2, 3, 5));
}

#[test]
fn color_from_non_premultiplied() {
    let c = Color::from_non_premultiplied(100, 50, 255, 1);
    assert_eq!(c.raw(), RawColor { r: 0, g: 0, b: 1, a: 1 });
    let c = Color::from_non_premultiplied(2, 0, 1, 127);
    assert_eq!(c.raw(), RawColor { r: 0, g: 0, b: 0, a: 127 });
    let c = Color::from_non_premultiplied(1, 1, 0, 255);
    assert_eq!(c.raw(), RawColor { r: 1, g: 1, b: 0, a: 255 });
}

#[test]
fn vertex_element_new() {
    let e = VertexElementUtils::new(12, VertexElementFormat::Color, VertexElementUsage::Color, 2);
    assert_eq!(e.offset, 12);
    assert_eq!(e.vertex_element_format, 4);
    assert_eq!(e.vertex_element_usage, 1);
    assert_eq!(e.usage_index, 2);
}

#[test]
fn declaration_stride_is_largest_element_end() {
    let elems = [
        VertexElementUtils::new(0, VertexElementFormat::Vector3, VertexElementUsage::Position, 0),
        VertexElementUtils::new(12, VertexElementFormat::Color, VertexElementUsage::Color, 0),
        VertexElementUtils::new(
            16,
            VertexElementFormat::Vector2,
            VertexElementUsage::TextureCoordinate,
            0,
        ),
    ];
    let decl = VertexDeclarationUtils::from_elems(&elems);
    assert_eq!(decl.vertex_stride, 24);
    assert_eq!(decl.element_count, 3);
    assert_eq!(decl.elements, elems.to_vec());

    // elements listed out of order: the stride is still the largest end
    let elems = [
        VertexElementUtils::new(8, VertexElementFormat::Vector4, VertexElementUsage::Color, 0),
        VertexElementUtils::new(0, VertexElementFormat::Vector2, VertexElementUsage::Position, 0),
    ];
    assert_eq!(VertexDeclarationUtils::from_elems(&elems).vertex_stride, 24);
}

#[test]
fn imgui_vertex_declaration_is_consistent() {
    let decl = vertex_declaration();
    let computed = VertexDeclarationUtils::from_elems(&vertex_elements());
    assert_eq!(decl.vertex_stride, 20);
    assert_eq!(computed.vertex_stride, decl.vertex_stride);
    assert_eq!(computed.element_count, decl.element_count);
    assert_eq!(computed.elements, decl.elements);
}

#[test]
fn default_presentation_parameters() {
    let p = default_params_from_window_handle(WindowHandle(42), (800, 600));
    assert_eq!(p.back_buffer_width, 800);
    assert_eq!(p.back_buffer_height, 600);
    assert_eq!(p.back_buffer_format, 0);
    assert_eq!(p.multi_sample_count, 0);
    assert_eq!(p.device_window_handle, WindowHandle(42));
    assert_eq!(p.is_full_screen, 0);
    assert_eq!(p.depth_stencil_format, 3);
    assert_eq!(p.presentation_interval, 0);
    assert_eq!(p.display_orientation, 0);
    assert_eq!(p.render_target_usage, 0);

    let q = params_from_window_handle(WindowHandle(7));
    assert_eq!((q.back_buffer_width, q.back_buffer_height), (1280, 720));
    assert_eq!(q.multi_sample_count, 1);
    assert_eq!(q.render_target_usage, 2);
}

#[test]
fn render_target_bindings() {
    let t = RenderTargetBinding::new_2d(
        RenderTargetType::TwoD,
        1,
        0,
        TextureHandle(5),
        640,
        480,
        RenderbufferHandle(0),
    );
    let raw = t.raw();
    assert_eq!(raw.type_, 0);
    assert_eq!(raw.extent, RenderTargetExtent::TwoD { width: 640, height: 480 });
    assert_eq!(raw.level_count, 1);
    assert_eq!(raw.texture, TextureHandle(5));

    let c = RenderTargetBinding::new_cube(
        RenderTargetUsage::DiscardContents,
        2,
        4,
        TextureHandle(9),
        256,
        CubeMapFace::NegativeY,
        RenderbufferHandle(3),
    );
    let raw = c.raw();
    assert_eq!(raw.type_, 1);
    assert_eq!(raw.extent, RenderTargetExtent::Cube { size: 256, face: 3 });
    assert_eq!(raw.multi_sample_count, 4);
    assert_eq!(raw.color_buffer, RenderbufferHandle(3));
}

#[test]
fn color_from_non_premultiplied_full_range() {
    assert_eq!(Color::from_non_premultiplied(200, 100, 50, 128), Color::rgba(100, 50, 25, 128));
    assert_eq!(Color::from_non_premultiplied(255, 255, 255, 255), Color::rgba(255, 255, 255, 255));
    assert_eq!(Color::from_non_premultiplied(255, 0, 17, 0), Color::rgba(0, 0, 0, 0));
}
