use fna3d::imgui_renderer::{CommandAction, DrawCommand, FONT_TEXTURE_ID};
use fna3d::{IndexElementSize, PrimitiveType};
use fna3d::fontbook::{white_rgba_from_alpha, FontBookInternal};
use fna3d::img::{load_request, loaded_image, read_as_much, ReadEvent, ReadProgress, ReadStep};
use fna3d::imgui_renderer::{
    draw_counts, is_font_texture, Batch, GpuIndexBuffer, GpuVertexBuffer, RcTexture2d,
};
use fna3d::mojo::{effect_load_result, find_param, LoadShaderError};
use fna3d::utils::no_change_effect;
use fna3d::{
    BufferHandle, EffectDataHandle, EffectHandle, Rect, TextureAddressMode, TextureFilter,
    TextureHandle,
};

#[test]
fn no_change_effect_changes_nothing() {
    let e = no_change_effect();
    assert_eq!(e.render_state_change_count, 0);
    assert_eq!(e.sampler_state_change_count, 0);
    assert_eq!(e.vertex_sampler_state_change_count, 0);
}

#[test]
fn find_param_returns_first_match() {
    let names = vec![b"World".to_vec(), b"MatrixTransform".to_vec(), b"MatrixTransform".to_vec()];
    assert_eq!(find_param(&names, b"MatrixTransform"), Some(1));
    assert_eq!(find_param(&names, b"World"), Some(0));
    assert_eq!(find_param(&names, b"Matrix"), None);
    assert_eq!(find_param(&Vec::new(), b"World"), None);
}

#[test]
fn effect_load_outcome() {
    assert!(effect_load_result(0, String::from("x")).is_ok());
    assert!(effect_load_result(-1, String::from("x")).is_ok());
    match effect_load_result(2, String::from("[technique]")) {
        Err(LoadShaderError::EffectError(m)) => assert_eq!(m, "[technique]"),
        _ => panic!("expected an effect error"),
    }
}

#[test]
fn load_shader_error_description() {
    let e = LoadShaderError::EffectError(String::from("bad pass"));
    assert_eq!(e.describe(), "Shader loading errors: bad pass");
    let io = LoadShaderError::Io(std::io::Error::new(std::io::ErrorKind::Other, "no file"));
    assert_eq!(io.describe(), "no file");
}

#[test]
fn read_as_much_steps() {
    assert_eq!(ReadProgress::start(0), ReadStep::Done(0));
    let p = match ReadProgress::start(10) {
        ReadStep::Continue(p) => p,
        _ => panic!("expected to continue"),
    };
    assert_eq!(p, ReadProgress { read: 0, remaining: 10 });
    let p = match read_as_much(p, ReadEvent::Read(4)) {
        ReadStep::Continue(p) => p,
        _ => panic!("expected to continue"),
    };
    assert_eq!(p, ReadProgress { read: 4, remaining: 6 });
    assert_eq!(read_as_much(p, ReadEvent::Interrupted), ReadStep::Continue(p));
    assert_eq!(read_as_much(p, ReadEvent::Read(0)), ReadStep::Done(4));
    assert_eq!(read_as_much(p, ReadEvent::Read(6)), ReadStep::Done(10));
    assert_eq!(read_as_much(p, ReadEvent::Failed), ReadStep::Fail);
}

#[test]
fn image_load_arguments() {
    let r = load_request(Some([64, 32]));
    assert_eq!((r.force_w, r.force_h, r.do_zoom), (64, 32, true));
    let r = load_request(None);
    assert_eq!((r.force_w, r.force_h, r.do_zoom), (-1, -1, false));
    assert_eq!(loaded_image(1024, 16, 16), (1024, [16, 16]));
}

#[test]
fn rc_texture_holds_its_data() {
    let t = RcTexture2d::new(TextureHandle(3), 8, 4);
    assert_eq!(t.texture.raw, TextureHandle(3));
    assert_eq!((t.texture.w, t.texture.h), (8, 4));
}

#[test]
fn vertex_buffer_grows_only_when_needed() {
    assert_eq!(GpuVertexBuffer::byte_len(8192), 163840);
    let mut v = GpuVertexBuffer::new(BufferHandle(1), 10);
    assert_eq!(v.capacity_in_bytes(), 200);
    // 20 * (5 + 4) = 180 fits
    assert_eq!(v.upload_vertices(5, 4), None);
    assert_eq!(v.capacity_in_bytes(), 200);
    // 20 * (10 + 20) = 600 does not
    assert_eq!(v.upload_vertices(10, 20), Some(600));
    assert_eq!(v.capacity_in_bytes(), 600);
    assert_eq!(v.buffer(), BufferHandle(1));
    v.replace_buffer(BufferHandle(2));
    assert_eq!(v.buffer(), BufferHandle(2));
    assert_eq!(v.capacity_in_bytes(), 600);
}

#[test]
fn index_buffer_grows_only_when_needed() {
    let mut i = GpuIndexBuffer::new(BufferHandle(1), 6);
    assert_eq!(i.capacity_in_bytes(), 12);
    assert_eq!(i.upload_indices(4, 2), None);
    assert_eq!(i.upload_indices(6, 2), Some(16));
    assert_eq!(i.capacity_in_bytes(), 16);
}

#[test]
fn batch_initial_buffers_and_draw_setup() {
    let mut b = Batch::new(BufferHandle(1), BufferHandle(2), EffectHandle(3), EffectDataHandle(4));
    assert_eq!(b.vbuf.capacity_in_bytes(), 20 * 4 * 2048);
    assert_eq!(b.ibuf.capacity_in_bytes(), 2 * 6 * 2048);
    assert_eq!(b.set_draw_list(100, 20, 150, 2), (None, None));
    assert_eq!(b.set_draw_list(9000, 20, 150, 2), (Some(180400), None));
    let rect = Rect { x: 1, y: 2, w: 3, h: 4 };
    let s = b.prepare_draw(&rect, TextureHandle(9), 12);
    assert_eq!(s.scissor_rect, rect);
    assert_eq!(s.effect, EffectHandle(3));
    assert_eq!(s.pass, 0);
    assert_eq!(s.state_changes, no_change_effect());
    assert_eq!(s.sampler_slot, 0);
    assert_eq!(s.texture, TextureHandle(9));
    assert_eq!(s.sampler.filter(), TextureFilter::Linear);
    assert_eq!(s.sampler.address_u(), TextureAddressMode::Wrap);
    assert_eq!(s.binding.vertex_buffer, BufferHandle(1));
    assert_eq!(s.binding.vertex_declaration.vertex_stride, 20);
    assert_eq!(s.binding.vertex_offset, 0);
    assert!(s.bindings_updated);
    assert_eq!(s.base_vertex, 12);
}

#[test]
fn draw_command_counts() {
    assert_eq!(draw_counts(6), (4, 2));
    assert_eq!(draw_counts(12), (8, 4));
    assert_eq!(draw_counts(7), (4, 2));
    assert!(is_font_texture(usize::MAX));
    assert!(!is_font_texture(0));
}

#[test]
fn font_book_refresh_toggles() {
    let mut f = FontBookInternal::new(256, 128);
    assert!(f.texture().is_null());
    assert!(f.is_dirty);
    assert_eq!(f.texture_to_dispose(), None);
    assert!(f.maybe_update_texture());
    assert!(!f.maybe_update_texture());
    assert!(f.maybe_update_texture());
    f.update();
    assert!(f.maybe_update_texture());
    assert_eq!(f.expanded_size(), (512, 256));
    f.on_created(TextureHandle(77), 512, 256);
    assert_eq!(f.texture(), TextureHandle(77));
    assert_eq!((f.w, f.h), (512, 256));
    assert!(f.is_dirty);
    assert_eq!(f.texture_to_dispose(), Some(TextureHandle(77)));
}

#[test]
fn font_atlas_to_white_rgba() {
    let pixels = [0u8, 10, 200, 255, 9];
    let data = white_rgba_from_alpha(&pixels, 2, 2);
    assert_eq!(data, vec![255, 255, 255, 0, 255, 255, 255, 10, 255, 255, 255, 200, 255, 255, 255, 255]);
    assert!(white_rgba_from_alpha(&pixels, 0, 3).is_empty());
}

#[test]
fn draw_commands_plan() {
    let b = Batch::new(BufferHandle(1), BufferHandle(2), EffectHandle(3), EffectDataHandle(4));
    let font = TextureHandle(50);
    let rect = Rect { x: 0, y: 0, w: 10, h: 10 };
    let cmd = |clip_visible, texture_id, registered| DrawCommand {
        clip_visible,
        scissor: rect,
        texture_id,
        registered,
        count: 12,
        vtx_offset: 8,
        idx_offset: 6,
    };
    match b.command_action(&cmd(false, 7, None), font) {
        Ok(CommandAction::Skip) => {}
        _ => panic!("a clipped command is skipped"),
    }
    match b.command_action(&cmd(true, 7, None), font) {
        Err(id) => assert_eq!(id, 7),
        _ => panic!("an unknown texture fails"),
    }
    match b.command_action(&cmd(true, FONT_TEXTURE_ID, None), font) {
        Ok(CommandAction::Draw(d)) => {
            assert_eq!(d.setup.texture, font);
            assert_eq!(d.setup.base_vertex, 8);
            assert_eq!(d.primitive_type, PrimitiveType::TriangleList);
            assert_eq!((d.base_vertex, d.min_vertex_index), (8, 0));
            assert_eq!((d.n_vertices, d.start_index, d.n_primitives), (8, 6, 4));
            assert_eq!(d.index_buffer, BufferHandle(2));
            assert_eq!(d.index_element_size, IndexElementSize::Bits16);
        }
        _ => panic!("the font texture draws"),
    }
    match b.command_action(&cmd(true, 7, Some(TextureHandle(70))), font) {
        Ok(CommandAction::Draw(d)) => assert_eq!(d.setup.texture, TextureHandle(70)),
        _ => panic!("a registered texture draws"),
    }
    let cmds = vec![
        cmd(true, 7, Some(TextureHandle(70))),
        cmd(false, 9, None),
        cmd(true, 9, None),
        cmd(true, FONT_TEXTURE_ID, None),
    ];
    let (actions, error) = b.plan_commands(&cmds, font);
    assert_eq!(actions.len(), 2);
    assert_eq!(error, Some(9));
    let (actions, error) = b.plan_commands(&cmds[..2].to_vec(), font);
    assert_eq!(actions.len(), 2);
    assert_eq!(error, None);
}
