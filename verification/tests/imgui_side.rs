use fna3d::imgui_renderer::{
    Batch, CommandAction, ElementCommand, ImGuiRenderer, RcTexture2d, FONT_TEXTURE_ID, VERT_SIZE,
};
use fna3d::sdl2_backend::key_map;
use fna3d::{BufferHandle, EffectDataHandle, EffectHandle, Rect, TextureHandle};
use imgui::Key;
use std::mem::size_of;

#[test]
fn test_size() {
    assert_eq!(size_of::<imgui::DrawVert>(), 20);
    assert_eq!(size_of::<imgui::DrawVert>(), VERT_SIZE);
}

#[test]
fn key_map_uses_imgui_key_indices() {
    let keys = [
        Key::Tab,
        Key::LeftArrow,
        Key::RightArrow,
        Key::UpArrow,
        Key::DownArrow,
        Key::PageUp,
        Key::PageDown,
        Key::Home,
        Key::End,
        Key::Delete,
        Key::Backspace,
        Key::Enter,
        Key::Escape,
        Key::Space,
        Key::A,
        Key::C,
        Key::V,
        Key::X,
        Key::Y,
        Key::Z,
    ];
    let map = key_map();
    for (i, key) in keys.iter().enumerate() {
        assert_eq!(map[i].0 as usize, *key as usize);
    }
}

#[test]
fn renderer_looks_textures_up() {
    let batch = Batch::new(BufferHandle(1), BufferHandle(2), EffectHandle(3), EffectDataHandle(4));
    let mut r = ImGuiRenderer::new(RcTexture2d::new(TextureHandle(50), 512, 256), batch);
    assert_eq!(r.font_texture().raw, TextureHandle(50));
    assert_eq!((r.font_texture().w, r.font_texture().h), (512, 256));
    let id = r.textures_mut().insert(RcTexture2d::new(TextureHandle(70), 8, 8));
    let rect = Rect { x: 0, y: 0, w: 4, h: 4 };
    let cmd = |texture_id| ElementCommand {
        clip_visible: true,
        scissor: rect,
        texture_id,
        count: 6,
        vtx_offset: 0,
        idx_offset: 0,
    };
    let cmds = vec![cmd(id.id()), cmd(FONT_TEXTURE_ID), cmd(id.id() + 1), cmd(id.id())];
    let (actions, error) = r.plan_commands(&cmds);
    assert_eq!(actions.len(), 2);
    assert_eq!(error, Some(id.id() + 1));
    match &actions[0] {
        CommandAction::Draw(d) => assert_eq!(d.setup.texture, TextureHandle(70)),
        CommandAction::Skip => panic!("a visible command draws"),
    }
    match &actions[1] {
        CommandAction::Draw(d) => assert_eq!(d.setup.texture, TextureHandle(50)),
        CommandAction::Skip => panic!("a visible command draws"),
    }
    assert_eq!(r.set_draw_list(10, 20, 10, 2), (None, None));
}
