use fna3d::sdl2_backend::key_map;
use fna3d::sdl2_backend::{
    modifiers_from_bits, system_cursor, CursorAction, EventOutcome, ImguiSdl2, InputEvent,
    IoUpdate, KeyModifiers, MouseButton, MouseCursor, SystemCursor, KMOD_LCTRL, KMOD_RGUI,
    KMOD_RSHIFT,
};

#[test]
fn modifiers_from_sdl_bits() {
    let m = modifiers_from_bits(KMOD_LCTRL | KMOD_RSHIFT);
    assert_eq!(m, KeyModifiers { ctrl: true, alt: false, shift: true, super_: false });
    let m = modifiers_from_bits(KMOD_RGUI | 0x0200);
    assert_eq!(m, KeyModifiers { ctrl: false, alt: true, shift: false, super_: true });
    assert_eq!(
        modifiers_from_bits(0),
        KeyModifiers { ctrl: false, alt: false, shift: false, super_: false }
    );
}

#[test]
fn press_shorter_than_a_frame_is_not_missed() {
    let mut b = ImguiSdl2::new();
    let out = b.handle_event(&InputEvent::MouseButtonDown { mouse_btn: MouseButton::Right });
    assert_eq!(out, EventOutcome { captured: false, io: IoUpdate::Nothing });
    b.handle_event(&InputEvent::MouseButtonUp);
    let frame = b.prepare_frame([false; 5], false, false);
    assert_eq!(frame.mouse_down, [false, true, false, false, false]);
    assert!(frame.capture_mouse);
    let frame = b.prepare_frame([false; 5], false, false);
    assert_eq!(frame.mouse_down, [false; 5]);
    assert!(!frame.capture_mouse);
    let frame = b.prepare_frame([false, false, false, false, true], false, false);
    assert_eq!(frame.mouse_down, [false, false, false, false, true]);
}

#[test]
fn unknown_button_is_ignored() {
    let mut b = ImguiSdl2::new();
    b.handle_event(&InputEvent::MouseButtonDown { mouse_btn: MouseButton::Unknown });
    assert_eq!(b.mouse_press, [false; 5]);
    b.handle_event(&InputEvent::MouseButtonDown { mouse_btn: MouseButton::X2 });
    assert_eq!(b.mouse_press, [false, false, false, false, true]);
}

#[test]
fn events_are_captured_when_imgui_wants_them() {
    let mut b = ImguiSdl2::new();
    b.prepare_frame([false; 5], true, false);
    let key = InputEvent::KeyDown { scancode: Some(4), keymod: KMOD_LCTRL };
    let out = b.handle_event(&key);
    assert!(out.captured);
    assert_eq!(
        out.io,
        IoUpdate::Keys {
            modifiers: KeyModifiers { ctrl: true, alt: false, shift: false, super_: false },
            scancode: Some(4),
            down: true,
        }
    );
    assert!(!b.handle_event(&InputEvent::MouseMotion).captured);
    assert!(b.handle_event(&InputEvent::TextInput).captured);
    assert!(!b.handle_event(&InputEvent::Other).captured);
    b.prepare_frame([false; 5], false, true);
    let out = b.handle_event(&InputEvent::MouseWheel { y: -1 });
    assert_eq!(out, EventOutcome { captured: true, io: IoUpdate::MouseWheel(-1) });
    assert!(b.handle_event(&InputEvent::FingerMotion).captured);
    let up = b.handle_event(&InputEvent::KeyUp { scancode: None, keymod: 0 });
    assert!(!up.captured);
    assert_eq!(
        up.io,
        IoUpdate::Keys {
            modifiers: KeyModifiers { ctrl: false, alt: false, shift: false, super_: false },
            scancode: None,
            down: false,
        }
    );
}

#[test]
fn cursor_changes() {
    let mut b = ImguiSdl2::new();
    assert_eq!(b.prepare_render(true, Some(MouseCursor::Hand), false), CursorAction::Unchanged);
    assert_eq!(
        b.prepare_render(false, Some(MouseCursor::Hand), false),
        CursorAction::Show { switch_to: Some(SystemCursor::Hand) }
    );
    assert_eq!(b.cursor, Some(MouseCursor::Hand));
    assert_eq!(
        b.prepare_render(false, Some(MouseCursor::Hand), false),
        CursorAction::Show { switch_to: None }
    );
    assert_eq!(
        b.prepare_render(false, Some(MouseCursor::TextInput), false),
        CursorAction::Show { switch_to: Some(SystemCursor::IBeam) }
    );
    assert_eq!(b.prepare_render(false, Some(MouseCursor::Arrow), true), CursorAction::Hide);
    assert_eq!(b.cursor, None);
    assert_eq!(b.sdl_cursor, None);
    assert_eq!(b.prepare_render(false, None, false), CursorAction::Hide);
    assert_eq!(system_cursor(MouseCursor::ResizeEW), SystemCursor::SizeWE);
    assert_eq!(system_cursor(MouseCursor::NotAllowed), SystemCursor::No);
}

#[test]
fn imgui_key_map_pairs() {
    let m = key_map();
    assert_eq!(m.len(), 20);
    assert_eq!(m[0], (0, 43)); // Tab
    assert_eq!(m[1], (1, 80)); // LeftArrow -> Left
    assert_eq!(m[11], (13, 40)); // Enter -> Return
    assert_eq!(m[19], (21, 29)); // Z
    assert_eq!(m[9], (10, 76)); // Delete
}
