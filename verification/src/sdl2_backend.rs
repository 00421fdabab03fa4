//! Input bookkeeping of the SDL2 backend for ImGui
//!
//! The backend remembers mouse presses between frames, whether ImGui wants the keyboard or the
//! mouse, and which cursor is shown. Each handler here takes the event or frame input as plain
//! values and says what to hand to ImGui or to SDL.

use vstd::prelude::*;

verus! {

/// Left shift key modifier bit (SDL `KMOD_LSHIFT`)
pub const KMOD_LSHIFT: u16 = 0x0001;
/// Right shift key modifier bit
pub const KMOD_RSHIFT: u16 = 0x0002;
/// Left control key modifier bit
pub const KMOD_LCTRL: u16 = 0x0040;
/// Right control key modifier bit
pub const KMOD_RCTRL: u16 = 0x0080;
/// Left alt key modifier bit
pub const KMOD_LALT: u16 = 0x0100;
/// Right alt key modifier bit
pub const KMOD_RALT: u16 = 0x0200;
/// Left GUI (super) key modifier bit
pub const KMOD_LGUI: u16 = 0x0400;
/// Right GUI (super) key modifier bit
pub const KMOD_RGUI: u16 = 0x0800;

/// Mouse button of an SDL event
#[derive(Debug, Clone, Copy, PartialEq, Eq, Structural)]
pub enum MouseButton {
    Unknown,
    Left,
    Middle,
    Right,
    X1,
    X2,
}

/// Mouse cursor ImGui asks for
#[derive(Debug, Clone, Copy, PartialEq, Eq, Structural)]
pub enum MouseCursor {
    Arrow,
    TextInput,
    ResizeAll,
    ResizeNS,
    ResizeEW,
    ResizeNESW,
    ResizeNWSE,
    Hand,
    NotAllowed,
}

/// System cursor SDL shows
#[derive(Debug, Clone, Copy, PartialEq, Eq, Structural)]
pub enum SystemCursor {
    Arrow,
    IBeam,
    Wait,
    Crosshair,
    WaitArrow,
    SizeNWSE,
    SizeNESW,
    SizeWE,
    SizeNS,
    SizeAll,
    No,
    Hand,
}

/// The parts of an SDL event the backend reads
#[derive(Debug, Clone, Copy, PartialEq, Eq, Structural)]
pub enum InputEvent {
    MouseWheel { y: i32 },
    MouseButtonDown { mouse_btn: MouseButton },
    MouseButtonUp,
    MouseMotion,
    TextInput,
    TextEditing,
    KeyDown { scancode: Option<u32>, keymod: u16 },
    KeyUp { scancode: Option<u32>, keymod: u16 },
    FingerDown,
    FingerUp,
    FingerMotion,
    DollarGesture,
    DollarRecord,
    MultiGesture,
    Other,
}

/// Modifier keys held
#[derive(Debug, Clone, Copy, PartialEq, Eq, Structural)]
pub struct KeyModifiers {
    pub ctrl: bool,
    pub alt: bool,
    pub shift: bool,
    pub super_: bool,
}

/// What an event changes in ImGui's input state
#[derive(Debug, Clone, Copy, PartialEq, Eq, Structural)]
pub enum IoUpdate {
    Nothing,
    /// Set the wheel to this value
    MouseWheel(i32),
    /// Add the characters of the event's text
    TextInput,
    /// Set the modifiers, and the key of this scancode down or up when there is one
    Keys { modifiers: KeyModifiers, scancode: Option<u32>, down: bool },
}

/// Result of handling an event: whether ImGui captures it, and the input change
#[derive(Debug, Clone, Copy, PartialEq, Eq, Structural)]
pub struct EventOutcome {
    pub captured: bool,
    pub io: IoUpdate,
}

/// Mouse input for a frame: buttons down, and whether the mouse is to be captured
#[derive(Debug, Clone, Copy)]
pub struct FrameInput {
    pub mouse_down: [bool; 5],
    pub capture_mouse: bool,
}

/// What to do with the OS cursor before rendering
#[derive(Debug, Clone, Copy, PartialEq, Eq, Structural)]
pub enum CursorAction {
    /// ImGui does not want the cursor changed
    Unchanged,
    /// Show the cursor, switching to this system cursor when there is one
    Show { switch_to: Option<SystemCursor> },
    /// Hide the cursor
    Hide,
}

/// The modifiers held according to SDL modifier bits
pub open spec fn key_modifiers(keymod: u16) -> KeyModifiers {
    KeyModifiers {
        ctrl: keymod & (KMOD_RCTRL | KMOD_LCTRL) != 0,
        alt: keymod & (KMOD_RALT | KMOD_LALT) != 0,
        shift: keymod & (KMOD_RSHIFT | KMOD_LSHIFT) != 0,
        super_: keymod & (KMOD_RGUI | KMOD_LGUI) != 0,
    }
}

/// Slot of a mouse button in ImGui's button array
pub open spec fn button_index(b: MouseButton) -> Option<int> {
    match b {
        MouseButton::Left => Some(0),
        MouseButton::Right => Some(1),
        MouseButton::Middle => Some(2),
        MouseButton::X1 => Some(3),
        MouseButton::X2 => Some(4),
        MouseButton::Unknown => None,
    }
}

/// Whether button slot `i` holds a press after `event`, when it held `prev` before
pub open spec fn pressed_after_event(prev: bool, event: InputEvent, i: int) -> bool {
    prev || (event matches InputEvent::MouseButtonDown { mouse_btn } && button_index(mouse_btn)
        == Some(i))
}

/// Whether a button is down in a frame: pressed since the last frame or held now
pub open spec fn down_in_frame(pressed: bool, held: bool) -> bool {
    pressed || held
}

/// A button is down in a frame when it was pressed since the last frame, when it is held now,
/// or both, and only then: a held button is not lost for want of a fresh press.
pub proof fn lemma_down_in_frame(pressed: bool, held: bool)
    ensures
        held ==> down_in_frame(pressed, held),
        pressed ==> down_in_frame(pressed, held),
        !pressed && !held ==> !down_in_frame(pressed, held),
{
}

/// A click is not missed even when it is shorter than a frame: a press of a known button is
/// remembered through any later events and makes the button down in the next frame, whether
/// or not it is still held.
pub proof fn lemma_press_not_missed(prev: bool, b: MouseButton, i: int, later: InputEvent, held: bool)
    requires
        button_index(b) == Some(i),
    ensures
        pressed_after_event(prev, InputEvent::MouseButtonDown { mouse_btn: b }, i),
        pressed_after_event(
            pressed_after_event(prev, InputEvent::MouseButtonDown { mouse_btn: b }, i),
            later,
            i,
        ),
        down_in_frame(
            pressed_after_event(
                pressed_after_event(prev, InputEvent::MouseButtonDown { mouse_btn: b }, i),
                later,
                i,
            ),
            held,
        ),
{
}

/// The slot of each mouse button in ImGui's button array: left 0, right 1, middle 2, then the
/// two extra buttons 3 and 4; an unknown button has none. Distinct known buttons have distinct
/// slots, and a press reaches no slot but its own.
pub proof fn lemma_button_slots(b: MouseButton, c: MouseButton, prev: bool, i: int)
    ensures
        b == MouseButton::Left ==> button_index(b) == Some(0int),
        b == MouseButton::Right ==> button_index(b) == Some(1int),
        b == MouseButton::Middle ==> button_index(b) == Some(2int),
        b == MouseButton::X1 ==> button_index(b) == Some(3int),
        b == MouseButton::X2 ==> button_index(b) == Some(4int),
        b == MouseButton::Unknown ==> button_index(b) is None,
        button_index(b) is Some && b != c ==> button_index(b) != button_index(c),
        button_index(b) != Some(i) ==> pressed_after_event(
            prev,
            InputEvent::MouseButtonDown { mouse_btn: b },
            i,
        ) == prev,
{
}

/// Whether an event is a keyboard event
pub open spec fn is_keyboard_event(e: InputEvent) -> bool {
    e is KeyDown || e is KeyUp || e is TextEditing || e is TextInput
}

/// Whether an event is a mouse or touch event
pub open spec fn is_mouse_event(e: InputEvent) -> bool {
    e is MouseMotion || e is MouseButtonDown || e is MouseButtonUp || e is MouseWheel
        || e is FingerDown || e is FingerUp || e is FingerMotion || e is DollarGesture
        || e is DollarRecord || e is MultiGesture
}

/// Which events ImGui may capture: key presses and releases, text editing and text input are
/// keyboard events; mouse motion, buttons and wheel, touch and gesture events are mouse events;
/// no event is both, and any other event is neither.
pub proof fn lemma_event_classes(e: InputEvent)
    ensures
        !(is_keyboard_event(e) && is_mouse_event(e)),
        e is KeyDown || e is KeyUp || e is TextEditing || e is TextInput ==> is_keyboard_event(e),
        e is MouseMotion || e is MouseButtonDown || e is MouseButtonUp || e is MouseWheel
            ==> is_mouse_event(e),
        e is FingerDown || e is FingerUp || e is FingerMotion ==> is_mouse_event(e),
        e is DollarGesture || e is DollarRecord || e is MultiGesture ==> is_mouse_event(e),
        e is Other ==> !is_keyboard_event(e) && !is_mouse_event(e),
{
}

/// System cursor showing an ImGui cursor
pub open spec fn system_cursor_of(c: MouseCursor) -> SystemCursor {
    match c {
        MouseCursor::Arrow => SystemCursor::Arrow,
        MouseCursor::TextInput => SystemCursor::IBeam,
        MouseCursor::ResizeAll => SystemCursor::SizeAll,
        MouseCursor::ResizeNS => SystemCursor::SizeNS,
        MouseCursor::ResizeEW => SystemCursor::SizeWE,
        MouseCursor::ResizeNESW => SystemCursor::SizeNESW,
        MouseCursor::ResizeNWSE => SystemCursor::SizeNWSE,
        MouseCursor::Hand => SystemCursor::Hand,
        MouseCursor::NotAllowed => SystemCursor::No,
    }
}

/// Each modifier is held exactly when either of its two SDL bits is set, the left or the right
/// key: shift by 0x0001 or 0x0002, control by 0x0040 or 0x0080, alt by 0x0100 or 0x0200 and
/// super (GUI) by 0x0400 or 0x0800. No other bit sets a modifier.
pub proof fn lemma_modifier_bits(keymod: u16)
    ensures
        key_modifiers(keymod).shift <==> (keymod & 0x0001u16 != 0 || keymod & 0x0002u16 != 0),
        key_modifiers(keymod).ctrl <==> (keymod & 0x0040u16 != 0 || keymod & 0x0080u16 != 0),
        key_modifiers(keymod).alt <==> (keymod & 0x0100u16 != 0 || keymod & 0x0200u16 != 0),
        key_modifiers(keymod).super_ <==> (keymod & 0x0400u16 != 0 || keymod & 0x0800u16 != 0),
{
    assert((keymod & (0x0002u16 | 0x0001u16) != 0) <==> (keymod & 0x0001u16 != 0 || keymod
        & 0x0002u16 != 0)) by (bit_vector);
    assert((keymod & (0x0080u16 | 0x0040u16) != 0) <==> (keymod & 0x0040u16 != 0 || keymod
        & 0x0080u16 != 0)) by (bit_vector);
    assert((keymod & (0x0200u16 | 0x0100u16) != 0) <==> (keymod & 0x0100u16 != 0 || keymod
        & 0x0200u16 != 0)) by (bit_vector);
    assert((keymod & (0x0800u16 | 0x0400u16) != 0) <==> (keymod & 0x0400u16 != 0 || keymod
        & 0x0800u16 != 0)) by (bit_vector);
}

/// The modifiers held according to SDL modifier bits
pub fn modifiers_from_bits(keymod: u16) -> (r: KeyModifiers)
    ensures
        r == key_modifiers(keymod),
        r.shift <==> (keymod & 0x0001u16 != 0 || keymod & 0x0002u16 != 0),
        r.ctrl <==> (keymod & 0x0040u16 != 0 || keymod & 0x0080u16 != 0),
        r.alt <==> (keymod & 0x0100u16 != 0 || keymod & 0x0200u16 != 0),
        r.super_ <==> (keymod & 0x0400u16 != 0 || keymod & 0x0800u16 != 0),
{
    proof {
        lemma_modifier_bits(keymod);
    }
    KeyModifiers {
        ctrl: keymod & (KMOD_RCTRL | KMOD_LCTRL) != 0,
        alt: keymod & (KMOD_RALT | KMOD_LALT) != 0,
        shift: keymod & (KMOD_RSHIFT | KMOD_LSHIFT) != 0,
        super_: keymod & (KMOD_RGUI | KMOD_LGUI) != 0,
    }
}

/// The system cursor shown for each ImGui cursor: the arrow for the arrow, the I-beam for text
/// input, the four-way arrow for moving, the double arrow of the same direction for each resize
/// (north-south, west-east, north-east to south-west, north-west to south-east), the hand for
/// the hand and the slashed circle for a refused action. Distinct ImGui cursors get distinct
/// system cursors.
pub proof fn lemma_system_cursor_table(c: MouseCursor, d: MouseCursor)
    ensures
        c == MouseCursor::Arrow ==> system_cursor_of(c) == SystemCursor::Arrow,
        c == MouseCursor::TextInput ==> system_cursor_of(c) == SystemCursor::IBeam,
        c == MouseCursor::ResizeAll ==> system_cursor_of(c) == SystemCursor::SizeAll,
        c == MouseCursor::ResizeNS ==> system_cursor_of(c) == SystemCursor::SizeNS,
        c == MouseCursor::ResizeEW ==> system_cursor_of(c) == SystemCursor::SizeWE,
        c == MouseCursor::ResizeNESW ==> system_cursor_of(c) == SystemCursor::SizeNESW,
        c == MouseCursor::ResizeNWSE ==> system_cursor_of(c) == SystemCursor::SizeNWSE,
        c == MouseCursor::Hand ==> system_cursor_of(c) == SystemCursor::Hand,
        c == MouseCursor::NotAllowed ==> system_cursor_of(c) == SystemCursor::No,
        c != d ==> system_cursor_of(c) != system_cursor_of(d),
{
}

/// System cursor showing an ImGui cursor
pub fn system_cursor(c: MouseCursor) -> (r: SystemCursor)
    ensures
        r == system_cursor_of(c),
        c == MouseCursor::Arrow ==> r == SystemCursor::Arrow,
        c == MouseCursor::TextInput ==> r == SystemCursor::IBeam,
        c == MouseCursor::ResizeAll ==> r == SystemCursor::SizeAll,
        c == MouseCursor::ResizeNS ==> r == SystemCursor::SizeNS,
        c == MouseCursor::ResizeEW ==> r == SystemCursor::SizeWE,
        c == MouseCursor::ResizeNESW ==> r == SystemCursor::SizeNESW,
        c == MouseCursor::ResizeNWSE ==> r == SystemCursor::SizeNWSE,
        c == MouseCursor::Hand ==> r == SystemCursor::Hand,
        c == MouseCursor::NotAllowed ==> r == SystemCursor::No,
{
    match c {
        MouseCursor::Arrow => SystemCursor::Arrow,
        MouseCursor::TextInput => SystemCursor::IBeam,
        MouseCursor::ResizeAll => SystemCursor::SizeAll,
        MouseCursor::ResizeNS => SystemCursor::SizeNS,
        MouseCursor::ResizeEW => SystemCursor::SizeWE,
        MouseCursor::ResizeNESW => SystemCursor::SizeNESW,
        MouseCursor::ResizeNWSE => SystemCursor::SizeNWSE,
        MouseCursor::Hand => SystemCursor::Hand,
        MouseCursor::NotAllowed => SystemCursor::No,
    }
}

/// ImGui's key map for SDL: pairs of an ImGui key index and the SDL scancode that drives it.
/// The keys are Tab, the four arrows, PageUp, PageDown, Home, End, Delete, Backspace, Enter
/// (SDL's Return), Escape, Space, A, C, V, X, Y and Z; each maps to the scancode of the same
/// name. ImGui numbers its keys Tab 0, arrows 1 to 4, PageUp 5, PageDown 6, Home 7, End 8,
/// Delete 10, Backspace 11, Space 12, Enter 13, Escape 14, A 16, C 17, V 18, X 19, Y 20, Z 21.
pub open spec fn imgui_key_map() -> Seq<(u32, u32)> {
    seq![
        (0, 43), // Tab -> Tab
        (1, 80), // LeftArrow -> Left
        (2, 79), // RightArrow -> Right
        (3, 82), // UpArrow -> Up
        (4, 81), // DownArrow -> Down
        (5, 75), // PageUp -> PageUp
        (6, 78), // PageDown -> PageDown
        (7, 74), // Home -> Home
        (8, 77), // End -> End
        (10, 76), // Delete -> Delete
        (11, 42), // Backspace -> Backspace
        (13, 40), // Enter -> Return
        (14, 41), // Escape -> Escape
        (12, 44), // Space -> Space
        (16, 4), // A -> A
        (17, 6), // C -> C
        (18, 25), // V -> V
        (19, 27), // X -> X
        (20, 28), // Y -> Y
        (21, 29), // Z -> Z
    ]
}

/// The key map drives each ImGui key by one SDL scancode and no scancode drives two keys. The
/// scancodes are USB usage codes: the letters count up from A at 4 (C 6, V 25, X 27, Y 28,
/// Z 29), Enter is Return 40 followed by Escape 41, Backspace 42, Tab 43 and Space 44, and the
/// arrows are Right 79, Left 80, Down 81 and Up 82. Every ImGui key index is below 22, the
/// size of ImGui's key map, and every scancode below 512, the size of its key state array.
pub proof fn lemma_key_map_entries()
    ensures
        imgui_key_map().len() == 20,
        forall|i: int, j: int|
            0 <= i < j < 20 ==> imgui_key_map()[i].0 != imgui_key_map()[j].0
                && imgui_key_map()[i].1 != imgui_key_map()[j].1,
        forall|i: int|
            0 <= i < 20 ==> (#[trigger] imgui_key_map()[i]).0 < 22 && imgui_key_map()[i].1 < 512,
        imgui_key_map()[14] == (16u32, 4u32),
        imgui_key_map()[15] == (17u32, 6u32),
        imgui_key_map()[16] == (18u32, 25u32),
        imgui_key_map()[17] == (19u32, 27u32),
        imgui_key_map()[18] == (20u32, 28u32),
        imgui_key_map()[19] == (21u32, 29u32),
        imgui_key_map()[11] == (13u32, 40u32),
        imgui_key_map()[12] == (14u32, 41u32),
        imgui_key_map()[10] == (11u32, 42u32),
        imgui_key_map()[0] == (0u32, 43u32),
        imgui_key_map()[13] == (12u32, 44u32),
        imgui_key_map()[2] == (2u32, 79u32),
        imgui_key_map()[1] == (1u32, 80u32),
        imgui_key_map()[4] == (4u32, 81u32),
        imgui_key_map()[3] == (3u32, 82u32),
{
}

/// The key map to copy into ImGui's `key_map` (entry `key` set to `scancode`)
pub fn key_map() -> (r: [(u32, u32); 20])
    ensures
        r@ == imgui_key_map(),
{
    let r = [
        (0, 43), // Tab -> Tab
        (1, 80), // LeftArrow -> Left
        (2, 79), // RightArrow -> Right
        (3, 82), // UpArrow -> Up
        (4, 81), // DownArrow -> Down
        (5, 75), // PageUp -> PageUp
        (6, 78), // PageDown -> PageDown
        (7, 74), // Home -> Home
        (8, 77), // End -> End
        (10, 76), // Delete -> Delete
        (11, 42), // Backspace -> Backspace
        (13, 40), // Enter -> Return
        (14, 41), // Escape -> Escape
        (12, 44), // Space -> Space
        (16, 4), // A -> A
        (17, 6), // C -> C
        (18, 25), // V -> V
        (19, 27), // X -> X
        (20, 28), // Y -> Y
        (21, 29), // Z -> Z
    ];
    assert(r@ == imgui_key_map());
    r
}

/// SDL2 backend state for ImGui
pub struct ImguiSdl2 {
    pub mouse_press: [bool; 5],
    pub ignore_mouse: bool,
    pub ignore_keyboard: bool,
    pub cursor: Option<MouseCursor>,
    pub sdl_cursor: Option<SystemCursor>,
}

impl ImguiSdl2 {
    /// No press remembered, nothing ignored, no cursor chosen
    pub fn new() -> (r: ImguiSdl2)
        ensures
            forall|i: int| 0 <= i < 5 ==> !r.mouse_press[i],
            !r.ignore_mouse,
            !r.ignore_keyboard,
            r.cursor is None,
            r.sdl_cursor is None,
    {
        ImguiSdl2 {
            mouse_press: [false, false, false, false, false],
            ignore_keyboard: false,
            ignore_mouse: false,
            cursor: None,
            sdl_cursor: None,
        }
    }

    /// Handles an SDL event. A press of a known mouse button is remembered until the next
    /// frame; wheel, text and key events are passed on to ImGui. The event is captured when it
    /// is a keyboard event and ImGui wants the keyboard, or a mouse event and ImGui wants the
    /// mouse.
    pub fn handle_event(&mut self, event: &InputEvent) -> (r: EventOutcome)
        ensures
            r.captured == if is_keyboard_event(*event) {
                old(self).ignore_keyboard
            } else if is_mouse_event(*event) {
                old(self).ignore_mouse
            } else {
                false
            },
            forall|i: int|
                0 <= i < 5 ==> final(self).mouse_press[i] == pressed_after_event(
                    old(self).mouse_press[i],
                    *event,
                    i,
                ),
            final(self).ignore_mouse == old(self).ignore_mouse,
            final(self).ignore_keyboard == old(self).ignore_keyboard,
            final(self).cursor == old(self).cursor,
            final(self).sdl_cursor == old(self).sdl_cursor,
            r.io == match *event {
                InputEvent::MouseWheel { y } => IoUpdate::MouseWheel(y),
                InputEvent::TextInput => IoUpdate::TextInput,
                InputEvent::KeyDown { scancode, keymod } => (IoUpdate::Keys {
                    modifiers: key_modifiers(keymod),
                    scancode,
                    down: true,
                }),
                InputEvent::KeyUp { scancode, keymod } => (IoUpdate::Keys {
                    modifiers: key_modifiers(keymod),
                    scancode,
                    down: false,
                }),
                _ => IoUpdate::Nothing,
            },
    {
        let io = match *event {
            InputEvent::MouseWheel { y } => IoUpdate::MouseWheel(y),
            InputEvent::MouseButtonDown { mouse_btn } => {
                let p = self.mouse_press;
                self.mouse_press = match mouse_btn {
                    MouseButton::Left => [true, p[1], p[2], p[3], p[4]],
                    MouseButton::Right => [p[0], true, p[2], p[3], p[4]],
                    MouseButton::Middle => [p[0], p[1], true, p[3], p[4]],
                    MouseButton::X1 => [p[0], p[1], p[2], true, p[4]],
                    MouseButton::X2 => [p[0], p[1], p[2], p[3], true],
                    MouseButton::Unknown => p,
                };
                IoUpdate::Nothing
            },
            InputEvent::TextInput => IoUpdate::TextInput,
            InputEvent::KeyDown { scancode, keymod } => IoUpdate::Keys {
                modifiers: modifiers_from_bits(keymod),
                scancode,
                down: true,
            },
            InputEvent::KeyUp { scancode, keymod } => IoUpdate::Keys {
                modifiers: modifiers_from_bits(keymod),
                scancode,
                down: false,
            },
            _ => IoUpdate::Nothing,
        };
        EventOutcome { captured: self.ignore_event(event), io }
    }

    /// Whether ImGui captures the event
    fn ignore_event(&self, event: &InputEvent) -> (r: bool)
        ensures
            r == if is_keyboard_event(*event) {
                self.ignore_keyboard
            } else if is_mouse_event(*event) {
                self.ignore_mouse
            } else {
                false
            },
    {
        match *event {
            InputEvent::KeyDown { .. }
            | InputEvent::KeyUp { .. }
            | InputEvent::TextEditing
            | InputEvent::TextInput => self.ignore_keyboard,
            InputEvent::MouseMotion
            | InputEvent::MouseButtonDown { .. }
            | InputEvent::MouseButtonUp
            | InputEvent::MouseWheel { .. }
            | InputEvent::FingerDown
            | InputEvent::FingerUp
            | InputEvent::FingerMotion
            | InputEvent::DollarGesture
            | InputEvent::DollarRecord
            | InputEvent::MultiGesture => self.ignore_mouse,
            _ => false,
        }
    }

    /// Starts a frame: a button is down when it was pressed since the last frame or is held
    /// now; the remembered presses are cleared; the mouse is captured while a button is down;
    /// ImGui's wishes for keyboard and mouse are remembered for the frame's events.
    pub fn prepare_frame(
        &mut self,
        mouse_state: [bool; 5],
        want_capture_keyboard: bool,
        want_capture_mouse: bool,
    ) -> (r: FrameInput)
        ensures
            forall|i: int|
                0 <= i < 5 ==> r.mouse_down[i] == down_in_frame(old(self).mouse_press[i], mouse_state[i]),
            r.capture_mouse == exists|i: int| 0 <= i < 5 && #[trigger] r.mouse_down[i],
            forall|i: int| 0 <= i < 5 ==> !final(self).mouse_press[i],
            final(self).ignore_keyboard == want_capture_keyboard,
            final(self).ignore_mouse == want_capture_mouse,
            final(self).cursor == old(self).cursor,
            final(self).sdl_cursor == old(self).sdl_cursor,
    {
        let p = self.mouse_press;
        let mouse_down = [
            p[0] || mouse_state[0],
            p[1] || mouse_state[1],
            p[2] || mouse_state[2],
            p[3] || mouse_state[3],
            p[4] || mouse_state[4],
        ];
        self.mouse_press = [false, false, false, false, false];
        let capture_mouse = mouse_down[0] || mouse_down[1] || mouse_down[2] || mouse_down[3]
            || mouse_down[4];
        self.ignore_keyboard = want_capture_keyboard;
        self.ignore_mouse = want_capture_mouse;
        let r = FrameInput { mouse_down, capture_mouse };
        assert(r.capture_mouse == exists|i: int| 0 <= i < 5 && #[trigger] r.mouse_down[i]) by {
            if r.capture_mouse {
                if mouse_down[0] {
                    assert(r.mouse_down[0]);
                } else if mouse_down[1] {
                    assert(r.mouse_down[1]);
                } else if mouse_down[2] {
                    assert(r.mouse_down[2]);
                } else if mouse_down[3] {
                    assert(r.mouse_down[3]);
                } else {
                    assert(r.mouse_down[4]);
                }
            }
        }
        r
    }

    /// Chooses what to do with the OS cursor. Nothing, when ImGui must not change it. When
    /// ImGui asks for a cursor and does not draw one itself, the cursor is shown, switching to
    /// the matching system cursor when ImGui's choice changed. Otherwise the cursor is hidden
    /// and forgotten.
    pub fn prepare_render(
        &mut self,
        no_mouse_cursor_change: bool,
        mouse_cursor: Option<MouseCursor>,
        mouse_draw_cursor: bool,
    ) -> (r: CursorAction)
        ensures
            no_mouse_cursor_change ==> r == CursorAction::Unchanged
                && final(self).cursor == old(self).cursor
                && final(self).sdl_cursor == old(self).sdl_cursor,
            !no_mouse_cursor_change && mouse_cursor is Some && !mouse_draw_cursor ==> {
                let c = mouse_cursor.unwrap();
                if old(self).cursor != Some(c) {
                    &&& r == (CursorAction::Show { switch_to: Some(system_cursor_of(c)) })
                    &&& final(self).cursor == Some(c)
                    &&& final(self).sdl_cursor == Some(system_cursor_of(c))
                } else {
                    &&& r == (CursorAction::Show { switch_to: None })
                    &&& final(self).cursor == old(self).cursor
                    &&& final(self).sdl_cursor == old(self).sdl_cursor
                }
            },
            !no_mouse_cursor_change && (mouse_cursor is None || mouse_draw_cursor) ==> r
                == CursorAction::Hide && final(self).cursor is None
                && final(self).sdl_cursor is None,
            final(self).mouse_press == old(self).mouse_press,
            final(self).ignore_mouse == old(self).ignore_mouse,
            final(self).ignore_keyboard == old(self).ignore_keyboard,
    {
        if no_mouse_cursor_change {
            return CursorAction::Unchanged;
        }
        match mouse_cursor {
            Some(c) if !mouse_draw_cursor => {
                let sys = system_cursor(c);
                let changed = match self.cursor {
                    Some(prev) => prev != c,
                    None => true,
                };
                if changed {
                    self.cursor = Some(c);
                    self.sdl_cursor = Some(sys);
                    CursorAction::Show { switch_to: Some(sys) }
                } else {
                    CursorAction::Show { switch_to: None }
                }
            },
            _ => {
                self.cursor = None;
                self.sdl_cursor = None;
                CursorAction::Hide
            },
        }
    }
}

} // verus!
