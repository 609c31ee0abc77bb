use ferricia_mui::display::{display_action, DisplayAction};
use ferricia_mui::events::{
    translate, translate_batch, DisplayHandle, FloatBits, MouseKey, MuiEvent, NativeDisplayEvent,
    NativeEvent, NativeWindowEvent,
};
use ferricia_mui::keyboard::{KeyboardKey, UNKNOWN_SCANCODE};

fn bits(v: f32) -> FloatBits {
    FloatBits { bits: v.to_bits() }
}

fn key_down(code: Option<i32>, repeat: bool) -> NativeEvent {
    NativeEvent::KeyDown { which: 7, scancode: code, repeat }
}

#[test]
fn keyboard_table_known_codes() {
    assert_eq!(KeyboardKey::from_scancode(4), Some(KeyboardKey::A));
    assert_eq!(KeyboardKey::from_scancode(29), Some(KeyboardKey::Z));
    assert_eq!(KeyboardKey::from_scancode(30), Some(KeyboardKey::_1));
    assert_eq!(KeyboardKey::from_scancode(39), Some(KeyboardKey::_0));
    assert_eq!(KeyboardKey::from_scancode(40), Some(KeyboardKey::Return));
    assert_eq!(KeyboardKey::from_scancode(224), Some(KeyboardKey::LCtrl));
    assert_eq!(KeyboardKey::from_scancode(286), Some(KeyboardKey::AcBookmarks));
}

#[test]
fn keyboard_table_unknown_codes() {
    for code in [UNKNOWN_SCANCODE, 1, 2, 3, 165, 287, 400, -1, i32::MAX] {
        assert_eq!(KeyboardKey::from_scancode(code), None, "{code}");
    }
}

#[test]
fn unknown_scancode_key_down_gives_no_event() {
    assert_eq!(translate(key_down(Some(300), false)), None);
    assert_eq!(translate(key_down(Some(300), true)), None);
    assert_eq!(translate(key_down(Some(UNKNOWN_SCANCODE), false)), None);
    assert_eq!(translate(key_down(Some(UNKNOWN_SCANCODE), true)), None);
    assert_eq!(translate(key_down(None, false)), None);
}

#[test]
fn repeated_known_key_down_gives_event_every_time() {
    let batch = vec![
        key_down(Some(4), false),
        key_down(Some(4), true),
        key_down(Some(4), true),
    ];
    let out = translate_batch(batch);
    assert_eq!(out, vec![MuiEvent::KeyboardKeyDown(7, KeyboardKey::A); 3]);
}

#[test]
fn key_up_maps_like_key_down() {
    let e = NativeEvent::KeyUp { which: 2, scancode: Some(41), repeat: false };
    assert_eq!(translate(e), Some(MuiEvent::KeyboardKeyUp(2, KeyboardKey::Escape)));
    let e = NativeEvent::KeyUp { which: 2, scancode: Some(UNKNOWN_SCANCODE), repeat: true };
    assert_eq!(translate(e), None);
}

#[test]
fn mouse_wheel_vertical_is_inverted() {
    let e = NativeEvent::MouseWheel { which: 1, x: bits(0.0), y: bits(5.0) };
    match translate(e) {
        Some(MuiEvent::MouseWheel(1, x, y)) => {
            assert_eq!(f32::from_bits(x.bits), 0.0);
            assert_eq!(f32::from_bits(y.bits), -5.0);
        }
        other => panic!("unexpected {other:?}"),
    }
    let e = NativeEvent::MouseWheel { which: 1, x: bits(1.5), y: bits(-2.25) };
    match translate(e) {
        Some(MuiEvent::MouseWheel(1, x, y)) => {
            assert_eq!(f32::from_bits(x.bits), 1.5);
            assert_eq!(f32::from_bits(y.bits), 2.25);
        }
        other => panic!("unexpected {other:?}"),
    }
}

#[test]
fn float_negation_flips_only_the_sign() {
    assert_eq!(f32::from_bits(bits(3.5).negated().bits), -3.5);
    assert_eq!(f32::from_bits(bits(-0.0).negated().bits).to_bits(), 0.0f32.to_bits());
    assert_eq!(bits(7.0).negated().negated(), bits(7.0));
}

#[test]
fn mouse_buttons_map_by_index() {
    let down = |b: u8| translate(NativeEvent::MouseButtonDown { which: 3, button: b });
    assert_eq!(down(1), Some(MuiEvent::MouseButtonDown(3, MouseKey::Left)));
    assert_eq!(down(2), Some(MuiEvent::MouseButtonDown(3, MouseKey::Middle)));
    assert_eq!(down(3), Some(MuiEvent::MouseButtonDown(3, MouseKey::Right)));
    assert_eq!(down(4), Some(MuiEvent::MouseButtonDown(3, MouseKey::X1)));
    assert_eq!(down(5), Some(MuiEvent::MouseButtonDown(3, MouseKey::X2)));
    assert_eq!(down(0), None);
    assert_eq!(down(6), None);
    let up = translate(NativeEvent::MouseButtonUp { which: 3, button: 3 });
    assert_eq!(up, Some(MuiEvent::MouseButtonUp(3, MouseKey::Right)));
}

#[test]
fn window_events_map_one_to_one() {
    let w = |e: NativeWindowEvent| translate(NativeEvent::Window(e));
    assert_eq!(w(NativeWindowEvent::Shown), Some(MuiEvent::WindowShown));
    assert_eq!(w(NativeWindowEvent::Resized(1024, 768)), Some(MuiEvent::WindowResized(1024, 768)));
    assert_eq!(
        w(NativeWindowEvent::PixelSizeChanged(2048, 1536)),
        Some(MuiEvent::WindowPixelSizeChanged(2048, 1536))
    );
    assert_eq!(w(NativeWindowEvent::Moved(-5, 9)), Some(MuiEvent::WindowMoved(-5, 9)));
    assert_eq!(w(NativeWindowEvent::CloseRequested), Some(MuiEvent::WindowCloseRequested));
    assert_eq!(w(NativeWindowEvent::IccProfChanged), Some(MuiEvent::WindowIccProfChanged));
    assert_eq!(w(NativeWindowEvent::Other), None);
}

#[test]
fn payload_events_keep_their_payload() {
    assert_eq!(
        translate(NativeEvent::TextEditing { text: "ab".to_string(), start: 1, length: 2 }),
        Some(MuiEvent::TextEditing("ab".to_string(), 1, 2))
    );
    assert_eq!(
        translate(NativeEvent::DropFile { filename: "/tmp/x.png".to_string() }),
        Some(MuiEvent::DropFile("/tmp/x.png".to_string()))
    );
    assert_eq!(
        translate(NativeEvent::JoyHatMotion { which: 4, hat: 0, state: 0x02 | 0x01 }),
        Some(MuiEvent::JoystickHatMotion(4, 0, 3))
    );
    assert_eq!(
        translate(NativeEvent::GamepadAxisMotion { which: 9, axis: 2, value: -300 }),
        Some(MuiEvent::GamepadAxisMotion(9, 2, -300))
    );
    assert_eq!(
        translate(NativeEvent::MouseMotion { which: 1, xrel: bits(2.0), yrel: bits(-1.0) }),
        Some(MuiEvent::MouseMotion(1, bits(2.0), bits(-1.0)))
    );
    assert_eq!(translate(NativeEvent::RenderDeviceReset), Some(MuiEvent::RenderDeviceReset));
    assert_eq!(translate(NativeEvent::Other), None);
}

#[test]
fn display_events_carry_their_handle() {
    let d = |e: NativeDisplayEvent| translate(NativeEvent::Display { display: 42, event: e });
    let h = DisplayHandle { display: 42 };
    assert_eq!(d(NativeDisplayEvent::Added), Some(MuiEvent::DisplayAdded(h)));
    assert_eq!(d(NativeDisplayEvent::Removed), Some(MuiEvent::DisplayRemoved(h)));
    assert_eq!(d(NativeDisplayEvent::Moved), Some(MuiEvent::DisplayMoved(h)));
    assert_eq!(d(NativeDisplayEvent::Other), None);
    assert_eq!(display_action(&MuiEvent::DisplayMoved(h)), Some(DisplayAction::RefreshBounds(42)));
    assert_eq!(display_action(&MuiEvent::DisplayAdded(h)), Some(DisplayAction::Register(42)));
    assert_eq!(display_action(&MuiEvent::DisplayRemoved(h)), Some(DisplayAction::Forget(42)));
    assert_eq!(display_action(&MuiEvent::WindowShown), None);
}

#[test]
fn batch_keeps_arrival_order_and_drops_unknown() {
    let batch = vec![
        NativeEvent::Window(NativeWindowEvent::FocusGained),
        NativeEvent::Other,
        key_down(Some(300), false),
        NativeEvent::TextInput { text: "x".to_string() },
        NativeEvent::Window(NativeWindowEvent::Other),
        NativeEvent::JoyDeviceAdded { which: 5 },
    ];
    assert_eq!(
        translate_batch(batch),
        vec![
            MuiEvent::WindowFocusGained,
            MuiEvent::TextInput("x".to_string()),
            MuiEvent::JoystickAdded(5),
        ]
    );
    assert_eq!(translate_batch(Vec::new()), Vec::new());
}
