use vstd::prelude::*;

use crate::keyboard::{scancode_key, KeyboardKey, UNKNOWN_SCANCODE};

verus! {

/// A single-precision IEEE-754 value carried by its bit pattern, so that the
/// translator moves it without doing arithmetic on it.
#[derive(Debug, Clone, Copy, PartialEq, Eq, Hash, Structural)]
pub struct FloatBits {
    pub bits: u32,
}

pub open spec fn sign_bit(bits: u32) -> u32 {
    bits >> 31u32
}

pub open spec fn magnitude_bits(bits: u32) -> u32 {
    bits & 0x7fff_ffffu32
}

/// The value with its sign inverted: only the sign bit differs.
pub open spec fn negation(f: FloatBits) -> FloatBits {
    FloatBits { bits: f.bits ^ 0x8000_0000u32 }
}

impl FloatBits {
    /// The same value with its sign inverted: the sign bit flips, the
    /// exponent and mantissa stay.
    pub fn negated(self) -> (r: FloatBits)
        ensures
            r == negation(self),
            sign_bit(r.bits) != sign_bit(self.bits),
            magnitude_bits(r.bits) == magnitude_bits(self.bits),
    {
        let r = FloatBits { bits: self.bits ^ 0x8000_0000u32 };
        proof {
            let b = self.bits;
            assert((b ^ 0x8000_0000u32) >> 31u32 != b >> 31u32) by (bit_vector);
            assert((b ^ 0x8000_0000u32) & 0x7fff_ffffu32 == b & 0x7fff_ffffu32) by (bit_vector);
        }
        r
    }
}

/// A mouse button that the host application distinguishes.
#[derive(Debug, Clone, Copy, PartialEq, Eq, Hash, Structural)]
pub enum MouseKey {
    Left,
    Middle,
    Right,
    X1,
    X2,
}

/// The known mouse buttons by the index that the windowing library gives
/// them; every other index has no button.
pub open spec fn button_key(index: u8) -> Option<MouseKey> {
    match index {
        1 => Some(MouseKey::Left),
        2 => Some(MouseKey::Middle),
        3 => Some(MouseKey::Right),
        4 => Some(MouseKey::X1),
        5 => Some(MouseKey::X2),
        _ => None,
    }
}

impl MouseKey {
    /// The button at a native button index, if it is one of the known ones.
    pub fn from_button_index(index: u8) -> (r: Option<MouseKey>)
        ensures
            r == button_key(index),
    {
        match index {
            1 => Some(MouseKey::Left),
            2 => Some(MouseKey::Middle),
            3 => Some(MouseKey::Right),
            4 => Some(MouseKey::X1),
            5 => Some(MouseKey::X2),
            _ => None,
        }
    }
}

/// An opaque handle to a display, by the identity the windowing library
/// gives it.
#[derive(Debug, Clone, Copy, PartialEq, Eq, Hash, Structural)]
pub struct DisplayHandle {
    pub display: u32,
}

/// A window sub-event as the windowing library reports it.
#[derive(Debug, Clone, Copy, PartialEq, Eq, Structural)]
pub enum NativeWindowEvent {
    Shown,
    Hidden,
    Exposed,
    Moved(i32, i32),
    Resized(i32, i32),
    PixelSizeChanged(i32, i32),
    Minimized,
    Maximized,
    Restored,
    MouseEnter,
    MouseLeave,
    FocusGained,
    FocusLost,
    CloseRequested,
    IccProfChanged,
    /// A sub-event that the host has no use for.
    Other,
}

/// A display sub-event as the windowing library reports it.
#[derive(Debug, Clone, Copy, PartialEq, Eq, Structural)]
pub enum NativeDisplayEvent {
    Added,
    Removed,
    Moved,
    /// A sub-event that the host has no use for.
    Other,
}

/// An event as the windowing library reports it, reduced to what the
/// translator reads. Window identities are left out: one window exists.
#[allow(inconsistent_fields)]
#[derive(Debug, Clone, PartialEq, Eq)]
pub enum NativeEvent {
    Window(NativeWindowEvent),
    KeyDown { which: u32, scancode: Option<i32>, repeat: bool },
    KeyUp { which: u32, scancode: Option<i32>, repeat: bool },
    TextEditing { text: String, start: i32, length: i32 },
    TextInput { text: String },
    MouseMotion { which: u32, xrel: FloatBits, yrel: FloatBits },
    MouseButtonDown { which: u32, button: u8 },
    MouseButtonUp { which: u32, button: u8 },
    MouseWheel { which: u32, x: FloatBits, y: FloatBits },
    JoyAxisMotion { which: u32, axis: u8, value: i16 },
    /// `state` is the native hat bit mask.
    JoyHatMotion { which: u32, hat: u8, state: u8 },
    JoyButtonDown { which: u32, button: u8 },
    JoyButtonUp { which: u32, button: u8 },
    JoyDeviceAdded { which: u32 },
    JoyDeviceRemoved { which: u32 },
    /// `axis` is the native gamepad axis code.
    GamepadAxisMotion { which: u32, axis: i32, value: i16 },
    /// `button` is the native gamepad button code.
    GamepadButtonDown { which: u32, button: i32 },
    GamepadButtonUp { which: u32, button: i32 },
    GamepadAdded { which: u32 },
    GamepadRemoved { which: u32 },
    GamepadRemapped { which: u32 },
    GamepadTouchpadDown {
        which: u32,
        touchpad: i32,
        finger: i32,
        x: FloatBits,
        y: FloatBits,
        pressure: FloatBits,
    },
    GamepadTouchpadMotion {
        which: u32,
        touchpad: i32,
        finger: i32,
        x: FloatBits,
        y: FloatBits,
        pressure: FloatBits,
    },
    GamepadTouchpadUp {
        which: u32,
        touchpad: i32,
        finger: i32,
        x: FloatBits,
        y: FloatBits,
        pressure: FloatBits,
    },
    DropFile { filename: String },
    DropText { text: String },
    DropBegin,
    DropComplete,
    RenderTargetsReset,
    RenderDeviceReset,
    Display { display: u32, event: NativeDisplayEvent },
    /// An event of a category that the host has no use for.
    Other,
}

/// The closed set of events that the host application receives.
#[derive(Debug, Clone, PartialEq, Eq)]
pub enum MuiEvent {
    DisplayAdded(DisplayHandle),
    DisplayRemoved(DisplayHandle),
    DisplayMoved(DisplayHandle),
    WindowShown,
    WindowHidden,
    WindowExposed,
    WindowMoved(i32, i32),
    WindowResized(i32, i32),
    /// The size to give the viewport.
    WindowPixelSizeChanged(i32, i32),
    WindowMinimized,
    WindowMaximized,
    WindowRestored,
    WindowMouseEnter,
    WindowMouseLeave,
    WindowFocusGained,
    WindowFocusLost,
    WindowCloseRequested,
    WindowIccProfChanged,
    KeyboardKeyDown(u32, KeyboardKey),
    KeyboardKeyUp(u32, KeyboardKey),
    TextEditing(String, i32, i32),
    TextInput(String),
    MouseMotion(u32, FloatBits, FloatBits),
    MouseButtonDown(u32, MouseKey),
    MouseButtonUp(u32, MouseKey),
    /// Vertical motion is positive downwards, the inverse of the native sign.
    MouseWheel(u32, FloatBits, FloatBits),
    JoystickAxisMotion(u32, u8, i16),
    JoystickHatMotion(u32, u8, u8),
    JoystickButtonDown(u32, u8),
    JoystickButtonUp(u32, u8),
    JoystickAdded(u32),
    JoystickRemoved(u32),
    GamepadAxisMotion(u32, i32, i16),
    GamepadButtonDown(u32, i32),
    GamepadButtonUp(u32, i32),
    GamepadAdded(u32),
    GamepadRemoved(u32),
    GamepadRemapped(u32),
    GamepadTouchpadDown(u32, i32, i32, FloatBits, FloatBits, FloatBits),
    GamepadTouchpadMotion(u32, i32, i32, FloatBits, FloatBits, FloatBits),
    GamepadTouchpadUp(u32, i32, i32, FloatBits, FloatBits, FloatBits),
    DropFile(String),
    DropText(String),
    DropBegin,
    DropComplete,
    RenderTargetsReset,
    RenderDeviceReset,
}

/// The key that a key event reports: none for a missing or unknown
/// scancode; a repeat of an unknown scancode is dropped before lookup.
pub open spec fn key_of_event(scancode: Option<i32>, repeat: bool) -> Option<KeyboardKey> {
    match scancode {
        Some(code) => if repeat && code == UNKNOWN_SCANCODE {
            None
        } else {
            scancode_key(code)
        },
        None => None,
    }
}

pub open spec fn window_translation(w: NativeWindowEvent) -> Option<MuiEvent> {
    match w {
        NativeWindowEvent::Shown => Some(MuiEvent::WindowShown),
        NativeWindowEvent::Hidden => Some(MuiEvent::WindowHidden),
        NativeWindowEvent::Exposed => Some(MuiEvent::WindowExposed),
        NativeWindowEvent::Moved(x, y) => Some(MuiEvent::WindowMoved(x, y)),
        NativeWindowEvent::Resized(w, h) => Some(MuiEvent::WindowResized(w, h)),
        NativeWindowEvent::PixelSizeChanged(w, h) => Some(MuiEvent::WindowPixelSizeChanged(w, h)),
        NativeWindowEvent::Minimized => Some(MuiEvent::WindowMinimized),
        NativeWindowEvent::Maximized => Some(MuiEvent::WindowMaximized),
        NativeWindowEvent::Restored => Some(MuiEvent::WindowRestored),
        NativeWindowEvent::MouseEnter => Some(MuiEvent::WindowMouseEnter),
        NativeWindowEvent::MouseLeave => Some(MuiEvent::WindowMouseLeave),
        NativeWindowEvent::FocusGained => Some(MuiEvent::WindowFocusGained),
        NativeWindowEvent::FocusLost => Some(MuiEvent::WindowFocusLost),
        NativeWindowEvent::CloseRequested => Some(MuiEvent::WindowCloseRequested),
        NativeWindowEvent::IccProfChanged => Some(MuiEvent::WindowIccProfChanged),
        NativeWindowEvent::Other => None,
    }
}

pub open spec fn display_translation(display: u32, e: NativeDisplayEvent) -> Option<MuiEvent> {
    let h = DisplayHandle { display };
    match e {
        NativeDisplayEvent::Added => Some(MuiEvent::DisplayAdded(h)),
        NativeDisplayEvent::Removed => Some(MuiEvent::DisplayRemoved(h)),
        NativeDisplayEvent::Moved => Some(MuiEvent::DisplayMoved(h)),
        NativeDisplayEvent::Other => None,
    }
}

/// The application event, if any, that one native event becomes.
pub open spec fn translation(e: NativeEvent) -> Option<MuiEvent> {
    match e {
        NativeEvent::Window(w) => window_translation(w),
        NativeEvent::KeyDown { which, scancode, repeat } => match key_of_event(scancode, repeat) {
            Some(k) => Some(MuiEvent::KeyboardKeyDown(which, k)),
            None => None,
        },
        NativeEvent::KeyUp { which, scancode, repeat } => match key_of_event(scancode, repeat) {
            Some(k) => Some(MuiEvent::KeyboardKeyUp(which, k)),
            None => None,
        },
        NativeEvent::TextEditing { text, start, length } => Some(
            MuiEvent::TextEditing(text, start, length),
        ),
        NativeEvent::TextInput { text } => Some(MuiEvent::TextInput(text)),
        NativeEvent::MouseMotion { which, xrel, yrel } => Some(
            MuiEvent::MouseMotion(which, xrel, yrel),
        ),
        NativeEvent::MouseButtonDown { which, button } => match button_key(button) {
            Some(k) => Some(MuiEvent::MouseButtonDown(which, k)),
            None => None,
        },
        NativeEvent::MouseButtonUp { which, button } => match button_key(button) {
            Some(k) => Some(MuiEvent::MouseButtonUp(which, k)),
            None => None,
        },
        NativeEvent::MouseWheel { which, x, y } => Some(
            MuiEvent::MouseWheel(which, x, negation(y)),
        ),
        NativeEvent::JoyAxisMotion { which, axis, value } => Some(
            MuiEvent::JoystickAxisMotion(which, axis, value),
        ),
        NativeEvent::JoyHatMotion { which, hat, state } => Some(
            MuiEvent::JoystickHatMotion(which, hat, state),
        ),
        NativeEvent::JoyButtonDown { which, button } => Some(
            MuiEvent::JoystickButtonDown(which, button),
        ),
        NativeEvent::JoyButtonUp { which, button } => Some(
            MuiEvent::JoystickButtonUp(which, button),
        ),
        NativeEvent::JoyDeviceAdded { which } => Some(MuiEvent::JoystickAdded(which)),
        NativeEvent::JoyDeviceRemoved { which } => Some(MuiEvent::JoystickRemoved(which)),
        NativeEvent::GamepadAxisMotion { which, axis, value } => Some(
            MuiEvent::GamepadAxisMotion(which, axis, value),
        ),
        NativeEvent::GamepadButtonDown { which, button } => Some(
            MuiEvent::GamepadButtonDown(which, button),
        ),
        NativeEvent::GamepadButtonUp { which, button } => Some(
            MuiEvent::GamepadButtonUp(which, button),
        ),
        NativeEvent::GamepadAdded { which } => Some(MuiEvent::GamepadAdded(which)),
        NativeEvent::GamepadRemoved { which } => Some(MuiEvent::GamepadRemoved(which)),
        NativeEvent::GamepadRemapped { which } => Some(MuiEvent::GamepadRemapped(which)),
        NativeEvent::GamepadTouchpadDown { which, touchpad, finger, x, y, pressure } => Some(
            MuiEvent::GamepadTouchpadDown(which, touchpad, finger, x, y, pressure),
        ),
        NativeEvent::GamepadTouchpadMotion { which, touchpad, finger, x, y, pressure } => Some(
            MuiEvent::GamepadTouchpadMotion(which, touchpad, finger, x, y, pressure),
        ),
        NativeEvent::GamepadTouchpadUp { which, touchpad, finger, x, y, pressure } => Some(
            MuiEvent::GamepadTouchpadUp(which, touchpad, finger, x, y, pressure),
        ),
        NativeEvent::DropFile { filename } => Some(MuiEvent::DropFile(filename)),
        NativeEvent::DropText { text } => Some(MuiEvent::DropText(text)),
        NativeEvent::DropBegin => Some(MuiEvent::DropBegin),
        NativeEvent::DropComplete => Some(MuiEvent::DropComplete),
        NativeEvent::RenderTargetsReset => Some(MuiEvent::RenderTargetsReset),
        NativeEvent::RenderDeviceReset => Some(MuiEvent::RenderDeviceReset),
        NativeEvent::Display { display, event } => display_translation(display, event),
        NativeEvent::Other => None,
    }
}

/// The application events that a batch of native events becomes, in
/// arrival order.
pub open spec fn translations(s: Seq<NativeEvent>) -> Seq<MuiEvent>
    decreases s.len(),
{
    if s.len() == 0 {
        Seq::empty()
    } else {
        let rest = translations(s.drop_last());
        match translation(s.last()) {
            Some(e) => rest.push(e),
            None => rest,
        }
    }
}

/// The key that a key event names, after the unknown-repeat filter.
pub fn key_for_event(scancode: Option<i32>, repeat: bool) -> (r: Option<KeyboardKey>)
    ensures
        r == key_of_event(scancode, repeat),
{
    match scancode {
        Some(code) => {
            if repeat && code == UNKNOWN_SCANCODE {
                None
            } else {
                KeyboardKey::from_scancode(code)
            }
        },
        None => None,
    }
}

fn window_event(w: NativeWindowEvent) -> (r: Option<MuiEvent>)
    ensures
        r == window_translation(w),
{
    match w {
        NativeWindowEvent::Shown => Some(MuiEvent::WindowShown),
        NativeWindowEvent::Hidden => Some(MuiEvent::WindowHidden),
        NativeWindowEvent::Exposed => Some(MuiEvent::WindowExposed),
        NativeWindowEvent::Moved(x, y) => Some(MuiEvent::WindowMoved(x, y)),
        NativeWindowEvent::Resized(w, h) => Some(MuiEvent::WindowResized(w, h)),
        NativeWindowEvent::PixelSizeChanged(w, h) => Some(MuiEvent::WindowPixelSizeChanged(w, h)),
        NativeWindowEvent::Minimized => Some(MuiEvent::WindowMinimized),
        NativeWindowEvent::Maximized => Some(MuiEvent::WindowMaximized),
        NativeWindowEvent::Restored => Some(MuiEvent::WindowRestored),
        NativeWindowEvent::MouseEnter => Some(MuiEvent::WindowMouseEnter),
        NativeWindowEvent::MouseLeave => Some(MuiEvent::WindowMouseLeave),
        NativeWindowEvent::FocusGained => Some(MuiEvent::WindowFocusGained),
        NativeWindowEvent::FocusLost => Some(MuiEvent::WindowFocusLost),
        NativeWindowEvent::CloseRequested => Some(MuiEvent::WindowCloseRequested),
        NativeWindowEvent::IccProfChanged => Some(MuiEvent::WindowIccProfChanged),
        NativeWindowEvent::Other => None,
    }
}

/// Translates one native event into the application event it stands for,
/// or drops it.
pub fn translate(e: NativeEvent) -> (r: Option<MuiEvent>)
    ensures
        r == translation(e),
{
    match e {
        NativeEvent::Window(w) => window_event(w),
        NativeEvent::KeyDown { which, scancode, repeat } => match key_for_event(scancode, repeat) {
            Some(k) => Some(MuiEvent::KeyboardKeyDown(which, k)),
            None => None,
        },
        NativeEvent::KeyUp { which, scancode, repeat } => match key_for_event(scancode, repeat) {
            Some(k) => Some(MuiEvent::KeyboardKeyUp(which, k)),
            None => None,
        },
        NativeEvent::TextEditing { text, start, length } => Some(
            MuiEvent::TextEditing(text, start, length),
        ),
        NativeEvent::TextInput { text } => Some(MuiEvent::TextInput(text)),
        NativeEvent::MouseMotion { which, xrel, yrel } => Some(
            MuiEvent::MouseMotion(which, xrel, yrel),
        ),
        NativeEvent::MouseButtonDown { which, button } => match MouseKey::from_button_index(button) {
            Some(k) => Some(MuiEvent::MouseButtonDown(which, k)),
            None => None,
        },
        NativeEvent::MouseButtonUp { which, button } => match MouseKey::from_button_index(button) {
            Some(k) => Some(MuiEvent::MouseButtonUp(which, k)),
            None => None,
        },
        NativeEvent::MouseWheel { which, x, y } => Some(MuiEvent::MouseWheel(which, x, y.negated())),
        NativeEvent::JoyAxisMotion { which, axis, value } => Some(
            MuiEvent::JoystickAxisMotion(which, axis, value),
        ),
        NativeEvent::JoyHatMotion { which, hat, state } => Some(
            MuiEvent::JoystickHatMotion(which, hat, state),
        ),
        NativeEvent::JoyButtonDown { which, button } => Some(
            MuiEvent::JoystickButtonDown(which, button),
        ),
        NativeEvent::JoyButtonUp { which, button } => Some(
            MuiEvent::JoystickButtonUp(which, button),
        ),
        NativeEvent::JoyDeviceAdded { which } => Some(MuiEvent::JoystickAdded(which)),
        NativeEvent::JoyDeviceRemoved { which } => Some(MuiEvent::JoystickRemoved(which)),
        NativeEvent::GamepadAxisMotion { which, axis, value } => Some(
            MuiEvent::GamepadAxisMotion(which, axis, value),
        ),
        NativeEvent::GamepadButtonDown { which, button } => Some(
            MuiEvent::GamepadButtonDown(which, button),
        ),
        NativeEvent::GamepadButtonUp { which, button } => Some(
            MuiEvent::GamepadButtonUp(which, button),
        ),
        NativeEvent::GamepadAdded { which } => Some(MuiEvent::GamepadAdded(which)),
        NativeEvent::GamepadRemoved { which } => Some(MuiEvent::GamepadRemoved(which)),
        NativeEvent::GamepadRemapped { which } => Some(MuiEvent::GamepadRemapped(which)),
        NativeEvent::GamepadTouchpadDown { which, touchpad, finger, x, y, pressure } => Some(
            MuiEvent::GamepadTouchpadDown(which, touchpad, finger, x, y, pressure),
        ),
        NativeEvent::GamepadTouchpadMotion { which, touchpad, finger, x, y, pressure } => Some(
            MuiEvent::GamepadTouchpadMotion(which, touchpad, finger, x, y, pressure),
        ),
        NativeEvent::GamepadTouchpadUp { which, touchpad, finger, x, y, pressure } => Some(
            MuiEvent::GamepadTouchpadUp(which, touchpad, finger, x, y, pressure),
        ),
        NativeEvent::DropFile { filename } => Some(MuiEvent::DropFile(filename)),
        NativeEvent::DropText { text } => Some(MuiEvent::DropText(text)),
        NativeEvent::DropBegin => Some(MuiEvent::DropBegin),
        NativeEvent::DropComplete => Some(MuiEvent::DropComplete),
        NativeEvent::RenderTargetsReset => Some(MuiEvent::RenderTargetsReset),
        NativeEvent::RenderDeviceReset => Some(MuiEvent::RenderDeviceReset),
        NativeEvent::Display { display, event } => {
            let h = DisplayHandle { display };
            match event {
                NativeDisplayEvent::Added => Some(MuiEvent::DisplayAdded(h)),
                NativeDisplayEvent::Removed => Some(MuiEvent::DisplayRemoved(h)),
                NativeDisplayEvent::Moved => Some(MuiEvent::DisplayMoved(h)),
                NativeDisplayEvent::Other => None,
            }
        },
        NativeEvent::Other => None,
    }
}

/// Translates a drained batch of native events, keeping their arrival
/// order and dropping those that have no application event.
pub fn translate_batch(events: Vec<NativeEvent>) -> (r: Vec<MuiEvent>)
    ensures
        r@ == translations(events@),
{
    let ghost all = events@;
    let mut out: Vec<MuiEvent> = Vec::new();
    for e in it: events.into_iter()
        invariant
            it.seq() == all,
            out@ == translations(all.take(it.index() as int)),
    {
        proof {
            assert(all.take(it.index() + 1).drop_last() =~= all.take(it.index() as int));
        }
        match translate(e) {
            Some(m) => out.push(m),
            None => {},
        }
    }
    proof {
        assert(all.take(all.len() as int) =~= all);
    }
    out
}

/// A key-down whose scancode has no key never becomes an application event,
/// repeated or not; a key-down of a known key becomes a key-down event every
/// time, repeats included.
pub proof fn law_key_down_filter(which: u32, code: i32, repeat: bool)
    ensures
        scancode_key(code) is None ==> translation(
            NativeEvent::KeyDown { which, scancode: Some(code), repeat },
        ) is None,
        scancode_key(code) is Some ==> translation(
            NativeEvent::KeyDown { which, scancode: Some(code), repeat },
        ) == Some(MuiEvent::KeyboardKeyDown(which, scancode_key(code)->0)),
{
}

} // verus!
