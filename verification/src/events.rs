//! Backend-agnostic window events, and the mapping from native OS events
//! onto them.
//!
//! Each native event maps onto exactly one backend-agnostic variant;
//! native events with no stable cross-backend meaning (synthetic key
//! events from refocus, raw touch points, standalone modifier-only
//! changes) are dropped at this boundary, not forwarded.
//! Position and size fields stay in the OS's physical-pixel space here;
//! conversion to logical space happens later through `scale_with`.

use vstd::prelude::*;
use crate::keys::{KeyAction, Modifiers, PhysicalKey};
use crate::scale::{Scale, clamp_i32, clamp_u32, spec_descale_int};
use crate::structs::{Dimensions, Position};
use crate::window::WindowId;

verus! {

/// An event a window can emit.
#[derive(Debug, PartialEq, Eq, Clone)]
pub enum WindowEvent {
    Redraw,
    CloseRequested,
    WindowPos(Position),
    WindowSize(Dimensions),
    CursorPos(Position),
    /// Button number, then what happened to it.
    MouseButton(u32, KeyAction),
    /// x offset, then y offset.
    MouseScroll(i32, i32),
    /// Key, produced text, action, held modifiers.
    Key(PhysicalKey, Option<String>, KeyAction, Modifiers),
    /// True when the window gained focus.
    FocusChange(bool),
    FileDropped(String),
    ScaleFactor(Scale),
}

/// What `scale_with` does: the scale-dependent events (window size and
/// cursor position) divide their fields by the scale, rounded to the
/// nearest integer; everything else passes through unchanged.
pub open spec fn spec_scale_event(e: WindowEvent, millis: int) -> WindowEvent {
    match e {
        WindowEvent::WindowSize(d) => WindowEvent::WindowSize(
            Dimensions {
                width: clamp_u32(spec_descale_int(d.width as int, millis)) as u32,
                height: clamp_u32(spec_descale_int(d.height as int, millis)) as u32,
            },
        ),
        WindowEvent::CursorPos(p) => WindowEvent::CursorPos(
            Position {
                x: clamp_i32(spec_descale_int(p.x as int, millis)) as i32,
                y: clamp_i32(spec_descale_int(p.y as int, millis)) as i32,
            },
        ),
        other => other,
    }
}

impl WindowEvent {
    /// Adjusts the events that are dependent on scale, like `CursorPos`,
    /// from physical to logical space.
    pub fn scale_with(self, scale: Scale) -> (r: Self)
        requires
            scale.millis >= 1,
        ensures
            r == spec_scale_event(self, scale.millis as int),
    {
        match self {
            WindowEvent::WindowSize(d) => WindowEvent::WindowSize(
                Dimensions::new(
                    crate::scale::descale_u32(d.width, scale),
                    crate::scale::descale_u32(d.height, scale),
                ),
            ),
            WindowEvent::CursorPos(p) => WindowEvent::CursorPos(
                Position::new(
                    crate::scale::descale_i32(p.x, scale),
                    crate::scale::descale_i32(p.y, scale),
                ),
            ),
            other => other,
        }
    }
}

/// A window event tagged with the identity of the window it came from.
#[derive(Debug, PartialEq, Eq, Clone)]
pub struct BackendEvent {
    pub event: WindowEvent,
    pub window_id: WindowId,
}

/// What a subscriber receives: either a translated native event or a custom
/// value the application sent itself.
#[derive(Debug, PartialEq, Eq, Clone)]
pub enum Event<T> {
    Backend(BackendEvent),
    Custom(T),
}

/// A mouse button as the OS reports it.
#[derive(Debug, PartialEq, Eq, Clone, Copy, Structural)]
pub enum NativeMouseButton {
    Left,
    Right,
    Middle,
    Back,
    Forward,
    Other(u16),
}

/// A scroll delta as the OS reports it: whole lines or physical pixels.
#[derive(Debug, PartialEq, Eq, Clone, Copy, Structural)]
pub enum NativeScrollDelta {
    Lines { x: i32, y: i32 },
    Pixels { x: i32, y: i32 },
}

/// A native window event, reduced to plain values. The loop thread builds
/// one from whatever its OS library delivered and hands it to
/// `translate_event`.
#[derive(Debug, PartialEq, Eq, Clone)]
pub enum NativeEvent {
    RedrawRequested,
    CloseRequested,
    DroppedFile(String),
    Focused(bool),
    CursorMoved { x: i32, y: i32 },
    Resized { width: u32, height: u32 },
    Moved { x: i32, y: i32 },
    KeyboardInput {
        key: PhysicalKey,
        text: Option<String>,
        pressed: bool,
        repeat: bool,
        synthetic: bool,
    },
    MouseInput { button: NativeMouseButton, pressed: bool },
    MouseWheel(NativeScrollDelta),
    Touch,
    ScaleFactorChanged { scale: Scale },
    ModifiersChanged,
    Other,
}

/// The backend-agnostic number of a mouse button.
pub open spec fn spec_mouse_button_number(b: NativeMouseButton) -> int {
    match b {
        NativeMouseButton::Left => 1,
        NativeMouseButton::Right => 2,
        NativeMouseButton::Middle => 3,
        NativeMouseButton::Back => 4,
        NativeMouseButton::Forward => 5,
        NativeMouseButton::Other(n) => n as int,
    }
}

/// The key action for a key press state: a pressed key is a `Hold` when it
/// repeats and a `Press` otherwise; a released key is a `Release`.
pub open spec fn spec_key_action(pressed: bool, repeat: bool) -> KeyAction {
    if pressed {
        if repeat {
            KeyAction::Hold
        } else {
            KeyAction::Press
        }
    } else {
        KeyAction::Release
    }
}

/// How native events map onto backend-agnostic ones. `None` means the
/// event is dropped: synthetic key events, raw touch points, standalone
/// modifier changes, and anything unrecognized.
pub open spec fn spec_translate_event(e: NativeEvent) -> Option<WindowEvent> {
    match e {
        NativeEvent::RedrawRequested => Some(WindowEvent::Redraw),
        NativeEvent::CloseRequested => Some(WindowEvent::CloseRequested),
        NativeEvent::DroppedFile(path) => Some(WindowEvent::FileDropped(path)),
        NativeEvent::Focused(focus) => Some(WindowEvent::FocusChange(focus)),
        NativeEvent::CursorMoved { x, y } => Some(
            WindowEvent::CursorPos(Position { x, y }),
        ),
        NativeEvent::Resized { width, height } => Some(
            WindowEvent::WindowSize(Dimensions { width, height }),
        ),
        NativeEvent::Moved { x, y } => Some(WindowEvent::WindowPos(Position { x, y })),
        NativeEvent::KeyboardInput { key, text, pressed, repeat, synthetic } => {
            if synthetic {
                None
            } else {
                Some(
                    WindowEvent::Key(
                        key,
                        text,
                        spec_key_action(pressed, repeat),
                        Modifiers { bits: 0 },
                    ),
                )
            }
        },
        NativeEvent::MouseInput { button, pressed } => Some(
            WindowEvent::MouseButton(
                spec_mouse_button_number(button) as u32,
                spec_key_action(pressed, false),
            ),
        ),
        NativeEvent::MouseWheel(delta) => {
            match delta {
                NativeScrollDelta::Lines { x, y } => Some(
                    WindowEvent::MouseScroll(
                        clamp_i32(x as int * 10) as i32,
                        clamp_i32(y as int * 10) as i32,
                    ),
                ),
                NativeScrollDelta::Pixels { x, y } => Some(WindowEvent::MouseScroll(x, y)),
            }
        },
        NativeEvent::Touch => None,
        NativeEvent::ScaleFactorChanged { scale } => Some(WindowEvent::ScaleFactor(scale)),
        NativeEvent::ModifiersChanged => None,
        NativeEvent::Other => None,
    }
}

/// Maps one native event onto its backend-agnostic variant, or drops it;
/// exactly as `spec_translate_event` says.
pub fn translate_event(event: NativeEvent) -> (r: Option<WindowEvent>)
    ensures
        r == spec_translate_event(event),
{
    match event {
        NativeEvent::RedrawRequested => Some(WindowEvent::Redraw),
        NativeEvent::CloseRequested => Some(WindowEvent::CloseRequested),
        NativeEvent::DroppedFile(path) => Some(WindowEvent::FileDropped(path)),
        NativeEvent::Focused(focus) => Some(WindowEvent::FocusChange(focus)),
        NativeEvent::CursorMoved { x, y } => Some(WindowEvent::CursorPos(Position::new(x, y))),
        NativeEvent::Resized { width, height } => Some(
            WindowEvent::WindowSize(Dimensions::new(width, height)),
        ),
        NativeEvent::Moved { x, y } => Some(WindowEvent::WindowPos(Position::new(x, y))),
        NativeEvent::KeyboardInput { key, text, pressed, repeat, synthetic } => {
            if synthetic {
                None
            } else {
                let action = if pressed {
                    if repeat {
                        KeyAction::Hold
                    } else {
                        KeyAction::Press
                    }
                } else {
                    KeyAction::Release
                };
                Some(WindowEvent::Key(key, text, action, Modifiers::empty()))
            }
        },
        NativeEvent::MouseInput { button, pressed } => {
            let number: u32 = match button {
                NativeMouseButton::Left => 1,
                NativeMouseButton::Right => 2,
                NativeMouseButton::Middle => 3,
                NativeMouseButton::Back => 4,
                NativeMouseButton::Forward => 5,
                NativeMouseButton::Other(n) => n as u32,
            };
            let action = if pressed {
                KeyAction::Press
            } else {
                KeyAction::Release
            };
            Some(WindowEvent::MouseButton(number, action))
        },
        NativeEvent::MouseWheel(delta) => {
            match delta {
                NativeScrollDelta::Lines { x, y } => {
                    let sx: i64 = (x as i64) * 10;
                    let sy: i64 = (y as i64) * 10;
                    Some(WindowEvent::MouseScroll(saturate_line_delta(sx), saturate_line_delta(sy)))
                },
                NativeScrollDelta::Pixels { x, y } => Some(WindowEvent::MouseScroll(x, y)),
            }
        },
        NativeEvent::Touch => None,
        NativeEvent::ScaleFactorChanged { scale } => Some(WindowEvent::ScaleFactor(scale)),
        NativeEvent::ModifiersChanged => None,
        NativeEvent::Other => None,
    }
}

fn saturate_line_delta(v: i64) -> (r: i32)
    ensures
        r == clamp_i32(v as int),
{
    if v < -0x8000_0000 {
        -0x8000_0000
    } else if v > 0x7FFF_FFFF {
        0x7FFF_FFFF
    } else {
        v as i32
    }
}

} // verus!
