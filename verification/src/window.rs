//! Window descriptions, identities, and the application-side window model.
//!
//! The application thread never holds a native window object: only an opaque
//! identity plus cached attributes. Any native mutation is expressed as a
//! command sent to the loop thread.

use vstd::prelude::*;
use crate::scale::{Scale, clamp_u32, spec_descale_int};
use crate::structs::Dimensions;

verus! {

/// What a new window should look like.
#[derive(Debug, Clone)]
pub struct WindowDetails {
    pub width: u32,
    pub height: u32,
    pub title: String,
    pub mode: WindowModes,
}

impl Default for WindowDetails {
    fn default() -> (r: Self)
        ensures
            r.width == 800,
            r.height == 600,
            r.title@ == "Lumi2D Window"@,
            r.mode == WindowModes::Maximized,
    {
        Self {
            width: 800,
            height: 600,
            title: "Lumi2D Window".to_string(),
            mode: WindowModes::Maximized,
        }
    }
}

/// The display mode a window is asked for.
#[derive(Debug, Clone, Copy, PartialEq, Eq, Structural)]
pub enum WindowModes {
    Fullscreen,
    Borderless,
    Maximized,
    Windowed,
}

/// The opaque, stable identity of a live window.
#[derive(Debug, Clone, Copy, PartialEq, Eq, Hash, Structural)]
pub enum WindowId {
    Winit(u64),
}

/// The fullscreen state the loop thread should apply to a native window.
#[derive(Debug, Clone, Copy, PartialEq, Eq, Structural)]
pub enum FullscreenPlan {
    /// No fullscreen: a normal window.
    Off,
    /// Exclusive fullscreen on the primary (or first available) monitor.
    Exclusive,
    /// Borderless fullscreen.
    Borderless,
}

/// The resolved construction plan for a native window: what the loop thread
/// applies to the OS windowing library.
#[derive(Debug, Clone)]
pub struct WindowPlan {
    pub width: u32,
    pub height: u32,
    pub title: String,
    pub fullscreen: FullscreenPlan,
    pub maximized: bool,
    /// Set when a fullscreen request had to fall back to borderless because
    /// the monitor offered no exclusive video mode; worth a warning.
    pub fallback_warning: bool,
}

/// Resolves a requested display mode against what the monitor offers:
/// `Fullscreen` becomes exclusive mode if the monitor has a video mode and
/// falls back to borderless (with a warning) otherwise; the other modes map
/// directly.
pub fn resolve_display_mode(mode: WindowModes, has_video_mode: bool) -> (r: (
    FullscreenPlan,
    bool,
))
    ensures
        mode == WindowModes::Fullscreen && has_video_mode ==> r == (
            FullscreenPlan::Exclusive,
            false,
        ),
        mode == WindowModes::Fullscreen && !has_video_mode ==> r == (
            FullscreenPlan::Borderless,
            true,
        ),
        mode == WindowModes::Borderless ==> r == (FullscreenPlan::Borderless, false),
        mode == WindowModes::Maximized ==> r == (FullscreenPlan::Off, false),
        mode == WindowModes::Windowed ==> r == (FullscreenPlan::Off, false),
{
    match mode {
        WindowModes::Fullscreen => {
            if has_video_mode {
                (FullscreenPlan::Exclusive, false)
            } else {
                (FullscreenPlan::Borderless, true)
            }
        },
        WindowModes::Borderless => (FullscreenPlan::Borderless, false),
        WindowModes::Maximized => (FullscreenPlan::Off, false),
        WindowModes::Windowed => (FullscreenPlan::Off, false),
    }
}

/// Turns a window request into the plan the loop thread applies: the size
/// and title carry over, the display mode resolves as
/// `resolve_display_mode` says, and only `Maximized` asks for maximization.
pub fn plan_window(details: WindowDetails, has_video_mode: bool) -> (r: WindowPlan)
    ensures
        r.width == details.width,
        r.height == details.height,
        r.title@ == details.title@,
        (r.fullscreen, r.fallback_warning) == {
            let m = resolve_display_mode_spec(details.mode, has_video_mode);
            m
        },
        r.maximized == (details.mode == WindowModes::Maximized),
{
    let (fullscreen, fallback_warning) = resolve_display_mode(details.mode, has_video_mode);
    let maximized = match details.mode {
        WindowModes::Maximized => true,
        _ => false,
    };
    WindowPlan { width: details.width, height: details.height, title: details.title, fullscreen, maximized, fallback_warning }
}

/// The mapping `resolve_display_mode` implements, as a single spec value.
pub open spec fn resolve_display_mode_spec(mode: WindowModes, has_video_mode: bool) -> (
    FullscreenPlan,
    bool,
) {
    match mode {
        WindowModes::Fullscreen => {
            if has_video_mode {
                (FullscreenPlan::Exclusive, false)
            } else {
                (FullscreenPlan::Borderless, true)
            }
        },
        WindowModes::Borderless => (FullscreenPlan::Borderless, false),
        WindowModes::Maximized => (FullscreenPlan::Off, false),
        WindowModes::Windowed => (FullscreenPlan::Off, false),
    }
}

/// The application-side model of a live window: its opaque identity, the
/// OS-reported physical dimensions, the OS-reported target scale, and the
/// application-controlled current scale.
#[derive(Debug, Clone, Copy, PartialEq, Eq, Structural)]
pub struct WinitWindow {
    pub id: WindowId,
    pub physical: Dimensions,
    pub target_scale: Scale,
    pub current_scale: Scale,
}

/// A live window as the application thread sees it, by windowing backend.
#[derive(Debug, Clone, Copy, PartialEq, Eq, Structural)]
pub enum Window {
    Winit(WinitWindow),
}

impl Window {
    /// Well-formed: the current scale can divide inbound coordinates.
    pub open spec fn wf(&self) -> bool {
        match self {
            Window::Winit(w) => w.current_scale.millis >= 1 && w.target_scale.millis >= 1,
        }
    }

    pub open spec fn model(&self) -> WinitWindow {
        match self {
            Window::Winit(w) => *w,
        }
    }

    /// The window's opaque identity.
    pub fn id(&self) -> (r: WindowId)
        ensures
            r == self.model().id,
    {
        match self {
            Window::Winit(w) => w.id,
        }
    }

    /// The OS-reported dimensions, in physical pixels.
    pub fn physical_dimensions(&self) -> (r: Dimensions)
        ensures
            r == self.model().physical,
    {
        match self {
            Window::Winit(w) => w.physical,
        }
    }

    /// The dimensions in logical space: physical divided by the current
    /// scale, rounded to the nearest integer.
    pub fn dimensions(&self) -> (r: Dimensions)
        requires
            self.wf(),
        ensures
            r.width == clamp_u32(
                spec_descale_int(self.model().physical.width as int, self.model().current_scale.millis as int),
            ),
            r.height == clamp_u32(
                spec_descale_int(self.model().physical.height as int, self.model().current_scale.millis as int),
            ),
    {
        match self {
            Window::Winit(w) => Dimensions::new(
                crate::scale::descale_u32(w.physical.width, w.current_scale),
                crate::scale::descale_u32(w.physical.height, w.current_scale),
            ),
        }
    }

    /// The monitor-DPI scale the OS reported for this window.
    pub fn target_scale(&self) -> (r: Scale)
        ensures
            r == self.model().target_scale,
    {
        match self {
            Window::Winit(w) => w.target_scale,
        }
    }

    /// The scale the application currently applies to this window.
    pub fn current_scale(&self) -> (r: Scale)
        ensures
            r == self.model().current_scale,
    {
        match self {
            Window::Winit(w) => w.current_scale,
        }
    }

    /// Replaces the application-controlled scale; everything else is kept.
    pub fn set_scale(&mut self, scale: Scale)
        requires
            scale.millis >= 1,
        ensures
            final(self).model() == (WinitWindow { current_scale: scale, ..old(self).model() }),
    {
        match self {
            Window::Winit(w) => {
                w.current_scale = scale;
            },
        }
    }

    /// Records new OS-reported physical dimensions; everything else is kept.
    pub fn set_physical_dimensions(&mut self, dims: Dimensions)
        ensures
            final(self).model() == (WinitWindow { physical: dims, ..old(self).model() }),
    {
        match self {
            Window::Winit(w) => {
                w.physical = dims;
            },
        }
    }
}

} // verus!
