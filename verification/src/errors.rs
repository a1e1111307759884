//! Per-layer error types: backend initialization, resource registration,
//! and renderer creation. All of them are recoverable result values except
//! that total backend unavailability is expected to abort startup.

use vstd::prelude::*;

verus! {

/// Failure to bring up any windowing backend.
#[derive(Debug, Clone, Copy, PartialEq, Eq, Structural)]
pub enum BackendInitError {
    /// Every compiled-in windowing backend failed to initialize.
    NoBackend,
}

/// Errors of the windowing-backend layer.
#[derive(Debug, Clone, Copy, PartialEq, Eq, Structural)]
pub enum BackendError {
    Init(BackendInitError),
    /// The loop thread dropped the response channel without replying to a
    /// window-creation request.
    Protocol,
    /// The OS refused to create the requested window.
    WindowCreation,
}

impl BackendError {
    /// A human-readable description, in place of a `Display` impl.
    pub fn message(&self) -> String {
        match self {
            BackendError::Init(BackendInitError::NoBackend) => {
                "No windowing backend could be created! Unable to continue.".to_string()
            },
            BackendError::Protocol => "Could not get created window!".to_string(),
            BackendError::WindowCreation => "Could not create native window!".to_string(),
        }
    }
}

/// A resource with malformed bytes was handed to a registration call.
#[derive(Debug, Clone, PartialEq, Eq)]
pub enum RegisterError {
    Font(String),
    Image(String),
    Svg(String),
}

impl RegisterError {
    /// A human-readable description, in place of a `Display` impl.
    pub fn message(&self) -> String {
        match self {
            RegisterError::Font(s) => "Error loading font: ".to_string().concat(s.as_str()),
            RegisterError::Image(s) => "Error loading image: ".to_string().concat(s.as_str()),
            RegisterError::Svg(s) => "Error loading SVG: ".to_string().concat(s.as_str()),
        }
    }
}

/// Errors of the rendering layer.
#[derive(Debug, Clone, PartialEq, Eq)]
pub enum RendererError {
    /// Every compiled-in rendering backend failed to initialize.
    NoRenderer,
    /// The platform refused to hand out window/display handles.
    WindowHandles,
    Register(RegisterError),
}

impl RendererError {
    /// A human-readable description, in place of a `Display` impl.
    pub fn message(&self) -> String {
        match self {
            RendererError::NoRenderer => {
                "No renderer could be created! Unable to continue!".to_string()
            },
            RendererError::WindowHandles => {
                "Could not get required window handles!".to_string()
            },
            RendererError::Register(r) => r.message(),
        }
    }
}

pub type BResult<T> = Result<T, BackendError>;

pub type RResult<T> = Result<T, RendererError>;

} // verus!
