//! Lumi2D: a backend-agnostic windowing and 2D rendering abstraction.
//!
//! The crate's core is the cross-thread bridge between an OS event loop and
//! application logic, the fallback backend-selection strategy, the resource
//! cache that manages assets whose lifetime is coupled to specific windows,
//! and the coordinate scaling between physical and logical pixel space.

pub mod backend;
pub mod bridge;
pub mod cache;
pub mod channel;
pub mod config;
pub mod errors;
pub mod events;
pub mod identity;
pub mod images;
pub mod keys;
pub mod objects;
pub mod renderer_data;
pub mod scale;
pub mod selection;
pub mod structs;
pub mod svgs;
pub mod text;
pub mod window;
