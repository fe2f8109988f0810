//! Verified core of a Wayland shell host.

pub mod auth;
pub mod cli;
pub mod idmap;
pub mod openapi;
pub mod protocol;
pub mod server;
pub mod session_lock;
pub mod startup;
pub mod surfaces;
pub mod text;
pub mod urls;
pub mod webapp;
pub mod windows;

pub use protocol::{
    AppCommand, AppState, ExclusiveZone, KeyboardMode, Layer, LayerShellAnchors, LayerShellMargins,
    LayerShellWindowSpec, LayerShellWindowState, LayerShellWindowsResponse, SessionLockRequest,
    SessionLockState, SessionLockStatus,
};
pub use cli::Cli;
