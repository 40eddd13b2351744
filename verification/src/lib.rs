//! Window-health recovery policy, overlay visibility state machines and
//! desktop authentication callback handling for the desktop mascot.

pub mod text;
pub mod labels;
pub mod runtime_health;
pub mod runtime_health_laws;
pub mod overlay_state;
pub mod overlay_laws;
pub mod auth_callback;
pub mod auth_callback_laws;
pub mod callback_diagnostics;
pub mod desktop;
pub mod recovery_windows;
pub mod session_observer;
pub mod smoke_receipt;
pub mod placement;
pub mod placement_laws;
