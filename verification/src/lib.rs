//! Core of a minimal single-window desktop shell: the application state
//! (display theme, zoom factor, pending exit confirmation) and the pure
//! transition rules that update it in response to classified messages.
//!
//! The host GUI runtime (event delivery, rendering, window control) is an
//! external collaborator: it hands raw events in and carries effect requests
//! out, but all decision logic lives here.

pub mod dispatch;
pub mod laws;
pub mod state;
