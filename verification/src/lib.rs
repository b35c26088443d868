//! Keeps a broadcasting tool's application-audio-capture input pointed at the
//! application that currently has keyboard focus.
//!
//! The crate holds the decision logic of the helper: debounced hotkey
//! triggering, focus-snapshot normalization, the control-protocol session
//! (challenge-response handshake and request/response correlation), candidate
//! selection, and the shutdown fan-out that ties the supervised companion
//! process, the tray menu and the interrupt handler together.  The surrounding
//! binary performs the actual I/O (key-state polling, process supervision,
//! websocket transport) and feeds plain values in and out of these functions.

pub mod auth;
pub mod config;
pub mod focus;
pub mod icon;
pub mod lifecycle;
pub mod parse;
pub mod protocol;
pub mod selector;
pub mod session;
pub mod trigger;

pub use focus::FocusSnapshot;
pub use lifecycle::ShutdownSignal;
pub use session::ControlSession;
pub use trigger::Debouncer;
