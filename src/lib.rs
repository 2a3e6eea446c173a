//! Keyboard-driven window tiling: the grid geometry and key layout, the
//! two-key selection state machine, the key interceptor's decisions, and the
//! session that ties them together. Everything that talks to the operating
//! system stays with the caller, which carries out the actions decided here.

pub mod config;
pub mod grid;
pub mod keyboard;
pub mod overlay;
pub mod selection;
pub mod session;
pub mod window;
