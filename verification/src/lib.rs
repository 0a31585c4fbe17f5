//! Native-shell core for a two-window desktop palette application.
//!
//! The crate holds the logic that can be stated and proved on plain values:
//! the accelerator-string parser, the single-slot shortcut registry, the
//! window toggle controller, the tray-event dispatcher and the focus-loss
//! auto-hide rule. The surrounding GUI runtime (window manager, tray icon,
//! OS hotkey layer) is driven by a thin unverified shell that calls into
//! these functions and performs the actions they decide on.

pub mod accel;
pub mod autohide;
pub mod registry;
pub mod tray;
pub mod window;
