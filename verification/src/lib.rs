//! Verified core of hyper-sync: the Skydimo serial frame, the LED strip
//! layout, colour parsing, the integer parts of the effects, runtime
//! configuration and paths, and the decisions taken by the daemon, the
//! screen-capture worker, the control panel, the tray icon and the
//! install command.

pub mod color;
pub mod config;
pub mod daemon;
pub mod effects;
pub mod install;
pub mod layout;
pub mod pixel;
pub mod protocol;
pub mod registry;
pub mod text;
pub mod tray;
pub mod ui;
pub mod worker;
