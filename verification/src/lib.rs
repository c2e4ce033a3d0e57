//! Core logic of a desktop launcher shell.
//!
//! On startup the shell spawns a backend web server as a child process,
//! keeps the resulting handle in a shared application state, and exposes a
//! system-tray menu (open, hide, quit) while the main window's close button
//! only hides the window.  This crate holds the decision logic of that
//! shell: which command to launch, how tray and window events translate
//! into ordered runtime actions, and how the supervised process handle
//! evolves, so that the backend is stopped exactly once, on quit.  The
//! surrounding UI runtime performs the actions and reports the events.

pub mod process;
pub mod state;
pub mod step;
pub mod tray;
pub mod window;
pub mod boot;
pub mod laws;
