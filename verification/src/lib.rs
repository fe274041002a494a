//! Command layer of a small desktop-application shell.
//!
//! The shell hosts a web front-end in a native window and exposes two
//! commands to it: `greet`, a fixed greeting, and a theme command that
//! applies a visual theme to the native window chrome. This crate holds
//! the verified logic of those commands: what the greeting says, which
//! native operation a theme request plans on each build target, and how
//! a native failure is reported. The host process around it performs
//! the planned native calls and runs the window's event loop.

pub mod greeting;
pub mod theme;
