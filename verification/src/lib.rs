//! Opening a new terminal window that runs a given executable.
//!
//! The library tells from the environment which terminal emulator a process
//! runs under ([`detect`]), builds the command line with which that
//! emulator, or one found in its place, opens a new window
//! ([`command`], [`probe`]), and plans the launch as a detached process
//! ([`launch`]). It starts nothing and reads no environment itself: it is
//! handed an [`environment::Environment`] and hands back a
//! [`command::LaunchCommand`].

pub mod command;
pub mod detect;
pub mod environment;
pub mod launch;
pub mod probe;
pub mod terminal;
pub mod text;
