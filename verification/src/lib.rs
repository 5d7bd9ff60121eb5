//! Core logic of a borderless Markdown viewer: keybinding validation, the
//! single-instance hand-off over a named pipe, and the command protocol
//! between the web view and the native side.

pub mod text;
pub mod json;
pub mod keybindings;
pub mod instance;
pub mod ipc;
pub mod window;
