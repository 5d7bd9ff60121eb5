//! How the window reacts to what happens to it.

use vstd::prelude::*;
use crate::instance::AppEvent;

verus! {

/// What the window's event loop receives.
pub enum WindowInput {
    /// A request handed over by another instance.
    User(AppEvent),
    /// The user asked to close the window.
    CloseRequested,
    /// A file was dropped onto the window.
    FileDropped(String),
    /// Anything else.
    Other,
}

/// Whether the event loop goes on waiting or ends.
#[derive(PartialEq, Eq, Debug, Clone, Copy)]
pub enum LoopControl {
    Wait,
    Exit,
}

/// The reaction to one input.
pub struct WindowReaction {
    /// Whether the loop goes on.
    pub control: LoopControl,
    /// Whether the window is restored and brought to the front.
    pub bring_to_front: bool,
    /// A file to open and show, if it can be read.
    pub load: Option<String>,
}

/// Decides the reaction to one input: a request from another instance
/// brings the window to the front and may name a file to open; a dropped
/// file is opened in place; closing ends the loop.
pub fn react_to_window_event(input: WindowInput) -> (r: WindowReaction)
    ensures
        match input {
            WindowInput::User(AppEvent::FocusWindow) => r.control == LoopControl::Wait
                && r.bring_to_front && r.load is None,
            WindowInput::User(AppEvent::OpenFile(p)) => r.control == LoopControl::Wait
                && r.bring_to_front && r.load == Some(p),
            WindowInput::CloseRequested => r.control == LoopControl::Exit && !r.bring_to_front
                && r.load is None,
            WindowInput::FileDropped(p) => r.control == LoopControl::Wait && !r.bring_to_front
                && r.load == Some(p),
            WindowInput::Other => r.control == LoopControl::Wait && !r.bring_to_front
                && r.load is None,
        },
{
    match input {
        WindowInput::User(AppEvent::FocusWindow) => WindowReaction {
            control: LoopControl::Wait,
            bring_to_front: true,
            load: None,
        },
        WindowInput::User(AppEvent::OpenFile(p)) => WindowReaction {
            control: LoopControl::Wait,
            bring_to_front: true,
            load: Some(p),
        },
        WindowInput::CloseRequested => WindowReaction {
            control: LoopControl::Exit,
            bring_to_front: false,
            load: None,
        },
        WindowInput::FileDropped(p) => WindowReaction {
            control: LoopControl::Wait,
            bring_to_front: false,
            load: Some(p),
        },
        WindowInput::Other => WindowReaction {
            control: LoopControl::Wait,
            bring_to_front: false,
            load: None,
        },
    }
}

} // verus!
