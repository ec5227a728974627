use vstd::prelude::*;

use crate::input::{button_index, MouseButton, MAX_BUTTONS, MAX_KEYS};

verus! {

/// The key code of the escape key, which closes the window.
pub const ESCAPE_KEY: usize = 36;

/// An event of the window's event loop.
#[derive(Clone, Copy, Debug, PartialEq, Eq, Structural)]
pub enum LoopEvent {
    CloseRequested,
    /// The window's inner size changed to this width and height.
    Resized(u32, u32),
    /// A key went down (`pressed`) or up; its code, where it has one.
    Key { key_code: Option<usize>, pressed: bool },
    /// A mouse button went down (`pressed`) or up.
    MouseInput { button: MouseButton, pressed: bool },
    /// The cursor moved to this position in the window.
    CursorMoved(i32, i32),
    /// Every pending event has been handled.
    EventsCleared,
    /// The window asks for a new frame.
    RedrawRequested,
    Other,
}

/// What the event loop does in answer to an event.
#[derive(Clone, Copy, Debug, PartialEq, Eq, Structural)]
pub enum LoopAction {
    Exit,
    /// Resize the render textures to follow a window of this size.
    Resize(u32, u32),
    SetKey(usize, bool),
    SetMouseButton(MouseButton, bool),
    SetMousePos(i32, i32),
    RequestRedraw,
    /// Run the caller's frame, move the input on and present the frame.
    RenderFrame,
    Nothing,
}

/// The size render textures follow for a window of `width` by `height`:
/// never below one pixel in either axis.
pub open spec fn spec_window_dims(width: u32, height: u32) -> (u32, u32) {
    (if width < 1 { 1 } else { width }, if height < 1 { 1 } else { height })
}

pub fn window_dims(width: u32, height: u32) -> (r: (u32, u32))
    ensures
        r == spec_window_dims(width, height),
{
    (if width < 1 { 1 } else { width }, if height < 1 { 1 } else { height })
}

/// The action for `event`.
pub open spec fn spec_decide(event: LoopEvent) -> LoopAction {
    match event {
        LoopEvent::CloseRequested => LoopAction::Exit,
        LoopEvent::Resized(w, h) => LoopAction::Resize(
            spec_window_dims(w, h).0,
            spec_window_dims(w, h).1,
        ),
        LoopEvent::Key { key_code, pressed } => match key_code {
            Some(k) => if k == ESCAPE_KEY && pressed {
                LoopAction::Exit
            } else if k < MAX_KEYS {
                LoopAction::SetKey(k, pressed)
            } else {
                LoopAction::Nothing
            },
            None => LoopAction::Nothing,
        },
        LoopEvent::MouseInput { button, pressed } => if button_index(button) < MAX_BUTTONS {
            LoopAction::SetMouseButton(button, pressed)
        } else {
            LoopAction::Nothing
        },
        LoopEvent::CursorMoved(x, y) => LoopAction::SetMousePos(x, y),
        LoopEvent::EventsCleared => LoopAction::RequestRedraw,
        LoopEvent::RedrawRequested => LoopAction::RenderFrame,
        LoopEvent::Other => LoopAction::Nothing,
    }
}

/// Decides what the event loop does with `event`: the window closes on a
/// close request or on the escape key going down; key and button changes
/// are recorded, codes out of the tracked range ignored.
pub fn decide(event: LoopEvent) -> (r: LoopAction)
    ensures
        r == spec_decide(event),
{
    match event {
        LoopEvent::CloseRequested => LoopAction::Exit,
        LoopEvent::Resized(w, h) => {
            let (w, h) = window_dims(w, h);
            LoopAction::Resize(w, h)
        },
        LoopEvent::Key { key_code, pressed } => match key_code {
            Some(k) => {
                if k == ESCAPE_KEY && pressed {
                    LoopAction::Exit
                } else if k < MAX_KEYS {
                    LoopAction::SetKey(k, pressed)
                } else {
                    LoopAction::Nothing
                }
            },
            None => LoopAction::Nothing,
        },
        LoopEvent::MouseInput { button, pressed } => {
            let i = crate::input::mb_to_idx(button);
            if i < MAX_BUTTONS {
                LoopAction::SetMouseButton(button, pressed)
            } else {
                LoopAction::Nothing
            }
        },
        LoopEvent::CursorMoved(x, y) => LoopAction::SetMousePos(x, y),
        LoopEvent::EventsCleared => LoopAction::RequestRedraw,
        LoopEvent::RedrawRequested => LoopAction::RenderFrame,
        LoopEvent::Other => LoopAction::Nothing,
    }
}

} // verus!
