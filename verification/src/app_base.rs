//! How the application's event loop reacts to window events.

use vstd::prelude::*;

verus! {

/// The events of the loop, as far as the loop tells them apart.
#[derive(Clone, Copy, Debug, PartialEq, Eq, Structural)]
pub enum LoopEvent {
    CloseRequested,
    /// A key changed state; `escape` tells whether it is the Escape key.
    KeyboardInput { escape: bool, pressed: bool },
    Resized,
    /// Any other window event.
    OtherWindowEvent,
    /// The window's events are handled: time to draw.
    MainEventsCleared,
    LoopDestroyed,
    /// Any other event.
    Other,
}

/// What the loop does for an event.
#[derive(Clone, Copy, Debug, PartialEq, Eq, Structural)]
pub enum LoopAction {
    /// Wait for the device to be idle, then leave the loop.
    WaitIdleAndExit,
    /// Wait for the device to be idle, then note that the framebuffer changed.
    WaitIdleAndResize,
    /// Render a frame.
    RenderFrame,
    /// Wait for the device to be idle.
    WaitIdle,
    Nothing,
}

/// Where the loop goes after an event.
#[derive(Clone, Copy, Debug, PartialEq, Eq, Structural)]
pub enum ControlFlow {
    Poll,
    Exit,
    ExitWithCode(i32),
}

/// Closing the window or pressing Escape ends the loop; a resize is noted;
/// drawing happens once the window's events are handled.
pub open spec fn action_for(event: LoopEvent) -> LoopAction {
    match event {
        LoopEvent::CloseRequested => LoopAction::WaitIdleAndExit,
        LoopEvent::KeyboardInput { escape, pressed } => if escape && pressed {
            LoopAction::WaitIdleAndExit
        } else {
            LoopAction::Nothing
        },
        LoopEvent::Resized => LoopAction::WaitIdleAndResize,
        LoopEvent::OtherWindowEvent => LoopAction::Nothing,
        LoopEvent::MainEventsCleared => LoopAction::RenderFrame,
        LoopEvent::LoopDestroyed => LoopAction::WaitIdle,
        LoopEvent::Other => LoopAction::Nothing,
    }
}

/// What the loop does for `event`.
pub fn loop_action(event: LoopEvent) -> (res: LoopAction)
    ensures
        res == action_for(event),
{
    match event {
        LoopEvent::CloseRequested => LoopAction::WaitIdleAndExit,
        LoopEvent::KeyboardInput { escape, pressed } => {
            if escape && pressed {
                LoopAction::WaitIdleAndExit
            } else {
                LoopAction::Nothing
            }
        },
        LoopEvent::Resized => LoopAction::WaitIdleAndResize,
        LoopEvent::OtherWindowEvent => LoopAction::Nothing,
        LoopEvent::MainEventsCleared => LoopAction::RenderFrame,
        LoopEvent::LoopDestroyed => LoopAction::WaitIdle,
        LoopEvent::Other => LoopAction::Nothing,
    }
}

/// Where the loop goes once the action is done: it exits after a close, exits
/// with code 2 when rendering failed, and keeps polling otherwise.
/// `rendered` is the outcome of rendering, for a `RenderFrame` action.
pub fn control_flow_after(action: LoopAction, rendered: Option<Result<(), String>>) -> (res: ControlFlow)
    ensures
        action == LoopAction::WaitIdleAndExit ==> res == ControlFlow::Exit,
        action == LoopAction::RenderFrame ==> res == (if rendered matches Some(Err(_)) {
            ControlFlow::ExitWithCode(2)
        } else {
            ControlFlow::Poll
        }),
        action != LoopAction::WaitIdleAndExit && action != LoopAction::RenderFrame ==> res == ControlFlow::Poll,
{
    match action {
        LoopAction::WaitIdleAndExit => ControlFlow::Exit,
        LoopAction::RenderFrame => match rendered {
            Some(Err(_)) => ControlFlow::ExitWithCode(2),
            _ => ControlFlow::Poll,
        },
        _ => ControlFlow::Poll,
    }
}

} // verus!
