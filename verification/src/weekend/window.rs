//! Window settings and the window's reaction to events.

use vstd::prelude::*;
use crate::vk::Extent2D;

verus! {

/// Title, size and behaviour of the window.
pub struct WindowConfig {
    pub title: String,
    pub width: u32,
    pub height: u32,
    pub fullscreen: bool,
    pub resizable: bool,
}

impl WindowConfig {
    pub fn new(title: &str, width: u32, height: u32, fullscreen: bool, resizable: bool) -> (res: Self)
        ensures
            res.title@ == title@,
            res.width == width,
            res.height == height,
            res.fullscreen == fullscreen,
            res.resizable == resizable,
    {
        Self { title: title.to_owned(), width, height, fullscreen, resizable }
    }
}

/// A window whose framebuffer has no area in either direction is minimized.
pub fn is_minimized(framebuffer_size: Extent2D) -> (res: bool)
    ensures
        res == (framebuffer_size.width == 0 && framebuffer_size.height == 0),
{
    framebuffer_size.width == 0 && framebuffer_size.height == 0
}

/// The events of the window's loop that the window reacts to.
pub enum WindowEvent {
    CloseRequested,
    /// A key changed state; `escape` tells whether it is the Escape key.
    KeyboardInput { escape: bool, pressed: bool },
    /// Any other event.
    Other,
}

/// What the loop does next.
#[derive(Clone, Copy, Debug, PartialEq, Eq, Structural)]
pub enum ControlFlow {
    Poll,
    Exit,
}

/// The loop keeps polling, unless the window is asked to close or Escape is pressed.
pub fn control_flow_after(event: &WindowEvent) -> (res: ControlFlow)
    ensures
        res == (match event {
            WindowEvent::CloseRequested => ControlFlow::Exit,
            WindowEvent::KeyboardInput { escape, pressed } => if *escape && *pressed { ControlFlow::Exit } else { ControlFlow::Poll },
            WindowEvent::Other => ControlFlow::Poll,
        }),
{
    match event {
        WindowEvent::CloseRequested => ControlFlow::Exit,
        WindowEvent::KeyboardInput { escape, pressed } => if *escape && *pressed { ControlFlow::Exit } else { ControlFlow::Poll },
        WindowEvent::Other => ControlFlow::Poll,
    }
}

} // verus!
