//! Verified planning logic for a small swapchain-backed Vulkan renderer.
//!
//! The library decides; the program around it performs. Every function here
//! works on plain values (integers, strings, vectors, the types below) and
//! carries a contract that says which instance, device and swapchain settings
//! are chosen, in which order the renderer's resources come to life and go
//! away again, and how one frame is driven through its synchronisation steps.

use vstd::prelude::*;

pub mod names;
pub mod util;
pub mod vk;
pub mod vulkan;

verus! {

/// What the window system tells the application about its window.
#[derive(Clone, Copy, Debug, PartialEq, Eq, Structural)]
pub enum WindowEvent {
    CloseRequested,
    RedrawRequested,
    Other,
}

/// What the application does about an event.
#[derive(Clone, Copy, Debug, PartialEq, Eq, Structural)]
pub enum Response {
    /// Leave the event loop.
    Exit,
    /// Ask the window for another redraw, so that frames keep coming.
    RequestRedraw,
    Nothing,
}

/// The window to open.
#[derive(Clone, Debug, PartialEq, Eq)]
pub struct WindowAttributes {
    pub title: String,
    pub resizable: bool,
}

/// The application between the events of its window.
#[derive(Clone, Copy, Debug, Default, PartialEq, Eq, Structural)]
pub struct AppState {
    /// Whether the window has been opened.
    pub window: bool,
}

impl AppState {
    /// The application is brought to the foreground: it opens a window of
    /// fixed size, titled `Learning Vulkan`.
    pub fn resumed(&mut self) -> (attributes: WindowAttributes)
        ensures
            attributes.title@ == "Learning Vulkan"@,
            !attributes.resizable,
            final(self).window,
    {
        self.window = true;
        WindowAttributes { title: "Learning Vulkan".to_owned(), resizable: false }
    }

    /// A request to close ends the event loop, a request to redraw is
    /// answered with the next one, and nothing else is acted on. A redraw
    /// can only be asked of a window that has been opened.
    pub fn window_event(&self, event: WindowEvent) -> (response: Response)
        requires
            event == WindowEvent::RedrawRequested ==> self.window,
        ensures
            response == match event {
                WindowEvent::CloseRequested => Response::Exit,
                WindowEvent::RedrawRequested => Response::RequestRedraw,
                WindowEvent::Other => Response::Nothing,
            },
    {
        match event {
            WindowEvent::CloseRequested => Response::Exit,
            WindowEvent::RedrawRequested => Response::RequestRedraw,
            WindowEvent::Other => Response::Nothing,
        }
    }
}

} // verus!
