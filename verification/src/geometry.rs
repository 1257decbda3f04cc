//! Basic geometry data: screen size, tracked windows, and the commands the
//! core hands back to its caller for delivery to the display server.

use vstd::prelude::*;

verus! {

/// Size of the root screen in pixels, read once per session.
#[derive(Clone, Copy, Debug, PartialEq, Eq, Structural)]
pub struct ScreenGeometry {
    pub width: u16,
    pub height: u16,
}

/// One managed client window together with its current tiled geometry.
///
/// The identifier is the display server's resource id for the window; the
/// geometry fields carry no invariant of their own and are zero until the
/// first tile pass assigns them.
#[derive(Clone, Copy, Debug, PartialEq, Eq, Structural)]
pub struct WindowData {
    pub window: u32,
    pub x: i32,
    pub y: i32,
    pub w: u32,
    pub h: u32,
}

impl WindowData {
    /// A freshly tracked window: known id, zeroed geometry.
    pub fn new(window: u32) -> (r: WindowData)
        ensures
            r == (WindowData { window, x: 0, y: 0, w: 0, h: 0 }),
    {
        WindowData { window, x: 0, y: 0, w: 0, h: 0 }
    }
}

/// A geometry-change request for one window.
#[derive(Clone, Copy, Debug, PartialEq, Eq, Structural)]
pub struct ConfigureRequest {
    pub window: u32,
    pub x: i32,
    pub y: i32,
    pub width: u32,
    pub height: u32,
}

/// An outgoing command for the display server.
#[derive(Clone, Copy, Debug, PartialEq, Eq, Structural)]
pub enum Command {
    /// Change a window's position and size.
    Configure(ConfigureRequest),
    /// Restack a window above its siblings.
    RaiseAbove { window: u32 },
}

/// The geometry-change command that pushes a window's currently recorded
/// geometry out to the display server.
pub fn update_window(data: &WindowData) -> (r: Command)
    ensures
        r == (Command::Configure(ConfigureRequest {
            window: data.window,
            x: data.x,
            y: data.y,
            width: data.w,
            height: data.h,
        })),
{
    Command::Configure(ConfigureRequest {
        window: data.window,
        x: data.x,
        y: data.y,
        width: data.w,
        height: data.h,
    })
}

} // verus!
