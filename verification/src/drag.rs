//! The drag gesture: a transient floating override that moves or resizes one
//! window between a qualifying button press and the matching release.
//!
//! The anchor records the pointer position and the target's geometry at
//! press time, as the display server reported them; every motion event is
//! interpreted relative to that anchor alone, so intermediate motion has no
//! effect on where a drag ends up.

use vstd::prelude::*;
use crate::geometry::ConfigureRequest;

verus! {

/// A window's position and size as a synchronous geometry query reports
/// them: 16-bit signed offsets, 16-bit unsigned extents.
#[derive(Clone, Copy, Debug, PartialEq, Eq, Structural)]
pub struct QueriedGeometry {
    pub x: i16,
    pub y: i16,
    pub width: u16,
    pub height: u16,
}

/// Which gesture the initiating button selected.
#[derive(Clone, Copy, Debug, PartialEq, Eq, Structural)]
pub enum DragButton {
    /// Primary button: move the window, size unchanged.
    Move,
    /// Secondary button: resize the window, position unchanged.
    Resize,
}

/// The single drag slot's contents while a drag is active.
#[derive(Clone, Copy, Debug, PartialEq, Eq, Structural)]
pub struct DragState {
    /// The dragged window's id.
    pub window: u32,
    /// Gesture selected by the initiating button.
    pub button: DragButton,
    /// Root-relative pointer position at press time.
    pub anchor_x: i16,
    pub anchor_y: i16,
    /// The target window's geometry at press time.
    pub anchor_geometry: QueriedGeometry,
}

/// The geometry-change request a motion event to root-relative pointer
/// position `(px, py)` produces for the drag `d`: for a move, the anchor
/// geometry shifted by the pointer delta; for a resize, the anchor geometry
/// grown by the delta, clamped to at least 1 pixel in each dimension.
pub open spec fn motion_request(d: DragState, px: i16, py: i16) -> ConfigureRequest {
    let dx = px - d.anchor_x;
    let dy = py - d.anchor_y;
    match d.button {
        DragButton::Move => ConfigureRequest {
            window: d.window,
            x: (d.anchor_geometry.x + dx) as i32,
            y: (d.anchor_geometry.y + dy) as i32,
            width: d.anchor_geometry.width as u32,
            height: d.anchor_geometry.height as u32,
        },
        DragButton::Resize => ConfigureRequest {
            window: d.window,
            x: d.anchor_geometry.x as i32,
            y: d.anchor_geometry.y as i32,
            width: (if d.anchor_geometry.width + dx < 1 {
                1int
            } else {
                d.anchor_geometry.width + dx
            }) as u32,
            height: (if d.anchor_geometry.height + dy < 1 {
                1int
            } else {
                d.anchor_geometry.height + dy
            }) as u32,
        },
    }
}

/// A resize drag never produces a width or height below 1 pixel, however far
/// negative the pointer delta goes; a move drag keeps the anchor extents
/// unchanged.
pub proof fn lemma_resize_never_below_one_pixel(d: DragState, px: i16, py: i16)
    ensures
        d.button is Resize ==> motion_request(d, px, py).width >= 1
            && motion_request(d, px, py).height >= 1,
        d.button is Move ==> motion_request(d, px, py).width == d.anchor_geometry.width
            && motion_request(d, px, py).height == d.anchor_geometry.height,
{
}

/// A move drag lands exactly at the anchor position plus the pointer delta,
/// whatever motion happened in between: the request depends on the anchor
/// and the latest pointer position alone.
pub proof fn lemma_move_lands_at_anchor_plus_delta(d: DragState, px: i16, py: i16)
    requires
        d.button is Move,
    ensures
        motion_request(d, px, py).x == d.anchor_geometry.x + px - d.anchor_x,
        motion_request(d, px, py).y == d.anchor_geometry.y + py - d.anchor_y,
        motion_request(d, px, py).width == d.anchor_geometry.width,
        motion_request(d, px, py).height == d.anchor_geometry.height,
{
}

/// Computes the geometry-change request for a motion event at root-relative
/// pointer position `(px, py)` during the drag `d`.
pub fn drag_motion(d: &DragState, px: i16, py: i16) -> (r: ConfigureRequest)
    ensures
        r == motion_request(*d, px, py),
{
    let dx: i32 = px as i32 - d.anchor_x as i32;
    let dy: i32 = py as i32 - d.anchor_y as i32;
    match d.button {
        DragButton::Move => ConfigureRequest {
            window: d.window,
            x: d.anchor_geometry.x as i32 + dx,
            y: d.anchor_geometry.y as i32 + dy,
            width: d.anchor_geometry.width as u32,
            height: d.anchor_geometry.height as u32,
        },
        DragButton::Resize => {
            let w: i32 = d.anchor_geometry.width as i32 + dx;
            let h: i32 = d.anchor_geometry.height as i32 + dy;
            ConfigureRequest {
                window: d.window,
                x: d.anchor_geometry.x as i32,
                y: d.anchor_geometry.y as i32,
                width: if w < 1 { 1 } else { w as u32 },
                height: if h < 1 { 1 } else { h as u32 },
            }
        },
    }
}

} // verus!
