//! Pointer grabs: the interactive move and resize of a window.
//!
//! A grab remembers where the pointer and the window were when it began.
//! What it asks of the window is computed from that and from the pointer's
//! present position alone, so nothing drifts however many motion events
//! arrive.

use vstd::prelude::*;
use crate::geometry::{clamp_i32, saturate, Point, Rect, Size};

verus! {

/// Button code of the primary pointer button: it starts a move.
pub const BUTTON_PRIMARY: u32 = 0x110;

/// Button code of the secondary pointer button: it starts a resize.
pub const BUTTON_SECONDARY: u32 = 0x111;

/// What is recorded when a grab begins.
#[derive(Clone, Copy, Debug, PartialEq, Eq, Structural)]
pub struct GrabStartData {
    /// The button whose press began the grab and whose release ends it.
    pub button: u32,
    /// Where the pointer was.
    pub location: Point,
    /// The window that keeps pointer focus during the grab, if any.
    pub focus: Option<u64>,
}

/// The edges of a window that a resize drags.
#[derive(Clone, Copy, Debug, PartialEq, Eq, Structural)]
pub struct ResizeEdges {
    pub top: bool,
    pub bottom: bool,
    pub left: bool,
    pub right: bool,
}

/// The grab slot of the pointer: empty, or the one grab that is active.
#[derive(Clone, Copy, Debug, PartialEq, Eq, Structural)]
pub enum Grab {
    Idle,
    Move { start: GrabStartData, window: u64, initial_location: Point },
    Resize { start: GrabStartData, window: u64, edges: ResizeEdges, initial_rect: Rect },
}

impl ResizeEdges {
    /// All four edges.
    pub fn all() -> (r: ResizeEdges)
        ensures
            r == (ResizeEdges { top: true, bottom: true, left: true, right: true }),
    {
        ResizeEdges { top: true, bottom: true, left: true, right: true }
    }

    /// No edge.
    pub fn none() -> (r: ResizeEdges)
        ensures
            r == (ResizeEdges { top: false, bottom: false, left: false, right: false }),
    {
        ResizeEdges { top: false, bottom: false, left: false, right: false }
    }
}

/// Where a moved window belongs while the pointer is at `pointer`: as far
/// from its first location as the pointer is from where the grab began, kept
/// inside the coordinate range.
pub open spec fn spec_move_target(start: Point, initial: Point, pointer: Point) -> Point {
    Point {
        x: clamp_i32(initial.x + (pointer.x - start.x)),
        y: clamp_i32(initial.y + (pointer.y - start.y)),
    }
}

/// Computes the location of a moved window for a pointer position.
pub fn move_target(start: Point, initial: Point, pointer: Point) -> (r: Point)
    ensures
        r == spec_move_target(start, initial, pointer),
{
    let x: i64 = initial.x as i64 + (pointer.x as i64 - start.x as i64);
    let y: i64 = initial.y as i64 + (pointer.y as i64 - start.y as i64);
    Point { x: saturate(x), y: saturate(y) }
}

/// The new extent of a window along one axis. `near` is the left or top
/// edge, `far` the right or bottom one; `delta` is how far the pointer has
/// gone along the axis. The near edge, where dragged, decides; an axis with
/// no dragged edge keeps its extent. The result is never under `min`.
pub open spec fn spec_resized_extent(initial: i32, delta: int, near: bool, far: bool, min: i32) -> i32 {
    let wanted = if near {
        initial - delta
    } else if far {
        initial + delta
    } else {
        initial as int
    };
    if wanted < min {
        min
    } else {
        clamp_i32(wanted)
    }
}

/// Computes the new extent of a window along one axis, for a pointer that
/// went from `from` to `to` along it.
pub fn resized_extent(initial: i32, from: i32, to: i32, near: bool, far: bool, min: i32) -> (r: i32)
    ensures
        r == spec_resized_extent(initial, to - from, near, far, min),
        r >= min,
{
    let delta: i64 = to as i64 - from as i64;
    let wanted: i64 = if near {
        initial as i64 - delta
    } else if far {
        initial as i64 + delta
    } else {
        initial as i64
    };
    if wanted < min as i64 {
        min
    } else {
        saturate(wanted)
    }
}

/// Where the near edge of a resized window belongs so that its far edge
/// stays in place: moved by what the extent lost. Only a dragged near edge
/// moves.
pub open spec fn spec_resized_origin(origin: i32, initial: i32, extent: i32, near: bool) -> i32 {
    if near {
        clamp_i32(origin + (initial - extent))
    } else {
        origin
    }
}

/// The rectangle a resize proposes while the pointer is at `pointer`.
pub open spec fn spec_resize_target(
    edges: ResizeEdges,
    initial: Rect,
    start: Point,
    pointer: Point,
    min: Size,
) -> Rect {
    let w = spec_resized_extent(initial.size.w, pointer.x - start.x, edges.left, edges.right, min.w);
    let h = spec_resized_extent(initial.size.h, pointer.y - start.y, edges.top, edges.bottom, min.h);
    Rect {
        loc: Point {
            x: spec_resized_origin(initial.loc.x, initial.size.w, w, edges.left),
            y: spec_resized_origin(initial.loc.y, initial.size.h, h, edges.top),
        },
        size: Size { w, h },
    }
}

/// Computes the rectangle a resize proposes for a pointer position. It is
/// never smaller than `min`, on either axis.
pub fn resize_target(edges: ResizeEdges, initial: Rect, start: Point, pointer: Point, min: Size) -> (r:
    Rect)
    ensures
        r == spec_resize_target(edges, initial, start, pointer, min),
        r.size.w >= min.w,
        r.size.h >= min.h,
{
    let w: i32 = resized_extent(initial.size.w, start.x, pointer.x, edges.left, edges.right, min.w);
    let h: i32 = resized_extent(initial.size.h, start.y, pointer.y, edges.top, edges.bottom, min.h);
    let x: i32 = if edges.left {
        saturate(initial.loc.x as i64 + (initial.size.w as i64 - w as i64))
    } else {
        initial.loc.x
    };
    let y: i32 = if edges.top {
        saturate(initial.loc.y as i64 + (initial.size.h as i64 - h as i64))
    } else {
        initial.loc.y
    };
    Rect { loc: Point { x, y }, size: Size { w, h } }
}

impl Grab {
    /// Whether a grab is active.
    pub open spec fn spec_is_active(&self) -> bool {
        !(*self is Idle)
    }

    #[verifier::when_used_as_spec(spec_is_active)]
    pub fn is_active(&self) -> (r: bool)
        ensures
            r == self.spec_is_active(),
    {
        match self {
            Grab::Idle => false,
            _ => true,
        }
    }

    /// The window the grab acts on.
    pub open spec fn spec_window(&self) -> Option<u64> {
        match *self {
            Grab::Idle => None,
            Grab::Move { start, window, initial_location } => Some(window),
            Grab::Resize { start, window, edges, initial_rect } => Some(window),
        }
    }

    #[verifier::when_used_as_spec(spec_window)]
    pub fn window(&self) -> (r: Option<u64>)
        ensures
            r == self.spec_window(),
    {
        match *self {
            Grab::Idle => None,
            Grab::Move { start, window, initial_location } => Some(window),
            Grab::Resize { start, window, edges, initial_rect } => Some(window),
        }
    }

    /// The button whose release ends the grab.
    pub open spec fn spec_button(&self) -> Option<u32> {
        match *self {
            Grab::Idle => None,
            Grab::Move { start, window, initial_location } => Some(start.button),
            Grab::Resize { start, window, edges, initial_rect } => Some(start.button),
        }
    }

    #[verifier::when_used_as_spec(spec_button)]
    pub fn button(&self) -> (r: Option<u32>)
        ensures
            r == self.spec_button(),
    {
        match *self {
            Grab::Idle => None,
            Grab::Move { start, window, initial_location } => Some(start.button),
            Grab::Resize { start, window, edges, initial_rect } => Some(start.button),
        }
    }

    /// Whether the release of `button` ends this grab.
    pub open spec fn spec_ends_on(&self, button: u32) -> bool {
        self.spec_button() == Some(button)
    }

    #[verifier::when_used_as_spec(spec_ends_on)]
    pub fn ends_on(&self, button: u32) -> (r: bool)
        ensures
            r == self.spec_ends_on(button),
    {
        match self.button() {
            Some(b) => b == button,
            None => false,
        }
    }
}

/// The grab that a press of `button` begins on the window `window`, hit
/// while the pointer is at `pointer`: the primary button moves it, the
/// secondary button resizes it by all edges, any other button begins nothing.
pub open spec fn spec_grab_for(button: u32, pointer: Point, window: u64, rect: Rect) -> Grab {
    let start = GrabStartData { button, location: pointer, focus: None };
    if button == BUTTON_PRIMARY {
        Grab::Move { start, window, initial_location: rect.loc }
    } else if button == BUTTON_SECONDARY {
        Grab::Resize {
            start,
            window,
            edges: ResizeEdges { top: true, bottom: true, left: true, right: true },
            initial_rect: rect,
        }
    } else {
        Grab::Idle
    }
}

/// Chooses the grab that a button press begins on a window.
pub fn grab_for(button: u32, pointer: Point, window: u64, rect: Rect) -> (r: Grab)
    ensures
        r == spec_grab_for(button, pointer, window, rect),
{
    let start = GrabStartData { button, location: pointer, focus: None };
    if button == BUTTON_PRIMARY {
        Grab::Move { start, window, initial_location: rect.loc }
    } else if button == BUTTON_SECONDARY {
        Grab::Resize { start, window, edges: ResizeEdges::all(), initial_rect: rect }
    } else {
        Grab::Idle
    }
}

} // verus!
