//! Input events as the dispatcher takes them, and what it reports back.

use vstd::prelude::*;
use crate::axis::{AxisAmount, AxisFrame, AxisSource};
use crate::geometry::{clamp_i32, saturate, Point, Rect};
use crate::grab::Grab;
use crate::keybinding::{FilterResult, KeyState, ModifierState};
use crate::serial::Serial;

verus! {

/// The range of an absolute device coordinate: a coordinate `c` stands for
/// the fraction `c / ABSOLUTE_RANGE` of the output's extent.
pub const ABSOLUTE_RANGE: u64 = 65536;

/// One raw input event. Each kind carries the device's timestamp.
#[derive(Clone, Copy, Debug, PartialEq, Eq, Structural)]
pub enum InputEvent {
    /// A key went down or came up. `keysym` and `modifiers` are the key
    /// symbol and the modifier snapshot that the seat's keymap gives for it.
    Keyboard { time: u32, key_code: u32, state: KeyState, keysym: u32, modifiers: ModifierState },
    /// The pointer moved by a distance.
    PointerMotion { time: u32, dx: i32, dy: i32 },
    /// The pointer moved to a device-relative position.
    PointerMotionAbsolute { time: u32, x: u32, y: u32 },
    /// A pointer button went down or came up.
    PointerButton { time: u32, button: u32, state: KeyState },
    /// The pointer scrolled.
    PointerAxis { time: u32, source: AxisSource, horizontal: AxisAmount, vertical: AxisAmount },
    /// Any other kind of event.
    Other,
}

/// A pointer motion for the seat.
#[derive(Clone, Copy, Debug, PartialEq, Eq, Structural)]
pub struct MotionEvent {
    pub location: Point,
    pub serial: Serial,
    pub time: u32,
}

/// A pointer button event for the seat.
#[derive(Clone, Copy, Debug, PartialEq, Eq, Structural)]
pub struct ButtonEvent {
    pub button: u32,
    pub state: KeyState,
    pub serial: Serial,
    pub time: u32,
}

/// What a button event did to focus and grab before it was forwarded.
#[derive(Clone, Copy, Debug, PartialEq, Eq, Structural)]
pub enum ButtonResponse {
    /// Nothing: a release that ends no grab, or a press during a grab.
    Passed,
    /// The press hit `window`: it was raised and focused, every window is
    /// due a configure, and `grab` is the grab that began (`Idle` for none).
    Hit { window: u64, grab: Grab },
    /// The press hit no window: every window was deactivated and is due a
    /// configure, and keyboard focus was cleared.
    Miss,
    /// The release ended the grab on `window`.
    GrabEnded { window: u64 },
}

/// What the dispatcher hands to the seat for one event.
#[derive(Clone, Debug, PartialEq, Eq)]
pub enum Outcome {
    /// A key event, with the filter's answer. An intercepted action is to be
    /// run only after the seat has finished with the key.
    Key { serial: Serial, time: u32, key_code: u32, state: KeyState, filter: FilterResult },
    /// A relative motion, passed on as it came.
    RelativeMotion { time: u32, dx: i32, dy: i32 },
    /// A motion, with the window found under the pointer.
    Motion { under: Option<u64>, motion: MotionEvent },
    /// A button event: always forwarded, whatever `response` says.
    Button { response: ButtonResponse, event: ButtonEvent },
    /// The frame of a scroll event.
    Axis { frame: AxisFrame },
    /// Nothing: the event is of a kind the dispatcher does not handle.
    Ignored,
}

/// Why an event was dropped.
#[derive(Clone, Copy, Debug, PartialEq, Eq, Structural)]
pub enum DispatchError {
    /// The seat has no keyboard.
    MissingKeyboard,
    /// The seat has no pointer.
    MissingPointer,
    /// There is no output to place an absolute position on.
    NoOutput,
    /// Every serial has been given out.
    SerialsExhausted,
}

impl ButtonResponse {
    /// Whether every window is due a configure.
    pub open spec fn spec_broadcasts_configure(&self) -> bool {
        *self is Hit || *self is Miss
    }

    #[verifier::when_used_as_spec(spec_broadcasts_configure)]
    pub fn broadcasts_configure(&self) -> (r: bool)
        ensures
            r == self.spec_broadcasts_configure(),
    {
        match self {
            ButtonResponse::Hit { .. } => true,
            ButtonResponse::Miss => true,
            _ => false,
        }
    }
}

impl Outcome {
    /// The serial minted for the event, if its kind takes one.
    pub open spec fn spec_serial(&self) -> Option<Serial> {
        match *self {
            Outcome::Key { serial, time, key_code, state, filter } => Some(serial),
            Outcome::Motion { under, motion } => Some(motion.serial),
            Outcome::Button { response, event } => Some(event.serial),
            _ => None,
        }
    }

    pub fn serial(&self) -> (r: Option<Serial>)
        ensures
            r == self.spec_serial(),
    {
        match self {
            Outcome::Key { serial, .. } => Some(*serial),
            Outcome::Motion { motion, .. } => Some(motion.serial),
            Outcome::Button { event, .. } => Some(event.serial),
            _ => None,
        }
    }
}

impl InputEvent {
    /// Whether a serial is minted when an event of this kind is dispatched.
    pub open spec fn spec_takes_serial(&self) -> bool {
        *self is Keyboard || *self is PointerMotionAbsolute || *self is PointerButton
    }

    #[verifier::when_used_as_spec(spec_takes_serial)]
    pub fn takes_serial(&self) -> (r: bool)
        ensures
            r == self.spec_takes_serial(),
    {
        match self {
            InputEvent::Keyboard { .. } => true,
            InputEvent::PointerMotionAbsolute { .. } => true,
            InputEvent::PointerButton { .. } => true,
            _ => false,
        }
    }
}

/// How far into an extent an absolute coordinate reaches. An extent that is
/// not positive has no inside: the coordinate then reaches nowhere into it.
pub open spec fn spec_scaled(coord: u32, extent: i32) -> int {
    if extent <= 0 {
        0
    } else {
        (coord * extent) / (ABSOLUTE_RANGE as int)
    }
}

/// Scales an absolute coordinate to an extent.
pub fn scaled(coord: u32, extent: i32) -> (r: i64)
    ensures
        r == spec_scaled(coord, extent),
        0 <= r <= 0x7fff_ffff_ffff,
{
    if extent <= 0 {
        0
    } else {
        let c: u64 = coord as u64;
        let e: u64 = extent as u64;
        assert(c * e <= 0xffff_ffff * 0x7fff_ffff) by (nonlinear_arith)
            requires
                c <= 0xffff_ffff,
                e <= 0x7fff_ffff,
        ;
        let product: u64 = c * e;
        let q: u64 = product / ABSOLUTE_RANGE;
        q as i64
    }
}

/// The global position of an absolute device position on `output`: scaled
/// to the output's size, offset by its location, kept inside the coordinate
/// range.
pub open spec fn spec_transformed(output: Rect, x: u32, y: u32) -> Point {
    Point {
        x: clamp_i32(output.loc.x + spec_scaled(x, output.size.w)),
        y: clamp_i32(output.loc.y + spec_scaled(y, output.size.h)),
    }
}

/// Transforms an absolute device position into global coordinates.
pub fn transformed(output: Rect, x: u32, y: u32) -> (r: Point)
    ensures
        r == spec_transformed(output, x, y),
{
    let gx: i64 = output.loc.x as i64 + scaled(x, output.size.w);
    let gy: i64 = output.loc.y as i64 + scaled(y, output.size.h);
    Point { x: saturate(gx), y: saturate(gy) }
}

} // verus!
