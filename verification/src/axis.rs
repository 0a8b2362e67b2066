//! Scroll input and the axis frame built from it.
//!
//! Scroll amounts are fixed-point integers: `AXIS_UNIT` of them make one
//! scroll unit.

use vstd::prelude::*;

verus! {

/// How many parts a scroll unit is divided into.
pub const AXIS_UNIT: i64 = 256;

/// How many scroll units one discrete step counts for when the device
/// reports no continuous amount.
pub const STEP_SCALE: i64 = 3;

/// What produced a scroll event.
#[derive(Clone, Copy, Debug, PartialEq, Eq, Structural)]
pub enum AxisSource {
    Wheel,
    Finger,
    Continuous,
    Other,
}

/// What a device reports for one axis of a scroll event.
#[derive(Clone, Copy, Debug, PartialEq, Eq, Structural)]
pub enum AxisAmount {
    /// A continuous amount, with the step count where the device has one.
    Continuous { amount: i64, steps: Option<i32> },
    /// A step count alone.
    Steps { count: i32 },
}

/// What an axis frame carries for one axis.
#[derive(Clone, Copy, Debug, PartialEq, Eq, Structural)]
pub struct AxisPart {
    /// The scroll amount, present exactly when it is not zero.
    pub value: Option<i64>,
    /// The discrete step count that goes with `value`.
    pub steps: Option<i32>,
    /// The explicit signal that scrolling on this axis has ended.
    pub stop: bool,
}

/// The one frame that stands for a scroll event, both axes together.
#[derive(Clone, Copy, Debug, PartialEq, Eq, Structural)]
pub struct AxisFrame {
    pub time: u32,
    pub source: AxisSource,
    pub horizontal: AxisPart,
    pub vertical: AxisPart,
}

impl AxisAmount {
    /// The scroll amount: the continuous one where there is one, else the
    /// step count scaled by `STEP_SCALE`.
    pub open spec fn spec_amount(&self) -> int {
        match *self {
            AxisAmount::Continuous { amount, steps } => amount as int,
            AxisAmount::Steps { count } => count * STEP_SCALE * AXIS_UNIT,
        }
    }

    /// The step count, where the device reports one.
    pub open spec fn spec_steps(&self) -> Option<i32> {
        match *self {
            AxisAmount::Continuous { amount, steps } => steps,
            AxisAmount::Steps { count } => Some(count),
        }
    }

    pub fn amount(&self) -> (r: i64)
        ensures
            r == self.spec_amount(),
    {
        match *self {
            AxisAmount::Continuous { amount, steps } => amount,
            AxisAmount::Steps { count } => {
                assert(count * STEP_SCALE * AXIS_UNIT == count * 768) by (nonlinear_arith)
                    requires
                        STEP_SCALE == 3,
                        AXIS_UNIT == 256,
                ;
                (count as i64) * 768
            },
        }
    }

    pub fn steps(&self) -> (r: Option<i32>)
        ensures
            r == self.spec_steps(),
    {
        match *self {
            AxisAmount::Continuous { amount, steps } => steps,
            AxisAmount::Steps { count } => Some(count),
        }
    }
}

/// What a frame carries for an axis that reports `amount` from `source`.
pub open spec fn spec_axis_part(source: AxisSource, amount: AxisAmount) -> AxisPart {
    if amount.spec_amount() != 0 {
        AxisPart { value: Some(amount.spec_amount() as i64), steps: amount.spec_steps(), stop: false }
    } else {
        AxisPart { value: None, steps: None, stop: source == AxisSource::Finger }
    }
}

/// The frame of a scroll event.
pub open spec fn spec_axis_frame(
    time: u32,
    source: AxisSource,
    horizontal: AxisAmount,
    vertical: AxisAmount,
) -> AxisFrame {
    AxisFrame {
        time,
        source,
        horizontal: spec_axis_part(source, horizontal),
        vertical: spec_axis_part(source, vertical),
    }
}

/// Builds what a frame carries for one axis. A moving axis carries its
/// amount and step count; a resting one carries nothing, but for a finger,
/// whose rest is an explicit stop.
pub fn axis_part(source: AxisSource, amount: AxisAmount) -> (r: AxisPart)
    ensures
        r == spec_axis_part(source, amount),
        amount.spec_amount() == 0 && source == AxisSource::Finger ==> r.stop && r.value is None,
        amount.spec_amount() == 0 && source != AxisSource::Finger ==> !r.stop && r.value is None
            && r.steps is None,
        amount.spec_amount() != 0 ==> !r.stop && r.value == Some(amount.spec_amount() as i64),
{
    let value: i64 = amount.amount();
    if value != 0 {
        AxisPart { value: Some(value), steps: amount.steps(), stop: false }
    } else {
        let stop = match source {
            AxisSource::Finger => true,
            _ => false,
        };
        AxisPart { value: None, steps: None, stop }
    }
}

/// Builds the single frame of a scroll event from both of its axes.
pub fn axis_frame(time: u32, source: AxisSource, horizontal: AxisAmount, vertical: AxisAmount) -> (r:
    AxisFrame)
    ensures
        r == spec_axis_frame(time, source, horizontal, vertical),
{
    AxisFrame {
        time,
        source,
        horizontal: axis_part(source, horizontal),
        vertical: axis_part(source, vertical),
    }
}

} // verus!
