//! Request handler: resolves the active mode's span, maps a parsed command
//! intent and the device's current value to the single outcome of the
//! invocation, and computes the content of the optional change
//! notification. Clamping saturates at the mode's bounds and never wraps.

use vstd::prelude::*;

verus! {

use crate::convert::absolute_to_steps;
use crate::convert::steps_to_absolute;
use crate::convert::to_hardware_value;
use crate::convert::to_mode_value;
use crate::custom_errors::StepParameterOutOfRangeError;
use crate::custom_errors::ValueOutOfRangeError;

/// Coordinate space in which brightness values are expressed.
#[derive(Debug, Clone, Copy, PartialEq, Eq, Structural)]
pub enum Mode {
    /// The device's native hardware units, `[0, hw_max]`.
    Absolute,
    /// A percentage, `[0, 100]`.
    Relative,
    /// A caller-chosen step count, `[0, steps]`.
    Step,
}

/// The single operation requested for one invocation. Exactly one intent is
/// active per invocation; with no flags given the invocation is `Idle` and
/// behaves like `Get`.
#[derive(Debug, Clone, Copy, PartialEq, Eq, Structural)]
pub enum Intent {
    Get,
    ReportMin,
    ReportMax,
    SetTo(u32),
    Increment(u32),
    Decrement(u32),
    Idle,
}

/// What the invocation must do once the engine has resolved the request.
#[derive(Debug, Clone, Copy, PartialEq, Eq, Structural)]
pub enum Outcome {
    /// Print this mode value; nothing is written to the hardware.
    Report(u32),
    /// Write this hardware value to the device.
    Write(u32),
}

/// Saturating increment on the mode scale: the sum, capped at the span.
pub open spec fn clamped_increment(cur: int, amount: int, span: int) -> int {
    if cur + amount > span {
        span
    } else {
        cur + amount
    }
}

/// Saturating decrement on the mode scale: the difference, floored at zero.
pub open spec fn clamped_decrement(cur: int, amount: int) -> int {
    if cur - amount < 0 {
        0
    } else {
        cur - amount
    }
}

/// Increment and decrement can never leave the mode's value space: for any
/// in-range current value and any requested amount, the clamped result
/// stays within `[0, span]`.
pub proof fn lemma_clamp_in_range(cur: int, amount: int, span: int)
    requires
        0 <= cur <= span,
        0 <= amount,
    ensures
        0 <= clamped_increment(cur, amount, span) <= span,
        0 <= clamped_decrement(cur, amount) <= span,
{
}

/// The span of the active mode: the hardware maximum in absolute mode, 100
/// in percentage mode, and the validated `--steps` parameter in step mode.
/// A step count of zero or above the hardware maximum is rejected here,
/// before any hardware access.
pub fn resolve_span(mode: Mode, steps: Option<u32>, hw_max: u32) -> (r: Result<
    u32,
    StepParameterOutOfRangeError,
>)
    requires
        hw_max >= 1,
        mode is Step ==> steps is Some,
    ensures
        match mode {
            Mode::Absolute => r == Ok::<u32, StepParameterOutOfRangeError>(hw_max),
            Mode::Relative => r == Ok::<u32, StepParameterOutOfRangeError>(100u32),
            Mode::Step => match steps {
                Some(s) => if 1 <= s && s <= hw_max {
                    r == Ok::<u32, StepParameterOutOfRangeError>(s)
                } else {
                    r == Err::<u32, StepParameterOutOfRangeError>(
                        (StepParameterOutOfRangeError { max: hw_max, step_val: s }),
                    )
                },
                None => true,
            },
        },
        r matches Ok(span) ==> 1 <= span,
{
    match mode {
        Mode::Absolute => Ok(hw_max),
        Mode::Relative => Ok(100),
        Mode::Step => {
            match steps {
                Some(s) => {
                    if 1 <= s && s <= hw_max {
                        Ok(s)
                    } else {
                        Err(StepParameterOutOfRangeError { max: hw_max, step_val: s })
                    }
                },
                None => vstd::pervasive::unreached(),
            }
        },
    }
}

/// Whether resolving this intent needs the device's current value: reads
/// and relative changes do; min/max reports and a direct set do not.
pub fn needs_current_value(intent: Intent) -> (r: bool)
    ensures
        r == (intent is Get || intent is Idle || intent is Increment || intent is Decrement),
{
    match intent {
        Intent::Get | Intent::Idle | Intent::Increment(_) | Intent::Decrement(_) => true,
        Intent::ReportMin | Intent::ReportMax | Intent::SetTo(_) => false,
    }
}

/// The intent encoded by the command-line flags, resolved in the tool's
/// priority order: get, min, max, inc, dec, set; with no flag given the
/// invocation is idle.
pub fn intent_from_flags(
    get: bool,
    min: bool,
    max: bool,
    set: Option<u32>,
    inc: Option<u32>,
    dec: Option<u32>,
) -> (r: Intent)
    ensures
        get ==> r == Intent::Get,
        !get && min ==> r == Intent::ReportMin,
        !get && !min && max ==> r == Intent::ReportMax,
        !get && !min && !max ==> match inc {
            Some(v) => r == Intent::Increment(v),
            None => match dec {
                Some(v) => r == Intent::Decrement(v),
                None => match set {
                    Some(v) => r == Intent::SetTo(v),
                    None => r == Intent::Idle,
                },
            },
        },
{
    if get {
        Intent::Get
    } else if min {
        Intent::ReportMin
    } else if max {
        Intent::ReportMax
    } else if let Some(v) = inc {
        Intent::Increment(v)
    } else if let Some(v) = dec {
        Intent::Decrement(v)
    } else if let Some(v) = set {
        Intent::SetTo(v)
    } else {
        Intent::Idle
    }
}

/// Resolve one request against the active mode.
///
/// Reads convert the current hardware value onto the mode scale; min/max
/// reports need no hardware value at all; a direct set is validated against
/// `[0, span]` and rejected with the violated bounds when out of range;
/// increment and decrement saturate at the mode's bounds, for any amount,
/// and then convert back to a hardware value. Every written hardware value
/// lies in `[0, hw_max]` and every reported mode value in `[0, span]`.
pub fn handle_request(hw_max: u32, span: u32, intent: Intent, current: u32) -> (r: Result<
    Outcome,
    ValueOutOfRangeError,
>)
    requires
        hw_max >= 1,
        span >= 1,
        current <= hw_max,
    ensures
        match intent {
            Intent::Get => r matches Ok(Outcome::Report(m)) && m == to_mode_value(
                hw_max as int,
                span as int,
                current as int,
            ),
            Intent::Idle => r matches Ok(Outcome::Report(m)) && m == to_mode_value(
                hw_max as int,
                span as int,
                current as int,
            ),
            Intent::ReportMin => r matches Ok(Outcome::Report(m)) && m == 0,
            Intent::ReportMax => r matches Ok(Outcome::Report(m)) && m == span,
            Intent::SetTo(v) => if v <= span {
                r matches Ok(Outcome::Write(h)) && h == to_hardware_value(
                    hw_max as int,
                    span as int,
                    v as int,
                )
            } else {
                r == Err::<Outcome, ValueOutOfRangeError>(
                    (ValueOutOfRangeError { min: 0, max: span, val: v }),
                )
            },
            Intent::Increment(v) => r matches Ok(Outcome::Write(h)) && h == to_hardware_value(
                hw_max as int,
                span as int,
                clamped_increment(
                    to_mode_value(hw_max as int, span as int, current as int),
                    v as int,
                    span as int,
                ),
            ),
            Intent::Decrement(v) => r matches Ok(Outcome::Write(h)) && h == to_hardware_value(
                hw_max as int,
                span as int,
                clamped_decrement(
                    to_mode_value(hw_max as int, span as int, current as int),
                    v as int,
                ),
            ),
        },
        r matches Ok(Outcome::Write(h)) ==> h <= hw_max,
        r matches Ok(Outcome::Report(m)) ==> m <= span,
{
    match intent {
        Intent::Get | Intent::Idle => {
            let m: u32 = absolute_to_steps(hw_max, span, current);
            Ok(Outcome::Report(m))
        },
        Intent::ReportMin => Ok(Outcome::Report(0)),
        Intent::ReportMax => Ok(Outcome::Report(span)),
        Intent::SetTo(v) => {
            if v <= span {
                Ok(Outcome::Write(steps_to_absolute(hw_max, span, v)))
            } else {
                Err(ValueOutOfRangeError { min: 0, max: span, val: v })
            }
        },
        Intent::Increment(v) => {
            let cur: u32 = absolute_to_steps(hw_max, span, current);
            let sum: u64 = cur as u64 + v as u64;
            let new_val: u32 = if sum > span as u64 {
                span
            } else {
                sum as u32
            };
            Ok(Outcome::Write(steps_to_absolute(hw_max, span, new_val)))
        },
        Intent::Decrement(v) => {
            let cur: u32 = absolute_to_steps(hw_max, span, current);
            let new_val: u32 = if cur < v {
                0
            } else {
                cur - v
            };
            Ok(Outcome::Write(steps_to_absolute(hw_max, span, new_val)))
        },
    }
}

/// Percentage and icon class for the change notification: the new hardware
/// value renormalized to a span of 100, and whether it lies above the 50 %
/// threshold. Notification content is always percentage-based, whatever
/// the active mode.
pub fn notification_content(max_abs: u32, abs_val: u32) -> (r: (u32, bool))
    requires
        max_abs >= 1,
        abs_val <= max_abs,
    ensures
        r.0 == to_mode_value(max_abs as int, 100, abs_val as int),
        r.0 <= 100,
        r.1 == (r.0 > 50),
{
    let pct: u32 = absolute_to_steps(max_abs, 100, abs_val);
    (pct, pct > 50)
}

/// The notification icon name: the high-brightness icon above 50 %, the
/// low-brightness icon otherwise.
pub fn icon_name(high: bool) -> (r: &'static str)
    ensures
        high ==> r@ == "brightness-high"@,
        !high ==> r@ == "brightness-low"@,
{
    if high {
        "brightness-high"
    } else {
        "brightness-low"
    }
}

} // verus!
