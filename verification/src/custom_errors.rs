//! Error types for the brightness engine: collaborator failures surfaced to
//! the caller and validation failures for user-supplied values. Each error
//! renders its own human-readable message.

use vstd::prelude::*;

verus! {

use vstd::string::StringExecFns;
use crate::format::dec_digits;
use crate::format::u32_to_string;

/// The display service exposed no usable screen resource.
#[derive(Debug, Clone, Copy, PartialEq, Eq, Structural)]
pub struct NoValidScreenResourceError;

impl NoValidScreenResourceError {
    /// The human-readable description of this error.
    pub fn message(&self) -> (r: String)
        ensures
            r@ == "could not find valid screen resouce"@,
    {
        let r: String = "could not find valid screen resouce".to_owned();
        r
    }
}

/// The device did not report a usable backlight value range.
#[derive(Debug, Clone, Copy, PartialEq, Eq, Structural)]
pub struct NoValidBacklightRangeValuesError;

impl NoValidBacklightRangeValuesError {
    /// The human-readable description of this error.
    pub fn message(&self) -> (r: String)
        ensures
            r@ == "did not receive proper backlight value range values"@,
    {
        let r: String = "did not receive proper backlight value range values".to_owned();
        r
    }
}

/// The device returned malformed or absent data for the current value.
#[derive(Debug, Clone, Copy, PartialEq, Eq, Structural)]
pub struct NoValidCurrenBacklightValueError;

impl NoValidCurrenBacklightValueError {
    /// The human-readable description of this error.
    pub fn message(&self) -> (r: String)
        ensures
            r@ == "did not receive proper current backlight value"@,
    {
        let r: String = "did not receive proper current backlight value".to_owned();
        r
    }
}

/// A directly supplied brightness value lies outside the active mode's
/// valid range `[min, max]`.
#[derive(Debug, Clone, Copy, PartialEq, Eq, Structural)]
pub struct ValueOutOfRangeError {
    pub min: u32,
    pub max: u32,
    pub val: u32,
}

impl ValueOutOfRangeError {
    /// The human-readable description of this error, carrying the violated
    /// bounds and the offending value.
    pub fn message(&self) -> (r: String)
        ensures
            r@ =~= "backlight value is out of range - min: "@ + dec_digits(self.min as int)
                + ", max: "@ + dec_digits(self.max as int) + ", value: "@ + dec_digits(
                self.val as int,
            ),
    {
        let mut r: String = "backlight value is out of range - min: ".to_owned();
        let min_s: String = u32_to_string(self.min);
        let max_s: String = u32_to_string(self.max);
        let val_s: String = u32_to_string(self.val);
        r.append(min_s.as_str());
        r.append(", max: ");
        r.append(max_s.as_str());
        r.append(", value: ");
        r.append(val_s.as_str());
        r
    }
}

/// The `--steps` parameter for step mode lies outside `[1, max]`, where
/// `max` is the hardware maximum.
#[derive(Debug, Clone, Copy, PartialEq, Eq, Structural)]
pub struct StepParameterOutOfRangeError {
    pub max: u32,
    pub step_val: u32,
}

impl StepParameterOutOfRangeError {
    /// The human-readable description of this error, carrying the accepted
    /// bounds and the offending step count.
    pub fn message(&self) -> (r: String)
        ensures
            r@ =~= "steps parameter is out of range - min: 0, max: "@ + dec_digits(
                self.max as int,
            ) + ", steps value: "@ + dec_digits(self.step_val as int),
    {
        let mut r: String = "steps parameter is out of range - min: 0, max: ".to_owned();
        let max_s: String = u32_to_string(self.max);
        let step_s: String = u32_to_string(self.step_val);
        r.append(max_s.as_str());
        r.append(", steps value: ");
        r.append(step_s.as_str());
        r
    }
}

} // verus!
