//! Brightness value-mapping engine for a backlight command-line tool.
//!
//! The engine converts between a display's native hardware brightness range
//! and a mode-relative scale (absolute, percentage, or a caller-chosen step
//! count), applies saturating increment/decrement, validates externally
//! supplied values, and renders values through a user template. All hardware
//! and notification I/O lives outside this crate; the engine works on plain
//! integers and strings.

pub mod convert;
pub mod custom_errors;
pub mod format;
pub mod handler;
