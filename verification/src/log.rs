//! Logging
//!
//! Control the Sigrok message logging functionality.
pub use crate::enums::LogLevel;
use vstd::prelude::*;

verus! {

/// The number that is handed to the native library to set the given log
/// level.
pub fn set_log_level(level: LogLevel) -> (raw: i32)
    ensures
        raw == level.spec_raw(),
{
    level.raw()
}

/// The log level that the native library reports. Anything that is not
/// known is probably a future, higher log level, so it counts as the
/// highest one known.
pub fn get_log_level(raw: i32) -> (level: LogLevel)
    ensures
        level == (match LogLevel::spec_from_raw(raw) {
            Some(l) => l,
            None => LogLevel::Spew,
        }),
{
    match LogLevel::from_raw(raw) {
        Some(l) => l,
        None => LogLevel::Spew,
    }
}

} // verus!
