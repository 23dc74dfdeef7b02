//! Data values
use crate::enums::Unit;
pub use crate::enums::{AnalogFlags, Mq, MqFlags, MqType};
use num_rational::Ratio;
use std::time::Duration;
use vstd::prelude::*;

verus! {

/// The length of a span of time in nanoseconds: what `Duration::as_nanos`
/// returns.
pub uninterp spec fn duration_nanos(d: Duration) -> nat;

/// Calls `Duration::new`, which adds the nanoseconds to the whole seconds and
/// carries what exceeds a second over into them. It panics where that carry
/// overflows the seconds, so such input is left out.
#[verifier::external_body]
pub(crate) fn duration_new(secs: u64, nanos: u32) -> (d: Duration)
    requires
        secs + nanos / 1_000_000_000 <= u64::MAX,
    ensures
        duration_nanos(d) == secs * 1_000_000_000 + nanos,
{
    Duration::new(secs, nanos)
}

/// A header with information about each session run.
pub struct Header {
    pub feed_version: i32,
    pub start_time: Duration,
}

/// A logic capture.
pub struct Logic<'a> {
    /// The number of bytes in each sample. So if `unit_size` is 4 and `data.len() == 16`, then
    /// there are 4 samples.
    pub unit_size: u16,
    pub data: &'a [u8],
}

/// An analog capture.
pub struct Analog<'a> {
    /// The number of bytes in each sample. So if `unit_size` is 4 and `data.len() == 16`, then
    /// there are 4 samples.
    pub unit_size: u8,
    pub data: &'a [u8],
    pub mq: Mq,
    pub scale: Ratio<i64>,
    pub offset: Ratio<i64>,
    pub channels: (),
    pub flags: AnalogFlags,
    /// Number of significant digits after the decimal point if positive, or number of
    /// non-significant digits before the decimal point if negative (refers to the value we
    /// actually read on the wire).
    pub digits: i8,
    pub unit: Unit,
}

/// A feed of data from the session.
pub enum Datafeed<'a> {
    Header(Header),
    Logic(Logic<'a>),
    Analog(Analog<'a>),
    /// The trigger matched at this point in the data feed. For some reason, it doesn't tell
    /// you *which* trigger stage triggered this.
    Trigger,
    /// Beginning of frame
    FrameBegin,
    /// End of frame
    FrameEnd,
    /// End of stream
    End,
}

} // verus!
