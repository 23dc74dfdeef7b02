//! The datafeed marshaller: from one packet of the native acquisition
//! stream, given as plain values and borrowed sample memory, to the typed
//! event that the session's callback receives.
use crate::data::{
    duration_nanos, duration_new, Analog, AnalogFlags, Datafeed, Header, Logic, Mq, MqFlags, MqType,
};
use crate::enums::{lemma_flag_steps, Unit};
use crate::rational::{signed_parts, signed_ratio};
use vstd::prelude::*;
use vstd::slice::slice_subrange;

verus! {

/// Kind tag of the packet that opens a feed.
pub const SR_DF_HEADER: u16 = 10000;

/// Kind tag of the packet that closes a feed.
pub const SR_DF_END: u16 = 10001;

/// Kind tag of a packet that carries metadata.
pub const SR_DF_META: u16 = 10002;

/// Kind tag of the packet that marks where the trigger matched.
pub const SR_DF_TRIGGER: u16 = 10003;

/// Kind tag of a packet of logic samples.
pub const SR_DF_LOGIC: u16 = 10004;

/// Kind tag of the packet that opens a frame.
pub const SR_DF_FRAME_BEGIN: u16 = 10005;

/// Kind tag of the packet that closes a frame.
pub const SR_DF_FRAME_END: u16 = 10006;

/// Kind tag of a packet of analog samples.
pub const SR_DF_ANALOG: u16 = 10007;

/// A point in time as seconds and microseconds since the epoch.
#[derive(Clone, Copy, Debug)]
pub struct RawTimeval {
    pub tv_sec: i64,
    pub tv_usec: i64,
}

/// Payload of a header packet.
#[derive(Clone, Copy, Debug)]
pub struct RawHeader {
    pub feed_version: i32,
    pub starttime: RawTimeval,
}

/// Payload of a logic packet. `data` is the memory that the packet points
/// at; its first `length` bytes are the samples.
#[derive(Clone, Copy, Debug)]
pub struct RawLogic<'a> {
    pub length: u64,
    pub unitsize: u16,
    pub data: &'a [u8],
}

/// A rational number of the native library: signed numerator, unsigned
/// denominator.
#[derive(Clone, Copy, Debug)]
pub struct RawRational {
    pub p: i64,
    pub q: u64,
}

/// How the samples of an analog packet are laid out. The `is_` fields are
/// native booleans: zero is false, every other number true.
#[derive(Clone, Copy, Debug)]
pub struct RawAnalogEncoding {
    pub unitsize: u8,
    pub is_signed: i32,
    pub is_float: i32,
    pub is_bigendian: i32,
    pub digits: i8,
    pub is_digits_decimal: i32,
    pub scale: RawRational,
    pub offset: RawRational,
}

/// What the samples of an analog packet measure.
#[derive(Clone, Copy, Debug)]
pub struct RawAnalogMeaning {
    pub mq: u32,
    pub unit: u32,
    pub mqflags: u32,
}

/// Payload of an analog packet. `data` is the memory that the packet points
/// at; its first `num_samples * encoding.unitsize` bytes are the samples.
#[derive(Clone, Copy, Debug)]
pub struct RawAnalog<'a> {
    pub data: &'a [u8],
    pub num_samples: u32,
    pub encoding: RawAnalogEncoding,
    pub meaning: RawAnalogMeaning,
}

/// Which payload a packet of a given kind carries.
#[derive(Clone, Copy, Debug, PartialEq, Eq, Structural)]
pub enum PayloadKind {
    Header,
    Logic,
    Analog,
    /// The kind has no payload that is read.
    Absent,
}

/// One packet of the native stream.
#[derive(Clone, Copy, Debug)]
pub enum Packet<'a> {
    Header(RawHeader),
    Logic(RawLogic<'a>),
    Analog(RawAnalog<'a>),
    /// A packet whose payload is not read; the field is its kind tag.
    Bare(u16),
}

/// What is to be done with one packet.
pub enum Dispatch<'a> {
    /// Call the session's callback once, with this event.
    Deliver(Datafeed<'a>),
    /// A metadata packet: there is no event for it yet, only a notice.
    Placeholder,
    /// A packet of a kind that is not known: nothing happens.
    Ignore,
}

/// The payload that the marshaller reads from a packet of kind `kind`.
pub open spec fn spec_payload_kind(kind: u16) -> PayloadKind {
    if kind == SR_DF_HEADER {
        PayloadKind::Header
    } else if kind == SR_DF_LOGIC {
        PayloadKind::Logic
    } else if kind == SR_DF_ANALOG {
        PayloadKind::Analog
    } else {
        PayloadKind::Absent
    }
}

/// Tells which payload is to be read from a packet of kind `kind`.
#[verifier::when_used_as_spec(spec_payload_kind)]
pub fn payload_kind(kind: u16) -> (r: PayloadKind)
    ensures
        r == spec_payload_kind(kind),
{
    if kind == SR_DF_HEADER {
        PayloadKind::Header
    } else if kind == SR_DF_LOGIC {
        PayloadKind::Logic
    } else if kind == SR_DF_ANALOG {
        PayloadKind::Analog
    } else {
        PayloadKind::Absent
    }
}

/// The number of bytes that `num_samples` samples of `unit_size` bytes take.
pub open spec fn spec_analog_data_len(num_samples: u32, unit_size: u8) -> int {
    num_samples as int * unit_size as int
}

/// The number of bytes that the samples of an analog packet take.
pub fn analog_data_len(num_samples: u32, unit_size: u8) -> (n: usize)
    requires
        spec_analog_data_len(num_samples, unit_size) <= usize::MAX,
    ensures
        n == spec_analog_data_len(num_samples, unit_size),
{
    assert(num_samples as int * unit_size as int <= 0xffff_ffff * 0xff) by (nonlinear_arith)
        requires
            num_samples <= 0xffff_ffff,
            unit_size <= 0xff,
    ;
    let n: u64 = num_samples as u64 * unit_size as u64;
    n as usize
}

impl RawTimeval {
    /// The seconds of the start time as the marshaller reads them.
    pub open spec fn secs(self) -> u64 {
        self.tv_sec as u64
    }

    /// The nanoseconds beside the whole seconds: the microseconds, read as
    /// 32 bits, times a thousand.
    pub open spec fn subsec_nanos(self) -> int {
        (self.tv_usec as u32) * 1000
    }

    /// The length of the span from the epoch to this point, in nanoseconds.
    pub open spec fn nanos(self) -> int {
        self.secs() * 1_000_000_000 + self.subsec_nanos()
    }

    /// A span of time can hold this point: neither the nanoseconds nor the
    /// seconds they carry into overflow.
    pub open spec fn representable(self) -> bool {
        &&& self.subsec_nanos() <= u32::MAX
        &&& self.secs() + self.subsec_nanos() / 1_000_000_000 <= u64::MAX
    }

    /// The point is one that a clock gives: not before the epoch, and with
    /// less than a second of microseconds.
    pub open spec fn normal(self) -> bool {
        0 <= self.tv_sec && 0 <= self.tv_usec < 1_000_000
    }

    /// Every point that a clock gives is representable, and its span is the
    /// seconds plus the microseconds, exact to the nanosecond.
    pub proof fn lemma_normal_nanos(self)
        requires
            self.normal(),
        ensures
            self.representable(),
            self.nanos() == self.tv_sec * 1_000_000_000 + self.tv_usec * 1000,
            self.nanos() * 1_000_000 == (self.tv_sec * 1_000_000 + self.tv_usec) * 1_000_000_000,
    {
    }
}

impl RawAnalogEncoding {
    /// The encoding flags that the four native booleans amount to.
    pub open spec fn flags_match(self, flags: AnalogFlags) -> bool {
        &&& flags.wf()
        &&& (flags@ & AnalogFlags::SIGNED == AnalogFlags::SIGNED) == (self.is_signed != 0)
        &&& (flags@ & AnalogFlags::FLOATING_POINT == AnalogFlags::FLOATING_POINT) == (self.is_float
            != 0)
        &&& (flags@ & AnalogFlags::BIG_ENDIAN == AnalogFlags::BIG_ENDIAN) == (self.is_bigendian
            != 0)
        &&& (flags@ & AnalogFlags::DECIMAL_DIGITS == AnalogFlags::DECIMAL_DIGITS) == (
        self.is_digits_decimal != 0)
    }
}

/// The quantity that a native number stands for; a number that is not known
/// counts as a voltage.
pub open spec fn mq_type_or_voltage(raw: u32) -> MqType {
    match MqType::spec_from_raw(raw) {
        Some(t) => t,
        None => MqType::Voltage,
    }
}

/// The unit that a native number stands for; a number that is not known
/// counts as volt.
pub open spec fn unit_or_volt(raw: u32) -> Unit {
    match Unit::spec_from_raw(raw) {
        Some(u) => u,
        None => Unit::Volt,
    }
}

impl<'a> RawLogic<'a> {
    /// The memory that the packet points at holds all the samples.
    pub open spec fn in_bounds(self) -> bool {
        self.length <= self.data@.len()
    }

    /// `event` is the logic capture that this payload describes.
    pub open spec fn decodes_to(self, event: Logic<'a>) -> bool {
        &&& event.unit_size == self.unitsize
        &&& event.data@ == self.data@.take(self.length as int)
    }
}

impl<'a> RawAnalog<'a> {
    /// The number of bytes that the samples take.
    pub open spec fn data_len(self) -> int {
        spec_analog_data_len(self.num_samples, self.encoding.unitsize)
    }

    /// The memory that the packet points at holds all the samples.
    pub open spec fn in_bounds(self) -> bool {
        self.data_len() <= self.data@.len()
    }

    /// `event` is the analog capture that this payload describes.
    pub open spec fn decodes_to(self, event: Analog<'a>) -> bool {
        &&& event.unit_size == self.encoding.unitsize
        &&& event.data@ == self.data@.take(self.data_len())
        &&& event.data@.len() == self.num_samples * event.unit_size
        &&& event.mq.mq_type == mq_type_or_voltage(self.meaning.mq)
        &&& event.mq.flags@ == self.meaning.mqflags & MqFlags::ALL
        &&& event.mq.flags.wf()
        &&& signed_parts(event.scale) == (self.encoding.scale.p, self.encoding.scale.q as i64)
        &&& signed_parts(event.offset) == (self.encoding.offset.p, self.encoding.offset.q as i64)
        &&& self.encoding.flags_match(event.flags)
        &&& event.digits == self.encoding.digits
        &&& event.unit == unit_or_volt(self.meaning.unit)
    }
}

impl RawHeader {
    /// `event` is the header that this payload describes.
    pub open spec fn decodes_to(self, event: Header) -> bool {
        &&& event.feed_version == self.feed_version
        &&& duration_nanos(event.start_time) == self.starttime.nanos()
    }
}

impl<'a> Packet<'a> {
    /// The packet can be marshalled: its sample memory holds what its
    /// counters announce, a header's start time is representable, and a
    /// packet that comes without payload is not of a kind that has one.
    pub open spec fn valid(self) -> bool {
        match self {
            Packet::Header(h) => h.starttime.representable(),
            Packet::Logic(l) => l.in_bounds(),
            Packet::Analog(a) => a.in_bounds(),
            Packet::Bare(kind) => spec_payload_kind(kind) == PayloadKind::Absent,
        }
    }

    /// Tells whether the packet can be marshalled.
    #[verifier::when_used_as_spec(valid)]
    pub fn is_valid(self) -> (r: bool)
        ensures
            r == self.valid(),
    {
        match self {
            Packet::Header(h) => {
                let secs = #[verifier::truncate]
                (h.starttime.tv_sec as u64);
                let micros = #[verifier::truncate]
                (h.starttime.tv_usec as u32);
                if micros <= u32::MAX / 1000 {
                    let carry = (micros * 1000 / 1_000_000_000) as u64;
                    secs <= u64::MAX - carry
                } else {
                    false
                }
            },
            Packet::Logic(l) => {
                let available = l.data.len();
                l.length <= available as u64
            },
            Packet::Analog(a) => {
                let available = a.data.len();
                assert(a.num_samples as int * a.encoding.unitsize as int <= 0xffff_ffff * 0xff)
                    by (nonlinear_arith)
                    requires
                        a.num_samples <= 0xffff_ffff,
                        a.encoding.unitsize <= 0xff,
                ;
                a.num_samples as u64 * a.encoding.unitsize as u64 <= available as u64
            },
            Packet::Bare(kind) => payload_kind(kind) == PayloadKind::Absent,
        }
    }

    /// `dispatch` is what this packet asks for.
    pub open spec fn dispatches_to(self, dispatch: Dispatch<'a>) -> bool {
        match self {
            Packet::Header(h) => dispatch matches Dispatch::Deliver(Datafeed::Header(e))
                && h.decodes_to(e),
            Packet::Logic(l) => dispatch matches Dispatch::Deliver(Datafeed::Logic(e))
                && l.decodes_to(e),
            Packet::Analog(a) => dispatch matches Dispatch::Deliver(Datafeed::Analog(e))
                && a.decodes_to(e),
            Packet::Bare(kind) => if kind == SR_DF_END {
                dispatch matches Dispatch::Deliver(Datafeed::End)
            } else if kind == SR_DF_META {
                dispatch is Placeholder
            } else if kind == SR_DF_TRIGGER {
                dispatch matches Dispatch::Deliver(Datafeed::Trigger)
            } else if kind == SR_DF_FRAME_BEGIN {
                dispatch matches Dispatch::Deliver(Datafeed::FrameBegin)
            } else if kind == SR_DF_FRAME_END {
                dispatch matches Dispatch::Deliver(Datafeed::FrameEnd)
            } else {
                dispatch is Ignore
            },
        }
    }
}

/// Collects the four native booleans of an encoding into a flag set.
pub fn encoding_flags(encoding: &RawAnalogEncoding) -> (flags: AnalogFlags)
    ensures
        encoding.flags_match(flags),
{
    let mut flags = AnalogFlags::empty();
    let ghost b0 = flags@;
    flags.set(AnalogFlags::from_bits_truncate(AnalogFlags::SIGNED), encoding.is_signed != 0);
    let ghost b1 = flags@;
    flags.set(AnalogFlags::from_bits_truncate(AnalogFlags::FLOATING_POINT), encoding.is_float != 0);
    let ghost b2 = flags@;
    flags.set(AnalogFlags::from_bits_truncate(AnalogFlags::BIG_ENDIAN), encoding.is_bigendian != 0);
    let ghost b3 = flags@;
    flags.set(
        AnalogFlags::from_bits_truncate(AnalogFlags::DECIMAL_DIGITS),
        encoding.is_digits_decimal != 0,
    );
    proof {
        lemma_flag_steps(b0);
        lemma_flag_steps(b1);
        lemma_flag_steps(b2);
        lemma_flag_steps(b3);
    }
    flags
}

/// Turns one packet of the native stream into what is to be done with it.
///
/// A header gets its start time as one span, exact to the nanosecond. A
/// logic or analog capture borrows its samples from the packet's memory:
/// exactly the announced number of bytes, not copied. An analog capture
/// whose quantity or unit is not known counts as a voltage in volt. Of the
/// kinds without payload, the known ones become their event, a metadata
/// packet only a notice, and all others nothing.
pub fn session_callback<'a>(packet: &Packet<'a>) -> (dispatch: Dispatch<'a>)
    requires
        packet.valid(),
    ensures
        packet.dispatches_to(dispatch),
{
    match packet {
        Packet::Header(header) => {
            let secs = #[verifier::truncate]
            (header.starttime.tv_sec as u64);
            let micros = #[verifier::truncate]
            (header.starttime.tv_usec as u32);
            Dispatch::Deliver(
                Datafeed::Header(
                    Header {
                        feed_version: header.feed_version,
                        start_time: duration_new(secs, micros * 1000),
                    },
                ),
            )
        },
        Packet::Logic(logic) => {
            let available = logic.data.len();
            assert(logic.length <= available);
            let parts = slice_subrange(logic.data, 0, logic.length as usize);
            Dispatch::Deliver(Datafeed::Logic(Logic { unit_size: logic.unitsize, data: parts }))
        },
        Packet::Analog(analog) => {
            let encoding = analog.encoding;
            let meaning = analog.meaning;
            let unit_size = encoding.unitsize;
            let flags = encoding_flags(&encoding);
            let available = analog.data.len();
            assert(analog.data_len() <= available);
            let len = analog_data_len(analog.num_samples, unit_size);
            Dispatch::Deliver(
                Datafeed::Analog(
                    Analog {
                        unit_size,
                        data: slice_subrange(analog.data, 0, len),
                        mq: Mq {
                            mq_type: match MqType::from_raw(meaning.mq) {
                                Some(t) => t,
                                None => MqType::Voltage,
                            },
                            flags: MqFlags::from_bits_truncate(meaning.mqflags),
                        },
                        scale: signed_ratio(
                            encoding.scale.p,
                            #[verifier::truncate]
                            (encoding.scale.q as i64),
                        ),
                        offset: signed_ratio(
                            encoding.offset.p,
                            #[verifier::truncate]
                            (encoding.offset.q as i64),
                        ),
                        channels: (),
                        flags,
                        digits: encoding.digits,
                        unit: match Unit::from_raw(meaning.unit) {
                            Some(u) => u,
                            None => Unit::Volt,
                        },
                    },
                ),
            )
        },
        Packet::Bare(kind) => {
            let kind = *kind;
            if kind == SR_DF_END {
                Dispatch::Deliver(Datafeed::End)
            } else if kind == SR_DF_META {
                Dispatch::Placeholder
            } else if kind == SR_DF_TRIGGER {
                Dispatch::Deliver(Datafeed::Trigger)
            } else if kind == SR_DF_FRAME_BEGIN {
                Dispatch::Deliver(Datafeed::FrameBegin)
            } else if kind == SR_DF_FRAME_END {
                Dispatch::Deliver(Datafeed::FrameEnd)
            } else {
                Dispatch::Ignore
            }
        },
    }
}

} // verus!
