use sigrok::data::{AnalogFlags, Datafeed, MqFlags, MqType};
use sigrok::packet::{
    analog_data_len, encoding_flags, payload_kind, session_callback, Dispatch, Packet, PayloadKind,
    RawAnalog, RawAnalogEncoding, RawAnalogMeaning, RawHeader, RawLogic, RawRational, RawTimeval,
    SR_DF_ANALOG, SR_DF_END, SR_DF_FRAME_BEGIN, SR_DF_FRAME_END, SR_DF_HEADER, SR_DF_LOGIC,
    SR_DF_META, SR_DF_TRIGGER,
};
use sigrok::Unit;
use std::time::Duration;

fn encoding(unitsize: u8) -> RawAnalogEncoding {
    RawAnalogEncoding {
        unitsize,
        is_signed: 0,
        is_float: 0,
        is_bigendian: 0,
        digits: 0,
        is_digits_decimal: 0,
        scale: RawRational { p: 1, q: 1 },
        offset: RawRational { p: 0, q: 1 },
    }
}

fn meaning() -> RawAnalogMeaning {
    RawAnalogMeaning { mq: 10000, unit: 10000, mqflags: 0 }
}

#[test]
fn packet_kind_numbers() {
    assert_eq!(
        [
            SR_DF_HEADER,
            SR_DF_END,
            SR_DF_META,
            SR_DF_TRIGGER,
            SR_DF_LOGIC,
            SR_DF_FRAME_BEGIN,
            SR_DF_FRAME_END,
            SR_DF_ANALOG
        ],
        [10000, 10001, 10002, 10003, 10004, 10005, 10006, 10007]
    );
}

#[test]
fn payload_kinds() {
    assert_eq!(payload_kind(SR_DF_HEADER), PayloadKind::Header);
    assert_eq!(payload_kind(SR_DF_LOGIC), PayloadKind::Logic);
    assert_eq!(payload_kind(SR_DF_ANALOG), PayloadKind::Analog);
    assert_eq!(payload_kind(SR_DF_END), PayloadKind::Absent);
    assert_eq!(payload_kind(SR_DF_META), PayloadKind::Absent);
    assert_eq!(payload_kind(0), PayloadKind::Absent);
    assert_eq!(payload_kind(u16::MAX), PayloadKind::Absent);
}

#[test]
fn header_start_time_is_exact_to_the_nanosecond() {
    let packet = Packet::Header(RawHeader {
        feed_version: 1,
        starttime: RawTimeval { tv_sec: 1_600_000_000, tv_usec: 123_456 },
    });
    match session_callback(&packet) {
        Dispatch::Deliver(Datafeed::Header(header)) => {
            assert_eq!(header.feed_version, 1);
            assert_eq!(header.start_time, Duration::new(1_600_000_000, 123_456_000));
            assert_eq!(header.start_time.as_nanos(), 1_600_000_000_123_456_000);
            assert_eq!(header.start_time.as_secs(), 1_600_000_000);
            assert_eq!(header.start_time.subsec_micros(), 123_456);
        }
        _ => panic!("a header packet gives a header event"),
    }
}

#[test]
fn header_edges() {
    let zero = Packet::Header(RawHeader {
        feed_version: 0,
        starttime: RawTimeval { tv_sec: 0, tv_usec: 0 },
    });
    match session_callback(&zero) {
        Dispatch::Deliver(Datafeed::Header(header)) => {
            assert_eq!(header.start_time, Duration::new(0, 0));
        }
        _ => panic!("a header packet gives a header event"),
    }
    let last = Packet::Header(RawHeader {
        feed_version: -1,
        starttime: RawTimeval { tv_sec: 5, tv_usec: 999_999 },
    });
    match session_callback(&last) {
        Dispatch::Deliver(Datafeed::Header(header)) => {
            assert_eq!(header.feed_version, -1);
            assert_eq!(header.start_time.as_nanos(), 5_999_999_000);
        }
        _ => panic!("a header packet gives a header event"),
    }
}

#[test]
fn logic_samples_are_borrowed_not_copied() {
    let memory = [0u8, 1, 2, 3, 4, 5, 6, 7, 8, 9];
    let packet = Packet::Logic(RawLogic { length: 8, unitsize: 2, data: &memory });
    match session_callback(&packet) {
        Dispatch::Deliver(Datafeed::Logic(logic)) => {
            assert_eq!(logic.unit_size, 2);
            assert_eq!(logic.data, &[0u8, 1, 2, 3, 4, 5, 6, 7]);
            assert_eq!(logic.data.as_ptr(), memory.as_ptr());
        }
        _ => panic!("a logic packet gives a logic event"),
    }
}

#[test]
fn logic_without_samples() {
    let memory: [u8; 0] = [];
    let packet = Packet::Logic(RawLogic { length: 0, unitsize: 1, data: &memory });
    match session_callback(&packet) {
        Dispatch::Deliver(Datafeed::Logic(logic)) => {
            assert_eq!(logic.unit_size, 1);
            assert!(logic.data.is_empty());
        }
        _ => panic!("a logic packet gives a logic event"),
    }
}

#[test]
fn analog_data_length_is_samples_times_unit_size() {
    assert_eq!(analog_data_len(3, 2), 6);
    assert_eq!(analog_data_len(0, 4), 0);
    assert_eq!(analog_data_len(5, 0), 0);
    assert_eq!(analog_data_len(1000, 8), 8000);
    let memory = [0u8; 16];
    for num_samples in 0u32..5 {
        for unitsize in 0u8..4 {
            let packet = Packet::Analog(RawAnalog {
                data: &memory,
                num_samples,
                encoding: encoding(unitsize),
                meaning: meaning(),
            });
            match session_callback(&packet) {
                Dispatch::Deliver(Datafeed::Analog(analog)) => {
                    assert_eq!(analog.data.len(), num_samples as usize * unitsize as usize);
                    assert_eq!(analog.unit_size, unitsize);
                }
                _ => panic!("an analog packet gives an analog event"),
            }
        }
    }
}

#[test]
fn analog_fields_are_taken_as_they_are() {
    let memory = [10u8, 11, 12, 13, 14, 15, 16, 17];
    let packet = Packet::Analog(RawAnalog {
        data: &memory,
        num_samples: 3,
        encoding: RawAnalogEncoding {
            unitsize: 2,
            is_signed: 1,
            is_float: 0,
            is_bigendian: 7,
            digits: -2,
            is_digits_decimal: 0,
            scale: RawRational { p: -3, q: 4 },
            offset: RawRational { p: 6, q: 8 },
        },
        meaning: RawAnalogMeaning { mq: 10001, unit: 10001, mqflags: 0x8000_0003 },
    });
    match session_callback(&packet) {
        Dispatch::Deliver(Datafeed::Analog(analog)) => {
            assert_eq!(analog.unit_size, 2);
            assert_eq!(analog.data, &[10u8, 11, 12, 13, 14, 15]);
            assert_eq!(analog.data.as_ptr(), memory.as_ptr());
            assert_eq!(analog.mq.mq_type, MqType::Current);
            assert_eq!(analog.mq.flags.bits(), MqFlags::AC | MqFlags::DC);
            assert_eq!((*analog.scale.numer(), *analog.scale.denom()), (-3, 4));
            assert_eq!((*analog.offset.numer(), *analog.offset.denom()), (6, 8));
            assert_eq!(analog.channels, ());
            assert_eq!(analog.flags.bits(), AnalogFlags::SIGNED | AnalogFlags::BIG_ENDIAN);
            assert_eq!(analog.digits, -2);
            assert_eq!(analog.unit, Unit::Ampere);
        }
        _ => panic!("an analog packet gives an analog event"),
    }
}

#[test]
fn analog_unknown_quantity_and_unit_default() {
    let memory = [0u8; 4];
    let packet = Packet::Analog(RawAnalog {
        data: &memory,
        num_samples: 1,
        encoding: encoding(4),
        meaning: RawAnalogMeaning { mq: 5, unit: 99_999, mqflags: 0xffc0_0000 },
    });
    match session_callback(&packet) {
        Dispatch::Deliver(Datafeed::Analog(analog)) => {
            assert_eq!(analog.mq.mq_type, MqType::Voltage);
            assert_eq!(analog.unit, Unit::Volt);
            assert!(analog.mq.flags.is_empty());
            assert_eq!(analog.data.len(), 4);
        }
        _ => panic!("an analog packet gives an analog event"),
    }
}

#[test]
fn analog_denominator_is_not_re_derived() {
    let memory = [0u8; 1];
    let mut enc = encoding(1);
    enc.scale = RawRational { p: 2, q: 0 };
    enc.offset = RawRational { p: i64::MIN, q: u64::MAX };
    let packet =
        Packet::Analog(RawAnalog { data: &memory, num_samples: 1, encoding: enc, meaning: meaning() });
    match session_callback(&packet) {
        Dispatch::Deliver(Datafeed::Analog(analog)) => {
            assert_eq!((*analog.scale.numer(), *analog.scale.denom()), (2, 0));
            assert_eq!((*analog.offset.numer(), *analog.offset.denom()), (i64::MIN, -1));
        }
        _ => panic!("an analog packet gives an analog event"),
    }
}

#[test]
fn encoding_flags_follow_the_native_booleans() {
    for bits in 0u8..16 {
        let enc = RawAnalogEncoding {
            unitsize: 1,
            is_signed: (bits & 1) as i32,
            is_float: if bits & 2 != 0 { -1 } else { 0 },
            is_bigendian: if bits & 4 != 0 { 1 } else { 0 },
            digits: 3,
            is_digits_decimal: if bits & 8 != 0 { i32::MAX } else { 0 },
            scale: RawRational { p: 1, q: 1 },
            offset: RawRational { p: 0, q: 1 },
        };
        assert_eq!(encoding_flags(&enc).bits(), bits);
    }
}

#[test]
fn packets_without_payload() {
    assert!(matches!(
        session_callback(&Packet::Bare(SR_DF_END)),
        Dispatch::Deliver(Datafeed::End)
    ));
    assert!(matches!(
        session_callback(&Packet::Bare(SR_DF_TRIGGER)),
        Dispatch::Deliver(Datafeed::Trigger)
    ));
    assert!(matches!(
        session_callback(&Packet::Bare(SR_DF_FRAME_BEGIN)),
        Dispatch::Deliver(Datafeed::FrameBegin)
    ));
    assert!(matches!(
        session_callback(&Packet::Bare(SR_DF_FRAME_END)),
        Dispatch::Deliver(Datafeed::FrameEnd)
    ));
    assert!(matches!(session_callback(&Packet::Bare(SR_DF_META)), Dispatch::Placeholder));
}

#[test]
fn unknown_packets_are_ignored() {
    assert!(matches!(session_callback(&Packet::Bare(0)), Dispatch::Ignore));
    assert!(matches!(session_callback(&Packet::Bare(9999)), Dispatch::Ignore));
    assert!(matches!(session_callback(&Packet::Bare(10008)), Dispatch::Ignore));
    assert!(matches!(session_callback(&Packet::Bare(u16::MAX)), Dispatch::Ignore));
}

#[test]
fn packets_are_checked_before_they_are_marshalled() {
    let memory = [0u8; 8];
    assert!(Packet::Logic(RawLogic { length: 8, unitsize: 1, data: &memory }).is_valid());
    assert!(!Packet::Logic(RawLogic { length: 9, unitsize: 1, data: &memory }).is_valid());
    let analog = |num_samples, unitsize| {
        Packet::Analog(RawAnalog {
            data: &memory,
            num_samples,
            encoding: encoding(unitsize),
            meaning: meaning(),
        })
    };
    assert!(analog(4, 2).is_valid());
    assert!(analog(8, 1).is_valid());
    assert!(analog(u32::MAX, 0).is_valid());
    assert!(!analog(3, 3).is_valid());
    assert!(!analog(u32::MAX, 255).is_valid());
    let header = |tv_sec, tv_usec| {
        Packet::Header(RawHeader { feed_version: 1, starttime: RawTimeval { tv_sec, tv_usec } })
    };
    assert!(header(0, 0).is_valid());
    assert!(header(i64::MAX, 999_999).is_valid());
    assert!(header(1, 4_294_967).is_valid());
    // The nanoseconds do not fit into 32 bits.
    assert!(!header(1, 4_294_968).is_valid());
    // The seconds read as the largest number, and a second is carried over.
    assert!(!header(-1, 1_000_000).is_valid());
    assert!(header(-1, 999_999).is_valid());
    assert!(Packet::Bare(SR_DF_END).is_valid());
    assert!(Packet::Bare(0).is_valid());
    assert!(!Packet::Bare(SR_DF_HEADER).is_valid());
    assert!(!Packet::Bare(SR_DF_LOGIC).is_valid());
    assert!(!Packet::Bare(SR_DF_ANALOG).is_valid());
}

#[test]
fn header_nanoseconds_may_carry_into_the_seconds() {
    let packet = Packet::Header(RawHeader {
        feed_version: 2,
        starttime: RawTimeval { tv_sec: 10, tv_usec: 2_500_000 },
    });
    assert!(packet.is_valid());
    match session_callback(&packet) {
        Dispatch::Deliver(Datafeed::Header(header)) => {
            assert_eq!(header.start_time.as_nanos(), 12_500_000_000);
        }
        _ => panic!("a header packet gives a header event"),
    }
}
