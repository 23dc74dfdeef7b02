use num_rational::Ratio;
use sigrok::config::set_get::{find_nul, get_mq_pair, get_numeric_range, mq_from_pair};
use sigrok::config::{get_config, set_config, ConfigGroup, ConfigKey, ConfigValue, ValueKind};
use sigrok::data::{Mq, MqFlags, MqType};
use sigrok::variant::Variant;
use sigrok::SigrokError;

fn tuple(a: Variant, b: Variant) -> Variant {
    Variant::Tuple(vec![a, b])
}

fn kind_of(value: &ConfigValue) -> ValueKind {
    match value {
        ConfigValue::Bool(_) => ValueKind::Bool,
        ConfigValue::Text(_) => ValueKind::Text,
        ConfigValue::U64Range(_) => ValueKind::U64Range,
        ConfigValue::F64Range(_) => ValueKind::F64Range,
        ConfigValue::U64(_) => ValueKind::U64,
        ConfigValue::F64(_) => ValueKind::F64,
        ConfigValue::I32(_) => ValueKind::I32,
        ConfigValue::Rational(_) => ValueKind::Rational,
        ConfigValue::Mq(_) => ValueKind::Mq,
    }
}

fn samples() -> Vec<ConfigValue> {
    vec![
        ConfigValue::Bool(true),
        ConfigValue::Bool(false),
        ConfigValue::Text("sigrok".to_owned()),
        ConfigValue::Text(String::new()),
        ConfigValue::Text("µ-Ω".to_owned()),
        ConfigValue::U64Range(1..=10),
        ConfigValue::U64Range(u64::MAX..=0),
        ConfigValue::F64Range(0.5f64.to_bits()..=2.5f64.to_bits()),
        ConfigValue::U64(64),
        ConfigValue::U64(1_000_000),
        ConfigValue::U64(u64::MAX),
        ConfigValue::F64(3.25f64.to_bits()),
        ConfigValue::F64((-0.0f64).to_bits()),
        ConfigValue::I32(-5),
        ConfigValue::I32(i32::MIN),
        ConfigValue::Rational(Ratio::new_raw(1, 1000)),
        ConfigValue::Rational(Ratio::new_raw(500, 3)),
        ConfigValue::Mq(Mq {
            mq_type: MqType::Voltage,
            flags: MqFlags::from_bits_truncate(MqFlags::DC | MqFlags::AUTORANGE),
        }),
        ConfigValue::Mq(Mq { mq_type: MqType::HarmonicRatio, flags: MqFlags::all() }),
    ]
}

#[test]
fn set_then_get_yields_the_value_set() {
    for value in samples() {
        let variant = set_config(&value).unwrap();
        let back = get_config(kind_of(&value), &variant).unwrap();
        match (&value, &back) {
            (ConfigValue::Rational(a), ConfigValue::Rational(b)) => {
                assert_eq!((a.numer(), a.denom()), (b.numer(), b.denom()));
            }
            _ => assert_eq!(value, back),
        }
    }
}

#[test]
fn values_encode_to_their_variants() {
    assert_eq!(set_config(&ConfigValue::Bool(true)), Ok(Variant::Boolean(true)));
    assert_eq!(set_config(&ConfigValue::U64(64)), Ok(Variant::UInt64(64)));
    assert_eq!(set_config(&ConfigValue::I32(-7)), Ok(Variant::Int32(-7)));
    assert_eq!(
        set_config(&ConfigValue::F64(1.5f64.to_bits())),
        Ok(Variant::Double(0x3ff8_0000_0000_0000))
    );
    assert_eq!(
        set_config(&ConfigValue::Text("sigrok".to_owned())),
        Ok(Variant::Text("sigrok".to_owned()))
    );
    assert_eq!(
        set_config(&ConfigValue::U64Range(1..=10)),
        Ok(tuple(Variant::UInt64(1), Variant::UInt64(10)))
    );
    assert_eq!(
        set_config(&ConfigValue::F64Range(1..=2)),
        Ok(tuple(Variant::Double(1), Variant::Double(2)))
    );
    assert_eq!(
        set_config(&ConfigValue::Rational(Ratio::new_raw(3, 4))),
        Ok(tuple(Variant::UInt64(3), Variant::UInt64(4)))
    );
    assert_eq!(
        set_config(&ConfigValue::Mq(Mq {
            mq_type: MqType::Current,
            flags: MqFlags::from_bits_truncate(MqFlags::AC | MqFlags::RMS),
        })),
        Ok(tuple(Variant::UInt32(10001), Variant::UInt64(5)))
    );
}

#[test]
fn ratio_is_not_reduced() {
    match get_config(ValueKind::Rational, &tuple(Variant::UInt64(10), Variant::UInt64(20))) {
        Ok(ConfigValue::Rational(r)) => assert_eq!((*r.numer(), *r.denom()), (10, 20)),
        other => panic!("unexpected {:?}", other),
    }
    match get_config(ValueKind::Rational, &tuple(Variant::UInt64(7), Variant::UInt64(0))) {
        Ok(ConfigValue::Rational(r)) => assert_eq!((*r.numer(), *r.denom()), (7, 0)),
        other => panic!("unexpected {:?}", other),
    }
}

#[test]
fn text_with_a_zero_byte_is_refused() {
    assert_eq!(
        set_config(&ConfigValue::Text("ab\0cd\0".to_owned())),
        Err(SigrokError::NullError(2))
    );
    assert_eq!(set_config(&ConfigValue::Text("\0".to_owned())), Err(SigrokError::NullError(0)));
    // The position counts bytes, not characters.
    assert_eq!(set_config(&ConfigValue::Text("µ\0".to_owned())), Err(SigrokError::NullError(2)));
    assert_eq!(find_nul(b"abc"), None);
    assert_eq!(find_nul(b""), None);
    assert_eq!(find_nul(b"a\0b\0"), Some(1));
}

#[test]
fn measured_quantity_must_be_a_tuple_of_two() {
    assert_eq!(get_config(ValueKind::Mq, &Variant::UInt32(10000)), Err(SigrokError::Arg));
    assert_eq!(get_config(ValueKind::Mq, &Variant::Tuple(vec![])), Err(SigrokError::Arg));
    assert_eq!(
        get_config(ValueKind::Mq, &Variant::Tuple(vec![Variant::UInt32(10000)])),
        Err(SigrokError::Arg)
    );
    assert_eq!(
        get_config(
            ValueKind::Mq,
            &Variant::Tuple(vec![Variant::UInt32(1), Variant::UInt64(1), Variant::UInt64(1)])
        ),
        Err(SigrokError::Arg)
    );
    assert_eq!(
        get_config(
            ValueKind::Mq,
            &Variant::Array(vec![Variant::UInt32(10000), Variant::UInt64(0)])
        ),
        Err(SigrokError::Arg)
    );
}

#[test]
fn measured_quantity_decoding() {
    assert_eq!(
        get_config(ValueKind::Mq, &tuple(Variant::UInt32(10004), Variant::UInt64(0x21))),
        Ok(ConfigValue::Mq(Mq {
            mq_type: MqType::Temperature,
            flags: MqFlags::from_bits_truncate(MqFlags::AC | MqFlags::MAX),
        }))
    );
    // An unknown quantity counts as a voltage; bits without a name, and all
    // above the low 32, are dropped.
    assert_eq!(
        get_config(ValueKind::Mq, &tuple(Variant::UInt32(3), Variant::UInt64(0xffff_ffff_ffc0_0002))),
        Ok(ConfigValue::Mq(Mq {
            mq_type: MqType::Voltage,
            flags: MqFlags::from_bits_truncate(MqFlags::DC),
        }))
    );
    // A tuple of two of the wrong types reads as two zeros.
    assert_eq!(
        get_config(ValueKind::Mq, &tuple(Variant::UInt64(10004), Variant::UInt64(1))),
        Ok(ConfigValue::Mq(Mq { mq_type: MqType::Voltage, flags: MqFlags::empty() }))
    );
    assert_eq!(get_mq_pair(&tuple(Variant::UInt32(9), Variant::UInt64(8))), (9, 8));
    assert_eq!(mq_from_pair((10001, 1)).mq_type, MqType::Current);
}

#[test]
fn unexpected_shapes_read_as_defaults() {
    let wrong = Variant::Text("x".to_owned());
    assert_eq!(get_config(ValueKind::Bool, &wrong), Ok(ConfigValue::Bool(false)));
    assert_eq!(get_config(ValueKind::U64, &wrong), Ok(ConfigValue::U64(0)));
    assert_eq!(get_config(ValueKind::F64, &wrong), Ok(ConfigValue::F64(0)));
    assert_eq!(get_config(ValueKind::I32, &wrong), Ok(ConfigValue::I32(0)));
    assert_eq!(get_config(ValueKind::U64Range, &wrong), Ok(ConfigValue::U64Range(0..=0)));
    assert_eq!(get_config(ValueKind::F64Range, &wrong), Ok(ConfigValue::F64Range(0..=0)));
    assert_eq!(
        get_config(ValueKind::Text, &Variant::UInt64(1)),
        Ok(ConfigValue::Text(String::new()))
    );
    assert_eq!(
        get_config(ValueKind::U64Range, &tuple(Variant::Double(1), Variant::Double(2))),
        Ok(ConfigValue::U64Range(0..=0))
    );
    assert_eq!(get_numeric_range(&Variant::Tuple(vec![Variant::UInt64(1)])), (0, 0));
    assert_eq!(get_numeric_range(&tuple(Variant::UInt64(1), Variant::UInt64(2))), (1, 2));
}

#[test]
fn keys_have_their_native_numbers() {
    assert_eq!(ConfigKey::SampleRate.key(), 30000);
    assert_eq!(ConfigKey::CaptureRatio.key(), 30001);
    assert_eq!(ConfigKey::PatternMode.key(), 30002);
    assert_eq!(ConfigKey::TriggerType.key(), 30014);
    assert_eq!(ConfigKey::MeasuredQuantity.key(), 30047);
    assert_eq!(ConfigKey::Digits.key(), 30062);
    assert_eq!(ConfigKey::SessionFile.key(), 40000);
    assert_eq!(ConfigKey::AdcPowerlineCycles.key(), 40006);
    assert_eq!(ConfigKey::LimitMsec.key(), 50000);
    assert_eq!(ConfigKey::LimitSamples.key(), 50001);
    assert_eq!(ConfigKey::TestMode.key(), 50006);
    assert_eq!(ConfigKey::from_raw(50001), Some(ConfigKey::LimitSamples));
    assert_eq!(ConfigKey::from_raw(30063), None);
    assert_eq!(ConfigKey::from_raw(10000), None);
    assert_eq!(ConfigKey::from_raw(20000), None);
    let mut seen = 0;
    for raw in 29_990u32..50_100 {
        if let Some(key) = ConfigKey::from_raw(raw) {
            assert_eq!(key.key(), raw);
            seen += 1;
        }
    }
    assert_eq!(seen, 77);
}

#[test]
fn keys_belong_to_groups() {
    assert_eq!(ConfigKey::LimitSamples.group(), ConfigGroup::U64Config);
    assert_eq!(ConfigKey::SampleRate.group(), ConfigGroup::U64Config);
    assert_eq!(ConfigKey::PatternMode.group(), ConfigGroup::StringConfig);
    assert_eq!(ConfigKey::Rle.group(), ConfigGroup::BoolConfig);
    assert_eq!(ConfigKey::Timebase.group(), ConfigGroup::RationalConfig);
    assert_eq!(ConfigKey::VoltageThreshold.group(), ConfigGroup::F64RangeConfig);
    assert_eq!(ConfigKey::SplMeasurementRange.group(), ConfigGroup::U64RangeConfig);
    assert_eq!(ConfigKey::NumHdiv.group(), ConfigGroup::I32Config);
    assert_eq!(ConfigKey::Voltage.group(), ConfigGroup::F64Config);
    assert_eq!(ConfigKey::MeasuredQuantity.group(), ConfigGroup::MqConfig);
    assert_eq!(ConfigKey::TriggerType.group(), ConfigGroup::TriggerConfig);
    assert_eq!(ConfigGroup::U64Config.value_kind(), Some(ValueKind::U64));
    assert_eq!(ConfigGroup::StringConfig.value_kind(), Some(ValueKind::Text));
    assert_eq!(ConfigGroup::TriggerConfig.value_kind(), None);
    assert_eq!(ConfigGroup::MqConfig.value_kind(), Some(ValueKind::Mq));
}
