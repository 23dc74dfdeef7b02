use sigrok::config::option::{
    BoolOption, F64Option, F64RangeOption, I32Option, MqOption, RationalOption, SampleRateOption,
    StringOption, TriggerOption, U64Option, U64RangeOption,
};
use sigrok::config::{
    can_list, config_abilities, config_options, scan_config, wants_listing, Config, ConfigAbilities,
    ConfigKey, ConfigOption, KeyReport, OptionKind, Options, ScanEntry, ScanOption, SR_CONF_CONN,
    SR_CONF_GET, SR_CONF_LIST, SR_CONF_MODBUSADDR, SR_CONF_SERIALCOMM, SR_CONF_SET,
};
use sigrok::data::{Mq, MqFlags, MqType};
use sigrok::variant::{bytes_equal, Entry, Kind, Variant};
use sigrok::{SigrokError, TriggerType};

fn pair(a: u64, b: u64) -> Variant {
    Variant::Tuple(vec![Variant::UInt64(a), Variant::UInt64(b)])
}

fn dict(entries: Vec<(&[u8], Variant)>) -> Variant {
    Variant::Dictionary(
        entries.into_iter().map(|(k, v)| Entry { key: k.to_vec(), value: v }).collect(),
    )
}

const LIST: i32 = SR_CONF_LIST as i32;

#[test]
fn capability_bits() {
    assert_eq!(SR_CONF_GET, 1 << 31);
    assert_eq!(SR_CONF_SET, 1 << 30);
    assert_eq!(SR_CONF_LIST, 1 << 29);
    assert_eq!(config_abilities(0).bits(), 0);
    assert_eq!(config_abilities(SR_CONF_GET as i32).bits(), ConfigAbilities::GET);
    assert_eq!(config_abilities(SR_CONF_SET as i32).bits(), ConfigAbilities::SET);
    assert_eq!(config_abilities(SR_CONF_LIST as i32).bits(), ConfigAbilities::LIST);
    assert_eq!(config_abilities(-1).bits(), 7);
    assert_eq!(config_abilities((SR_CONF_GET | SR_CONF_LIST | 30000) as i32).bits(), 5);
    assert_eq!(config_abilities(0x1fff_ffff).bits(), 0);
    assert!(can_list(LIST));
    assert!(!can_list((SR_CONF_GET | SR_CONF_SET) as i32));
    assert!(wants_listing(30000, LIST));
    assert!(!wants_listing(30000, 0));
    assert!(!wants_listing(12345, LIST));
}

#[test]
fn variant_accessors() {
    let array = Variant::UInt64Array(vec![1, 2, 3]);
    assert_eq!(array.get_fixed_array_u64(), Some(&vec![1, 2, 3]));
    assert_eq!(array.get_fixed_array_double(), None);
    assert_eq!(array.get_fixed_array_i32(), None);
    assert_eq!(array.kind(), Kind::UInt64Array);
    assert_eq!(array.num_children(), 0);
    assert_eq!(Variant::UInt64Array(vec![]).get_fixed_array_u64(), None);
    assert_eq!(Variant::DoubleArray(vec![7]).get_fixed_array_double(), Some(&vec![7]));
    assert_eq!(Variant::Int32Array(vec![-1]).get_fixed_array_i32(), Some(&vec![-1]));
    assert_eq!(Variant::TextArray(vec![]).get_str_array(), Some(&vec![]));
    assert_eq!(Variant::Boolean(true).get_str_array(), None);
    let tuple = pair(1, 2);
    assert_eq!(tuple.num_children(), 2);
    assert_eq!(tuple.get_child_value(0), Some(&Variant::UInt64(1)));
    assert_eq!(tuple.get_child_value(1), Some(&Variant::UInt64(2)));
    assert_eq!(tuple.get_child_value(2), None);
    assert_eq!(Variant::UInt64(1).get_child_value(0), None);
    assert!(bytes_equal(b"abc", b"abc"));
    assert!(!bytes_equal(b"abc", b"abd"));
    assert!(!bytes_equal(b"abc", b"ab"));
    assert!(bytes_equal(b"", b""));
}

#[test]
fn dictionary_lookup_takes_the_first_entry_of_the_kind() {
    let d = dict(vec![
        (b"a", Variant::UInt64(1)),
        (b"b", Variant::UInt64Array(vec![2])),
        (b"a", Variant::UInt64Array(vec![3])),
    ]);
    assert_eq!(d.lookup_value(b"b", Kind::UInt64Array), Some(&Variant::UInt64Array(vec![2])));
    assert_eq!(d.lookup_value(b"a", Kind::UInt64), Some(&Variant::UInt64(1)));
    // The first entry with the key decides, also where it is of another kind.
    assert_eq!(d.lookup_value(b"a", Kind::UInt64Array), None);
    assert_eq!(d.lookup_value(b"c", Kind::UInt64Array), None);
    assert_eq!(d.lookup_value(b"", Kind::UInt64Array), None);
    assert_eq!(Variant::UInt64(1).lookup_value(b"a", Kind::UInt64), None);
}

#[test]
fn numeric_options() {
    let listing = Variant::UInt64Array(vec![10, 20, 30]);
    assert_eq!(U64Option::from_sigrok(Some(&listing)), Some(U64Option(vec![10, 20, 30])));
    assert_eq!(U64Option::from_sigrok(None), None);
    assert_eq!(U64Option::from_sigrok(Some(&Variant::UInt64Array(vec![]))), None);
    assert_eq!(U64Option::from_sigrok(Some(&Variant::DoubleArray(vec![1]))), None);
    let doubles = Variant::DoubleArray(vec![1.5f64.to_bits(), 2.5f64.to_bits()]);
    assert_eq!(
        F64Option::from_sigrok(Some(&doubles)),
        Some(F64Option(vec![1.5f64.to_bits(), 2.5f64.to_bits()]))
    );
    assert_eq!(F64Option::from_sigrok(Some(&listing)), None);
    let ints = Variant::Int32Array(vec![-1, 0, 1]);
    assert_eq!(I32Option::from_sigrok(Some(&ints)), Some(I32Option(vec![-1, 0, 1])));
    assert_eq!(I32Option::from_sigrok(None), None);
    assert_eq!(BoolOption::from_sigrok(None), Some(BoolOption));
}

#[test]
fn string_options_are_never_nothing() {
    let listing = Variant::TextArray(vec!["sigrok".to_owned(), "random".to_owned()]);
    assert_eq!(
        StringOption::from_sigrok(Some(&listing)),
        Some(StringOption(vec!["sigrok".to_owned(), "random".to_owned()]))
    );
    assert_eq!(StringOption::from_sigrok(None), Some(StringOption(vec![])));
    assert_eq!(StringOption::from_sigrok(Some(&Variant::UInt64(1))), Some(StringOption(vec![])));
}

#[test]
fn range_options() {
    let listing = Variant::Array(vec![pair(1, 2), pair(30, 130), Variant::UInt64(5)]);
    assert_eq!(
        U64RangeOption::from_sigrok(Some(&listing)),
        Some(U64RangeOption(vec![1..=2, 30..=130, 0..=0]))
    );
    assert_eq!(U64RangeOption::from_sigrok(None), None);
    assert_eq!(
        U64RangeOption::from_sigrok(Some(&Variant::UInt64(1))),
        Some(U64RangeOption(vec![]))
    );
    let doubles = Variant::Array(vec![Variant::Tuple(vec![Variant::Double(3), Variant::Double(4)])]);
    assert_eq!(F64RangeOption::from_sigrok(Some(&doubles)), Some(F64RangeOption(vec![3..=4])));
    assert_eq!(F64RangeOption::from_sigrok(Some(&listing)).unwrap().0.len(), 3);
}

#[test]
fn rational_options() {
    let listing = Variant::Array(vec![pair(1, 1000), pair(2, 1000), pair(5, 0)]);
    let ratios = RationalOption::from_sigrok(Some(&listing)).unwrap().0;
    let parts: Vec<(u64, u64)> = ratios.iter().map(|r| (*r.numer(), *r.denom())).collect();
    assert_eq!(parts, vec![(1, 1000), (2, 1000), (5, 0)]);
    assert_eq!(RationalOption::from_sigrok(None), None);
}

#[test]
fn sample_rate_has_three_outcomes() {
    let fixed = dict(vec![(b"samplerates", Variant::UInt64Array(vec![1000, 2000, 5000]))]);
    assert_eq!(
        SampleRateOption::from_sigrok(Some(&fixed)),
        Some(SampleRateOption::Fixed(vec![1000, 2000, 5000]))
    );
    let steps = dict(vec![(b"samplerate-steps", Variant::UInt64Array(vec![1, 1_000_000, 1]))]);
    assert_eq!(
        SampleRateOption::from_sigrok(Some(&steps)),
        Some(SampleRateOption::Range { range: 1..=1_000_000, step: 1 })
    );
    let neither = dict(vec![(b"other", Variant::UInt64Array(vec![1]))]);
    assert_eq!(SampleRateOption::from_sigrok(Some(&neither)), None);
    assert_eq!(SampleRateOption::from_sigrok(None), None);
    assert_eq!(SampleRateOption::default(), SampleRateOption::Unknown);
    assert_eq!(
        Options::from_sigrok(OptionKind::SampleRate, Some(&neither)),
        Options::SampleRate(SampleRateOption::Unknown)
    );
}

#[test]
fn sample_rate_edges() {
    // The list of single rates goes first where both keys are there.
    let both = dict(vec![
        (b"samplerate-steps", Variant::UInt64Array(vec![1, 2, 3])),
        (b"samplerates", Variant::UInt64Array(vec![7])),
    ]);
    assert_eq!(
        SampleRateOption::from_sigrok(Some(&both)),
        Some(SampleRateOption::Fixed(vec![7]))
    );
    // Fewer than three numbers give no range.
    let short = dict(vec![(b"samplerate-steps", Variant::UInt64Array(vec![1, 2]))]);
    assert_eq!(SampleRateOption::from_sigrok(Some(&short)), None);
    // More than three: the first three count.
    let long = dict(vec![(b"samplerate-steps", Variant::UInt64Array(vec![1, 2, 3, 4]))]);
    assert_eq!(
        SampleRateOption::from_sigrok(Some(&long)),
        Some(SampleRateOption::Range { range: 1..=2, step: 3 })
    );
    // An empty list of rates is nothing, and the steps are not looked at.
    let empty = dict(vec![
        (b"samplerates", Variant::UInt64Array(vec![])),
        (b"samplerate-steps", Variant::UInt64Array(vec![1, 2, 3])),
    ]);
    assert_eq!(SampleRateOption::from_sigrok(Some(&empty)), None);
    // Rates of the wrong kind do not count as there.
    let wrong = dict(vec![
        (b"samplerates", Variant::DoubleArray(vec![1])),
        (b"samplerate-steps", Variant::UInt64Array(vec![1, 2, 3])),
    ]);
    assert_eq!(
        SampleRateOption::from_sigrok(Some(&wrong)),
        Some(SampleRateOption::Range { range: 1..=2, step: 3 })
    );
    assert_eq!(SampleRateOption::from_sigrok(Some(&Variant::UInt64(1))), None);
}

#[test]
fn trigger_options_drop_unknown_numbers() {
    let listing = Variant::Int32Array(vec![1, 2, 0, 3, 99, 4, -4, 7]);
    assert_eq!(
        TriggerOption::from_sigrok(Some(&listing)),
        Some(TriggerOption(vec![
            TriggerType::Zero,
            TriggerType::One,
            TriggerType::Rising,
            TriggerType::Falling,
            TriggerType::Under,
        ]))
    );
    assert_eq!(
        TriggerOption::from_sigrok(Some(&Variant::Int32Array(vec![0]))),
        Some(TriggerOption(vec![]))
    );
    assert_eq!(TriggerOption::from_sigrok(Some(&Variant::Int32Array(vec![]))), None);
    assert_eq!(TriggerOption::from_sigrok(None), None);
}

#[test]
fn mq_options() {
    let listing = Variant::Array(vec![
        Variant::Tuple(vec![Variant::UInt32(10000), Variant::UInt64(2)]),
        Variant::Tuple(vec![Variant::UInt32(10002), Variant::UInt64(0x1_0000_0000)]),
        Variant::Tuple(vec![Variant::UInt32(1), Variant::UInt64(1)]),
    ]);
    assert_eq!(
        MqOption::from_sigrok(Some(&listing)),
        Some(MqOption(vec![
            Mq { mq_type: MqType::Voltage, flags: MqFlags::from_bits_truncate(MqFlags::DC) },
            Mq { mq_type: MqType::Resistance, flags: MqFlags::empty() },
            Mq { mq_type: MqType::Voltage, flags: MqFlags::from_bits_truncate(MqFlags::AC) },
        ]))
    );
    assert_eq!(MqOption::from_sigrok(None), None);
}

#[test]
fn option_kinds_follow_the_key() {
    assert_eq!(ConfigKey::SampleRate.option_kind(), OptionKind::SampleRate);
    assert_eq!(ConfigKey::LimitSamples.option_kind(), OptionKind::U64);
    assert_eq!(ConfigKey::PatternMode.option_kind(), OptionKind::Text);
    assert_eq!(ConfigKey::TriggerType.option_kind(), OptionKind::Trigger);
    assert_eq!(ConfigKey::MeasuredQuantity.option_kind(), OptionKind::Mq);
    assert_eq!(ConfigKey::Vdiv.option_kind(), OptionKind::Rational);
    assert_eq!(ConfigKey::Continuous.option_kind(), OptionKind::Bool);
}

#[test]
fn catalog_without_a_list_is_a_generic_error() {
    assert_eq!(config_options(None), Err(SigrokError::Generic));
    assert_eq!(config_options(Some(&vec![])), Ok(vec![]));
}

#[test]
fn catalog_drops_unknown_keys() {
    let reports = vec![
        KeyReport { key: 10003, capabilities: 0, listing: None },
        KeyReport {
            key: 50001,
            capabilities: (SR_CONF_GET | SR_CONF_SET) as i32,
            listing: Some(Variant::UInt64Array(vec![1, 2])),
        },
        KeyReport { key: 99, capabilities: LIST, listing: Some(Variant::UInt64Array(vec![1])) },
        KeyReport {
            key: 30002,
            capabilities: LIST,
            listing: Some(Variant::TextArray(vec!["sigrok".to_owned()])),
        },
        KeyReport { key: 30000, capabilities: LIST, listing: None },
        KeyReport {
            key: 30014,
            capabilities: LIST,
            listing: Some(Variant::Int32Array(vec![1, 2, 3, 4, 5])),
        },
    ];
    let configs = config_options(Some(&reports)).unwrap();
    assert_eq!(
        configs,
        vec![
            // Not listable: the listing is not looked at.
            Config { key: ConfigKey::LimitSamples, options: Options::U64(U64Option(vec![])) },
            Config {
                key: ConfigKey::PatternMode,
                options: Options::Text(StringOption(vec!["sigrok".to_owned()])),
            },
            Config {
                key: ConfigKey::SampleRate,
                options: Options::SampleRate(SampleRateOption::Unknown),
            },
            Config {
                key: ConfigKey::TriggerType,
                options: Options::Trigger(TriggerOption(vec![
                    TriggerType::Zero,
                    TriggerType::One,
                    TriggerType::Rising,
                    TriggerType::Falling,
                    TriggerType::Edge,
                ])),
            },
        ]
    );
    assert_eq!(Config::from_sigrok(&reports[0]), None);
    assert_eq!(Config::from_sigrok(&reports[2]), None);
}

#[test]
fn scan_options_become_keys_and_values() {
    assert_eq!([SR_CONF_CONN, SR_CONF_SERIALCOMM, SR_CONF_MODBUSADDR], [20000, 20001, 20002]);
    let options = [
        ScanOption::Connection("1d6b.0001"),
        ScanOption::SerialComm("9600/8n1"),
        ScanOption::ModbusAddr(17),
    ];
    assert_eq!(
        scan_config(&options),
        Ok(vec![
            ScanEntry { key: 20000, data: Variant::Text("1d6b.0001".to_owned()) },
            ScanEntry { key: 20001, data: Variant::Text("9600/8n1".to_owned()) },
            ScanEntry { key: 20002, data: Variant::UInt64(17) },
        ])
    );
    assert_eq!(scan_config(&[]), Ok(vec![]));
    assert_eq!(ScanOption::ModbusAddr(1).key(), 20002);
}

#[test]
fn scan_fails_on_the_first_string_with_a_zero_byte() {
    let options = [
        ScanOption::Connection("ok"),
        ScanOption::SerialComm("96\u{0}00"),
        ScanOption::Connection("\0"),
    ];
    assert_eq!(scan_config(&options), Err(SigrokError::NullError(2)));
    assert_eq!(ScanOption::Connection("\0").data(), Err(SigrokError::NullError(0)));
}

#[test]
fn pattern_mode_option() {
    let option = ConfigOption::PatternMode("pattern".to_owned());
    assert_eq!(option.key(), 30002);
    assert_eq!(option.data(), Variant::Text("pattern".to_owned()));
}

#[test]
fn type_strings_name_shapes() {
    assert_eq!(Kind::of_type(b"b"), Some(Kind::Boolean));
    assert_eq!(Kind::of_type(b"i"), Some(Kind::Int32));
    assert_eq!(Kind::of_type(b"u"), Some(Kind::UInt32));
    assert_eq!(Kind::of_type(b"t"), Some(Kind::UInt64));
    assert_eq!(Kind::of_type(b"d"), Some(Kind::Double));
    assert_eq!(Kind::of_type(b"s"), Some(Kind::Text));
    assert_eq!(Kind::of_type(b"ai"), Some(Kind::Int32Array));
    assert_eq!(Kind::of_type(b"at"), Some(Kind::UInt64Array));
    assert_eq!(Kind::of_type(b"ad"), Some(Kind::DoubleArray));
    assert_eq!(Kind::of_type(b"as"), Some(Kind::TextArray));
    assert_eq!(Kind::of_type(b"(tt)"), Some(Kind::Tuple));
    assert_eq!(Kind::of_type(b"(ut)"), Some(Kind::Tuple));
    assert_eq!(Kind::of_type(b"()"), Some(Kind::Tuple));
    assert_eq!(Kind::of_type(b"a(tt)"), Some(Kind::Array));
    assert_eq!(Kind::of_type(b"a(ut)"), Some(Kind::Array));
    assert_eq!(Kind::of_type(b"aat"), Some(Kind::Array));
    assert_eq!(Kind::of_type(b"av"), Some(Kind::Array));
    assert_eq!(Kind::of_type(b"a{sv}"), Some(Kind::Dictionary));
    assert_eq!(Kind::of_type(b""), None);
    assert_eq!(Kind::of_type(b"v"), None);
    assert_eq!(Kind::of_type(b"x"), None);
    assert_eq!(Kind::of_type(b"tt"), None);
    assert_eq!(Kind::of_type(b"a"), None);
}

#[test]
fn pattern_with_a_zero_byte_cannot_be_set() {
    assert!(ConfigOption::PatternMode("sigrok".to_owned()).is_settable());
    assert!(ConfigOption::PatternMode(String::new()).is_settable());
    assert!(!ConfigOption::PatternMode("sig\0rok".to_owned()).is_settable());
}

#[test]
fn options_can_be_cloned_and_compared() {
    let range = SampleRateOption::Range { range: 1..=10, step: 2 };
    assert_eq!(range.clone(), range);
    match range {
        SampleRateOption::Range { range, step } => {
            assert!(range.step_by(step as usize).eq([1, 3, 5, 7, 9].iter().copied()));
        }
        _ => panic!(),
    }
    let ranges = U64RangeOption(vec![1..=2, 5..=9]);
    assert_eq!(ranges.clone(), ranges);
    assert_eq!(U64RangeOption::default(), U64RangeOption(vec![]));
    assert_eq!(StringOption::default(), StringOption(vec![]));
    assert_eq!(MqOption::default(), MqOption(vec![]));
    assert_eq!(RationalOption::default().0.len(), 0);
}
