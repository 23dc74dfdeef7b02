//! Configuration tools
pub mod keys;
pub mod option;
pub mod set_get;

pub use crate::enums::ConfigAbilities;
use crate::enums::lemma_flag_steps;
use crate::error::SigrokError;
use crate::variant::{Tree, Variant};
pub use keys::{ConfigGroup, ConfigKey};
use option::{
    range_pairs, ratio_pairs, trigger_types, BoolOption, F64Option, F64RangeOption, I32Option, MqOption,
    RationalOption, SampleRateOption, StringOption, TriggerOption, U64Option, U64RangeOption,
};
pub use set_get::{get_config, set_config, ConfigValue, Value, ValueKind};
use set_get::{find_nul, nul_position};
use vstd::prelude::*;
use vstd::string::StringSliceAdditionalSpecFns;

verus! {

/// Capability bit: the value of the key can be got.
pub const SR_CONF_GET: u32 = 0x8000_0000;

/// Capability bit: the value of the key can be set.
pub const SR_CONF_SET: u32 = 0x4000_0000;

/// Capability bit: the possible values of the key can be listed.
pub const SR_CONF_LIST: u32 = 0x2000_0000;

/// Key of the scan option that tells how to connect to a device.
pub const SR_CONF_CONN: u32 = 20000;

/// Key of the scan option that gives the serial communication parameters.
pub const SR_CONF_SERIALCOMM: u32 = 20001;

/// Key of the scan option that gives the Modbus slave address.
pub const SR_CONF_MODBUSADDR: u32 = 20002;

/// The options that a configuration key may be set to, in the form that
/// belongs to the key.
#[derive(Clone, PartialEq, Debug)]
pub enum Options {
    Bool(BoolOption),
    Text(StringOption),
    U64Range(U64RangeOption),
    F64Range(F64RangeOption),
    U64(U64Option),
    SampleRate(SampleRateOption),
    F64(F64Option),
    I32(I32Option),
    Rational(RationalOption),
    Trigger(TriggerOption),
    Mq(MqOption),
}

/// The forms in which options are listed.
#[derive(Clone, Copy, Debug, PartialEq, Eq, Structural)]
pub enum OptionKind {
    Bool,
    Text,
    U64Range,
    F64Range,
    U64,
    SampleRate,
    F64,
    I32,
    Rational,
    Trigger,
    Mq,
}

/// A configuration option and the options it supports, as indicated by
/// [`config_options`].
#[derive(Clone, PartialEq, Debug)]
pub struct Config {
    pub key: ConfigKey,
    pub options: Options,
}

/// What the native library reports of one key: its number, its capability
/// bits, and the listing of its possible values where one was asked for and
/// given.
#[derive(Debug, PartialEq)]
pub struct KeyReport {
    pub key: u32,
    pub capabilities: i32,
    pub listing: Option<Variant>,
}

impl ConfigKey {
    /// The form in which the options of the key are listed: that of its
    /// group, but for the sample rate, which has a form of its own.
    pub open spec fn spec_option_kind(self) -> OptionKind {
        if self == ConfigKey::SampleRate {
            OptionKind::SampleRate
        } else {
            match self.spec_group() {
                ConfigGroup::BoolConfig => OptionKind::Bool,
                ConfigGroup::StringConfig => OptionKind::Text,
                ConfigGroup::U64RangeConfig => OptionKind::U64Range,
                ConfigGroup::F64RangeConfig => OptionKind::F64Range,
                ConfigGroup::U64Config => OptionKind::U64,
                ConfigGroup::F64Config => OptionKind::F64,
                ConfigGroup::I32Config => OptionKind::I32,
                ConfigGroup::RationalConfig => OptionKind::Rational,
                ConfigGroup::TriggerConfig => OptionKind::Trigger,
                ConfigGroup::MqConfig => OptionKind::Mq,
            }
        }
    }

    /// The form in which the options of the key are listed.
    #[verifier::when_used_as_spec(spec_option_kind)]
    pub fn option_kind(self) -> (r: OptionKind)
        ensures
            r == self.spec_option_kind(),
    {
        match self {
            ConfigKey::SampleRate => OptionKind::SampleRate,
            _ => match self.group() {
                ConfigGroup::BoolConfig => OptionKind::Bool,
                ConfigGroup::StringConfig => OptionKind::Text,
                ConfigGroup::U64RangeConfig => OptionKind::U64Range,
                ConfigGroup::F64RangeConfig => OptionKind::F64Range,
                ConfigGroup::U64Config => OptionKind::U64,
                ConfigGroup::F64Config => OptionKind::F64,
                ConfigGroup::I32Config => OptionKind::I32,
                ConfigGroup::RationalConfig => OptionKind::Rational,
                ConfigGroup::TriggerConfig => OptionKind::Trigger,
                ConfigGroup::MqConfig => OptionKind::Mq,
            },
        }
    }
}

/// Whether capability bits say that the possible values can be listed.
pub open spec fn spec_can_list(capabilities: i32) -> bool {
    (capabilities as u32) & SR_CONF_LIST != 0
}

/// Whether capability bits say that the possible values can be listed.
#[verifier::when_used_as_spec(spec_can_list)]
pub fn can_list(capabilities: i32) -> (r: bool)
    ensures
        r == spec_can_list(capabilities),
{
    (#[verifier::truncate]
    (capabilities as u32)) & SR_CONF_LIST != 0
}

/// Whether the listing of a key is to be asked for: the key is known and
/// its values can be listed.
pub fn wants_listing(key: u32, capabilities: i32) -> (r: bool)
    ensures
        r <==> ConfigKey::spec_from_raw(key) is Some && spec_can_list(capabilities),
{
    ConfigKey::from_raw(key).is_some() && can_list(capabilities)
}

impl Options {
    /// The form of the options.
    pub open spec fn kind(self) -> OptionKind {
        match self {
            Options::Bool(_) => OptionKind::Bool,
            Options::Text(_) => OptionKind::Text,
            Options::U64Range(_) => OptionKind::U64Range,
            Options::F64Range(_) => OptionKind::F64Range,
            Options::U64(_) => OptionKind::U64,
            Options::SampleRate(_) => OptionKind::SampleRate,
            Options::F64(_) => OptionKind::F64,
            Options::I32(_) => OptionKind::I32,
            Options::Rational(_) => OptionKind::Rational,
            Options::Trigger(_) => OptionKind::Trigger,
            Options::Mq(_) => OptionKind::Mq,
        }
    }

    /// `self` holds what a listing offers. No listing, or one that cannot be
    /// read, offers the empty list, and an unknown sample rate.
    pub open spec fn read_from(self, listing: Option<Tree>) -> bool {
        match self {
            Options::Bool(_) => true,
            Options::Text(o) => Seq::new(o.0@.len(), |i: int| o.0@[i]@) == (match listing {
                Some(t) => match t.strings() {
                    Some(s) => s,
                    None => Seq::empty(),
                },
                None => Seq::empty(),
            }),
            Options::U64Range(o) => range_pairs(o.0@) == (match listing {
                Some(t) => t.u64_pairs(),
                None => Seq::empty(),
            }),
            Options::F64Range(o) => range_pairs(o.0@) == (match listing {
                Some(t) => t.double_pairs(),
                None => Seq::empty(),
            }),
            Options::U64(o) => o.0@ == (match listing {
                Some(t) => match t.fixed_u64() {
                    Some(s) => s,
                    None => Seq::empty(),
                },
                None => Seq::empty(),
            }),
            Options::SampleRate(o) => match listing {
                Some(t) => if SampleRateOption::readable(t) {
                    o.read_from(t)
                } else {
                    o is Unknown
                },
                None => o is Unknown,
            },
            Options::F64(o) => o.0@ == (match listing {
                Some(t) => match t.fixed_double() {
                    Some(s) => s,
                    None => Seq::empty(),
                },
                None => Seq::empty(),
            }),
            Options::I32(o) => o.0@ == (match listing {
                Some(t) => match t.fixed_i32() {
                    Some(s) => s,
                    None => Seq::empty(),
                },
                None => Seq::empty(),
            }),
            Options::Rational(o) => ratio_pairs(o.0@) == (match listing {
                Some(t) => t.u64_pairs(),
                None => Seq::empty(),
            }),
            Options::Trigger(o) => o.0@ == (match listing {
                Some(t) => match t.fixed_i32() {
                    Some(s) => trigger_types(s),
                    None => Seq::empty(),
                },
                None => Seq::empty(),
            }),
            Options::Mq(o) => o.read_from(
                match listing {
                    Some(t) => t.mq_pairs(),
                    None => Seq::empty(),
                },
            ),
        }
    }

    /// Reads the options of the given form from a listing, with the empty
    /// list in place of whatever cannot be read.
    pub fn from_sigrok(kind: OptionKind, listing: Option<&Variant>) -> (r: Options)
        ensures
            r.kind() == kind,
            r.read_from(
                match listing {
                    Some(v) => Some(v@),
                    None => None,
                },
            ),
    {
        match kind {
            OptionKind::Bool => Options::Bool(BoolOption),
            OptionKind::Text => match StringOption::from_sigrok(listing) {
                Some(o) => Options::Text(o),
                None => Options::Text(StringOption::default()),
            },
            OptionKind::U64Range => match U64RangeOption::from_sigrok(listing) {
                Some(o) => Options::U64Range(o),
                None => {
                    let o = U64RangeOption::default();
                    assert(range_pairs(o.0@) =~= Seq::empty());
                    Options::U64Range(o)
                },
            },
            OptionKind::F64Range => match F64RangeOption::from_sigrok(listing) {
                Some(o) => Options::F64Range(o),
                None => {
                    let o = F64RangeOption::default();
                    assert(range_pairs(o.0@) =~= Seq::empty());
                    Options::F64Range(o)
                },
            },
            OptionKind::U64 => match U64Option::from_sigrok(listing) {
                Some(o) => Options::U64(o),
                None => {
                    let o = U64Option::default();
                    assert(o.0@ =~= Seq::empty());
                    Options::U64(o)
                },
            },
            OptionKind::SampleRate => match SampleRateOption::from_sigrok(listing) {
                Some(o) => Options::SampleRate(o),
                None => Options::SampleRate(SampleRateOption::default()),
            },
            OptionKind::F64 => match F64Option::from_sigrok(listing) {
                Some(o) => Options::F64(o),
                None => {
                    let o = F64Option::default();
                    assert(o.0@ =~= Seq::empty());
                    Options::F64(o)
                },
            },
            OptionKind::I32 => match I32Option::from_sigrok(listing) {
                Some(o) => Options::I32(o),
                None => {
                    let o = I32Option::default();
                    assert(o.0@ =~= Seq::empty());
                    Options::I32(o)
                },
            },
            OptionKind::Rational => match RationalOption::from_sigrok(listing) {
                Some(o) => Options::Rational(o),
                None => {
                    let o = RationalOption::default();
                    assert(ratio_pairs(o.0@) =~= Seq::empty());
                    Options::Rational(o)
                },
            },
            OptionKind::Trigger => match TriggerOption::from_sigrok(listing) {
                Some(o) => Options::Trigger(o),
                None => {
                    let o = TriggerOption::default();
                    assert(o.0@ =~= Seq::empty());
                    Options::Trigger(o)
                },
            },
            OptionKind::Mq => match MqOption::from_sigrok(listing) {
                Some(o) => Options::Mq(o),
                None => Options::Mq(MqOption::default()),
            },
        }
    }
}

impl KeyReport {
    /// The listing that counts: the one reported, if the capability bits say
    /// that the values can be listed at all.
    pub open spec fn effective_listing(&self) -> Option<Tree> {
        if spec_can_list(self.capabilities) {
            match self.listing {
                Some(v) => Some(v@),
                None => None,
            }
        } else {
            None
        }
    }
}

impl Config {
    /// `self` is the descriptor of the key that was reported.
    pub open spec fn describes(&self, report: &KeyReport) -> bool {
        &&& ConfigKey::spec_from_raw(report.key) == Some(self.key)
        &&& self.options.kind() == self.key.spec_option_kind()
        &&& self.options.read_from(report.effective_listing())
    }

    /// The descriptor of a reported key: none for a number that is not
    /// known, and else the key with its options, which are read from the
    /// listing only where the values can be listed.
    pub fn from_sigrok(report: &KeyReport) -> (r: Option<Config>)
        ensures
            r is Some <==> ConfigKey::spec_from_raw(report.key) is Some,
            r matches Some(c) ==> c.describes(report),
    {
        match ConfigKey::from_raw(report.key) {
            None => None,
            Some(key) => {
                let options = if can_list(report.capabilities) {
                    Options::from_sigrok(key.option_kind(), report.listing.as_ref())
                } else {
                    Options::from_sigrok(key.option_kind(), None)
                };
                Some(Config { key, options })
            },
        }
    }
}

/// The positions of the reports whose key is known, in rising order.
pub open spec fn known_positions(reports: Seq<KeyReport>) -> Seq<int>
    decreases reports.len(),
{
    if reports.len() == 0 {
        Seq::empty()
    } else {
        let before = known_positions(reports.drop_last());
        if ConfigKey::spec_from_raw(reports.last().key) is Some {
            before.push(reports.len() - 1)
        } else {
            before
        }
    }
}

/// Every known position lies inside the reports.
pub proof fn lemma_known_positions(reports: Seq<KeyReport>)
    ensures
        known_positions(reports).len() <= reports.len(),
        forall|j: int|
            0 <= j < known_positions(reports).len() ==> 0 <= (#[trigger] known_positions(
                reports,
            )[j]) < reports.len() && ConfigKey::spec_from_raw(
                reports[known_positions(reports)[j]].key,
            ) is Some,
    decreases reports.len(),
{
    if reports.len() > 0 {
        lemma_known_positions(reports.drop_last());
        let before = known_positions(reports.drop_last());
        assert forall|j: int| 0 <= j < known_positions(reports).len() implies 0 <= (
        #[trigger] known_positions(reports)[j]) < reports.len() && ConfigKey::spec_from_raw(
            reports[known_positions(reports)[j]].key,
        ) is Some by {
            if j < before.len() {
                assert(known_positions(reports)[j] == before[j]);
                assert(reports.drop_last()[before[j]] == reports[before[j]]);
            }
        }
    }
}

/// `configs` holds one descriptor for each report whose key is known, in
/// the order of the reports, and nothing for the others.
pub open spec fn catalog_of(reports: Seq<KeyReport>, configs: Seq<Config>) -> bool {
    &&& configs.len() == known_positions(reports).len()
    &&& forall|j: int|
        0 <= j < configs.len() ==> (#[trigger] configs[j]).describes(
            &reports[known_positions(reports)[j]],
        )
}

/// Lists the configuration keys of a driver, device or channel group with
/// the options of each.
///
/// `reports` is what the native library enumerates, `None` where it gives
/// no list at all: that is the one failure, a generic error. Keys that are
/// not known are dropped without a word.
pub fn config_options(reports: Option<&Vec<KeyReport>>) -> (r: Result<Vec<Config>, SigrokError>)
    ensures
        r is Ok <==> reports is Some,
        r matches Ok(configs) ==> catalog_of(reports.unwrap()@, configs@),
        r matches Err(e) ==> e == SigrokError::Generic,
{
    let reports = match reports {
        Some(r) => r,
        None => {
            return Err(SigrokError::Generic);
        },
    };
    let mut out: Vec<Config> = Vec::new();
    let mut i: usize = 0;
    while i < reports.len()
        invariant
            i <= reports.len(),
            catalog_of(reports@.take(i as int), out@),
        decreases reports.len() - i,
    {
        let ghost before = reports@.take(i as int);
        let ghost now = reports@.take(i + 1);
        let ghost old_out = out@;
        proof {
            assert(now.drop_last() =~= before);
            assert(now.last() == reports@[i as int]);
            lemma_known_positions(before);
        }
        if let Some(config) = Config::from_sigrok(&reports[i]) {
            out.push(config);
        }
        proof {
            assert forall|j: int| 0 <= j < out@.len() implies (#[trigger] out@[j]).describes(
                &now[known_positions(now)[j]],
            ) by {
                if j < old_out.len() {
                    assert(out@[j] == old_out[j]);
                    assert(known_positions(now)[j] == known_positions(before)[j]);
                    assert(now[known_positions(before)[j]] == before[known_positions(before)[j]]);
                }
            }
        }
        i = i + 1;
    }
    assert(reports@.take(reports.len() as int) =~= reports@);
    Ok(out)
}

/// What capability bits allow: getting, setting and listing.
pub open spec fn abilities_match(capabilities: i32, abilities: ConfigAbilities) -> bool {
    &&& abilities.wf()
    &&& (abilities@ & ConfigAbilities::GET == ConfigAbilities::GET) == ((capabilities as u32)
        & SR_CONF_GET != 0)
    &&& (abilities@ & ConfigAbilities::SET == ConfigAbilities::SET) == ((capabilities as u32)
        & SR_CONF_SET != 0)
    &&& (abilities@ & ConfigAbilities::LIST == ConfigAbilities::LIST) == ((capabilities as u32)
        & SR_CONF_LIST != 0)
}

/// Reads the abilities of a key off its capability bits. This never fails:
/// bits that allow nothing give the empty set.
pub fn config_abilities(capabilities: i32) -> (abilities: ConfigAbilities)
    ensures
        abilities_match(capabilities, abilities),
{
    let bits = #[verifier::truncate]
    (capabilities as u32);
    let mut abilities = ConfigAbilities::empty();
    let ghost b0 = abilities@;
    abilities.set(ConfigAbilities::from_bits_truncate(ConfigAbilities::GET), bits & SR_CONF_GET != 0);
    let ghost b1 = abilities@;
    abilities.set(ConfigAbilities::from_bits_truncate(ConfigAbilities::SET), bits & SR_CONF_SET != 0);
    let ghost b2 = abilities@;
    abilities.set(
        ConfigAbilities::from_bits_truncate(ConfigAbilities::LIST),
        bits & SR_CONF_LIST != 0,
    );
    proof {
        lemma_flag_steps(b0);
        lemma_flag_steps(b1);
        lemma_flag_steps(b2);
        assert(1u8 & 7 == 1 && 2u8 & 7 == 2 && 4u8 & 7 == 4) by (bit_vector);
    }
    abilities
}

/// Options used when scanning for devices.
#[derive(Copy, Clone, Eq, PartialEq, Hash, Debug)]
pub enum ScanOption<'a> {
    /// Specification on how to connect to a device.
    ///
    /// In combination with [`SerialComm`][Self::SerialComm], this is a serial port in the
    /// form which makes sense to the OS (e.g., `/dev/ttyS0`). Otherwise this specifies a
    /// USB device, either in the form of `<bus>.<address>` (decimal, e.g. `1.65`) or
    /// `<vendorid>.<productid>` (hexadecimal, e.g. `1d6b.0001`).
    Connection(&'a str),
    /// Serial communication specification, in the form
    /// `<baudrate>/<databits><parity><stopbits>`, for example `9600/8n1`.
    ///
    /// The string may also be followed by one or more special settings, in the form
    /// `/key=value`. Supported keys and their values are:
    ///
    /// | Key  | Value | Description                            |
    /// |------|-------|----------------------------------------|
    /// | rts  | 0     | set the port's RTS pin to low          |
    /// |      | 1     | set the port's RTS pin to high         |
    /// | dtr  | 0     | set the port's DTR pin to low          |
    /// |      | 1     | set the port's DTR pin to high         |
    /// | flow | 0     | no flow control                        |
    /// |      | 1     | hardware-based (RTS/CTS) flow control  |
    /// |      | 2     | software-based (XON/XOFF) flow control |
    ///
    /// This is always an optional parameter, since a driver typically knows the speed at
    /// which the device wants to communicate.
    SerialComm(&'a str),
    /// Modbus slave address specification.
    ///
    /// This is always an optional parameter, since a driver typically knows the default
    /// slave address of the device.
    ModbusAddr(u64),
}

/// One entry of the list that is handed to a scan: a key with its value.
#[derive(Debug, PartialEq)]
pub struct ScanEntry {
    pub key: u32,
    pub data: Variant,
}

impl<'a> ScanOption<'a> {
    /// The key of the option.
    pub open spec fn spec_key(&self) -> u32 {
        match self {
            ScanOption::Connection(_) => SR_CONF_CONN,
            ScanOption::SerialComm(_) => SR_CONF_SERIALCOMM,
            ScanOption::ModbusAddr(_) => SR_CONF_MODBUSADDR,
        }
    }

    /// The value of the option as a variant. A string with a zero byte in
    /// it has none: the error tells where the first one is.
    pub open spec fn encoded(&self) -> Result<Tree, SigrokError> {
        match self {
            ScanOption::Connection(s) | ScanOption::SerialComm(s) => match nul_position(
                s.spec_bytes(),
            ) {
                Some(i) => Err(SigrokError::NullError(i as usize)),
                None => Ok(Tree::Text(s@)),
            },
            ScanOption::ModbusAddr(n) => Ok(Tree::UInt64(*n)),
        }
    }

    /// The key of the option.
    #[verifier::when_used_as_spec(spec_key)]
    pub fn key(&self) -> (r: u32)
        ensures
            r == self.spec_key(),
    {
        match self {
            ScanOption::Connection(_) => SR_CONF_CONN,
            ScanOption::SerialComm(_) => SR_CONF_SERIALCOMM,
            ScanOption::ModbusAddr(_) => SR_CONF_MODBUSADDR,
        }
    }

    /// The value of the option as a variant.
    pub fn data(&self) -> (r: Result<Variant, SigrokError>)
        ensures
            match r {
                Ok(v) => self.encoded() == Ok::<Tree, SigrokError>(v@),
                Err(e) => self.encoded() == Err::<Tree, SigrokError>(e),
            },
    {
        match self {
            ScanOption::Connection(s) | ScanOption::SerialComm(s) => {
                match find_nul(s.as_bytes()) {
                    Some(i) => Err(SigrokError::NullError(i)),
                    None => Ok(Variant::Text((*s).to_owned())),
                }
            },
            ScanOption::ModbusAddr(n) => Ok(Variant::UInt64(*n)),
        }
    }
}

/// A configuration option together with the value to set it to.
#[derive(Debug, Clone, PartialEq)]
pub enum ConfigOption {
    /// The pattern that a pattern generator puts out.
    PatternMode(String),
}

impl ConfigOption {
    /// The key of the option.
    pub open spec fn spec_key(&self) -> u32 {
        match self {
            ConfigOption::PatternMode(_) => ConfigKey::PatternMode.spec_key(),
        }
    }

    /// The value of the option holds no zero byte, so that a native string
    /// can hold it.
    pub open spec fn settable(&self) -> bool {
        match self {
            ConfigOption::PatternMode(value) => nul_position(vstd::utf8::encode_utf8(value@)) is None,
        }
    }

    /// The key of the option.
    #[verifier::when_used_as_spec(spec_key)]
    pub fn key(&self) -> (r: u32)
        ensures
            r == self.spec_key(),
    {
        match self {
            ConfigOption::PatternMode(_) => ConfigKey::PatternMode.key(),
        }
    }

    /// Tells whether the value of the option holds no zero byte.
    #[verifier::when_used_as_spec(settable)]
    pub fn is_settable(&self) -> (r: bool)
        ensures
            r == self.settable(),
    {
        match self {
            ConfigOption::PatternMode(value) => find_nul(value.as_str().as_bytes()).is_none(),
        }
    }

    /// The value of the option as a variant. A value with a zero byte in it
    /// has none, so such an option is left out.
    pub fn data(&self) -> (r: Variant)
        requires
            self.settable(),
        ensures
            match self {
                ConfigOption::PatternMode(value) => r@ == Tree::Text(value@),
            },
    {
        match self {
            ConfigOption::PatternMode(value) => Variant::Text(value.clone()),
        }
    }
}

/// The first option that cannot be encoded.
pub open spec fn first_unencodable(options: Seq<ScanOption>) -> Option<int>
    decreases options.len(),
{
    if options.len() == 0 {
        None
    } else {
        match first_unencodable(options.drop_last()) {
            Some(i) => Some(i),
            None => if options.last().encoded() is Err {
                Some(options.len() - 1)
            } else {
                None
            },
        }
    }
}

/// The first option that cannot be encoded is one that cannot, and all
/// before it can; there is none exactly when all can.
pub proof fn lemma_first_unencodable(options: Seq<ScanOption>)
    ensures
        match first_unencodable(options) {
            Some(i) => 0 <= i < options.len() && options[i].encoded() is Err && forall|j: int|
                0 <= j < i ==> (#[trigger] options[j]).encoded() is Ok,
            None => forall|j: int| 0 <= j < options.len() ==> (#[trigger] options[j]).encoded() is Ok,
        },
    decreases options.len(),
{
    if options.len() > 0 {
        let before = options.drop_last();
        lemma_first_unencodable(before);
        assert forall|j: int| 0 <= j < before.len() implies before[j] == options[j] by {}
        match first_unencodable(before) {
            Some(i) => {
                assert(before[i] == options[i]);
                assert forall|j: int| 0 <= j < i implies (#[trigger] options[j]).encoded() is Ok by {
                    assert(before[j] == options[j]);
                }
            },
            None => {
                assert forall|j: int| 0 <= j < options.len() - 1 implies (
                #[trigger] options[j]).encoded() is Ok by {
                    assert(before[j] == options[j]);
                }
            },
        }
    }
}

/// Builds the list of keys and values that is handed to a scan, one entry
/// for each option, in order.
///
/// It fails where a string option holds a zero byte, with the error of the
/// first such option.
pub fn scan_config(scan_options: &[ScanOption]) -> (r: Result<Vec<ScanEntry>, SigrokError>)
    ensures
        match r {
            Ok(list) => {
                &&& first_unencodable(scan_options@) is None
                &&& list@.len() == scan_options@.len()
                &&& forall|i: int|
                    0 <= i < list@.len() ==> (#[trigger] list@[i]).key == scan_options@[i].spec_key()
                        && scan_options@[i].encoded() == Ok::<Tree, SigrokError>(list@[i].data@)
            },
            Err(e) => first_unencodable(scan_options@) matches Some(i) && scan_options@[i].encoded()
                == Err::<Tree, SigrokError>(e),
        },
{
    let mut list: Vec<ScanEntry> = Vec::new();
    let mut i: usize = 0;
    while i < scan_options.len()
        invariant
            i <= scan_options.len(),
            list@.len() == i,
            first_unencodable(scan_options@.take(i as int)) is None,
            forall|j: int|
                0 <= j < i ==> (#[trigger] list@[j]).key == scan_options@[j].spec_key()
                    && scan_options@[j].encoded() == Ok::<Tree, SigrokError>(list@[j].data@),
        decreases scan_options.len() - i,
    {
        let opt = &scan_options[i];
        proof {
            assert(scan_options@.take(i + 1).drop_last() =~= scan_options@.take(i as int));
            assert(scan_options@.take(i + 1).last() == scan_options@[i as int]);
        }
        match opt.data() {
            Ok(data) => {
                list.push(ScanEntry { key: opt.key(), data });
            },
            Err(e) => {
                proof {
                    lemma_scan_prefix(scan_options@, i as int);
                }
                return Err(e);
            },
        }
        i = i + 1;
    }
    assert(scan_options@.take(scan_options.len() as int) =~= scan_options@);
    Ok(list)
}

/// Where the first option of a prefix that cannot be encoded is its last,
/// it is the first of the whole list too.
proof fn lemma_scan_prefix(options: Seq<ScanOption>, i: int)
    requires
        0 <= i < options.len(),
        first_unencodable(options.take(i)) is None,
        options[i].encoded() is Err,
    ensures
        first_unencodable(options) == Some(i),
    decreases options.len() - i,
{
    let upto = options.take(i + 1);
    assert(upto.drop_last() =~= options.take(i));
    assert(upto.last() == options[i]);
    assert(first_unencodable(upto) == Some(i));
    lemma_first_unencodable_extends(options, i + 1, i);
}

/// What is the first unencodable option of a prefix stays the first as the
/// prefix grows.
proof fn lemma_first_unencodable_extends(options: Seq<ScanOption>, n: int, i: int)
    requires
        0 <= n <= options.len(),
        first_unencodable(options.take(n)) == Some(i),
    ensures
        first_unencodable(options) == Some(i),
    decreases options.len() - n,
{
    if n < options.len() {
        let next = options.take(n + 1);
        assert(next.drop_last() =~= options.take(n));
        lemma_first_unencodable_extends(options, n + 1, i);
    } else {
        assert(options.take(n) =~= options);
    }
}

} // verus!
