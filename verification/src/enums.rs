//! The closed sets of values that cross the native boundary as numbers:
//! flag sets, units, measured quantities, device functions, trigger
//! conditions and log levels, each with its native number.
use vstd::prelude::*;

verus! {

/// Modifiers of a measured quantity: how the value was taken and how it
/// is to be read.
#[derive(Copy, Clone, Eq, PartialEq, Debug, Hash, Structural)]
pub struct MqFlags {
    bits: u32,
}

impl View for MqFlags {
    type V = u32;

    /// The raw bits of the set.
    closed spec fn view(&self) -> u32 {
        self.bits
    }
}

impl MqFlags {
    /// Voltage measurement is alternating current (AC).
    pub const AC: u32 = 0x1;

    /// Voltage measurement is direct current (DC).
    pub const DC: u32 = 0x2;

    /// This is a true RMS measurement.
    pub const RMS: u32 = 0x4;

    /// Value is voltage drop across a diode, or NAN.
    pub const DIODE: u32 = 0x8;

    /// Device is in "hold" mode (repeating the last measurement).
    pub const HOLD: u32 = 0x10;

    /// Device is in "max" mode, only updating upon a new max value.
    pub const MAX: u32 = 0x20;

    /// Device is in "min" mode, only updating upon a new min value.
    pub const MIN: u32 = 0x40;

    /// Device is in autoranging mode.
    pub const AUTORANGE: u32 = 0x80;

    /// Device is in relative mode.
    pub const RELATIVE: u32 = 0x100;

    /// Sound pressure level is A-weighted in the frequency domain,
    /// according to IEC 61672:2003.
    pub const SPL_FREQ_WEIGHT_A: u32 = 0x200;

    /// Sound pressure level is C-weighted in the frequency domain,
    /// according to IEC 61672:2003.
    pub const SPL_FREQ_WEIGHT_C: u32 = 0x400;

    /// Sound pressure level is Z-weighted (i.e. not at all) in the
    /// frequency domain, according to IEC 61672:2003.
    pub const SPL_FREQ_WEIGHT_Z: u32 = 0x800;

    /// Sound pressure level is not weighted in the frequency domain,
    /// albeit without standards-defined low and high frequency limits.
    pub const SPL_FREQ_WEIGHT_FLAT: u32 = 0x1000;

    /// Sound pressure level measurement is S-weighted (1s) in the time domain.
    pub const SPL_TIME_WEIGHT_S: u32 = 0x2000;

    /// Sound pressure level measurement is F-weighted (125ms) in the time domain.
    pub const SPL_TIME_WEIGHT_F: u32 = 0x4000;

    /// Sound pressure level is time-averaged (LAT), also known as
    /// Equivalent Continuous A-weighted Sound Level (LEQ).
    pub const SPL_LAT: u32 = 0x8000;

    /// Sound pressure level represented as a percentage of measurements
    /// that were over a preset alarm level.
    pub const SPL_PCT_OVER_ALARM: u32 = 0x10000;

    /// Time is duration (as opposed to epoch, ...).
    pub const DURATION: u32 = 0x20000;

    /// Device is in "avg" mode, averaging upon each new value.
    pub const AVG: u32 = 0x40000;

    /// Reference value shown.
    pub const REFERENCE: u32 = 0x80000;

    /// Unstable value (hasn't settled yet).
    pub const UNSTABLE: u32 = 0x100000;

    /// Measurement is four wire (e.g. Kelvin connection).
    pub const FOUR_WIRE: u32 = 0x200000;

    /// The union of all the named flags.
    pub const ALL: u32 = 0x3fffff;

    /// A set holds named flags only.
    pub open spec fn wf(&self) -> bool {
        self@ & !Self::ALL == 0
    }

    #[verifier::type_invariant]
    closed spec fn inv(self) -> bool {
        self.bits & !Self::ALL == 0
    }

    /// Two sets with the same bits are the same set.
    pub proof fn lemma_same_bits(a: Self, b: Self)
        requires
            a@ == b@,
        ensures
            a == b,
    {
    }

    /// The set without any flag.
    pub fn empty() -> (r: Self)
        ensures
            r@ == 0,
            r.wf(),
    {
        assert(0u32 & !0x3fffffu32 == 0) by (bit_vector);
        MqFlags { bits: 0 }
    }

    /// The set of all named flags.
    pub fn all() -> (r: Self)
        ensures
            r@ == Self::ALL,
            r.wf(),
    {
        assert(0x3fffffu32 & !0x3fffffu32 == 0) by (bit_vector);
        MqFlags { bits: Self::ALL }
    }

    /// The raw bits of the set.
    pub fn bits(&self) -> (r: u32)
        ensures
            r == self@,
            self.wf(),
    {
        proof {
            use_type_invariant(self);
        }
        self.bits
    }

    /// The set with exactly these bits, unless one of them names no flag.
    pub fn from_bits(bits: u32) -> (r: Option<Self>)
        ensures
            r is Some <==> bits & !Self::ALL == 0,
            r matches Some(f) ==> f@ == bits && f.wf(),
    {
        if bits & !Self::ALL == 0 {
            Some(MqFlags { bits })
        } else {
            None
        }
    }

    /// The set of those bits that name a flag; the others are dropped.
    pub fn from_bits_truncate(bits: u32) -> (r: Self)
        ensures
            r@ == bits & Self::ALL,
            r.wf(),
    {
        assert((bits & 0x3fffffu32) & !0x3fffffu32 == 0) by (bit_vector);
        MqFlags { bits: bits & Self::ALL }
    }

    /// Whether no flag is set.
    pub fn is_empty(&self) -> (r: bool)
        ensures
            r <==> self@ == 0,
    {
        self.bits == 0
    }

    /// Whether every flag of `other` is set in `self`.
    pub fn contains(&self, other: Self) -> (r: bool)
        ensures
            r <==> self@ & other@ == other@,
    {
        self.bits & other.bits == other.bits
    }

    /// Sets every flag of `other`.
    pub fn insert(&mut self, other: Self)
        ensures
            final(self)@ == old(self)@ | other@,
            final(self).wf(),
    {
        proof {
            use_type_invariant(&*self);
            use_type_invariant(&other);
        }
        let a = self.bits;
        let b = other.bits;
        assert((a | b) & !0x3fffffu32 == 0) by (bit_vector)
            requires
                a & !0x3fffffu32 == 0,
                b & !0x3fffffu32 == 0,
        ;
        self.bits = a | b;
    }

    /// Clears every flag of `other`.
    pub fn remove(&mut self, other: Self)
        ensures
            final(self)@ == old(self)@ & !other@,
            final(self).wf(),
    {
        proof {
            use_type_invariant(&*self);
        }
        let a = self.bits;
        let b = other.bits;
        assert((a & !b) & !0x3fffffu32 == 0) by (bit_vector)
            requires
                a & !0x3fffffu32 == 0,
        ;
        self.bits = a & !b;
    }

    /// Sets the flags of `other` if `value` holds, and clears them if not.
    pub fn set(&mut self, other: Self, value: bool)
        ensures
            value ==> final(self)@ == old(self)@ | other@,
            !value ==> final(self)@ == old(self)@ & !other@,
            final(self).wf(),
    {
        if value {
            self.insert(other);
        } else {
            self.remove(other);
        }
    }
}

/// The abilities of a config item, in terms of getting, setting, and listing all possible
/// options.
///
/// This is returned by
/// [`config_abilities`][crate::config::config_abilities].
#[derive(Copy, Clone, Eq, PartialEq, Debug, Hash, Structural)]
pub struct ConfigAbilities {
    bits: u8,
}

impl View for ConfigAbilities {
    type V = u8;

    /// The raw bits of the set.
    closed spec fn view(&self) -> u8 {
        self.bits
    }
}

impl ConfigAbilities {
    /// Get the current value.
    pub const GET: u8 = 0x1;

    /// Set the config to a new value.
    pub const SET: u8 = 0x2;

    /// List the possible options with `config_options`.
    pub const LIST: u8 = 0x4;

    /// The union of all the named flags.
    pub const ALL: u8 = 0x7;

    /// A set holds named flags only.
    pub open spec fn wf(&self) -> bool {
        self@ & !Self::ALL == 0
    }

    #[verifier::type_invariant]
    closed spec fn inv(self) -> bool {
        self.bits & !Self::ALL == 0
    }

    /// Two sets with the same bits are the same set.
    pub proof fn lemma_same_bits(a: Self, b: Self)
        requires
            a@ == b@,
        ensures
            a == b,
    {
    }

    /// The set without any flag.
    pub fn empty() -> (r: Self)
        ensures
            r@ == 0,
            r.wf(),
    {
        assert(0u8 & !0x7u8 == 0) by (bit_vector);
        ConfigAbilities { bits: 0 }
    }

    /// The set of all named flags.
    pub fn all() -> (r: Self)
        ensures
            r@ == Self::ALL,
            r.wf(),
    {
        assert(0x7u8 & !0x7u8 == 0) by (bit_vector);
        ConfigAbilities { bits: Self::ALL }
    }

    /// The raw bits of the set.
    pub fn bits(&self) -> (r: u8)
        ensures
            r == self@,
            self.wf(),
    {
        proof {
            use_type_invariant(self);
        }
        self.bits
    }

    /// The set with exactly these bits, unless one of them names no flag.
    pub fn from_bits(bits: u8) -> (r: Option<Self>)
        ensures
            r is Some <==> bits & !Self::ALL == 0,
            r matches Some(f) ==> f@ == bits && f.wf(),
    {
        if bits & !Self::ALL == 0 {
            Some(ConfigAbilities { bits })
        } else {
            None
        }
    }

    /// The set of those bits that name a flag; the others are dropped.
    pub fn from_bits_truncate(bits: u8) -> (r: Self)
        ensures
            r@ == bits & Self::ALL,
            r.wf(),
    {
        assert((bits & 0x7u8) & !0x7u8 == 0) by (bit_vector);
        ConfigAbilities { bits: bits & Self::ALL }
    }

    /// Whether no flag is set.
    pub fn is_empty(&self) -> (r: bool)
        ensures
            r <==> self@ == 0,
    {
        self.bits == 0
    }

    /// Whether every flag of `other` is set in `self`.
    pub fn contains(&self, other: Self) -> (r: bool)
        ensures
            r <==> self@ & other@ == other@,
    {
        self.bits & other.bits == other.bits
    }

    /// Sets every flag of `other`.
    pub fn insert(&mut self, other: Self)
        ensures
            final(self)@ == old(self)@ | other@,
            final(self).wf(),
    {
        proof {
            use_type_invariant(&*self);
            use_type_invariant(&other);
        }
        let a = self.bits;
        let b = other.bits;
        assert((a | b) & !0x7u8 == 0) by (bit_vector)
            requires
                a & !0x7u8 == 0,
                b & !0x7u8 == 0,
        ;
        self.bits = a | b;
    }

    /// Clears every flag of `other`.
    pub fn remove(&mut self, other: Self)
        ensures
            final(self)@ == old(self)@ & !other@,
            final(self).wf(),
    {
        proof {
            use_type_invariant(&*self);
        }
        let a = self.bits;
        let b = other.bits;
        assert((a & !b) & !0x7u8 == 0) by (bit_vector)
            requires
                a & !0x7u8 == 0,
        ;
        self.bits = a & !b;
    }

    /// Sets the flags of `other` if `value` holds, and clears them if not.
    pub fn set(&mut self, other: Self, value: bool)
        ensures
            value ==> final(self)@ == old(self)@ | other@,
            !value ==> final(self)@ == old(self)@ & !other@,
            final(self).wf(),
    {
        if value {
            self.insert(other);
        } else {
            self.remove(other);
        }
    }
}

/// How the samples of an analog capture are encoded.
#[derive(Copy, Clone, Eq, PartialEq, Debug, Hash, Structural)]
pub struct AnalogFlags {
    bits: u8,
}

impl View for AnalogFlags {
    type V = u8;

    /// The raw bits of the set.
    closed spec fn view(&self) -> u8 {
        self.bits
    }
}

impl AnalogFlags {
    /// The samples are signed numbers.
    pub const SIGNED: u8 = 0x1;

    /// The samples are floating-point numbers.
    pub const FLOATING_POINT: u8 = 0x2;

    /// The samples are stored most significant byte first.
    pub const BIG_ENDIAN: u8 = 0x4;

    /// The digit count refers to decimal digits.
    pub const DECIMAL_DIGITS: u8 = 0x8;

    /// The union of all the named flags.
    pub const ALL: u8 = 0xf;

    /// A set holds named flags only.
    pub open spec fn wf(&self) -> bool {
        self@ & !Self::ALL == 0
    }

    #[verifier::type_invariant]
    closed spec fn inv(self) -> bool {
        self.bits & !Self::ALL == 0
    }

    /// Two sets with the same bits are the same set.
    pub proof fn lemma_same_bits(a: Self, b: Self)
        requires
            a@ == b@,
        ensures
            a == b,
    {
    }

    /// The set without any flag.
    pub fn empty() -> (r: Self)
        ensures
            r@ == 0,
            r.wf(),
    {
        assert(0u8 & !0xfu8 == 0) by (bit_vector);
        AnalogFlags { bits: 0 }
    }

    /// The set of all named flags.
    pub fn all() -> (r: Self)
        ensures
            r@ == Self::ALL,
            r.wf(),
    {
        assert(0xfu8 & !0xfu8 == 0) by (bit_vector);
        AnalogFlags { bits: Self::ALL }
    }

    /// The raw bits of the set.
    pub fn bits(&self) -> (r: u8)
        ensures
            r == self@,
            self.wf(),
    {
        proof {
            use_type_invariant(self);
        }
        self.bits
    }

    /// The set with exactly these bits, unless one of them names no flag.
    pub fn from_bits(bits: u8) -> (r: Option<Self>)
        ensures
            r is Some <==> bits & !Self::ALL == 0,
            r matches Some(f) ==> f@ == bits && f.wf(),
    {
        if bits & !Self::ALL == 0 {
            Some(AnalogFlags { bits })
        } else {
            None
        }
    }

    /// The set of those bits that name a flag; the others are dropped.
    pub fn from_bits_truncate(bits: u8) -> (r: Self)
        ensures
            r@ == bits & Self::ALL,
            r.wf(),
    {
        assert((bits & 0xfu8) & !0xfu8 == 0) by (bit_vector);
        AnalogFlags { bits: bits & Self::ALL }
    }

    /// Whether no flag is set.
    pub fn is_empty(&self) -> (r: bool)
        ensures
            r <==> self@ == 0,
    {
        self.bits == 0
    }

    /// Whether every flag of `other` is set in `self`.
    pub fn contains(&self, other: Self) -> (r: bool)
        ensures
            r <==> self@ & other@ == other@,
    {
        self.bits & other.bits == other.bits
    }

    /// Sets every flag of `other`.
    pub fn insert(&mut self, other: Self)
        ensures
            final(self)@ == old(self)@ | other@,
            final(self).wf(),
    {
        proof {
            use_type_invariant(&*self);
            use_type_invariant(&other);
        }
        let a = self.bits;
        let b = other.bits;
        assert((a | b) & !0xfu8 == 0) by (bit_vector)
            requires
                a & !0xfu8 == 0,
                b & !0xfu8 == 0,
        ;
        self.bits = a | b;
    }

    /// Clears every flag of `other`.
    pub fn remove(&mut self, other: Self)
        ensures
            final(self)@ == old(self)@ & !other@,
            final(self).wf(),
    {
        proof {
            use_type_invariant(&*self);
        }
        let a = self.bits;
        let b = other.bits;
        assert((a & !b) & !0xfu8 == 0) by (bit_vector)
            requires
                a & !0xfu8 == 0,
        ;
        self.bits = a & !b;
    }

    /// Sets the flags of `other` if `value` holds, and clears them if not.
    pub fn set(&mut self, other: Self, value: bool)
        ensures
            value ==> final(self)@ == old(self)@ | other@,
            !value ==> final(self)@ == old(self)@ & !other@,
            final(self).wf(),
    {
        if value {
            self.insert(other);
        } else {
            self.remove(other);
        }
    }
}

/// What setting or clearing one of the four lowest flags of a small flag set
/// does to each of them.
pub proof fn lemma_flag_steps(x: u8)
    by (bit_vector)
    ensures
        (x | 1) & 1 == 1,
        (x | 1) & 2 == x & 2,
        (x | 1) & 4 == x & 4,
        (x | 1) & 8 == x & 8,
        (x & !1u8) & 1 != 1,
        (x & !1u8) & 2 == x & 2,
        (x & !1u8) & 4 == x & 4,
        (x & !1u8) & 8 == x & 8,
        (x | 2) & 2 == 2,
        (x | 2) & 1 == x & 1,
        (x | 2) & 4 == x & 4,
        (x | 2) & 8 == x & 8,
        (x & !2u8) & 2 != 2,
        (x & !2u8) & 1 == x & 1,
        (x & !2u8) & 4 == x & 4,
        (x & !2u8) & 8 == x & 8,
        (x | 4) & 4 == 4,
        (x | 4) & 1 == x & 1,
        (x | 4) & 2 == x & 2,
        (x | 4) & 8 == x & 8,
        (x & !4u8) & 4 != 4,
        (x & !4u8) & 1 == x & 1,
        (x & !4u8) & 2 == x & 2,
        (x & !4u8) & 8 == x & 8,
        (x | 8) & 8 == 8,
        (x | 8) & 1 == x & 1,
        (x | 8) & 2 == x & 2,
        (x | 8) & 4 == x & 4,
        (x & !8u8) & 8 != 8,
        (x & !8u8) & 1 == x & 1,
        (x & !8u8) & 2 == x & 2,
        (x & !8u8) & 4 == x & 4,
        1u8 & 0xf == 1,
        2u8 & 0xf == 2,
        4u8 & 0xf == 4,
        8u8 & 0xf == 8,
{
}


/// Measured Quantity
#[derive(Copy, Clone, Eq, PartialEq, Debug, Hash, Structural)]
pub struct Mq {
    pub mq_type: MqType,
    pub flags: MqFlags,
}

/// Unit of measured quantity. Used in [`Analog::unit`][crate::data::Analog::unit].
#[derive(Copy, Clone, Eq, PartialEq, Debug, Hash, Structural)]
#[non_exhaustive]
pub enum Unit {
    /// Volt
    Volt,
    /// Ampere (current).
    Ampere,
    /// Ohm (resistance).
    Ohm,
    /// Farad (capacity).
    Farad,
    /// Kelvin (temperature).
    Kelvin,
    /// Degrees Celsius (temperature).
    Celsius,
    /// Degrees Fahrenheit (temperature).
    Fahrenheit,
    /// Hertz (frequency, 1/s, \[Hz\]).
    Hertz,
    /// Percent value.
    Percentage,
    /// Boolean value.
    Boolean,
    /// Time in seconds.
    Second,
    /// Unit of conductance, the inverse of resistance.
    Siemens,
    /// An absolute measurement of power, in decibels, referenced to 1 milliwatt (dBm).
    DecibelMilliWatt,
    /// Voltage in decibel, referenced to 1 volt (dBV).
    DecibelVolt,
    /// Measurements that intrinsically do not have units attached, such as
    /// ratios, gains, etc. Specifically, a transistor's gain (hFE) is a
    /// unitless quantity, for example.
    Unitless,
    /// Sound pressure level, in decibels, relative to 20 micropascals.
    DecibelSPL,
    /// Normalized (0 to 1) concentration of a substance or compound with 0
    /// representing a concentration of 0%, and 1 being 100%. This is
    /// represented as the fraction of number of particles of the substance.
    Concentration,
    /// Revolutions per minute.
    RevolutionsPerMinute,
    /// Apparent power \[VA\].
    VoltAmpere,
    /// Real power \[W\].
    Watt,
    /// Consumption \[Wh\].
    WattHour,
    /// Wind speed in meters per second.
    MeterSecond,
    /// Pressure in hectopascal
    Hectopascal,
    /// Relative humidity assuming air temperature of 293 Kelvin (%rF).
    Humidity293K,
    /// Plane angle in 1/360th of a full circle.
    Degree,
    /// Henry (inductance).
    Henry,
    /// Mass in gram \[g\].
    Gram,
    /// Mass in carat \[ct\].
    Carat,
    /// Mass in ounce \[oz\].
    Ounce,
    /// Mass in troy ounce \[oz t\].
    TroyOunce,
    /// Mass in pound \[lb\].
    Pound,
    /// Mass in pennyweight \[dwt\].
    Pennyweight,
    /// Mass in grain \[gr\].
    Grain,
    /// Mass in tael (variants: Hong Kong, Singapore/Malaysia, Taiwan)
    Tael,
    /// Mass in momme.
    Momme,
    /// Mass in tola.
    Tola,
    /// Pieces (number of items).
    Piece,
}

impl Unit {
    /// The number by which the native library knows this value.
    pub open spec fn spec_raw(self) -> u32 {
        match self {
            Unit::Volt => 10000,
            Unit::Ampere => 10001,
            Unit::Ohm => 10002,
            Unit::Farad => 10003,
            Unit::Kelvin => 10004,
            Unit::Celsius => 10005,
            Unit::Fahrenheit => 10006,
            Unit::Hertz => 10007,
            Unit::Percentage => 10008,
            Unit::Boolean => 10009,
            Unit::Second => 10010,
            Unit::Siemens => 10011,
            Unit::DecibelMilliWatt => 10012,
            Unit::DecibelVolt => 10013,
            Unit::Unitless => 10014,
            Unit::DecibelSPL => 10015,
            Unit::Concentration => 10016,
            Unit::RevolutionsPerMinute => 10017,
            Unit::VoltAmpere => 10018,
            Unit::Watt => 10019,
            Unit::WattHour => 10020,
            Unit::MeterSecond => 10021,
            Unit::Hectopascal => 10022,
            Unit::Humidity293K => 10023,
            Unit::Degree => 10024,
            Unit::Henry => 10025,
            Unit::Gram => 10026,
            Unit::Carat => 10027,
            Unit::Ounce => 10028,
            Unit::TroyOunce => 10029,
            Unit::Pound => 10030,
            Unit::Pennyweight => 10031,
            Unit::Grain => 10032,
            Unit::Tael => 10033,
            Unit::Momme => 10034,
            Unit::Tola => 10035,
            Unit::Piece => 10036,
        }
    }

    /// The value that the native library knows by `value`, if there is one.
    pub open spec fn spec_from_raw(value: u32) -> Option<Unit> {
        if value == 10000 {
            Some(Unit::Volt)
        } else if value == 10001 {
            Some(Unit::Ampere)
        } else if value == 10002 {
            Some(Unit::Ohm)
        } else if value == 10003 {
            Some(Unit::Farad)
        } else if value == 10004 {
            Some(Unit::Kelvin)
        } else if value == 10005 {
            Some(Unit::Celsius)
        } else if value == 10006 {
            Some(Unit::Fahrenheit)
        } else if value == 10007 {
            Some(Unit::Hertz)
        } else if value == 10008 {
            Some(Unit::Percentage)
        } else if value == 10009 {
            Some(Unit::Boolean)
        } else if value == 10010 {
            Some(Unit::Second)
        } else if value == 10011 {
            Some(Unit::Siemens)
        } else if value == 10012 {
            Some(Unit::DecibelMilliWatt)
        } else if value == 10013 {
            Some(Unit::DecibelVolt)
        } else if value == 10014 {
            Some(Unit::Unitless)
        } else if value == 10015 {
            Some(Unit::DecibelSPL)
        } else if value == 10016 {
            Some(Unit::Concentration)
        } else if value == 10017 {
            Some(Unit::RevolutionsPerMinute)
        } else if value == 10018 {
            Some(Unit::VoltAmpere)
        } else if value == 10019 {
            Some(Unit::Watt)
        } else if value == 10020 {
            Some(Unit::WattHour)
        } else if value == 10021 {
            Some(Unit::MeterSecond)
        } else if value == 10022 {
            Some(Unit::Hectopascal)
        } else if value == 10023 {
            Some(Unit::Humidity293K)
        } else if value == 10024 {
            Some(Unit::Degree)
        } else if value == 10025 {
            Some(Unit::Henry)
        } else if value == 10026 {
            Some(Unit::Gram)
        } else if value == 10027 {
            Some(Unit::Carat)
        } else if value == 10028 {
            Some(Unit::Ounce)
        } else if value == 10029 {
            Some(Unit::TroyOunce)
        } else if value == 10030 {
            Some(Unit::Pound)
        } else if value == 10031 {
            Some(Unit::Pennyweight)
        } else if value == 10032 {
            Some(Unit::Grain)
        } else if value == 10033 {
            Some(Unit::Tael)
        } else if value == 10034 {
            Some(Unit::Momme)
        } else if value == 10035 {
            Some(Unit::Tola)
        } else if value == 10036 {
            Some(Unit::Piece)
        } else {
            None
        }
    }

    /// The number by which the native library knows this value.
    #[verifier::when_used_as_spec(spec_raw)]
    pub fn raw(self) -> (r: u32)
        ensures
            r == self.spec_raw(),
    {
        match self {
            Unit::Volt => 10000,
            Unit::Ampere => 10001,
            Unit::Ohm => 10002,
            Unit::Farad => 10003,
            Unit::Kelvin => 10004,
            Unit::Celsius => 10005,
            Unit::Fahrenheit => 10006,
            Unit::Hertz => 10007,
            Unit::Percentage => 10008,
            Unit::Boolean => 10009,
            Unit::Second => 10010,
            Unit::Siemens => 10011,
            Unit::DecibelMilliWatt => 10012,
            Unit::DecibelVolt => 10013,
            Unit::Unitless => 10014,
            Unit::DecibelSPL => 10015,
            Unit::Concentration => 10016,
            Unit::RevolutionsPerMinute => 10017,
            Unit::VoltAmpere => 10018,
            Unit::Watt => 10019,
            Unit::WattHour => 10020,
            Unit::MeterSecond => 10021,
            Unit::Hectopascal => 10022,
            Unit::Humidity293K => 10023,
            Unit::Degree => 10024,
            Unit::Henry => 10025,
            Unit::Gram => 10026,
            Unit::Carat => 10027,
            Unit::Ounce => 10028,
            Unit::TroyOunce => 10029,
            Unit::Pound => 10030,
            Unit::Pennyweight => 10031,
            Unit::Grain => 10032,
            Unit::Tael => 10033,
            Unit::Momme => 10034,
            Unit::Tola => 10035,
            Unit::Piece => 10036,
        }
    }

    /// Recognizes a number of the native library. `None` means that no
    /// value of this type has that number.
    pub fn from_raw(value: u32) -> (r: Option<Unit>)
        ensures
            r == Self::spec_from_raw(value),
            r matches Some(v) ==> v.spec_raw() == value,
            r is None ==> forall|v: Unit| #[trigger] v.spec_raw() != value,
    {
        match value {
            10000 => Some(Unit::Volt),
            10001 => Some(Unit::Ampere),
            10002 => Some(Unit::Ohm),
            10003 => Some(Unit::Farad),
            10004 => Some(Unit::Kelvin),
            10005 => Some(Unit::Celsius),
            10006 => Some(Unit::Fahrenheit),
            10007 => Some(Unit::Hertz),
            10008 => Some(Unit::Percentage),
            10009 => Some(Unit::Boolean),
            10010 => Some(Unit::Second),
            10011 => Some(Unit::Siemens),
            10012 => Some(Unit::DecibelMilliWatt),
            10013 => Some(Unit::DecibelVolt),
            10014 => Some(Unit::Unitless),
            10015 => Some(Unit::DecibelSPL),
            10016 => Some(Unit::Concentration),
            10017 => Some(Unit::RevolutionsPerMinute),
            10018 => Some(Unit::VoltAmpere),
            10019 => Some(Unit::Watt),
            10020 => Some(Unit::WattHour),
            10021 => Some(Unit::MeterSecond),
            10022 => Some(Unit::Hectopascal),
            10023 => Some(Unit::Humidity293K),
            10024 => Some(Unit::Degree),
            10025 => Some(Unit::Henry),
            10026 => Some(Unit::Gram),
            10027 => Some(Unit::Carat),
            10028 => Some(Unit::Ounce),
            10029 => Some(Unit::TroyOunce),
            10030 => Some(Unit::Pound),
            10031 => Some(Unit::Pennyweight),
            10032 => Some(Unit::Grain),
            10033 => Some(Unit::Tael),
            10034 => Some(Unit::Momme),
            10035 => Some(Unit::Tola),
            10036 => Some(Unit::Piece),
            _ => None,
        }
    }

    /// Every value is recognized again from its own number.
    pub proof fn lemma_raw_roundtrip(self)
        ensures
            Self::spec_from_raw(self.spec_raw()) == Some(self),
    {
    }

    /// A number is recognized exactly when it is the number of some value,
    /// and then as that value.
    pub proof fn lemma_from_raw_exact(value: u32)
        ensures
            match Self::spec_from_raw(value) {
                Some(v) => v.spec_raw() == value,
                None => forall|v: Unit| #[trigger] v.spec_raw() != value,
            },
    {
    }
}

/// The physical quantity that an analog measurement describes.
#[derive(Copy, Clone, Eq, PartialEq, Debug, Hash, Structural)]
#[non_exhaustive]
pub enum MqType {
    Voltage,
    Current,
    Resistance,
    Capacitance,
    Temperature,
    Frequency,
    /// Duty cycle, e.g. on/off ratio.
    DutyCycle,
    /// Continuity test.
    Continuity,
    PulseWidth,
    Conductance,
    /// Electrical power, usually in W, or dBm.
    Power,
    /// Gain (a transistor's gain, or hFE, for example).
    Gain,
    /// Logarithmic representation of sound pressure relative to a reference value.
    SoundPressureLevel,
    /// Carbon monoxide level
    CarbonMonoxide,
    /// Humidity
    RelativeHumidity,
    /// Time
    Time,
    /// Wind speed
    WindSpeed,
    /// Pressure
    Pressure,
    /// Parallel inductance (LCR meter model).
    ParallelInductance,
    /// Parallel capacitance (LCR meter model).
    ParallelCapacitance,
    /// Parallel resistance (LCR meter model).
    ParallelResistance,
    /// Series inductance (LCR meter model).
    SeriesInductance,
    /// Series capacitance (LCR meter model).
    SeriesCapacitance,
    /// Series resistance (LCR meter model).
    SeriesResistance,
    /// Dissipation factor.
    DissipationFactor,
    /// Quality factor.
    QualityFactor,
    /// Phase angle.
    PhaseAngle,
    /// Difference from reference value.
    Difference,
    /// Count.
    Count,
    /// Power factor.
    PowerFactor,
    /// Apparent power
    ApparentPower,
    /// Mass
    Mass,
    /// Harmonic ratio
    HarmonicRatio,
}

impl MqType {
    /// The number by which the native library knows this value.
    pub open spec fn spec_raw(self) -> u32 {
        match self {
            MqType::Voltage => 10000,
            MqType::Current => 10001,
            MqType::Resistance => 10002,
            MqType::Capacitance => 10003,
            MqType::Temperature => 10004,
            MqType::Frequency => 10005,
            MqType::DutyCycle => 10006,
            MqType::Continuity => 10007,
            MqType::PulseWidth => 10008,
            MqType::Conductance => 10009,
            MqType::Power => 10010,
            MqType::Gain => 10011,
            MqType::SoundPressureLevel => 10012,
            MqType::CarbonMonoxide => 10013,
            MqType::RelativeHumidity => 10014,
            MqType::Time => 10015,
            MqType::WindSpeed => 10016,
            MqType::Pressure => 10017,
            MqType::ParallelInductance => 10018,
            MqType::ParallelCapacitance => 10019,
            MqType::ParallelResistance => 10020,
            MqType::SeriesInductance => 10021,
            MqType::SeriesCapacitance => 10022,
            MqType::SeriesResistance => 10023,
            MqType::DissipationFactor => 10024,
            MqType::QualityFactor => 10025,
            MqType::PhaseAngle => 10026,
            MqType::Difference => 10027,
            MqType::Count => 10028,
            MqType::PowerFactor => 10029,
            MqType::ApparentPower => 10030,
            MqType::Mass => 10031,
            MqType::HarmonicRatio => 10032,
        }
    }

    /// The value that the native library knows by `value`, if there is one.
    pub open spec fn spec_from_raw(value: u32) -> Option<MqType> {
        if value == 10000 {
            Some(MqType::Voltage)
        } else if value == 10001 {
            Some(MqType::Current)
        } else if value == 10002 {
            Some(MqType::Resistance)
        } else if value == 10003 {
            Some(MqType::Capacitance)
        } else if value == 10004 {
            Some(MqType::Temperature)
        } else if value == 10005 {
            Some(MqType::Frequency)
        } else if value == 10006 {
            Some(MqType::DutyCycle)
        } else if value == 10007 {
            Some(MqType::Continuity)
        } else if value == 10008 {
            Some(MqType::PulseWidth)
        } else if value == 10009 {
            Some(MqType::Conductance)
        } else if value == 10010 {
            Some(MqType::Power)
        } else if value == 10011 {
            Some(MqType::Gain)
        } else if value == 10012 {
            Some(MqType::SoundPressureLevel)
        } else if value == 10013 {
            Some(MqType::CarbonMonoxide)
        } else if value == 10014 {
            Some(MqType::RelativeHumidity)
        } else if value == 10015 {
            Some(MqType::Time)
        } else if value == 10016 {
            Some(MqType::WindSpeed)
        } else if value == 10017 {
            Some(MqType::Pressure)
        } else if value == 10018 {
            Some(MqType::ParallelInductance)
        } else if value == 10019 {
            Some(MqType::ParallelCapacitance)
        } else if value == 10020 {
            Some(MqType::ParallelResistance)
        } else if value == 10021 {
            Some(MqType::SeriesInductance)
        } else if value == 10022 {
            Some(MqType::SeriesCapacitance)
        } else if value == 10023 {
            Some(MqType::SeriesResistance)
        } else if value == 10024 {
            Some(MqType::DissipationFactor)
        } else if value == 10025 {
            Some(MqType::QualityFactor)
        } else if value == 10026 {
            Some(MqType::PhaseAngle)
        } else if value == 10027 {
            Some(MqType::Difference)
        } else if value == 10028 {
            Some(MqType::Count)
        } else if value == 10029 {
            Some(MqType::PowerFactor)
        } else if value == 10030 {
            Some(MqType::ApparentPower)
        } else if value == 10031 {
            Some(MqType::Mass)
        } else if value == 10032 {
            Some(MqType::HarmonicRatio)
        } else {
            None
        }
    }

    /// The number by which the native library knows this value.
    #[verifier::when_used_as_spec(spec_raw)]
    pub fn raw(self) -> (r: u32)
        ensures
            r == self.spec_raw(),
    {
        match self {
            MqType::Voltage => 10000,
            MqType::Current => 10001,
            MqType::Resistance => 10002,
            MqType::Capacitance => 10003,
            MqType::Temperature => 10004,
            MqType::Frequency => 10005,
            MqType::DutyCycle => 10006,
            MqType::Continuity => 10007,
            MqType::PulseWidth => 10008,
            MqType::Conductance => 10009,
            MqType::Power => 10010,
            MqType::Gain => 10011,
            MqType::SoundPressureLevel => 10012,
            MqType::CarbonMonoxide => 10013,
            MqType::RelativeHumidity => 10014,
            MqType::Time => 10015,
            MqType::WindSpeed => 10016,
            MqType::Pressure => 10017,
            MqType::ParallelInductance => 10018,
            MqType::ParallelCapacitance => 10019,
            MqType::ParallelResistance => 10020,
            MqType::SeriesInductance => 10021,
            MqType::SeriesCapacitance => 10022,
            MqType::SeriesResistance => 10023,
            MqType::DissipationFactor => 10024,
            MqType::QualityFactor => 10025,
            MqType::PhaseAngle => 10026,
            MqType::Difference => 10027,
            MqType::Count => 10028,
            MqType::PowerFactor => 10029,
            MqType::ApparentPower => 10030,
            MqType::Mass => 10031,
            MqType::HarmonicRatio => 10032,
        }
    }

    /// Recognizes a number of the native library. `None` means that no
    /// value of this type has that number.
    pub fn from_raw(value: u32) -> (r: Option<MqType>)
        ensures
            r == Self::spec_from_raw(value),
            r matches Some(v) ==> v.spec_raw() == value,
            r is None ==> forall|v: MqType| #[trigger] v.spec_raw() != value,
    {
        match value {
            10000 => Some(MqType::Voltage),
            10001 => Some(MqType::Current),
            10002 => Some(MqType::Resistance),
            10003 => Some(MqType::Capacitance),
            10004 => Some(MqType::Temperature),
            10005 => Some(MqType::Frequency),
            10006 => Some(MqType::DutyCycle),
            10007 => Some(MqType::Continuity),
            10008 => Some(MqType::PulseWidth),
            10009 => Some(MqType::Conductance),
            10010 => Some(MqType::Power),
            10011 => Some(MqType::Gain),
            10012 => Some(MqType::SoundPressureLevel),
            10013 => Some(MqType::CarbonMonoxide),
            10014 => Some(MqType::RelativeHumidity),
            10015 => Some(MqType::Time),
            10016 => Some(MqType::WindSpeed),
            10017 => Some(MqType::Pressure),
            10018 => Some(MqType::ParallelInductance),
            10019 => Some(MqType::ParallelCapacitance),
            10020 => Some(MqType::ParallelResistance),
            10021 => Some(MqType::SeriesInductance),
            10022 => Some(MqType::SeriesCapacitance),
            10023 => Some(MqType::SeriesResistance),
            10024 => Some(MqType::DissipationFactor),
            10025 => Some(MqType::QualityFactor),
            10026 => Some(MqType::PhaseAngle),
            10027 => Some(MqType::Difference),
            10028 => Some(MqType::Count),
            10029 => Some(MqType::PowerFactor),
            10030 => Some(MqType::ApparentPower),
            10031 => Some(MqType::Mass),
            10032 => Some(MqType::HarmonicRatio),
            _ => None,
        }
    }

    /// Every value is recognized again from its own number.
    pub proof fn lemma_raw_roundtrip(self)
        ensures
            Self::spec_from_raw(self.spec_raw()) == Some(self),
    {
    }

    /// A number is recognized exactly when it is the number of some value,
    /// and then as that value.
    pub proof fn lemma_from_raw_exact(value: u32)
        ensures
            match Self::spec_from_raw(value) {
                Some(v) => v.spec_raw() == value,
                None => forall|v: MqType| #[trigger] v.spec_raw() != value,
            },
    {
    }
}

/// A function of a [`Driver`][crate::Driver], [`Device`][crate::device::Device], or
/// [`ChannelGroup`][crate::device::ChannelGroup].
#[derive(Copy, Clone, Eq, PartialEq, Debug, Hash, Structural)]
#[non_exhaustive]
pub enum Function {
    /// The device can act as logic analyzer.
    LogicAnalyzer,
    /// The device can act as an oscilloscope.
    Oscilloscope,
    /// The device can act as a multimeter.
    Multimeter,
    /// The device is a demo device.
    DemoDev,
    /// The device can act as a sound level meter.
    SoundLevelMeter,
    /// The device can measure temperature.
    Thermometer,
    /// The device can measure humidity.
    Hygrometer,
    /// The device can measure energy consumption.
    EnergyMeter,
    /// The device can act as a signal demodulator.
    Demodulator,
    /// The device can act as a programmable power supply.
    PowerSupply,
    /// The device can act as an LCR meter.
    LcrMeter,
    /// The device can act as an electronic load.
    ElectronicLoad,
    /// The device can act as a scale.
    Scale,
    /// The device can act as a function generator.
    SignalGenerator,
    /// The device can measure power.
    PowerMeter,
}

impl Function {
    /// The number by which the native library knows this value.
    pub open spec fn spec_raw(self) -> u32 {
        match self {
            Function::LogicAnalyzer => 10000,
            Function::Oscilloscope => 10001,
            Function::Multimeter => 10002,
            Function::DemoDev => 10003,
            Function::SoundLevelMeter => 10004,
            Function::Thermometer => 10005,
            Function::Hygrometer => 10006,
            Function::EnergyMeter => 10007,
            Function::Demodulator => 10008,
            Function::PowerSupply => 10009,
            Function::LcrMeter => 10010,
            Function::ElectronicLoad => 10011,
            Function::Scale => 10012,
            Function::SignalGenerator => 10013,
            Function::PowerMeter => 10014,
        }
    }

    /// The value that the native library knows by `value`, if there is one.
    pub open spec fn spec_from_raw(value: u32) -> Option<Function> {
        if value == 10000 {
            Some(Function::LogicAnalyzer)
        } else if value == 10001 {
            Some(Function::Oscilloscope)
        } else if value == 10002 {
            Some(Function::Multimeter)
        } else if value == 10003 {
            Some(Function::DemoDev)
        } else if value == 10004 {
            Some(Function::SoundLevelMeter)
        } else if value == 10005 {
            Some(Function::Thermometer)
        } else if value == 10006 {
            Some(Function::Hygrometer)
        } else if value == 10007 {
            Some(Function::EnergyMeter)
        } else if value == 10008 {
            Some(Function::Demodulator)
        } else if value == 10009 {
            Some(Function::PowerSupply)
        } else if value == 10010 {
            Some(Function::LcrMeter)
        } else if value == 10011 {
            Some(Function::ElectronicLoad)
        } else if value == 10012 {
            Some(Function::Scale)
        } else if value == 10013 {
            Some(Function::SignalGenerator)
        } else if value == 10014 {
            Some(Function::PowerMeter)
        } else {
            None
        }
    }

    /// The number by which the native library knows this value.
    #[verifier::when_used_as_spec(spec_raw)]
    pub fn raw(self) -> (r: u32)
        ensures
            r == self.spec_raw(),
    {
        match self {
            Function::LogicAnalyzer => 10000,
            Function::Oscilloscope => 10001,
            Function::Multimeter => 10002,
            Function::DemoDev => 10003,
            Function::SoundLevelMeter => 10004,
            Function::Thermometer => 10005,
            Function::Hygrometer => 10006,
            Function::EnergyMeter => 10007,
            Function::Demodulator => 10008,
            Function::PowerSupply => 10009,
            Function::LcrMeter => 10010,
            Function::ElectronicLoad => 10011,
            Function::Scale => 10012,
            Function::SignalGenerator => 10013,
            Function::PowerMeter => 10014,
        }
    }

    /// Recognizes a number of the native library. `None` means that no
    /// value of this type has that number.
    pub fn from_raw(value: u32) -> (r: Option<Function>)
        ensures
            r == Self::spec_from_raw(value),
            r matches Some(v) ==> v.spec_raw() == value,
            r is None ==> forall|v: Function| #[trigger] v.spec_raw() != value,
    {
        match value {
            10000 => Some(Function::LogicAnalyzer),
            10001 => Some(Function::Oscilloscope),
            10002 => Some(Function::Multimeter),
            10003 => Some(Function::DemoDev),
            10004 => Some(Function::SoundLevelMeter),
            10005 => Some(Function::Thermometer),
            10006 => Some(Function::Hygrometer),
            10007 => Some(Function::EnergyMeter),
            10008 => Some(Function::Demodulator),
            10009 => Some(Function::PowerSupply),
            10010 => Some(Function::LcrMeter),
            10011 => Some(Function::ElectronicLoad),
            10012 => Some(Function::Scale),
            10013 => Some(Function::SignalGenerator),
            10014 => Some(Function::PowerMeter),
            _ => None,
        }
    }

    /// Every value is recognized again from its own number.
    pub proof fn lemma_raw_roundtrip(self)
        ensures
            Self::spec_from_raw(self.spec_raw()) == Some(self),
    {
    }

    /// A number is recognized exactly when it is the number of some value,
    /// and then as that value.
    pub proof fn lemma_from_raw_exact(value: u32)
        ensures
            match Self::spec_from_raw(value) {
                Some(v) => v.spec_raw() == value,
                None => forall|v: Function| #[trigger] v.spec_raw() != value,
            },
    {
    }
}

/// The state to trigger on.
///
/// You'll want to use this in [`Trigger`](crate::Trigger), which will be placed into
/// [`Triggers`](crate::Triggers), and then finally [`Session::start`][crate::Session::start].
#[derive(Copy, Clone, Eq, PartialEq, Debug, Hash, Structural)]
#[non_exhaustive]
pub enum TriggerType {
    Zero,
    One,
    Rising,
    Falling,
    Edge,
    /// Used in analog channels to trigger when the voltage goes over a
    /// [specific value](crate::Trigger::value).
    Over,
    /// Used in analog channels to trigger when the voltage goes under a
    /// [specific value](crate::Trigger::value).
    Under,
}

impl TriggerType {
    /// The number by which the native library knows this value.
    pub open spec fn spec_raw(self) -> i32 {
        match self {
            TriggerType::Zero => 1,
            TriggerType::One => 2,
            TriggerType::Rising => 3,
            TriggerType::Falling => 4,
            TriggerType::Edge => 5,
            TriggerType::Over => 6,
            TriggerType::Under => 7,
        }
    }

    /// The value that the native library knows by `value`, if there is one.
    pub open spec fn spec_from_raw(value: i32) -> Option<TriggerType> {
        if value == 1 {
            Some(TriggerType::Zero)
        } else if value == 2 {
            Some(TriggerType::One)
        } else if value == 3 {
            Some(TriggerType::Rising)
        } else if value == 4 {
            Some(TriggerType::Falling)
        } else if value == 5 {
            Some(TriggerType::Edge)
        } else if value == 6 {
            Some(TriggerType::Over)
        } else if value == 7 {
            Some(TriggerType::Under)
        } else {
            None
        }
    }

    /// The number by which the native library knows this value.
    #[verifier::when_used_as_spec(spec_raw)]
    pub fn raw(self) -> (r: i32)
        ensures
            r == self.spec_raw(),
    {
        match self {
            TriggerType::Zero => 1,
            TriggerType::One => 2,
            TriggerType::Rising => 3,
            TriggerType::Falling => 4,
            TriggerType::Edge => 5,
            TriggerType::Over => 6,
            TriggerType::Under => 7,
        }
    }

    /// Recognizes a number of the native library. `None` means that no
    /// value of this type has that number.
    pub fn from_raw(value: i32) -> (r: Option<TriggerType>)
        ensures
            r == Self::spec_from_raw(value),
            r matches Some(v) ==> v.spec_raw() == value,
            r is None ==> forall|v: TriggerType| #[trigger] v.spec_raw() != value,
    {
        match value {
            1 => Some(TriggerType::Zero),
            2 => Some(TriggerType::One),
            3 => Some(TriggerType::Rising),
            4 => Some(TriggerType::Falling),
            5 => Some(TriggerType::Edge),
            6 => Some(TriggerType::Over),
            7 => Some(TriggerType::Under),
            _ => None,
        }
    }

    /// Every value is recognized again from its own number.
    pub proof fn lemma_raw_roundtrip(self)
        ensures
            Self::spec_from_raw(self.spec_raw()) == Some(self),
    {
    }

    /// A number is recognized exactly when it is the number of some value,
    /// and then as that value.
    pub proof fn lemma_from_raw_exact(value: i32)
        ensures
            match Self::spec_from_raw(value) {
                Some(v) => v.spec_raw() == value,
                None => forall|v: TriggerType| #[trigger] v.spec_raw() != value,
            },
    {
    }
}

/// A log level. The default log level is [`Warn`][LogLevel::Warn].
#[derive(Copy, Clone, Eq, PartialEq, Debug, Hash, Structural)]
#[non_exhaustive]
pub enum LogLevel {
    /// Output no messages at all.
    Quiet,
    /// Output error messages.
    Error,
    /// Output warnings.
    Warn,
    /// Output informational messages.
    Info,
    /// Output debug messages.
    Debug,
    /// Output very noisy debug messages.
    Spew,
}

impl LogLevel {
    /// The number by which the native library knows this value.
    pub open spec fn spec_raw(self) -> i32 {
        match self {
            LogLevel::Quiet => 0,
            LogLevel::Error => 1,
            LogLevel::Warn => 2,
            LogLevel::Info => 3,
            LogLevel::Debug => 4,
            LogLevel::Spew => 5,
        }
    }

    /// The value that the native library knows by `value`, if there is one.
    pub open spec fn spec_from_raw(value: i32) -> Option<LogLevel> {
        if value == 0 {
            Some(LogLevel::Quiet)
        } else if value == 1 {
            Some(LogLevel::Error)
        } else if value == 2 {
            Some(LogLevel::Warn)
        } else if value == 3 {
            Some(LogLevel::Info)
        } else if value == 4 {
            Some(LogLevel::Debug)
        } else if value == 5 {
            Some(LogLevel::Spew)
        } else {
            None
        }
    }

    /// The number by which the native library knows this value.
    #[verifier::when_used_as_spec(spec_raw)]
    pub fn raw(self) -> (r: i32)
        ensures
            r == self.spec_raw(),
    {
        match self {
            LogLevel::Quiet => 0,
            LogLevel::Error => 1,
            LogLevel::Warn => 2,
            LogLevel::Info => 3,
            LogLevel::Debug => 4,
            LogLevel::Spew => 5,
        }
    }

    /// Recognizes a number of the native library. `None` means that no
    /// value of this type has that number.
    pub fn from_raw(value: i32) -> (r: Option<LogLevel>)
        ensures
            r == Self::spec_from_raw(value),
            r matches Some(v) ==> v.spec_raw() == value,
            r is None ==> forall|v: LogLevel| #[trigger] v.spec_raw() != value,
    {
        match value {
            0 => Some(LogLevel::Quiet),
            1 => Some(LogLevel::Error),
            2 => Some(LogLevel::Warn),
            3 => Some(LogLevel::Info),
            4 => Some(LogLevel::Debug),
            5 => Some(LogLevel::Spew),
            _ => None,
        }
    }

    /// Every value is recognized again from its own number.
    pub proof fn lemma_raw_roundtrip(self)
        ensures
            Self::spec_from_raw(self.spec_raw()) == Some(self),
    {
    }

    /// A number is recognized exactly when it is the number of some value,
    /// and then as that value.
    pub proof fn lemma_from_raw_exact(value: i32)
        ensures
            match Self::spec_from_raw(value) {
                Some(v) => v.spec_raw() == value,
                None => forall|v: LogLevel| #[trigger] v.spec_raw() != value,
            },
    {
    }
}

impl Default for LogLevel {
    fn default() -> (r: Self)
        ensures
            r == LogLevel::Warn,
    {
        LogLevel::Warn
    }
}

} // verus!
