//! The configuration keys: each with its native number and the group that
//! tells which type of value it takes.
use crate::config::set_get::ValueKind;
use vstd::prelude::*;

verus! {

/// The groups of configuration keys. All keys of a group take the same type
/// of value.
#[derive(Copy, Clone, Eq, PartialEq, Debug, Hash, Structural)]
pub enum ConfigGroup {
    /// This is configurable with a `bool`.
    BoolConfig,
    /// This is configurable with a `&str` or `String`.
    StringConfig,
    /// This is configurable with a range of `u64`.
    U64RangeConfig,
    /// This is configurable with a range of doubles.
    F64RangeConfig,
    /// This is configurable with an `u64`.
    U64Config,
    /// This is configurable with a double.
    F64Config,
    /// This is configurable with an `i32`.
    I32Config,
    /// This is configurable with a ratio of `u64`.
    RationalConfig,
    /// This is not configurable in a normal manner. You must control that with
    /// [`Triggers`][crate::Triggers].
    TriggerConfig,
    /// This is configurable with a [`Mq`][crate::data::Mq].
    MqConfig,
}

impl ConfigGroup {
    /// The type of value that the keys of the group take. The trigger
    /// matches take none: they are not set or got as a value.
    pub open spec fn spec_value_kind(self) -> Option<ValueKind> {
        match self {
            ConfigGroup::BoolConfig => Some(ValueKind::Bool),
            ConfigGroup::StringConfig => Some(ValueKind::Text),
            ConfigGroup::U64RangeConfig => Some(ValueKind::U64Range),
            ConfigGroup::F64RangeConfig => Some(ValueKind::F64Range),
            ConfigGroup::U64Config => Some(ValueKind::U64),
            ConfigGroup::F64Config => Some(ValueKind::F64),
            ConfigGroup::I32Config => Some(ValueKind::I32),
            ConfigGroup::RationalConfig => Some(ValueKind::Rational),
            ConfigGroup::TriggerConfig => None,
            ConfigGroup::MqConfig => Some(ValueKind::Mq),
        }
    }

    /// The type of value that the keys of the group take.
    #[verifier::when_used_as_spec(spec_value_kind)]
    pub fn value_kind(self) -> (r: Option<ValueKind>)
        ensures
            r == self.spec_value_kind(),
    {
        match self {
            ConfigGroup::BoolConfig => Some(ValueKind::Bool),
            ConfigGroup::StringConfig => Some(ValueKind::Text),
            ConfigGroup::U64RangeConfig => Some(ValueKind::U64Range),
            ConfigGroup::F64RangeConfig => Some(ValueKind::F64Range),
            ConfigGroup::U64Config => Some(ValueKind::U64),
            ConfigGroup::F64Config => Some(ValueKind::F64),
            ConfigGroup::I32Config => Some(ValueKind::I32),
            ConfigGroup::RationalConfig => Some(ValueKind::Rational),
            ConfigGroup::TriggerConfig => None,
            ConfigGroup::MqConfig => Some(ValueKind::Mq),
        }
    }
}

/// A configuration key.
#[derive(Copy, Clone, Eq, PartialEq, Debug, Hash, Structural)]
#[non_exhaustive]
pub enum ConfigKey {
    /// The device supports run-length encoding (RLE).
    Rle,
    /// The device supports averaging.
    Averaging,
    /// Filter.
    Filter,
    /// Max hold mode.
    HoldMax,
    /// Min hold mode.
    HoldMin,
    /// The device supports using an external clock.
    ExternalClock,
    /// The device supports swapping channels. Typical this is between buffered
    /// and unbuffered channels.
    Swap,
    /// Enabling/disabling channel.
    Enabled,
    /// Over-voltage protection (OVP) feature
    OverVoltageProtectionEnabled,
    /// Over-voltage protection (OVP) active: true if device has activated OVP,
    /// i.e. the output voltage exceeds the over-voltage protection threshold.
    OverVoltageProtectionActive,
    /// Over-current protection (OCP) feature
    OverCurrentProtectionEnabled,
    /// Over-current protection (OCP) active: true if device has activated OCP,
    /// i.e. the current current exceeds the over-current protection threshold.
    OverCurrentProtectionActive,
    /// Over-temperature protection (OTP)
    OverTemperatureProtection,
    /// Over-temperature protection (OTP) active.
    OverTemperatureProtectionActive,
    /// Under-voltage condition.
    UnderVoltageCondition,
    /// Under-voltage condition active.
    UnderVoltageConditionActive,
    /// High resolution mode.
    HighResolution,
    /// Peak detection.
    PeakDetection,
    /// Power off the device.
    PowerOff,
    /// The device supports continuous sampling. Neither a time limit nor a
    /// sample number limit has to be supplied, it will just acquire samples
    /// continuously, until explicitly stopped by a certain command.
    Continuous,
    /// The device has internal storage, into which data is logged. This starts
    /// or stops the internal logging.
    Datalog,
    /// The device supports setting a pattern (pattern generator mode).
    PatternMode,
    /// The device supports setting trigger slope.
    TriggerSlope,
    /// Trigger source.
    TriggerSource,
    /// Coupling.
    Coupling,
    /// Sound pressure level frequency weighting.
    SplWeightFreq,
    /// Sound pressure level time weighting.
    SplWeightTime,
    /// Channel configuration.
    ChannelConfig,
    /// Choice of clock edge for external clock ("r" or "f").
    ClockEdge,
    /// Channel regulation get: "CV", "CC" or "UR", denoting constant voltage,
    /// constant current or unregulated. "CC-" denotes a power supply in current
    /// sink mode (e.g. HP 66xxB). "" is used when there is no regulation, e.g.
    /// the output is disabled.
    Regulation,
    /// Equivalent circuit model.
    EquivCircuitModel,
    /// Which external clock source to use if the device supports multiple
    /// external clock channels.
    ExternalClockSource,
    /// The device supports setting a pattern for the logic trigger.
    TriggerPattern,
    /// Logic threshold: predefined levels (TTL, ECL, CMOS, etc).
    LogicThreshold,
    /// The measurement range of a DMM or the output range of a power supply.
    Range,
    /// The number of digits (e.g. for a DMM).
    Digits,
    /// Session filename.
    SessionFile,
    /// The device supports specifying a capturefile to inject.
    CaptureFile,
    /// Data source for acquisition. If not present, acquisition from the device
    /// is always "live", i.e. acquisition starts when the frontend asks and the
    /// results are sent out as soon as possible. If present, it indicates that
    /// either the device has no live acquisition capability (for example a pure
    /// data logger), or there is a choice. In any case if a device has live
    /// acquisition capabilities, it is always the default.
    DataSource,
    /// Device mode for multi-function devices.
    DeviceMode,
    /// Self test mode.
    TestMode,
    /// Sound pressure level measurement range.
    SplMeasurementRange,
    /// Logic low-high threshold range.
    VoltageThreshold,
    /// The device supports setting its samplerate, in Hz.
    SampleRate,
    /// The device supports setting a pre/post-trigger capture ratio.
    CaptureRatio,
    /// The device supports setting number of samples to be averaged over.
    AvgSamples,
    /// Buffer size.
    BufferSize,
    /// The device supports setting its sample interval, in ms.
    SampleInterval,
    /// Center frequency. The input signal is downmixed by this frequency before
    /// the ADC anti-aliasing filter.
    CenterFrequency,
    /// The device supports specifying the capturefile unit size.
    CaptureUnitSize,
    /// The device supports setting a probe factor.
    ProbeFactor,
    /// The device supports setting a sample time limit (how long the sample
    /// acquisition should run, in ms).
    LimitMsec,
    /// The device supports setting a sample number limit (how many samples
    /// should be acquired).
    LimitSamples,
    /// The device supports setting a frame limit (how many frames should be
    /// acquired).
    LimitFrames,
    /// Horizontal trigger position.
    HorizTriggerpos,
    /// Current voltage.
    Voltage,
    /// Maximum target voltage.
    VoltageTarget,
    /// Current current.
    Current,
    /// Current limit.
    CurrentLimit,
    /// Over-voltage protection (OVP) threshold
    OverVoltageProtectionThreshold,
    /// Over-current protection (OCP) threshold
    OverCurrentProtectionThreshold,
    /// Amplitude of a source without strictly-defined MQ.
    Amplitude,
    /// Output frequency in Hz.
    OutputFrequency,
    /// Output frequency target in Hz.
    OutputFrequencyTarget,
    /// Trigger level.
    TriggerLevel,
    /// Under-voltage condition threshold.
    UnderVoltageConditionThreshold,
    /// Offset of a source without strictly-defined MQ.
    Offset,
    /// Logic threshold: custom numerical value.
    LogicThresholdCustom,
    /// Number of powerline cycles for ADC integration time.
    AdcPowerlineCycles,
    /// Number of horizontal divisions, as related to the time base.
    NumHdiv,
    /// Number of vertical divisions, as related to volts/div.
    NumVdiv,
    /// The device supports setting the number of logic channels.
    NumLogicChannels,
    /// The device supports setting the number of analog channels.
    NumAnalogChannels,
    /// Time base.
    Timebase,
    /// Volts/div.
    Vdiv,
    /// Trigger matches.
    TriggerType,
    /// Measured quantity.
    MeasuredQuantity,
}

impl ConfigKey {
    /// The number by which the native library knows this key.
    pub open spec fn spec_key(self) -> u32 {
        match self {
            ConfigKey::Rle => 30003,
            ConfigKey::Averaging => 30005,
            ConfigKey::Filter => 30011,
            ConfigKey::HoldMax => 30021,
            ConfigKey::HoldMin => 30022,
            ConfigKey::ExternalClock => 30024,
            ConfigKey::Swap => 30025,
            ConfigKey::Enabled => 30033,
            ConfigKey::OverVoltageProtectionEnabled => 30035,
            ConfigKey::OverVoltageProtectionActive => 30036,
            ConfigKey::OverCurrentProtectionEnabled => 30038,
            ConfigKey::OverCurrentProtectionActive => 30039,
            ConfigKey::OverTemperatureProtection => 30044,
            ConfigKey::OverTemperatureProtectionActive => 30049,
            ConfigKey::UnderVoltageCondition => 30050,
            ConfigKey::UnderVoltageConditionActive => 30051,
            ConfigKey::HighResolution => 30057,
            ConfigKey::PeakDetection => 30058,
            ConfigKey::PowerOff => 40003,
            ConfigKey::Continuous => 50003,
            ConfigKey::Datalog => 50004,
            ConfigKey::PatternMode => 30002,
            ConfigKey::TriggerSlope => 30004,
            ConfigKey::TriggerSource => 30007,
            ConfigKey::Coupling => 30013,
            ConfigKey::SplWeightFreq => 30018,
            ConfigKey::SplWeightTime => 30019,
            ConfigKey::ChannelConfig => 30034,
            ConfigKey::ClockEdge => 30041,
            ConfigKey::Regulation => 30043,
            ConfigKey::EquivCircuitModel => 30048,
            ConfigKey::ExternalClockSource => 30054,
            ConfigKey::TriggerPattern => 30056,
            ConfigKey::LogicThreshold => 30059,
            ConfigKey::Range => 30061,
            ConfigKey::Digits => 30062,
            ConfigKey::SessionFile => 40000,
            ConfigKey::CaptureFile => 40001,
            ConfigKey::DataSource => 40004,
            ConfigKey::DeviceMode => 50005,
            ConfigKey::TestMode => 50006,
            ConfigKey::SplMeasurementRange => 30020,
            ConfigKey::VoltageThreshold => 30023,
            ConfigKey::SampleRate => 30000,
            ConfigKey::CaptureRatio => 30001,
            ConfigKey::AvgSamples => 30006,
            ConfigKey::BufferSize => 30009,
            ConfigKey::SampleInterval => 30015,
            ConfigKey::CenterFrequency => 30026,
            ConfigKey::CaptureUnitSize => 40002,
            ConfigKey::ProbeFactor => 40005,
            ConfigKey::LimitMsec => 50000,
            ConfigKey::LimitSamples => 50001,
            ConfigKey::LimitFrames => 50002,
            ConfigKey::HorizTriggerpos => 30008,
            ConfigKey::Voltage => 30029,
            ConfigKey::VoltageTarget => 30030,
            ConfigKey::Current => 30031,
            ConfigKey::CurrentLimit => 30032,
            ConfigKey::OverVoltageProtectionThreshold => 30037,
            ConfigKey::OverCurrentProtectionThreshold => 30040,
            ConfigKey::Amplitude => 30042,
            ConfigKey::OutputFrequency => 30045,
            ConfigKey::OutputFrequencyTarget => 30046,
            ConfigKey::TriggerLevel => 30052,
            ConfigKey::UnderVoltageConditionThreshold => 30053,
            ConfigKey::Offset => 30055,
            ConfigKey::LogicThresholdCustom => 30060,
            ConfigKey::AdcPowerlineCycles => 40006,
            ConfigKey::NumHdiv => 30016,
            ConfigKey::NumVdiv => 30017,
            ConfigKey::NumLogicChannels => 30027,
            ConfigKey::NumAnalogChannels => 30028,
            ConfigKey::Timebase => 30010,
            ConfigKey::Vdiv => 30012,
            ConfigKey::TriggerType => 30014,
            ConfigKey::MeasuredQuantity => 30047,
        }
    }

    /// The group of the key.
    pub open spec fn spec_group(self) -> ConfigGroup {
        match self {
            ConfigKey::Rle => ConfigGroup::BoolConfig,
            ConfigKey::Averaging => ConfigGroup::BoolConfig,
            ConfigKey::Filter => ConfigGroup::BoolConfig,
            ConfigKey::HoldMax => ConfigGroup::BoolConfig,
            ConfigKey::HoldMin => ConfigGroup::BoolConfig,
            ConfigKey::ExternalClock => ConfigGroup::BoolConfig,
            ConfigKey::Swap => ConfigGroup::BoolConfig,
            ConfigKey::Enabled => ConfigGroup::BoolConfig,
            ConfigKey::OverVoltageProtectionEnabled => ConfigGroup::BoolConfig,
            ConfigKey::OverVoltageProtectionActive => ConfigGroup::BoolConfig,
            ConfigKey::OverCurrentProtectionEnabled => ConfigGroup::BoolConfig,
            ConfigKey::OverCurrentProtectionActive => ConfigGroup::BoolConfig,
            ConfigKey::OverTemperatureProtection => ConfigGroup::BoolConfig,
            ConfigKey::OverTemperatureProtectionActive => ConfigGroup::BoolConfig,
            ConfigKey::UnderVoltageCondition => ConfigGroup::BoolConfig,
            ConfigKey::UnderVoltageConditionActive => ConfigGroup::BoolConfig,
            ConfigKey::HighResolution => ConfigGroup::BoolConfig,
            ConfigKey::PeakDetection => ConfigGroup::BoolConfig,
            ConfigKey::PowerOff => ConfigGroup::BoolConfig,
            ConfigKey::Continuous => ConfigGroup::BoolConfig,
            ConfigKey::Datalog => ConfigGroup::BoolConfig,
            ConfigKey::PatternMode => ConfigGroup::StringConfig,
            ConfigKey::TriggerSlope => ConfigGroup::StringConfig,
            ConfigKey::TriggerSource => ConfigGroup::StringConfig,
            ConfigKey::Coupling => ConfigGroup::StringConfig,
            ConfigKey::SplWeightFreq => ConfigGroup::StringConfig,
            ConfigKey::SplWeightTime => ConfigGroup::StringConfig,
            ConfigKey::ChannelConfig => ConfigGroup::StringConfig,
            ConfigKey::ClockEdge => ConfigGroup::StringConfig,
            ConfigKey::Regulation => ConfigGroup::StringConfig,
            ConfigKey::EquivCircuitModel => ConfigGroup::StringConfig,
            ConfigKey::ExternalClockSource => ConfigGroup::StringConfig,
            ConfigKey::TriggerPattern => ConfigGroup::StringConfig,
            ConfigKey::LogicThreshold => ConfigGroup::StringConfig,
            ConfigKey::Range => ConfigGroup::StringConfig,
            ConfigKey::Digits => ConfigGroup::StringConfig,
            ConfigKey::SessionFile => ConfigGroup::StringConfig,
            ConfigKey::CaptureFile => ConfigGroup::StringConfig,
            ConfigKey::DataSource => ConfigGroup::StringConfig,
            ConfigKey::DeviceMode => ConfigGroup::StringConfig,
            ConfigKey::TestMode => ConfigGroup::StringConfig,
            ConfigKey::SplMeasurementRange => ConfigGroup::U64RangeConfig,
            ConfigKey::VoltageThreshold => ConfigGroup::F64RangeConfig,
            ConfigKey::SampleRate => ConfigGroup::U64Config,
            ConfigKey::CaptureRatio => ConfigGroup::U64Config,
            ConfigKey::AvgSamples => ConfigGroup::U64Config,
            ConfigKey::BufferSize => ConfigGroup::U64Config,
            ConfigKey::SampleInterval => ConfigGroup::U64Config,
            ConfigKey::CenterFrequency => ConfigGroup::U64Config,
            ConfigKey::CaptureUnitSize => ConfigGroup::U64Config,
            ConfigKey::ProbeFactor => ConfigGroup::U64Config,
            ConfigKey::LimitMsec => ConfigGroup::U64Config,
            ConfigKey::LimitSamples => ConfigGroup::U64Config,
            ConfigKey::LimitFrames => ConfigGroup::U64Config,
            ConfigKey::HorizTriggerpos => ConfigGroup::F64Config,
            ConfigKey::Voltage => ConfigGroup::F64Config,
            ConfigKey::VoltageTarget => ConfigGroup::F64Config,
            ConfigKey::Current => ConfigGroup::F64Config,
            ConfigKey::CurrentLimit => ConfigGroup::F64Config,
            ConfigKey::OverVoltageProtectionThreshold => ConfigGroup::F64Config,
            ConfigKey::OverCurrentProtectionThreshold => ConfigGroup::F64Config,
            ConfigKey::Amplitude => ConfigGroup::F64Config,
            ConfigKey::OutputFrequency => ConfigGroup::F64Config,
            ConfigKey::OutputFrequencyTarget => ConfigGroup::F64Config,
            ConfigKey::TriggerLevel => ConfigGroup::F64Config,
            ConfigKey::UnderVoltageConditionThreshold => ConfigGroup::F64Config,
            ConfigKey::Offset => ConfigGroup::F64Config,
            ConfigKey::LogicThresholdCustom => ConfigGroup::F64Config,
            ConfigKey::AdcPowerlineCycles => ConfigGroup::F64Config,
            ConfigKey::NumHdiv => ConfigGroup::I32Config,
            ConfigKey::NumVdiv => ConfigGroup::I32Config,
            ConfigKey::NumLogicChannels => ConfigGroup::I32Config,
            ConfigKey::NumAnalogChannels => ConfigGroup::I32Config,
            ConfigKey::Timebase => ConfigGroup::RationalConfig,
            ConfigKey::Vdiv => ConfigGroup::RationalConfig,
            ConfigKey::TriggerType => ConfigGroup::TriggerConfig,
            ConfigKey::MeasuredQuantity => ConfigGroup::MqConfig,
        }
    }

    /// The key that the native library knows by `value`, if there is one.
    pub open spec fn spec_from_raw(value: u32) -> Option<ConfigKey> {
        if value == 30003 {
            Some(ConfigKey::Rle)
        } else if value == 30005 {
            Some(ConfigKey::Averaging)
        } else if value == 30011 {
            Some(ConfigKey::Filter)
        } else if value == 30021 {
            Some(ConfigKey::HoldMax)
        } else if value == 30022 {
            Some(ConfigKey::HoldMin)
        } else if value == 30024 {
            Some(ConfigKey::ExternalClock)
        } else if value == 30025 {
            Some(ConfigKey::Swap)
        } else if value == 30033 {
            Some(ConfigKey::Enabled)
        } else if value == 30035 {
            Some(ConfigKey::OverVoltageProtectionEnabled)
        } else if value == 30036 {
            Some(ConfigKey::OverVoltageProtectionActive)
        } else if value == 30038 {
            Some(ConfigKey::OverCurrentProtectionEnabled)
        } else if value == 30039 {
            Some(ConfigKey::OverCurrentProtectionActive)
        } else if value == 30044 {
            Some(ConfigKey::OverTemperatureProtection)
        } else if value == 30049 {
            Some(ConfigKey::OverTemperatureProtectionActive)
        } else if value == 30050 {
            Some(ConfigKey::UnderVoltageCondition)
        } else if value == 30051 {
            Some(ConfigKey::UnderVoltageConditionActive)
        } else if value == 30057 {
            Some(ConfigKey::HighResolution)
        } else if value == 30058 {
            Some(ConfigKey::PeakDetection)
        } else if value == 40003 {
            Some(ConfigKey::PowerOff)
        } else if value == 50003 {
            Some(ConfigKey::Continuous)
        } else if value == 50004 {
            Some(ConfigKey::Datalog)
        } else if value == 30002 {
            Some(ConfigKey::PatternMode)
        } else if value == 30004 {
            Some(ConfigKey::TriggerSlope)
        } else if value == 30007 {
            Some(ConfigKey::TriggerSource)
        } else if value == 30013 {
            Some(ConfigKey::Coupling)
        } else if value == 30018 {
            Some(ConfigKey::SplWeightFreq)
        } else if value == 30019 {
            Some(ConfigKey::SplWeightTime)
        } else if value == 30034 {
            Some(ConfigKey::ChannelConfig)
        } else if value == 30041 {
            Some(ConfigKey::ClockEdge)
        } else if value == 30043 {
            Some(ConfigKey::Regulation)
        } else if value == 30048 {
            Some(ConfigKey::EquivCircuitModel)
        } else if value == 30054 {
            Some(ConfigKey::ExternalClockSource)
        } else if value == 30056 {
            Some(ConfigKey::TriggerPattern)
        } else if value == 30059 {
            Some(ConfigKey::LogicThreshold)
        } else if value == 30061 {
            Some(ConfigKey::Range)
        } else if value == 30062 {
            Some(ConfigKey::Digits)
        } else if value == 40000 {
            Some(ConfigKey::SessionFile)
        } else if value == 40001 {
            Some(ConfigKey::CaptureFile)
        } else if value == 40004 {
            Some(ConfigKey::DataSource)
        } else if value == 50005 {
            Some(ConfigKey::DeviceMode)
        } else if value == 50006 {
            Some(ConfigKey::TestMode)
        } else if value == 30020 {
            Some(ConfigKey::SplMeasurementRange)
        } else if value == 30023 {
            Some(ConfigKey::VoltageThreshold)
        } else if value == 30000 {
            Some(ConfigKey::SampleRate)
        } else if value == 30001 {
            Some(ConfigKey::CaptureRatio)
        } else if value == 30006 {
            Some(ConfigKey::AvgSamples)
        } else if value == 30009 {
            Some(ConfigKey::BufferSize)
        } else if value == 30015 {
            Some(ConfigKey::SampleInterval)
        } else if value == 30026 {
            Some(ConfigKey::CenterFrequency)
        } else if value == 40002 {
            Some(ConfigKey::CaptureUnitSize)
        } else if value == 40005 {
            Some(ConfigKey::ProbeFactor)
        } else if value == 50000 {
            Some(ConfigKey::LimitMsec)
        } else if value == 50001 {
            Some(ConfigKey::LimitSamples)
        } else if value == 50002 {
            Some(ConfigKey::LimitFrames)
        } else if value == 30008 {
            Some(ConfigKey::HorizTriggerpos)
        } else if value == 30029 {
            Some(ConfigKey::Voltage)
        } else if value == 30030 {
            Some(ConfigKey::VoltageTarget)
        } else if value == 30031 {
            Some(ConfigKey::Current)
        } else if value == 30032 {
            Some(ConfigKey::CurrentLimit)
        } else if value == 30037 {
            Some(ConfigKey::OverVoltageProtectionThreshold)
        } else if value == 30040 {
            Some(ConfigKey::OverCurrentProtectionThreshold)
        } else if value == 30042 {
            Some(ConfigKey::Amplitude)
        } else if value == 30045 {
            Some(ConfigKey::OutputFrequency)
        } else if value == 30046 {
            Some(ConfigKey::OutputFrequencyTarget)
        } else if value == 30052 {
            Some(ConfigKey::TriggerLevel)
        } else if value == 30053 {
            Some(ConfigKey::UnderVoltageConditionThreshold)
        } else if value == 30055 {
            Some(ConfigKey::Offset)
        } else if value == 30060 {
            Some(ConfigKey::LogicThresholdCustom)
        } else if value == 40006 {
            Some(ConfigKey::AdcPowerlineCycles)
        } else if value == 30016 {
            Some(ConfigKey::NumHdiv)
        } else if value == 30017 {
            Some(ConfigKey::NumVdiv)
        } else if value == 30027 {
            Some(ConfigKey::NumLogicChannels)
        } else if value == 30028 {
            Some(ConfigKey::NumAnalogChannels)
        } else if value == 30010 {
            Some(ConfigKey::Timebase)
        } else if value == 30012 {
            Some(ConfigKey::Vdiv)
        } else if value == 30014 {
            Some(ConfigKey::TriggerType)
        } else if value == 30047 {
            Some(ConfigKey::MeasuredQuantity)
        } else {
            None
        }
    }

    /// The internal key used by Sigrok to identify the config
    #[verifier::when_used_as_spec(spec_key)]
    pub fn key(self) -> (r: u32)
        ensures
            r == self.spec_key(),
    {
        match self {
            ConfigKey::Rle => 30003,
            ConfigKey::Averaging => 30005,
            ConfigKey::Filter => 30011,
            ConfigKey::HoldMax => 30021,
            ConfigKey::HoldMin => 30022,
            ConfigKey::ExternalClock => 30024,
            ConfigKey::Swap => 30025,
            ConfigKey::Enabled => 30033,
            ConfigKey::OverVoltageProtectionEnabled => 30035,
            ConfigKey::OverVoltageProtectionActive => 30036,
            ConfigKey::OverCurrentProtectionEnabled => 30038,
            ConfigKey::OverCurrentProtectionActive => 30039,
            ConfigKey::OverTemperatureProtection => 30044,
            ConfigKey::OverTemperatureProtectionActive => 30049,
            ConfigKey::UnderVoltageCondition => 30050,
            ConfigKey::UnderVoltageConditionActive => 30051,
            ConfigKey::HighResolution => 30057,
            ConfigKey::PeakDetection => 30058,
            ConfigKey::PowerOff => 40003,
            ConfigKey::Continuous => 50003,
            ConfigKey::Datalog => 50004,
            ConfigKey::PatternMode => 30002,
            ConfigKey::TriggerSlope => 30004,
            ConfigKey::TriggerSource => 30007,
            ConfigKey::Coupling => 30013,
            ConfigKey::SplWeightFreq => 30018,
            ConfigKey::SplWeightTime => 30019,
            ConfigKey::ChannelConfig => 30034,
            ConfigKey::ClockEdge => 30041,
            ConfigKey::Regulation => 30043,
            ConfigKey::EquivCircuitModel => 30048,
            ConfigKey::ExternalClockSource => 30054,
            ConfigKey::TriggerPattern => 30056,
            ConfigKey::LogicThreshold => 30059,
            ConfigKey::Range => 30061,
            ConfigKey::Digits => 30062,
            ConfigKey::SessionFile => 40000,
            ConfigKey::CaptureFile => 40001,
            ConfigKey::DataSource => 40004,
            ConfigKey::DeviceMode => 50005,
            ConfigKey::TestMode => 50006,
            ConfigKey::SplMeasurementRange => 30020,
            ConfigKey::VoltageThreshold => 30023,
            ConfigKey::SampleRate => 30000,
            ConfigKey::CaptureRatio => 30001,
            ConfigKey::AvgSamples => 30006,
            ConfigKey::BufferSize => 30009,
            ConfigKey::SampleInterval => 30015,
            ConfigKey::CenterFrequency => 30026,
            ConfigKey::CaptureUnitSize => 40002,
            ConfigKey::ProbeFactor => 40005,
            ConfigKey::LimitMsec => 50000,
            ConfigKey::LimitSamples => 50001,
            ConfigKey::LimitFrames => 50002,
            ConfigKey::HorizTriggerpos => 30008,
            ConfigKey::Voltage => 30029,
            ConfigKey::VoltageTarget => 30030,
            ConfigKey::Current => 30031,
            ConfigKey::CurrentLimit => 30032,
            ConfigKey::OverVoltageProtectionThreshold => 30037,
            ConfigKey::OverCurrentProtectionThreshold => 30040,
            ConfigKey::Amplitude => 30042,
            ConfigKey::OutputFrequency => 30045,
            ConfigKey::OutputFrequencyTarget => 30046,
            ConfigKey::TriggerLevel => 30052,
            ConfigKey::UnderVoltageConditionThreshold => 30053,
            ConfigKey::Offset => 30055,
            ConfigKey::LogicThresholdCustom => 30060,
            ConfigKey::AdcPowerlineCycles => 40006,
            ConfigKey::NumHdiv => 30016,
            ConfigKey::NumVdiv => 30017,
            ConfigKey::NumLogicChannels => 30027,
            ConfigKey::NumAnalogChannels => 30028,
            ConfigKey::Timebase => 30010,
            ConfigKey::Vdiv => 30012,
            ConfigKey::TriggerType => 30014,
            ConfigKey::MeasuredQuantity => 30047,
        }
    }

    /// The group of the key.
    #[verifier::when_used_as_spec(spec_group)]
    pub fn group(self) -> (r: ConfigGroup)
        ensures
            r == self.spec_group(),
    {
        match self {
            ConfigKey::Rle => ConfigGroup::BoolConfig,
            ConfigKey::Averaging => ConfigGroup::BoolConfig,
            ConfigKey::Filter => ConfigGroup::BoolConfig,
            ConfigKey::HoldMax => ConfigGroup::BoolConfig,
            ConfigKey::HoldMin => ConfigGroup::BoolConfig,
            ConfigKey::ExternalClock => ConfigGroup::BoolConfig,
            ConfigKey::Swap => ConfigGroup::BoolConfig,
            ConfigKey::Enabled => ConfigGroup::BoolConfig,
            ConfigKey::OverVoltageProtectionEnabled => ConfigGroup::BoolConfig,
            ConfigKey::OverVoltageProtectionActive => ConfigGroup::BoolConfig,
            ConfigKey::OverCurrentProtectionEnabled => ConfigGroup::BoolConfig,
            ConfigKey::OverCurrentProtectionActive => ConfigGroup::BoolConfig,
            ConfigKey::OverTemperatureProtection => ConfigGroup::BoolConfig,
            ConfigKey::OverTemperatureProtectionActive => ConfigGroup::BoolConfig,
            ConfigKey::UnderVoltageCondition => ConfigGroup::BoolConfig,
            ConfigKey::UnderVoltageConditionActive => ConfigGroup::BoolConfig,
            ConfigKey::HighResolution => ConfigGroup::BoolConfig,
            ConfigKey::PeakDetection => ConfigGroup::BoolConfig,
            ConfigKey::PowerOff => ConfigGroup::BoolConfig,
            ConfigKey::Continuous => ConfigGroup::BoolConfig,
            ConfigKey::Datalog => ConfigGroup::BoolConfig,
            ConfigKey::PatternMode => ConfigGroup::StringConfig,
            ConfigKey::TriggerSlope => ConfigGroup::StringConfig,
            ConfigKey::TriggerSource => ConfigGroup::StringConfig,
            ConfigKey::Coupling => ConfigGroup::StringConfig,
            ConfigKey::SplWeightFreq => ConfigGroup::StringConfig,
            ConfigKey::SplWeightTime => ConfigGroup::StringConfig,
            ConfigKey::ChannelConfig => ConfigGroup::StringConfig,
            ConfigKey::ClockEdge => ConfigGroup::StringConfig,
            ConfigKey::Regulation => ConfigGroup::StringConfig,
            ConfigKey::EquivCircuitModel => ConfigGroup::StringConfig,
            ConfigKey::ExternalClockSource => ConfigGroup::StringConfig,
            ConfigKey::TriggerPattern => ConfigGroup::StringConfig,
            ConfigKey::LogicThreshold => ConfigGroup::StringConfig,
            ConfigKey::Range => ConfigGroup::StringConfig,
            ConfigKey::Digits => ConfigGroup::StringConfig,
            ConfigKey::SessionFile => ConfigGroup::StringConfig,
            ConfigKey::CaptureFile => ConfigGroup::StringConfig,
            ConfigKey::DataSource => ConfigGroup::StringConfig,
            ConfigKey::DeviceMode => ConfigGroup::StringConfig,
            ConfigKey::TestMode => ConfigGroup::StringConfig,
            ConfigKey::SplMeasurementRange => ConfigGroup::U64RangeConfig,
            ConfigKey::VoltageThreshold => ConfigGroup::F64RangeConfig,
            ConfigKey::SampleRate => ConfigGroup::U64Config,
            ConfigKey::CaptureRatio => ConfigGroup::U64Config,
            ConfigKey::AvgSamples => ConfigGroup::U64Config,
            ConfigKey::BufferSize => ConfigGroup::U64Config,
            ConfigKey::SampleInterval => ConfigGroup::U64Config,
            ConfigKey::CenterFrequency => ConfigGroup::U64Config,
            ConfigKey::CaptureUnitSize => ConfigGroup::U64Config,
            ConfigKey::ProbeFactor => ConfigGroup::U64Config,
            ConfigKey::LimitMsec => ConfigGroup::U64Config,
            ConfigKey::LimitSamples => ConfigGroup::U64Config,
            ConfigKey::LimitFrames => ConfigGroup::U64Config,
            ConfigKey::HorizTriggerpos => ConfigGroup::F64Config,
            ConfigKey::Voltage => ConfigGroup::F64Config,
            ConfigKey::VoltageTarget => ConfigGroup::F64Config,
            ConfigKey::Current => ConfigGroup::F64Config,
            ConfigKey::CurrentLimit => ConfigGroup::F64Config,
            ConfigKey::OverVoltageProtectionThreshold => ConfigGroup::F64Config,
            ConfigKey::OverCurrentProtectionThreshold => ConfigGroup::F64Config,
            ConfigKey::Amplitude => ConfigGroup::F64Config,
            ConfigKey::OutputFrequency => ConfigGroup::F64Config,
            ConfigKey::OutputFrequencyTarget => ConfigGroup::F64Config,
            ConfigKey::TriggerLevel => ConfigGroup::F64Config,
            ConfigKey::UnderVoltageConditionThreshold => ConfigGroup::F64Config,
            ConfigKey::Offset => ConfigGroup::F64Config,
            ConfigKey::LogicThresholdCustom => ConfigGroup::F64Config,
            ConfigKey::AdcPowerlineCycles => ConfigGroup::F64Config,
            ConfigKey::NumHdiv => ConfigGroup::I32Config,
            ConfigKey::NumVdiv => ConfigGroup::I32Config,
            ConfigKey::NumLogicChannels => ConfigGroup::I32Config,
            ConfigKey::NumAnalogChannels => ConfigGroup::I32Config,
            ConfigKey::Timebase => ConfigGroup::RationalConfig,
            ConfigKey::Vdiv => ConfigGroup::RationalConfig,
            ConfigKey::TriggerType => ConfigGroup::TriggerConfig,
            ConfigKey::MeasuredQuantity => ConfigGroup::MqConfig,
        }
    }

    /// Recognizes a number of the native library. `None` means that no
    /// key has that number.
    pub fn from_raw(value: u32) -> (r: Option<ConfigKey>)
        ensures
            r == Self::spec_from_raw(value),
            r matches Some(k) ==> k.spec_key() == value,
            r is None ==> forall|k: ConfigKey| #[trigger] k.spec_key() != value,
    {
        match value {
            30003 => Some(ConfigKey::Rle),
            30005 => Some(ConfigKey::Averaging),
            30011 => Some(ConfigKey::Filter),
            30021 => Some(ConfigKey::HoldMax),
            30022 => Some(ConfigKey::HoldMin),
            30024 => Some(ConfigKey::ExternalClock),
            30025 => Some(ConfigKey::Swap),
            30033 => Some(ConfigKey::Enabled),
            30035 => Some(ConfigKey::OverVoltageProtectionEnabled),
            30036 => Some(ConfigKey::OverVoltageProtectionActive),
            30038 => Some(ConfigKey::OverCurrentProtectionEnabled),
            30039 => Some(ConfigKey::OverCurrentProtectionActive),
            30044 => Some(ConfigKey::OverTemperatureProtection),
            30049 => Some(ConfigKey::OverTemperatureProtectionActive),
            30050 => Some(ConfigKey::UnderVoltageCondition),
            30051 => Some(ConfigKey::UnderVoltageConditionActive),
            30057 => Some(ConfigKey::HighResolution),
            30058 => Some(ConfigKey::PeakDetection),
            40003 => Some(ConfigKey::PowerOff),
            50003 => Some(ConfigKey::Continuous),
            50004 => Some(ConfigKey::Datalog),
            30002 => Some(ConfigKey::PatternMode),
            30004 => Some(ConfigKey::TriggerSlope),
            30007 => Some(ConfigKey::TriggerSource),
            30013 => Some(ConfigKey::Coupling),
            30018 => Some(ConfigKey::SplWeightFreq),
            30019 => Some(ConfigKey::SplWeightTime),
            30034 => Some(ConfigKey::ChannelConfig),
            30041 => Some(ConfigKey::ClockEdge),
            30043 => Some(ConfigKey::Regulation),
            30048 => Some(ConfigKey::EquivCircuitModel),
            30054 => Some(ConfigKey::ExternalClockSource),
            30056 => Some(ConfigKey::TriggerPattern),
            30059 => Some(ConfigKey::LogicThreshold),
            30061 => Some(ConfigKey::Range),
            30062 => Some(ConfigKey::Digits),
            40000 => Some(ConfigKey::SessionFile),
            40001 => Some(ConfigKey::CaptureFile),
            40004 => Some(ConfigKey::DataSource),
            50005 => Some(ConfigKey::DeviceMode),
            50006 => Some(ConfigKey::TestMode),
            30020 => Some(ConfigKey::SplMeasurementRange),
            30023 => Some(ConfigKey::VoltageThreshold),
            30000 => Some(ConfigKey::SampleRate),
            30001 => Some(ConfigKey::CaptureRatio),
            30006 => Some(ConfigKey::AvgSamples),
            30009 => Some(ConfigKey::BufferSize),
            30015 => Some(ConfigKey::SampleInterval),
            30026 => Some(ConfigKey::CenterFrequency),
            40002 => Some(ConfigKey::CaptureUnitSize),
            40005 => Some(ConfigKey::ProbeFactor),
            50000 => Some(ConfigKey::LimitMsec),
            50001 => Some(ConfigKey::LimitSamples),
            50002 => Some(ConfigKey::LimitFrames),
            30008 => Some(ConfigKey::HorizTriggerpos),
            30029 => Some(ConfigKey::Voltage),
            30030 => Some(ConfigKey::VoltageTarget),
            30031 => Some(ConfigKey::Current),
            30032 => Some(ConfigKey::CurrentLimit),
            30037 => Some(ConfigKey::OverVoltageProtectionThreshold),
            30040 => Some(ConfigKey::OverCurrentProtectionThreshold),
            30042 => Some(ConfigKey::Amplitude),
            30045 => Some(ConfigKey::OutputFrequency),
            30046 => Some(ConfigKey::OutputFrequencyTarget),
            30052 => Some(ConfigKey::TriggerLevel),
            30053 => Some(ConfigKey::UnderVoltageConditionThreshold),
            30055 => Some(ConfigKey::Offset),
            30060 => Some(ConfigKey::LogicThresholdCustom),
            40006 => Some(ConfigKey::AdcPowerlineCycles),
            30016 => Some(ConfigKey::NumHdiv),
            30017 => Some(ConfigKey::NumVdiv),
            30027 => Some(ConfigKey::NumLogicChannels),
            30028 => Some(ConfigKey::NumAnalogChannels),
            30010 => Some(ConfigKey::Timebase),
            30012 => Some(ConfigKey::Vdiv),
            30014 => Some(ConfigKey::TriggerType),
            30047 => Some(ConfigKey::MeasuredQuantity),
            _ => None,
        }
    }

    /// Every key is recognized again from its own number.
    pub proof fn lemma_raw_roundtrip(self)
        ensures
            Self::spec_from_raw(self.spec_key()) == Some(self),
    {
    }

    /// A number is recognized exactly when it is the number of some key,
    /// and then as that key.
    pub proof fn lemma_from_raw_exact(value: u32)
        ensures
            match Self::spec_from_raw(value) {
                Some(k) => k.spec_key() == value,
                None => forall|k: ConfigKey| #[trigger] k.spec_key() != value,
            },
    {
    }
}

} // verus!
