//! Devices
//!
//! This module contains structs for devices and their channels, as plain
//! descriptions of what the native library reports.
use crate::config::ConfigOption;
use crate::enums::Function;
use crate::error::SigrokError;
use crate::util::{c_str, get_functions, lossy_text};
use crate::variant::{Tree, Variant};
use vstd::prelude::*;

verus! {

/// The text of an identity string that may be absent.
pub open spec fn text_of(bytes: Option<&[u8]>) -> Seq<char> {
    match bytes {
        Some(b) => lossy_text(b@),
        None => Seq::empty(),
    }
}

/// A channel, as obtained by [`channels`][Device::channels].
#[derive(Debug, Clone)]
pub struct Channel {
    index: u32,
    name: String,
}

impl Channel {
    /// A channel with the index and the name that the native library
    /// reports. A name that is absent reads as the empty text.
    pub fn new(index: u32, name: Option<&[u8]>) -> (r: Channel)
        ensures
            r.spec_index() == index,
            r.spec_name() == text_of(name),
    {
        Channel { index, name: c_str(name) }
    }

    /// The position of the channel on its device.
    pub closed spec fn spec_index(&self) -> u32 {
        self.index
    }

    /// The name of the channel.
    pub closed spec fn spec_name(&self) -> Seq<char> {
        self.name@
    }

    /// The position of the channel on its device.
    #[verifier::when_used_as_spec(spec_index)]
    pub fn index(&self) -> (r: u32)
        ensures
            r == self.spec_index(),
    {
        self.index
    }

    /// The name of the channel.
    pub fn name(&self) -> (r: &str)
        ensures
            r@ == self.spec_name(),
    {
        self.name.as_str()
    }

    /// The number that is handed to the native library to disable the
    /// channel.
    pub fn disable(&self) -> (state: i32)
        ensures
            state == 0,
    {
        0
    }

    /// The number that is handed to the native library to enable the
    /// channel.
    pub fn enable(&self) -> (state: i32)
        ensures
            state == 1,
    {
        1
    }
}

/// A channel group, as obtained by [`channel_groups`][Device::channel_groups].
#[derive(Debug, Clone)]
pub struct ChannelGroup {
    name: String,
}

impl ChannelGroup {
    /// A channel group with the name that the native library reports.
    pub fn new(name: Option<&[u8]>) -> (r: ChannelGroup)
        ensures
            r.spec_name() == text_of(name),
    {
        ChannelGroup { name: c_str(name) }
    }

    /// The name of the group.
    pub closed spec fn spec_name(&self) -> Seq<char> {
        self.name@
    }

    /// The name of the group.
    pub fn name(&self) -> (r: &str)
        ensures
            r@ == self.spec_name(),
    {
        self.name.as_str()
    }

    /// The functions of the group, from the keys that the native library
    /// enumerates for it.
    pub fn functions(&self, keys: Option<&[u32]>) -> (r: Result<Vec<Function>, SigrokError>)
        ensures
            match r {
                Ok(functions) => keys matches Some(k) && functions@ == crate::util::functions_of(
                    k@,
                ),
                Err(e) => keys is None && e == SigrokError::Generic,
            },
    {
        get_functions(keys)
    }
}

/// The identity strings of a device as the native library reports them,
/// each absent where the native pointer is null.
#[derive(Debug, Clone, Copy)]
pub struct Identity<'a> {
    pub vendor: Option<&'a [u8]>,
    pub model: Option<&'a [u8]>,
    pub version: Option<&'a [u8]>,
    pub serial_number: Option<&'a [u8]>,
    pub conn_id: Option<&'a [u8]>,
}

/// A device, as obtained by a scan or from the list of scanned devices.
#[derive(Debug, Clone)]
pub struct Device {
    vendor: String,
    model: String,
    version: String,
    serial_number: String,
    conn_id: String,
    channels: Vec<Channel>,
    channel_groups: Vec<ChannelGroup>,
}

impl Device {
    /// A device with the identity, the channels and the channel groups
    /// that the native library reports. An identity string that is absent
    /// reads as the empty text.
    pub fn new(identity: &Identity, channels: Vec<Channel>, channel_groups: Vec<
        ChannelGroup,
    >) -> (r: Device)
        ensures
            r.spec_vendor() == text_of(identity.vendor),
            r.spec_model() == text_of(identity.model),
            r.spec_version() == text_of(identity.version),
            r.spec_serial_number() == text_of(identity.serial_number),
            r.spec_conn_id() == text_of(identity.conn_id),
            r.spec_channels() == channels@,
            r.spec_channel_groups() == channel_groups@,
    {
        Device {
            vendor: c_str(identity.vendor),
            model: c_str(identity.model),
            version: c_str(identity.version),
            serial_number: c_str(identity.serial_number),
            conn_id: c_str(identity.conn_id),
            channels,
            channel_groups,
        }
    }

    pub closed spec fn spec_vendor(&self) -> Seq<char> {
        self.vendor@
    }

    pub closed spec fn spec_model(&self) -> Seq<char> {
        self.model@
    }

    pub closed spec fn spec_version(&self) -> Seq<char> {
        self.version@
    }

    pub closed spec fn spec_serial_number(&self) -> Seq<char> {
        self.serial_number@
    }

    pub closed spec fn spec_conn_id(&self) -> Seq<char> {
        self.conn_id@
    }

    /// The channels of the device, in the order of the native list.
    pub closed spec fn spec_channels(&self) -> Seq<Channel> {
        self.channels@
    }

    /// The channel groups of the device, in the order of the native list.
    pub closed spec fn spec_channel_groups(&self) -> Seq<ChannelGroup> {
        self.channel_groups@
    }

    pub fn vendor(&self) -> (r: &str)
        ensures
            r@ == self.spec_vendor(),
    {
        self.vendor.as_str()
    }

    pub fn model(&self) -> (r: &str)
        ensures
            r@ == self.spec_model(),
    {
        self.model.as_str()
    }

    pub fn version(&self) -> (r: &str)
        ensures
            r@ == self.spec_version(),
    {
        self.version.as_str()
    }

    pub fn serial_number(&self) -> (r: &str)
        ensures
            r@ == self.spec_serial_number(),
    {
        self.serial_number.as_str()
    }

    pub fn conn_id(&self) -> (r: &str)
        ensures
            r@ == self.spec_conn_id(),
    {
        self.conn_id.as_str()
    }

    /// The channels of the device.
    pub fn channels(&self) -> (r: &Vec<Channel>)
        ensures
            r@ == self.spec_channels(),
    {
        &self.channels
    }

    /// The channel groups of the device.
    pub fn channel_groups(&self) -> (r: &Vec<ChannelGroup>)
        ensures
            r@ == self.spec_channel_groups(),
    {
        &self.channel_groups
    }

    /// The key and the value that are handed to the native library to set
    /// an option on one channel group of the device.
    pub fn config_set(&self, _group: &ChannelGroup, config: &ConfigOption) -> (r: (u32, Variant))
        requires
            config.settable(),
        ensures
            r.0 == config.spec_key(),
            r.1@ == (match config {
                ConfigOption::PatternMode(value) => Tree::Text(value@),
            }),
    {
        (config.key(), config.data())
    }

    /// The functions of the device, from the keys that the native library
    /// enumerates for it.
    pub fn functions(&self, keys: Option<&[u32]>) -> (r: Result<Vec<Function>, SigrokError>)
        ensures
            match r {
                Ok(functions) => keys matches Some(k) && functions@ == crate::util::functions_of(
                    k@,
                ),
                Err(e) => keys is None && e == SigrokError::Generic,
            },
    {
        get_functions(keys)
    }
}

/// Another name for a [`Device`].
pub type DriverInstance = Device;

/// Another name for a [`Channel`].
pub type DriverChannel = Channel;

/// Another name for a [`ChannelGroup`].
pub type DriverChannelGroup = ChannelGroup;

} // verus!
