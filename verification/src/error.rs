//! The error taxonomy and the meaning of native status codes.
use vstd::prelude::*;

verus! {

/// Status code of a native call that succeeded.
pub const SR_OK: i32 = 0;

/// Generic/unspecified error.
pub const SR_ERR: i32 = -1;

/// Malloc/calloc/realloc error.
pub const SR_ERR_MALLOC: i32 = -2;

/// Function argument error.
pub const SR_ERR_ARG: i32 = -3;

/// Errors hinting at internal bugs.
pub const SR_ERR_BUG: i32 = -4;

/// Incorrect samplerate.
pub const SR_ERR_SAMPLERATE: i32 = -5;

/// Not applicable.
pub const SR_ERR_NA: i32 = -6;

/// Device is closed, but must be open.
pub const SR_ERR_DEV_CLOSED: i32 = -7;

/// A timeout occurred.
pub const SR_ERR_TIMEOUT: i32 = -8;

/// A channel group must be specified.
pub const SR_ERR_CHANNEL_GROUP: i32 = -9;

/// Data is invalid.
pub const SR_ERR_DATA: i32 = -10;

/// Input/output error.
pub const SR_ERR_IO: i32 = -11;

/// Everything that can go wrong in this crate.
#[derive(Clone, Copy, Debug, PartialEq, Eq, Structural)]
#[non_exhaustive]
pub enum SigrokError {
    /// Generic/unspecified error
    Generic,
    /// Malloc/calloc/realloc error
    Malloc,
    /// Function argument error
    Arg,
    /// Errors hinting at internal bugs
    Bug,
    /// Incorrect samplerate
    SampleRate,
    /// Not applicable
    NA,
    /// Device is closed, but must be open
    DevClosed,
    /// A timeout occurred
    Timeout,
    /// A channel group must be specified
    ChannelGroup,
    /// Data is invalid.
    Data,
    /// Input/output error
    IO,
    /// Unknown error
    Unknown,
    /// A null byte was found when it must be non-null; the field is the
    /// index of the first such byte.
    NullError(usize),
    /// Failed to acquire the GLib main context
    GlibAcquireError,
}

/// What a native status code means: `Ok` for `SR_OK`, the matching error for
/// each known failure code, and `Unknown` for every other number.
pub open spec fn status_of(code: i32) -> Result<(), SigrokError> {
    if code == SR_OK {
        Ok(())
    } else if code == SR_ERR {
        Err(SigrokError::Generic)
    } else if code == SR_ERR_MALLOC {
        Err(SigrokError::Malloc)
    } else if code == SR_ERR_ARG {
        Err(SigrokError::Arg)
    } else if code == SR_ERR_BUG {
        Err(SigrokError::Bug)
    } else if code == SR_ERR_SAMPLERATE {
        Err(SigrokError::SampleRate)
    } else if code == SR_ERR_NA {
        Err(SigrokError::NA)
    } else if code == SR_ERR_DEV_CLOSED {
        Err(SigrokError::DevClosed)
    } else if code == SR_ERR_TIMEOUT {
        Err(SigrokError::Timeout)
    } else if code == SR_ERR_CHANNEL_GROUP {
        Err(SigrokError::ChannelGroup)
    } else if code == SR_ERR_DATA {
        Err(SigrokError::Data)
    } else if code == SR_ERR_IO {
        Err(SigrokError::IO)
    } else {
        Err(SigrokError::Unknown)
    }
}

impl SigrokError {
    /// What the error says of itself.
    pub open spec fn spec_message(&self) -> Seq<char> {
        match self {
            SigrokError::Generic => "Generic/unspecified error"@,
            SigrokError::Malloc => "Malloc/calloc/realloc error"@,
            SigrokError::Arg => "Function argument error"@,
            SigrokError::Bug => "Errors hinting at internal bugs"@,
            SigrokError::SampleRate => "Incorrect samplerate"@,
            SigrokError::NA => "Not applicable"@,
            SigrokError::DevClosed => "Device is closed, but must be open"@,
            SigrokError::Timeout => "A timeout occurred"@,
            SigrokError::ChannelGroup => "A channel group must be specified"@,
            SigrokError::Data => "Data is invalid."@,
            SigrokError::IO => "Input/output error"@,
            SigrokError::Unknown => "Unknown error"@,
            SigrokError::NullError(_) => "A null byte was found when it must be non-null"@,
            SigrokError::GlibAcquireError => "Failed to acquire the GLib main context"@,
        }
    }

    /// Tells what the status code of a native call means.
    pub fn from(code: i32) -> (r: Result<(), SigrokError>)
        ensures
            r == status_of(code),
            r is Ok <==> code == SR_OK,
    {
        match code {
            SR_OK => Ok(()),
            SR_ERR => Err(SigrokError::Generic),
            SR_ERR_MALLOC => Err(SigrokError::Malloc),
            SR_ERR_ARG => Err(SigrokError::Arg),
            SR_ERR_BUG => Err(SigrokError::Bug),
            SR_ERR_SAMPLERATE => Err(SigrokError::SampleRate),
            SR_ERR_NA => Err(SigrokError::NA),
            SR_ERR_DEV_CLOSED => Err(SigrokError::DevClosed),
            SR_ERR_TIMEOUT => Err(SigrokError::Timeout),
            SR_ERR_CHANNEL_GROUP => Err(SigrokError::ChannelGroup),
            SR_ERR_DATA => Err(SigrokError::Data),
            SR_ERR_IO => Err(SigrokError::IO),
            _ => Err(SigrokError::Unknown),
        }
    }

    /// What the error says of itself.
    pub fn message(&self) -> (r: &'static str)
        ensures
            r@ == self.spec_message(),
    {
        match self {
            SigrokError::Generic => "Generic/unspecified error",
            SigrokError::Malloc => "Malloc/calloc/realloc error",
            SigrokError::Arg => "Function argument error",
            SigrokError::Bug => "Errors hinting at internal bugs",
            SigrokError::SampleRate => "Incorrect samplerate",
            SigrokError::NA => "Not applicable",
            SigrokError::DevClosed => "Device is closed, but must be open",
            SigrokError::Timeout => "A timeout occurred",
            SigrokError::ChannelGroup => "A channel group must be specified",
            SigrokError::Data => "Data is invalid.",
            SigrokError::IO => "Input/output error",
            SigrokError::Unknown => "Unknown error",
            SigrokError::NullError(_) => "A null byte was found when it must be non-null",
            SigrokError::GlibAcquireError => "Failed to acquire the GLib main context",
        }
    }
}

} // verus!
