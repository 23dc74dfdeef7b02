use sigrok::error::{
    SR_ERR, SR_ERR_ARG, SR_ERR_BUG, SR_ERR_CHANNEL_GROUP, SR_ERR_DATA, SR_ERR_DEV_CLOSED, SR_ERR_IO,
    SR_ERR_MALLOC, SR_ERR_NA, SR_ERR_SAMPLERATE, SR_ERR_TIMEOUT, SR_OK,
};
use sigrok::SigrokError;

#[test]
fn status_codes_have_their_meaning() {
    assert_eq!(SigrokError::from(SR_OK), Ok(()));
    assert_eq!(SigrokError::from(SR_ERR), Err(SigrokError::Generic));
    assert_eq!(SigrokError::from(SR_ERR_MALLOC), Err(SigrokError::Malloc));
    assert_eq!(SigrokError::from(SR_ERR_ARG), Err(SigrokError::Arg));
    assert_eq!(SigrokError::from(SR_ERR_BUG), Err(SigrokError::Bug));
    assert_eq!(SigrokError::from(SR_ERR_SAMPLERATE), Err(SigrokError::SampleRate));
    assert_eq!(SigrokError::from(SR_ERR_NA), Err(SigrokError::NA));
    assert_eq!(SigrokError::from(SR_ERR_DEV_CLOSED), Err(SigrokError::DevClosed));
    assert_eq!(SigrokError::from(SR_ERR_TIMEOUT), Err(SigrokError::Timeout));
    assert_eq!(SigrokError::from(SR_ERR_CHANNEL_GROUP), Err(SigrokError::ChannelGroup));
    assert_eq!(SigrokError::from(SR_ERR_DATA), Err(SigrokError::Data));
    assert_eq!(SigrokError::from(SR_ERR_IO), Err(SigrokError::IO));
}

#[test]
fn status_code_numbers() {
    assert_eq!(
        [
            SR_OK,
            SR_ERR,
            SR_ERR_MALLOC,
            SR_ERR_ARG,
            SR_ERR_BUG,
            SR_ERR_SAMPLERATE,
            SR_ERR_NA,
            SR_ERR_DEV_CLOSED,
            SR_ERR_TIMEOUT,
            SR_ERR_CHANNEL_GROUP,
            SR_ERR_DATA,
            SR_ERR_IO
        ],
        [0, -1, -2, -3, -4, -5, -6, -7, -8, -9, -10, -11]
    );
}

#[test]
fn unknown_codes_do_not_panic() {
    assert_eq!(SigrokError::from(-12), Err(SigrokError::Unknown));
    assert_eq!(SigrokError::from(1), Err(SigrokError::Unknown));
    assert_eq!(SigrokError::from(i32::MIN), Err(SigrokError::Unknown));
    assert_eq!(SigrokError::from(i32::MAX), Err(SigrokError::Unknown));
}

#[test]
fn errors_describe_themselves() {
    assert_eq!(SigrokError::Generic.message(), "Generic/unspecified error");
    assert_eq!(SigrokError::Malloc.message(), "Malloc/calloc/realloc error");
    assert_eq!(SigrokError::Arg.message(), "Function argument error");
    assert_eq!(SigrokError::Bug.message(), "Errors hinting at internal bugs");
    assert_eq!(SigrokError::SampleRate.message(), "Incorrect samplerate");
    assert_eq!(SigrokError::NA.message(), "Not applicable");
    assert_eq!(SigrokError::DevClosed.message(), "Device is closed, but must be open");
    assert_eq!(SigrokError::Timeout.message(), "A timeout occurred");
    assert_eq!(SigrokError::ChannelGroup.message(), "A channel group must be specified");
    assert_eq!(SigrokError::Data.message(), "Data is invalid.");
    assert_eq!(SigrokError::IO.message(), "Input/output error");
    assert_eq!(SigrokError::Unknown.message(), "Unknown error");
    assert_eq!(
        SigrokError::NullError(3).message(),
        "A null byte was found when it must be non-null"
    );
    assert_eq!(
        SigrokError::GlibAcquireError.message(),
        "Failed to acquire the GLib main context"
    );
}
