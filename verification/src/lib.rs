use vstd::prelude::*;

pub mod channel_settings;
pub mod device;
pub mod hwinfo;
pub mod stream;
pub mod text;

use crate::hwinfo::{HwInfo, RawHwInfo, hw_matches};
use crate::text::{decode_lossy, lossy_utf8, nul_prefix, nul_prefix_spec};

verus! {

/// Status code reported by the native layer when a call succeeds.
pub const RFNM_API_OK: u32 = 0;
/// Status code for a failed probe of the hardware.
pub const RFNM_API_PROBE_FAIL: u32 = 1;
/// Status code for a failed tune request.
pub const RFNM_API_TUNE_FAIL: u32 = 2;
/// Status code for a rejected gain setting.
pub const RFNM_API_GAIN_FAIL: u32 = 3;
/// Status code for a timed-out call.
pub const RFNM_API_TIMEOUT: u32 = 4;
/// Status code for a USB transport failure.
pub const RFNM_API_USB_FAIL: u32 = 5;
/// Status code for a dequeue-buffer overflow.
pub const RFNM_API_DQBUF_OVERFLOW: u32 = 6;
/// Status code for an unsupported operation.
pub const RFNM_API_NOT_SUPPORTED: u32 = 7;
/// Status code telling the caller that a software upgrade is required.
pub const RFNM_API_SW_UPGRADE_REQUIRED: u32 = 8;
/// Status code for a dequeue buffer with no data.
pub const RFNM_API_DQBUF_NO_DATA: u32 = 9;
/// Status code for an unsatisfied minimum queued-buffer count.
pub const RFNM_API_MIN_QBUF_CNT_NOT_SATIFIED: u32 = 10;
/// Status code for a full minimum queued-buffer queue.
pub const RFNM_API_MIN_QBUF_QUEUE_FULL: u32 = 11;

/// Every failure the library can report: one kind for each native status
/// code, one for a native exception payload, and the two mismatch kinds that
/// the stream read path raises before any native call.
#[derive(Debug, Clone)]
pub enum RfnmApiError {
    /// The native layer threw an exception; the decoded message is carried along.
    ApiException(String),
    /// A read was given a number of buffers different from the stream's
    /// channel count: (provided, expected).
    BufferCountMismatch(usize, usize),
    /// A multi-buffer read was given buffers of differing lengths.
    BufferSizeMismatch,
    ProbeFail,
    TuneFail,
    GainFail,
    Timeout,
    UsbFail,
    DqbufOverflow,
    NotSupported,
    SoftwareUpgradeRequred,
    DqbufNoData,
    MinQbufCountNotSatisfied,
    MinQbufQueueFull,
    /// A status code outside the known set; the raw value is kept.
    Unknown(u32),
}

/// The error kind that a native status code other than `RFNM_API_OK` maps to.
pub open spec fn error_of_code(code: u32) -> RfnmApiError {
    if code == RFNM_API_PROBE_FAIL {
        RfnmApiError::ProbeFail
    } else if code == RFNM_API_TUNE_FAIL {
        RfnmApiError::TuneFail
    } else if code == RFNM_API_GAIN_FAIL {
        RfnmApiError::GainFail
    } else if code == RFNM_API_TIMEOUT {
        RfnmApiError::Timeout
    } else if code == RFNM_API_USB_FAIL {
        RfnmApiError::UsbFail
    } else if code == RFNM_API_DQBUF_OVERFLOW {
        RfnmApiError::DqbufOverflow
    } else if code == RFNM_API_NOT_SUPPORTED {
        RfnmApiError::NotSupported
    } else if code == RFNM_API_SW_UPGRADE_REQUIRED {
        RfnmApiError::SoftwareUpgradeRequred
    } else if code == RFNM_API_DQBUF_NO_DATA {
        RfnmApiError::DqbufNoData
    } else if code == RFNM_API_MIN_QBUF_CNT_NOT_SATIFIED {
        RfnmApiError::MinQbufCountNotSatisfied
    } else if code == RFNM_API_MIN_QBUF_QUEUE_FULL {
        RfnmApiError::MinQbufQueueFull
    } else {
        RfnmApiError::Unknown(code)
    }
}

/// Translate a native status code: success for `RFNM_API_OK`, otherwise the
/// one error kind that the code maps to, an `Unknown` carrying the raw value
/// where the code is outside the known set.
pub fn check_code(code: u32) -> (r: Result<(), RfnmApiError>)
    ensures
        code == RFNM_API_OK <==> r is Ok,
        code != RFNM_API_OK ==> r == Err::<(), RfnmApiError>(error_of_code(code)),
{
    if code == RFNM_API_OK {
        Ok(())
    } else if code == RFNM_API_PROBE_FAIL {
        Err(RfnmApiError::ProbeFail)
    } else if code == RFNM_API_TUNE_FAIL {
        Err(RfnmApiError::TuneFail)
    } else if code == RFNM_API_GAIN_FAIL {
        Err(RfnmApiError::GainFail)
    } else if code == RFNM_API_TIMEOUT {
        Err(RfnmApiError::Timeout)
    } else if code == RFNM_API_USB_FAIL {
        Err(RfnmApiError::UsbFail)
    } else if code == RFNM_API_DQBUF_OVERFLOW {
        Err(RfnmApiError::DqbufOverflow)
    } else if code == RFNM_API_NOT_SUPPORTED {
        Err(RfnmApiError::NotSupported)
    } else if code == RFNM_API_SW_UPGRADE_REQUIRED {
        Err(RfnmApiError::SoftwareUpgradeRequred)
    } else if code == RFNM_API_DQBUF_NO_DATA {
        Err(RfnmApiError::DqbufNoData)
    } else if code == RFNM_API_MIN_QBUF_CNT_NOT_SATIFIED {
        Err(RfnmApiError::MinQbufCountNotSatisfied)
    } else if code == RFNM_API_MIN_QBUF_QUEUE_FULL {
        Err(RfnmApiError::MinQbufQueueFull)
    } else {
        Err(RfnmApiError::Unknown(code))
    }
}

/// The exception payload that a failed native connect or stream-create call
/// hands back: a fixed buffer holding zero-terminated text.
#[derive(Debug, Clone, Copy)]
pub struct WrappedThrownError {
    pub message: [u8; 256],
}

impl WrappedThrownError {
    /// A payload with no text, handed to the native layer to be filled.
    pub fn empty() -> (r: Self)
        ensures
            forall|i: int| 0 <= i < 256 ==> r.message@[i] == 0,
    {
        WrappedThrownError { message: vstd::array::array_fill_for_copy_types::<u8, 256>(0) }
    }

    /// Translate the payload into the error kind that carries its text,
    /// decoded lossily up to the first zero byte.
    pub fn to_api_error(&self) -> (r: RfnmApiError)
        ensures
            r matches RfnmApiError::ApiException(s) && s@ == lossy_utf8(
                nul_prefix_spec(self.message@),
            ),
    {
        let prefix = nul_prefix(self.message.as_slice());
        RfnmApiError::ApiException(decode_lossy(prefix.as_slice()))
    }
}

/// Convert the enumeration records that the native layer filled, and no more
/// of them than it reported as populated.
pub fn convert_discovered(raws: &Vec<RawHwInfo>, populated: usize) -> (r: Vec<HwInfo>)
    ensures
        r@.len() == if populated <= raws@.len() {
            populated as int
        } else {
            raws@.len() as int
        },
        forall|i: int| 0 <= i < r@.len() ==> hw_matches(r@[i], raws@[i]),
{
    let n = if populated <= raws.len() {
        populated
    } else {
        raws.len()
    };
    let mut r: Vec<HwInfo> = Vec::new();
    let mut i: usize = 0;
    while i < n
        invariant
            i <= n,
            n <= raws@.len(),
            n == if populated <= raws@.len() {
                populated as int
            } else {
                raws@.len() as int
            },
            r@.len() == i,
            forall|j: int| 0 <= j < i ==> hw_matches(r@[j], raws@[j]),
        decreases n - i,
    {
        r.push(HwInfo::from_raw(&raws[i]));
        i = i + 1;
    }
    r
}

/// A channel selector: a bitmask in which each set bit names one receive channel.
#[derive(Debug, Clone, Copy, PartialEq, Eq, Structural)]
pub struct Channel(pub u32);

/// Resolve a channel selector with exactly one bit of the eight-bit channel
/// mask set to the zero-based index of that bit; any other selector resolves
/// to no index.
pub fn channel_flag_to_number(channel: Channel) -> (r: Option<u32>)
    ensures
        match r {
            Some(i) => i < 8 && channel.0 == 1u32 << i,
            None => forall|i: u32| i < 8 ==> channel.0 != 1u32 << i,
        },
{
    for i in 0..8u32
        invariant
            forall|j: u32| j < i ==> channel.0 != 1u32 << j,
    {
        if channel.0 == 1u32 << i {
            return Some(i);
        }
    }
    None
}

/// Resolve a channel selector to a zero-based channel index: a selector with
/// exactly one bit of the eight-bit channel mask set resolves to that bit's
/// index, and any selector with zero or several bits set falls back to index 0.
pub fn resolve_channel(channel: Channel) -> (r: u32)
    ensures
        forall|i: u32| i < 8 && channel.0 == 1u32 << i ==> r == i,
        (forall|i: u32| i < 8 ==> channel.0 != 1u32 << i) ==> r == 0,
        r < 8,
{
    proof {
        assert(forall|i: u32, j: u32|
            i < 8 && j < 8 && (1u32 << i) == (1u32 << j) ==> i == j) by (bit_vector);
    }
    match channel_flag_to_number(channel) {
        Some(i) => i,
        None => 0,
    }
}

} // verus!
