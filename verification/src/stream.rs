use vstd::prelude::*;

use core::marker::PhantomData;

use crate::device::Device;
use crate::{RfnmApiError, error_of_code, Channel, RFNM_API_OK};

verus! {

#[verifier::external_type_specification]
#[verifier::external_body]
#[verifier::reject_recursive_types(T)]
pub struct ExComplex<T>(num_complex::Complex<T>);

/// The sample formats the native stream negotiation knows.
#[derive(Debug, Clone, Copy, PartialEq, Eq, Structural)]
pub enum StreamFormat {
    /// Complex samples of two signed 8-bit parts.
    Cs8,
    /// Complex samples of two signed 16-bit parts.
    Cs16,
    /// Complex samples of two 32-bit floating-point parts.
    Cf32,
}

/// A sample type a stream can deliver, naming its native format.
pub trait StreamDataFormat {
    /// The native format this sample type names.
    spec fn spec_format() -> StreamFormat;

    /// The native format to negotiate for this sample type.
    fn api_format() -> (r: StreamFormat)
        ensures
            r == Self::spec_format(),
    ;
}

impl StreamDataFormat for num_complex::Complex<i8> {
    open spec fn spec_format() -> StreamFormat {
        StreamFormat::Cs8
    }

    fn api_format() -> (r: StreamFormat) {
        StreamFormat::Cs8
    }
}

impl StreamDataFormat for num_complex::Complex<i16> {
    open spec fn spec_format() -> StreamFormat {
        StreamFormat::Cs16
    }

    fn api_format() -> (r: StreamFormat) {
        StreamFormat::Cs16
    }
}

/// The number of set bits among the low `n` bits of `m`.
pub open spec fn pop_count(m: u32, n: nat) -> nat
    decreases n,
{
    if n == 0 {
        0
    } else {
        pop_count(m, (n - 1) as nat) + (if (m >> ((n - 1) as u32)) & 1 == 1 {
            1nat
        } else {
            0nat
        })
    }
}

/// Count the channels a selector names: its set bits.
pub fn channel_count_of(channels: Channel) -> (r: usize)
    ensures
        r == pop_count(channels.0, 32),
{
    let m = channels.0;
    let mut count: usize = 0;
    let mut i: u32 = 0;
    while i < 32
        invariant
            i <= 32,
            count == pop_count(m, i as nat),
            count <= i,
        decreases 32 - i,
    {
        if (m >> i) & 1 == 1 {
            count = count + 1;
        }
        i = i + 1;
    }
    count
}

/// Per-read outcome: how many sample elements each channel received (uniform
/// across channels in one call) and the device-reported timestamp of the read.
#[derive(Debug, Clone, Copy, PartialEq, Eq, Structural)]
pub struct StreamReadInfo {
    pub elements_read: usize,
    pub timestamp_ns: u64,
}

/// A validated synchronized-read request: the element count asked of every
/// channel, and the timeout already clamped to native microseconds.
#[derive(Debug, Clone, Copy, PartialEq, Eq, Structural)]
pub struct ReadCall {
    pub element_count: usize,
    pub timeout_us: u32,
}

/// A timeout in microseconds, clamped to the largest value the native read
/// call can represent rather than wrapped.
pub open spec fn clamped_timeout(timeout_micros: u128) -> u32 {
    if timeout_micros > u32::MAX {
        u32::MAX
    } else {
        timeout_micros as u32
    }
}

/// Every buffer length equals the first one.
pub open spec fn uniform_lens(lens: Seq<usize>) -> bool {
    forall|j: int| 0 < j < lens.len() ==> #[trigger] lens[j] == lens[0]
}

/// What a synchronized read decides before any native call: buffer-count and
/// buffer-length mismatches are rejected with their own error kinds, in that
/// order, and only a clean request reaches the device.
pub open spec fn read_decision(lens: Seq<usize>, channel_count: usize, timeout_micros: u128) -> Result<
    ReadCall,
    RfnmApiError,
> {
    if lens.len() != channel_count {
        Err(RfnmApiError::BufferCountMismatch(lens.len() as usize, channel_count))
    } else if lens.len() > 1 && !uniform_lens(lens) {
        Err(RfnmApiError::BufferSizeMismatch)
    } else if lens.len() == 0 {
        Err(RfnmApiError::BufferCountMismatch(0, 0))
    } else {
        Ok(ReadCall { element_count: lens[0], timeout_us: clamped_timeout(timeout_micros) })
    }
}

/// A synchronized receive stream over one or more device channels.
///
/// Owns the device for its lifetime; the stream's native handle is bound to
/// the channel selector it was created with, and the channel count never
/// exceeds eight, the width of the device's channel mask.
pub struct RxStream<T> {
    marker: PhantomData<T>,
    channel_count: usize,
    suggested_buffer_size: usize,
    device: Option<Device>,
}

impl<T: StreamDataFormat> RxStream<T> {
    /// The session holds its device from creation until it is reclaimed.
    pub closed spec fn wf(&self) -> bool {
        &&& self.device is Some
        &&& self.channel_count <= 8
    }

    /// The number of channels the session reads, as negotiated at creation.
    pub closed spec fn spec_channel_count(&self) -> usize {
        self.channel_count
    }

    /// The device-suggested element count for read buffers; advisory only.
    pub closed spec fn spec_suggested_buffer_size(&self) -> usize {
        self.suggested_buffer_size
    }

    /// The device the session holds, while it holds one.
    pub closed spec fn spec_device(&self) -> Option<Device> {
        self.device
    }

    /// Assemble the session once the native negotiation has succeeded: the
    /// channel count is the number of bits the selector sets, which must be
    /// within the eight-channel mask width, and the device moves in.
    pub fn new(device: Device, channels: Channel, suggested_buffer_size: usize) -> (r: Self)
        requires
            pop_count(channels.0, 32) <= 8,
        ensures
            r.wf(),
            r.spec_channel_count() == pop_count(channels.0, 32),
            r.spec_suggested_buffer_size() == suggested_buffer_size,
            r.spec_device() == Some(device),
    {
        let channel_count = channel_count_of(channels);
        RxStream {
            marker: PhantomData,
            channel_count,
            suggested_buffer_size,
            device: Some(device),
        }
    }

    /// Reclaim the device, ending the session's hold on it.
    pub fn into_device(self) -> (r: Device)
        requires
            self.wf(),
        ensures
            self.spec_device() == Some(r),
    {
        match self.device {
            Some(d) => d,
            None => vstd::pervasive::unreached(),
        }
    }

    /// Borrow the owned device.
    pub fn device(&self) -> (r: &Device)
        requires
            self.wf(),
        ensures
            self.spec_device() == Some(*r),
    {
        match &self.device {
            Some(d) => d,
            None => vstd::pervasive::unreached(),
        }
    }

    /// The number of channels the session reads.
    pub fn channel_count(&self) -> (r: usize)
        ensures
            r == self.spec_channel_count(),
    {
        self.channel_count
    }

    /// The device-suggested element count for read buffers.
    pub fn suggested_buffer_size(&self) -> (r: usize)
        ensures
            r == self.spec_suggested_buffer_size(),
    {
        self.suggested_buffer_size
    }

    /// Validate a synchronized read before any native call: the buffer count
    /// must equal the session's channel count, all buffers must share one
    /// length, and zero buffers are themselves a count mismatch. A clean
    /// request carries that common length and the clamped timeout; no native
    /// read happens for a rejected one, since only a returned request can be
    /// handed on.
    pub fn prepare_read(&self, buffer_lens: &Vec<usize>, timeout_micros: u128) -> (r: Result<
        ReadCall,
        RfnmApiError,
    >)
        ensures
            r == read_decision(buffer_lens@, self.spec_channel_count(), timeout_micros),
    {
        if buffer_lens.len() != self.channel_count {
            return Err(
                RfnmApiError::BufferCountMismatch(buffer_lens.len(), self.channel_count),
            );
        }
        if buffer_lens.len() > 1 {
            let first = buffer_lens[0];
            let mut j: usize = 1;
            while j < buffer_lens.len()
                invariant
                    1 <= j <= buffer_lens@.len(),
                    buffer_lens@.len() == self.spec_channel_count(),
                    buffer_lens@.len() > 1,
                    first == buffer_lens@[0],
                    forall|k: int| 0 < k < j ==> #[trigger] buffer_lens@[k] == buffer_lens@[0],
                decreases buffer_lens@.len() - j,
            {
                if buffer_lens[j] != first {
                    proof {
                        assert(!uniform_lens(buffer_lens@)) by {
                            assert(buffer_lens@[j as int] != buffer_lens@[0]);
                        }
                    }
                    return Err(RfnmApiError::BufferSizeMismatch);
                }
                j = j + 1;
            }
        }
        if buffer_lens.len() == 0 {
            return Err(RfnmApiError::BufferCountMismatch(0, 0));
        }
        let timeout_us: u32 = if timeout_micros > u32::MAX as u128 {
            u32::MAX
        } else {
            #[verifier::truncate] (timeout_micros as u32)
        };
        Ok(ReadCall { element_count: buffer_lens[0], timeout_us })
    }
}

/// Finish a synchronized read from what the native call reported: a non-error
/// status yields the delivered element count — fewer elements than asked is
/// not an error — and the read's timestamp; an error status yields its kind.
pub fn complete_read(code: u32, elements_read: usize, timestamp_ns: u64) -> (r: Result<
    StreamReadInfo,
    RfnmApiError,
>)
    ensures
        code == RFNM_API_OK ==> r == Ok::<StreamReadInfo, RfnmApiError>(
            (StreamReadInfo { elements_read, timestamp_ns }),
        ),
        code != RFNM_API_OK ==> r == Err::<StreamReadInfo, RfnmApiError>(error_of_code(code)),
{
    match crate::check_code(code) {
        Ok(_) => Ok(StreamReadInfo { elements_read, timestamp_ns }),
        Err(e) => Err(e),
    }
}

/// A read given a buffer count other than the session's channel count is
/// rejected as a count mismatch carrying both counts, before any native call.
pub proof fn lemma_read_count_mismatch(lens: Seq<usize>, channel_count: usize, timeout_micros: u128)
    requires
        lens.len() != channel_count,
    ensures
        read_decision(lens, channel_count, timeout_micros) == Err::<ReadCall, RfnmApiError>(
            RfnmApiError::BufferCountMismatch(lens.len() as usize, channel_count),
        ),
{
}

/// A multi-buffer read whose buffers do not all share the first buffer's
/// length is rejected as a size mismatch, before any native call.
pub proof fn lemma_read_size_mismatch(
    lens: Seq<usize>,
    channel_count: usize,
    timeout_micros: u128,
)
    requires
        lens.len() == channel_count,
        lens.len() > 1,
        !uniform_lens(lens),
    ensures
        read_decision(lens, channel_count, timeout_micros) == Err::<ReadCall, RfnmApiError>(
            RfnmApiError::BufferSizeMismatch,
        ),
{
}

/// A read with no buffers at all is rejected as a count mismatch of zero
/// against zero, not treated as a trivial success.
pub proof fn lemma_read_zero_buffers(channel_count: usize, timeout_micros: u128)
    requires
        channel_count == 0,
    ensures
        read_decision(Seq::empty(), channel_count, timeout_micros) == Err::<ReadCall, RfnmApiError>(
            RfnmApiError::BufferCountMismatch(0, 0),
        ),
{
}

/// A requested timeout beyond the largest native microsecond value goes to
/// the device as that maximum; a representable one goes through unchanged.
pub proof fn lemma_timeout_clamp(timeout_micros: u128)
    ensures
        timeout_micros > u32::MAX ==> clamped_timeout(timeout_micros) == u32::MAX,
        timeout_micros <= u32::MAX ==> clamped_timeout(timeout_micros) == timeout_micros,
{
}

} // verus!
