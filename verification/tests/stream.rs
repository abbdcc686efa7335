use num_complex::Complex;
use rfnm::device::Device;
use rfnm::stream::{
    channel_count_of, complete_read, ReadCall, RxStream, StreamDataFormat, StreamFormat,
    StreamReadInfo,
};
use rfnm::{Channel, RfnmApiError};

#[test]
fn channel_count_is_the_number_of_set_bits() {
    assert_eq!(channel_count_of(Channel(0)), 0);
    assert_eq!(channel_count_of(Channel(0b1)), 1);
    assert_eq!(channel_count_of(Channel(0b101)), 2);
    assert_eq!(channel_count_of(Channel(0xff)), 8);
    assert_eq!(channel_count_of(Channel(u32::MAX)), 32);
}

#[test]
fn sample_types_name_their_native_format() {
    assert_eq!(<Complex<i8> as StreamDataFormat>::api_format(), StreamFormat::Cs8);
    assert_eq!(<Complex<i16> as StreamDataFormat>::api_format(), StreamFormat::Cs16);
}

#[test]
fn session_reports_its_negotiated_values() {
    let stream: RxStream<Complex<i8>> = RxStream::new(Device::new(), Channel(0b11), 1024);
    assert_eq!(stream.channel_count(), 2);
    assert_eq!(stream.suggested_buffer_size(), 1024);
    let _device: &Device = stream.device();
    let _reclaimed: Device = stream.into_device();
}

#[test]
fn read_accepts_matching_buffers() {
    let stream: RxStream<Complex<i8>> = RxStream::new(Device::new(), Channel(0b11), 1024);
    let r = stream.prepare_read(&vec![16, 16], 100);
    assert_eq!(r.unwrap(), ReadCall { element_count: 16, timeout_us: 100 });
}

#[test]
fn read_rejects_wrong_buffer_count() {
    let stream: RxStream<Complex<i8>> = RxStream::new(Device::new(), Channel(0b11), 1024);
    assert!(matches!(
        stream.prepare_read(&vec![16], 100),
        Err(RfnmApiError::BufferCountMismatch(1, 2))
    ));
    assert!(matches!(
        stream.prepare_read(&vec![16, 16, 16], 100),
        Err(RfnmApiError::BufferCountMismatch(3, 2))
    ));
}

#[test]
fn read_rejects_mismatched_buffer_lengths() {
    let stream: RxStream<Complex<i8>> = RxStream::new(Device::new(), Channel(0b11), 1024);
    assert!(matches!(
        stream.prepare_read(&vec![16, 8], 100),
        Err(RfnmApiError::BufferSizeMismatch)
    ));
}

#[test]
fn read_with_no_buffers_is_a_count_mismatch() {
    let stream: RxStream<Complex<i8>> = RxStream::new(Device::new(), Channel(0), 1024);
    assert!(matches!(
        stream.prepare_read(&Vec::new(), 100),
        Err(RfnmApiError::BufferCountMismatch(0, 0))
    ));
}

#[test]
fn timeout_is_clamped_not_wrapped() {
    let stream: RxStream<Complex<i8>> = RxStream::new(Device::new(), Channel(0b1), 1024);
    let r = stream.prepare_read(&vec![4], u128::MAX);
    assert_eq!(r.unwrap().timeout_us, u32::MAX);
    let r2 = stream.prepare_read(&vec![4], u32::MAX as u128 + 1);
    assert_eq!(r2.unwrap().timeout_us, u32::MAX);
    let r3 = stream.prepare_read(&vec![4], u32::MAX as u128);
    assert_eq!(r3.unwrap().timeout_us, u32::MAX);
}

#[test]
fn short_read_is_not_an_error() {
    let r = complete_read(0, 7, 123);
    assert_eq!(r.unwrap(), StreamReadInfo { elements_read: 7, timestamp_ns: 123 });
}

#[test]
fn failed_read_maps_its_status_code() {
    assert!(matches!(complete_read(4, 0, 0), Err(RfnmApiError::Timeout)));
    assert!(matches!(complete_read(5, 9, 9), Err(RfnmApiError::UsbFail)));
}
