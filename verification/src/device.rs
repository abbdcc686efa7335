use vstd::prelude::*;

use crate::channel_settings::{
    ChEnable, ChStream, ConfigCall, RfPath, RxChannelInfo, RxChannelSettings,
    SampleRateDividerSettings, apply_plan_spec, RFNM_PATH_SMA_A,
};

verus! {

/// Exclusive owner of one connected device. A value of this type exists only
/// for a device whose native handle was acquired and normalized; it is
/// move-only, so ownership passes whole into a streaming session and back,
/// never duplicated, and the holder releases the native handle exactly once.
#[derive(Debug)]
pub struct Device {}

impl Device {
    /// Take ownership of a freshly connected and normalized device.
    pub fn new() -> (r: Device) {
        Device {}
    }
}

/// Failure of device initialization.
#[derive(Debug, Clone, Copy, PartialEq, Eq, Structural)]
pub enum ConnectError {
    InitFailed,
}

/// The midpoint of a channel's reported tunable range: a frequency that is
/// within the range whatever state the device was left in.
pub open spec fn mid_freq(freq_min: i64, freq_max: i64) -> int {
    freq_min + (freq_max - freq_min) / 2
}

/// A frequency guaranteed within the reported range, as the midpoint of its
/// bounds.
pub fn valid_center(freq_min: i64, freq_max: i64) -> (r: i64)
    requires
        freq_min <= freq_max,
        freq_max - freq_min <= i64::MAX,
    ensures
        r == mid_freq(freq_min, freq_max),
        freq_min <= r <= freq_max,
{
    freq_min + (freq_max - freq_min) / 2
}

/// The settings that connect-time normalization applies to a channel: the
/// defaults, with only the frequency overridden to the midpoint of the
/// channel's own reported range.
pub open spec fn normalization_settings_spec(info: RxChannelInfo) -> RxChannelSettings {
    RxChannelSettings {
        frequency: mid_freq(info.freq_min, info.freq_max) as i64,
        gain: 0,
        rate_divider_settings: SampleRateDividerSettings { m: 1, n: 1 },
        path: RfPath(RFNM_PATH_SMA_A),
    }
}

/// Build the normalization settings for a channel from its reported state.
pub fn normalization_settings(info: &RxChannelInfo) -> (r: RxChannelSettings)
    requires
        info.freq_min <= info.freq_max,
        info.freq_max - info.freq_min <= i64::MAX,
    ensures
        r == normalization_settings_spec(*info),
        info.freq_min <= r.frequency <= info.freq_max,
{
    let mut settings = RxChannelSettings::default();
    settings.frequency = valid_center(info.freq_min, info.freq_max);
    settings
}

/// The call that leaves a channel idle: enable off, streaming off, applied at once.
pub open spec fn idle_call(channel: u32) -> ConfigCall {
    ConfigCall::SetActive {
        channel: channel,
        enable: ChEnable::Off,
        stream: ChStream::Off,
        apply: true,
    }
}

/// The configuration call that disables a channel and its streaming.
pub fn channel_idle_call(channel: u32) -> (r: ConfigCall)
    ensures
        r == idle_call(channel),
{
    ConfigCall::SetActive { channel, enable: ChEnable::Off, stream: ChStream::Off, apply: true }
}

/// The per-channel part of connect-time normalization: apply the default
/// settings retuned to the midpoint of the channel's own range, then disable
/// the channel, so that every channel starts idle and validly tuned whatever
/// state an earlier shutdown left it in.
pub fn normalization_plan(info: &RxChannelInfo, channel: u32) -> (plan: Vec<ConfigCall>)
    requires
        info.freq_min <= info.freq_max,
        info.freq_max - info.freq_min <= i64::MAX,
    ensures
        plan@ == apply_plan_spec(normalization_settings_spec(*info), channel).push(
            idle_call(channel),
        ),
{
    let settings = normalization_settings(info);
    let mut plan = settings.apply_plan(channel);
    plan.push(channel_idle_call(channel));
    plan
}

} // verus!
