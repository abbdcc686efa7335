use vstd::prelude::*;
use vstd::string::StringExecFns;

use crate::text::{dec_rep, u32_decimal};

verus! {

/// Path id of the first physically labeled SMA connector.
pub const RFNM_PATH_SMA_A: u32 = 0;
/// Path id of the embedded antenna.
pub const RFNM_PATH_EMBED_ANT: u32 = 8;
/// Path id of the loopback route.
pub const RFNM_PATH_LOOPBACK: u32 = 9;
/// The sentinel path id that denotes no path.
pub const RFNM_PATH_NULL: u32 = 10;

/// A selectable RF signal route, wrapping its native path id. Ids below eight
/// are the physically labeled SMA connectors A through H; one reserved id each
/// denotes the embedded antenna, the loopback route and "no path"; any other
/// id still round-trips through storage but has no display label of its own.
#[derive(Debug, Clone, Copy, PartialEq, Eq, Structural)]
pub struct RfPath(pub u32);

/// The display label of a path id.
pub open spec fn path_label(id: u32) -> Seq<char> {
    if id == RFNM_PATH_EMBED_ANT {
        "embed"@
    } else if id == RFNM_PATH_LOOPBACK {
        "loopback"@
    } else if id == RFNM_PATH_NULL {
        "null"@
    } else if id == 0 {
        "SMA_A"@
    } else if id == 1 {
        "SMA_B"@
    } else if id == 2 {
        "SMA_C"@
    } else if id == 3 {
        "SMA_D"@
    } else if id == 4 {
        "SMA_E"@
    } else if id == 5 {
        "SMA_F"@
    } else if id == 6 {
        "SMA_G"@
    } else if id == 7 {
        "SMA_H"@
    } else {
        "Invalid channel (saw id: "@ + dec_rep(id as nat) + ")"@
    }
}

impl RfPath {
    /// The path's display label: the SMA letter, a name for a reserved id, or
    /// a note carrying an id that has no label.
    pub fn display_string(&self) -> (r: String)
        ensures
            r@ == path_label(self.0),
    {
        let id = self.0;
        if id == RFNM_PATH_EMBED_ANT {
            String::from_str("embed")
        } else if id == RFNM_PATH_LOOPBACK {
            String::from_str("loopback")
        } else if id == RFNM_PATH_NULL {
            String::from_str("null")
        } else if id < 8 {
            match id {
                0 => String::from_str("SMA_A"),
                1 => String::from_str("SMA_B"),
                2 => String::from_str("SMA_C"),
                3 => String::from_str("SMA_D"),
                4 => String::from_str("SMA_E"),
                5 => String::from_str("SMA_F"),
                6 => String::from_str("SMA_G"),
                _ => String::from_str("SMA_H"),
            }
        } else {
            let digits = u32_decimal(id);
            let r = String::from_str("Invalid channel (saw id: ").concat(digits.as_str()).concat(
                ")",
            );
            proof {
                assert(r@ =~= path_label(id));
            }
            r
        }
    }
}

impl Default for RfPath {
    /// The default path is the first SMA connector.
    fn default() -> (r: Self)
        ensures
            r.0 == RFNM_PATH_SMA_A,
    {
        RfPath(RFNM_PATH_SMA_A)
    }
}

/// The sample-rate divider pair of one receive channel.
#[derive(Debug, Clone, Copy, PartialEq, Eq, Structural)]
pub struct SampleRateDividerSettings {
    pub m: i16,
    pub n: i16,
}

impl Default for SampleRateDividerSettings {
    /// The default divider pair leaves the sample rate undivided.
    fn default() -> (r: Self)
        ensures
            r.m == 1 && r.n == 1,
    {
        SampleRateDividerSettings { m: 1, n: 1 }
    }
}

/// Enable state of a receive channel.
#[derive(Debug, Clone, Copy, PartialEq, Eq, Structural)]
pub enum ChEnable {
    On,
    Off,
}

/// Streaming state of a receive channel.
#[derive(Debug, Clone, Copy, PartialEq, Eq, Structural)]
pub enum ChStream {
    On,
    Off,
}

/// One native per-channel configuration call, described as plain values.
#[derive(Debug, Clone, Copy, PartialEq, Eq, Structural)]
pub enum ConfigCall {
    SetSampFreqDiv { channel: u32, m: i16, n: i16, apply: bool },
    SetGain { channel: u32, gain: i8, apply: bool },
    SetPath { channel: u32, path: RfPath, apply: bool },
    SetFreq { channel: u32, freq_hz: i64, apply: bool },
    SetActive { channel: u32, enable: ChEnable, stream: ChStream, apply: bool },
}

/// The settable portion of a receive channel's state. All members are public
/// to ease editing.
#[derive(Debug, Clone, Copy)]
pub struct RxChannelSettings {
    pub frequency: i64,
    pub gain: i8,
    pub rate_divider_settings: SampleRateDividerSettings,
    pub path: RfPath,
}

impl Default for RxChannelSettings {
    /// The default settings: 100 MHz, zero gain, undivided rate, first SMA path.
    fn default() -> (r: Self)
        ensures
            r.frequency == 100_000_000,
            r.gain == 0,
            r.rate_divider_settings.m == 1 && r.rate_divider_settings.n == 1,
            r.path.0 == RFNM_PATH_SMA_A,
    {
        RxChannelSettings {
            frequency: 100_000_000,
            gain: 0,
            rate_divider_settings: SampleRateDividerSettings { m: 1, n: 1 },
            path: RfPath(RFNM_PATH_SMA_A),
        }
    }
}

/// The four configuration calls that applying the settings to one channel
/// issues, in their fixed order: sample-rate divider first, then gain, then RF
/// path, and frequency last, since a frequency change is the one most likely
/// to disturb the rest of the channel's state. The divider call carries the
/// `m` value for both halves of the native divider pair.
pub open spec fn apply_plan_spec(s: RxChannelSettings, channel: u32) -> Seq<ConfigCall> {
    seq![
        ConfigCall::SetSampFreqDiv {
            channel: channel,
            m: s.rate_divider_settings.m,
            n: s.rate_divider_settings.m,
            apply: false,
        },
        ConfigCall::SetGain { channel: channel, gain: s.gain, apply: false },
        ConfigCall::SetPath { channel: channel, path: s.path, apply: false },
        ConfigCall::SetFreq { channel: channel, freq_hz: s.frequency, apply: true },
    ]
}

impl RxChannelSettings {
    /// The ordered list of native configuration calls that applies these
    /// settings to the given channel. The first call that fails aborts the
    /// rest of the run; a run cut short leaves the channel in a mixed state,
    /// which is accepted rather than rolled back.
    pub fn apply_plan(&self, channel: u32) -> (plan: Vec<ConfigCall>)
        ensures
            plan@ == apply_plan_spec(*self, channel),
    {
        let mut plan: Vec<ConfigCall> = Vec::new();
        plan.push(ConfigCall::SetSampFreqDiv {
            channel,
            m: self.rate_divider_settings.m,
            n: self.rate_divider_settings.m,
            apply: false,
        });
        plan.push(ConfigCall::SetGain { channel, gain: self.gain, apply: false });
        plan.push(ConfigCall::SetPath { channel, path: self.path, apply: false });
        plan.push(ConfigCall::SetFreq { channel, freq_hz: self.frequency, apply: true });
        proof {
            assert(plan@ =~= apply_plan_spec(*self, channel));
        }
        plan
    }
}

/// Applying any settings issues exactly four configuration calls, in the fixed
/// order: sample-rate divider, gain, RF path, and frequency last.
pub proof fn lemma_apply_order(s: RxChannelSettings, channel: u32)
    ensures
        apply_plan_spec(s, channel).len() == 4,
        apply_plan_spec(s, channel)[0] is SetSampFreqDiv,
        apply_plan_spec(s, channel)[1] is SetGain,
        apply_plan_spec(s, channel)[2] is SetPath,
        apply_plan_spec(s, channel)[3] is SetFreq,
{
}

/// The full reported state of one receive channel, produced fresh on every
/// query; the settable subset of it is `RxChannelSettings`.
#[derive(Debug, Clone, Copy)]
pub struct RxChannelInfo {
    pub freq: i64,
    pub freq_min: i64,
    pub freq_max: i64,
    pub gain: i8,
    pub samp_freq_div_m: i16,
    pub samp_freq_div_n: i16,
    pub path: RfPath,
    pub path_preferred: RfPath,
    pub path_possible: [RfPath; 10],
}

/// The settable subset of a channel's reported state.
pub open spec fn to_settings_spec(info: RxChannelInfo) -> RxChannelSettings {
    RxChannelSettings {
        frequency: info.freq,
        gain: info.gain,
        rate_divider_settings: SampleRateDividerSettings {
            m: info.samp_freq_div_m,
            n: info.samp_freq_div_n,
        },
        path: info.path,
    }
}

/// The reported paths with the "no path" sentinel left out.
pub open spec fn supported_paths(paths: Seq<RfPath>) -> Seq<RfPath>
    decreases paths.len(),
{
    if paths.len() == 0 {
        Seq::empty()
    } else {
        let rest = supported_paths(paths.drop_last());
        if paths.last().0 != RFNM_PATH_NULL {
            rest.push(paths.last())
        } else {
            rest
        }
    }
}

/// The "no path" sentinel is never among the supported paths.
pub proof fn lemma_supported_paths_no_null(paths: Seq<RfPath>)
    ensures
        forall|i: int|
            0 <= i < supported_paths(paths).len() ==> (#[trigger] supported_paths(paths)[i]).0
                != RFNM_PATH_NULL,
    decreases paths.len(),
{
    if paths.len() > 0 {
        lemma_supported_paths_no_null(paths.drop_last());
        let rest = supported_paths(paths.drop_last());
        let all = supported_paths(paths);
        if paths.last().0 != RFNM_PATH_NULL {
            assert(all == rest.push(paths.last()));
            assert forall|i: int| 0 <= i < all.len() implies (#[trigger] all[i]).0
                != RFNM_PATH_NULL by {
                if i < rest.len() {
                    assert(all[i] == rest[i]);
                } else {
                    assert(all[i] == paths.last());
                }
            }
        } else {
            assert(all == rest);
        }
    }
}

impl RxChannelInfo {
    /// Extract the part of the reported state that can be changed at runtime.
    pub fn to_settings(&self) -> (r: RxChannelSettings)
        ensures
            r == to_settings_spec(*self),
    {
        RxChannelSettings {
            frequency: self.freq,
            gain: self.gain,
            rate_divider_settings: SampleRateDividerSettings {
                m: self.samp_freq_div_m,
                n: self.samp_freq_div_n,
            },
            path: self.path,
        }
    }

    /// The channel's current frequency in Hz.
    pub fn freq(&self) -> (r: i64)
        ensures
            r == self.freq,
    {
        self.freq
    }

    /// Every path the channel supports; the "no path" sentinel is never included.
    pub fn available_paths(&self) -> (r: Vec<RfPath>)
        ensures
            r@ == supported_paths(self.path_possible@),
    {
        let mut r: Vec<RfPath> = Vec::new();
        let mut i: usize = 0;
        while i < 10
            invariant
                i <= 10,
                r@ == supported_paths(self.path_possible@.take(i as int)),
            decreases 10 - i,
        {
            proof {
                let taken = self.path_possible@.take(i + 1);
                assert(taken.drop_last() =~= self.path_possible@.take(i as int));
                assert(taken.last() == self.path_possible@[i as int]);
            }
            let p = self.path_possible[i];
            if p.0 != RFNM_PATH_NULL {
                r.push(p);
            }
            i = i + 1;
        }
        proof {
            assert(self.path_possible@.take(10) =~= self.path_possible@);
        }
        r
    }

    /// The channel's current path.
    pub fn path(&self) -> (r: RfPath)
        ensures
            r == self.path,
    {
        self.path
    }

    /// The path the device prefers for this channel.
    pub fn preferred_path(&self) -> (r: RfPath)
        ensures
            r == self.path_preferred,
    {
        self.path_preferred
    }
}

/// Round trip: the plan that re-applies the settings projected from a
/// channel's reported state carries exactly the values the channel reported,
/// with the reported `m` standing in both halves of the divider call.
pub proof fn lemma_round_trip_plan(info: RxChannelInfo, channel: u32)
    ensures
        apply_plan_spec(to_settings_spec(info), channel) =~= seq![
            (ConfigCall::SetSampFreqDiv {
                channel: channel,
                m: info.samp_freq_div_m,
                n: info.samp_freq_div_m,
                apply: false,
            }),
            (ConfigCall::SetGain { channel: channel, gain: info.gain, apply: false }),
            (ConfigCall::SetPath { channel: channel, path: info.path, apply: false }),
            (ConfigCall::SetFreq { channel: channel, freq_hz: info.freq, apply: true }),
        ],
{
}

} // verus!
