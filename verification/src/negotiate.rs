//! Device/format negotiator.
//!
//! Given the output configurations a device supports and the decoded track's
//! channel count and sample rate, pick the configuration the stream will be
//! built with: the first supported range whose channel count equals the
//! track's and whose sample format is single-precision float.  Within that
//! range the track's own sample rate is preferred; when the range does not
//! contain it, the range's maximum rate is used instead (no resampling is
//! performed — output then simply runs at the device's rate).

use vstd::prelude::*;
use crate::errors::EngineError;

verus! {

/// Sample representation of a device output configuration.  The engine's
/// canonical internal representation is single-precision float; every other
/// hardware format is only ever rejected, so it is modelled as one variant.
#[derive(Clone, Copy, Debug, PartialEq, Eq, Structural)]
pub enum SampleFormat {
    /// 32-bit IEEE floating point samples.
    F32,
    /// Any sample format other than 32-bit float.
    Other,
}

/// One supported output configuration range of a device: a fixed channel
/// count and sample format, valid for any sample rate between `min_rate`
/// and `max_rate` inclusive.
#[derive(Clone, Copy, Debug, PartialEq, Eq, Structural)]
pub struct ConfigRange {
    pub channels: u16,
    pub min_rate: u32,
    pub max_rate: u32,
    pub format: SampleFormat,
}

/// The configuration the output stream is built with.
#[derive(Clone, Copy, Debug, PartialEq, Eq, Structural)]
pub struct ChosenConfig {
    pub channels: u16,
    pub sample_rate: u32,
    pub format: SampleFormat,
}

/// Does this range fit the track: same channel count, float samples?
pub open spec fn config_matches(c: ConfigRange, channels: u16) -> bool {
    c.channels == channels && c.format == SampleFormat::F32
}

/// The configuration chosen from a matching range: the track's rate when the
/// range contains it, otherwise the range's maximum rate.
pub open spec fn chosen_for(c: ConfigRange, rate: u32) -> ChosenConfig {
    (ChosenConfig {
        channels: c.channels,
        sample_rate: if c.min_rate <= rate && rate <= c.max_rate { rate } else { c.max_rate },
        format: c.format,
    })
}

/// The negotiator's result: the configuration chosen from the first matching
/// range, or nothing when no range matches.
pub open spec fn spec_negotiate(cfgs: Seq<ConfigRange>, channels: u16, rate: u32) -> Option<
    ChosenConfig,
>
    decreases cfgs.len(),
{
    if cfgs.len() == 0 {
        None
    } else if config_matches(cfgs[0], channels) {
        Some(chosen_for(cfgs[0], rate))
    } else {
        spec_negotiate(cfgs.drop_first(), channels, rate)
    }
}

/// When no range up to `i` matches, the negotiation of the whole sequence is
/// decided by the suffix starting at `i`.
proof fn lemma_negotiate_skip(cfgs: Seq<ConfigRange>, channels: u16, rate: u32, i: int)
    requires
        0 <= i <= cfgs.len(),
        forall|k: int| 0 <= k < i ==> !config_matches(cfgs[k], channels),
    ensures
        spec_negotiate(cfgs, channels, rate) == spec_negotiate(cfgs.skip(i), channels, rate),
    decreases i,
{
    if i > 0 {
        lemma_negotiate_skip(cfgs, channels, rate, i - 1);
        assert(cfgs.skip(i - 1).len() > 0);
        assert(cfgs.skip(i - 1)[0] == cfgs[i - 1]);
        assert(cfgs.skip(i - 1).drop_first() =~= cfgs.skip(i));
    } else {
        assert(cfgs.skip(0) =~= cfgs);
    }
}

/// Select the output configuration for a track with `channels` channels and
/// sample rate `rate` from the device's supported ranges, scanned in order.
pub fn negotiate(configs: &Vec<ConfigRange>, channels: u16, rate: u32) -> (r: Result<
    ChosenConfig,
    EngineError,
>)
    ensures
        (r matches Ok(c) ==> spec_negotiate(configs@, channels, rate) == Some(c)),
        (r matches Ok(c) ==> c.channels == channels && c.format == SampleFormat::F32),
        (r matches Err(e) ==> e == EngineError::NoCompatibleConfig && spec_negotiate(
            configs@,
            channels,
            rate,
        ) is None),
{
    let n: usize = configs.len();
    let mut i: usize = 0;
    while i < n
        invariant
            0 <= i <= n,
            n == configs@.len(),
            forall|k: int| 0 <= k < i ==> !config_matches(configs@[k], channels),
        decreases n - i,
    {
        let c: ConfigRange = configs[i];
        if c.channels == channels && matches!(c.format, SampleFormat::F32) {
            let chosen_rate: u32 = if c.min_rate <= rate && rate <= c.max_rate {
                rate
            } else {
                c.max_rate
            };
            let chosen = (ChosenConfig { channels: c.channels, sample_rate: chosen_rate, format: c.format });
            proof {
                lemma_negotiate_skip(configs@, channels, rate, i as int);
                assert(configs@.skip(i as int)[0] == configs@[i as int]);
                assert(chosen == chosen_for(configs@[i as int], rate));
            }
            return Ok(chosen);
        }
        i = i + 1;
    }
    proof {
        lemma_negotiate_skip(configs@, channels, rate, n as int);
        assert(configs@.skip(n as int).len() == 0);
    }
    Err(EngineError::NoCompatibleConfig)
}

/// Every configuration the negotiator selects has the track's channel count
/// and single-precision float samples.
pub proof fn lemma_negotiated_config_compatible(cfgs: Seq<ConfigRange>, channels: u16, rate: u32)
    ensures
        (spec_negotiate(cfgs, channels, rate) matches Some(c) ==> c.channels == channels
            && c.format == SampleFormat::F32),
    decreases cfgs.len(),
{
    if cfgs.len() == 0 {
    } else if config_matches(cfgs[0], channels) {
    } else {
        lemma_negotiated_config_compatible(cfgs.drop_first(), channels, rate);
    }
}

/// The chosen sample rate always lies within the selected range: it is the
/// track's rate when the range contains it, and the range's maximum rate
/// otherwise.
pub proof fn lemma_negotiated_rate_supported(cfgs: Seq<ConfigRange>, channels: u16, rate: u32)
    requires
        forall|k: int| 0 <= k < cfgs.len() ==> cfgs[k].min_rate <= cfgs[k].max_rate,
    ensures
        (spec_negotiate(cfgs, channels, rate) matches Some(c) ==> exists|i: int|
            0 <= i < cfgs.len() && config_matches(cfgs[i], channels) && c == chosen_for(
                cfgs[i],
                rate,
            ) && cfgs[i].min_rate <= c.sample_rate <= cfgs[i].max_rate),
    decreases cfgs.len(),
{
    if cfgs.len() == 0 {
    } else if config_matches(cfgs[0], channels) {
        let c = chosen_for(cfgs[0], rate);
        assert(0 <= 0 < cfgs.len() && config_matches(cfgs[0], channels) && c == chosen_for(
            cfgs[0],
            rate,
        ) && cfgs[0].min_rate <= c.sample_rate <= cfgs[0].max_rate);
    } else {
        lemma_negotiated_rate_supported(cfgs.drop_first(), channels, rate);
        if spec_negotiate(cfgs, channels, rate) is Some {
            let j = choose|j: int|
                0 <= j < cfgs.drop_first().len() && config_matches(cfgs.drop_first()[j], channels)
                    && spec_negotiate(cfgs, channels, rate) == Some(
                    chosen_for(cfgs.drop_first()[j], rate),
                ) && cfgs.drop_first()[j].min_rate <= chosen_for(
                    cfgs.drop_first()[j],
                    rate,
                ).sample_rate <= cfgs.drop_first()[j].max_rate;
            assert(cfgs.drop_first()[j] == cfgs[j + 1]);
        }
    }
}

} // verus!
