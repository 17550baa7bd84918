use vstd::prelude::*;

use crate::error::{PiperError, PiperResult};

verus! {

/// Native parameters are expressed in thousandths of the engine's unit
/// (a speed factor of 1.5 is 1500).
pub const RATE_MIN: u32 = 0;
pub const RATE_MAX: u32 = 5000;
pub const VOLUME_MIN: u32 = 100;
pub const VOLUME_MAX: u32 = 1900;
pub const PITCH_MIN: u32 = 500;
pub const PITCH_MAX: u32 = 1500;

/// The number of audio channels the engine is configured with.
pub const CHANNELS: u32 = 1;

/// A percentage, with values above 100 taken as 100.
pub open spec fn clamp_percent(p: int) -> int {
    if p > 100 { 100 } else { p }
}

/// The native value, in thousandths, for a percentage on the range `[min, max]`:
/// `min + (p / 100) * (max - min)`, with the percentage clamped to `[0, 100]`.
pub open spec fn param_of(p: int, min: int, max: int) -> int {
    min + clamp_percent(p) * (max - min) / 100
}

/// Maps a percentage onto the range `[min, max]` (in thousandths) linearly.
pub fn percent_to_param(value: u8, min: u32, max: u32) -> (r: u32)
    requires
        min <= max <= 10_000_000,
    ensures
        r == param_of(value as int, min as int, max as int),
        min <= r <= max,
{
    let p: u32 = if value > 100 { 100 } else { value as u32 };
    proof {
        assert(0 <= p * (max - min) <= 100 * (max - min)) by (nonlinear_arith)
            requires p <= 100, min <= max;
        assert(p * (max - min) / 100 <= max - min) by (nonlinear_arith)
            requires 0 <= p * (max - min) <= 100 * (max - min);
        assert(100 * (max - min) <= 1_000_000_000);
    }
    min + p * (max - min) / 100
}

/// For every percentage in `[0, 100]` the native parameter lies in `[min, max]`;
/// the mapping is monotonic; and where `max - min` is a multiple of 100 (as for
/// the rate, volume and pitch ranges) it is exactly `min + p * (max - min) / 100`.
pub proof fn lemma_param_in_range_linear_monotonic(p: int, q: int, min: int, max: int)
    requires
        0 <= p <= 100,
        0 <= q <= 100,
        min <= max,
    ensures
        min <= param_of(p, min, max) <= max,
        p <= q ==> param_of(p, min, max) <= param_of(q, min, max),
        (max - min) % 100 == 0 ==> param_of(p, min, max) == min + p * ((max - min) / 100),
        param_of(0, min, max) == min,
        param_of(100, min, max) == max,
{
    let d = max - min;
    assert(0 <= p * d <= 100 * d) by (nonlinear_arith)
        requires 0 <= p <= 100, 0 <= d;
    assert(p * d / 100 <= d) by (nonlinear_arith)
        requires 0 <= p * d <= 100 * d;
    assert(p <= q ==> p * d / 100 <= q * d / 100) by (nonlinear_arith)
        requires 0 <= p, 0 <= q, 0 <= d;
    assert(d % 100 == 0 ==> p * d / 100 == p * (d / 100)) by (nonlinear_arith)
        requires 0 <= p, 0 <= d;
    assert(100 * d / 100 == d) by (nonlinear_arith);
    assert(0 * d / 100 == 0) by (nonlinear_arith);
}

/// Optional rate, volume and pitch settings, each a percentage.
#[derive(Debug, Clone, Copy)]
pub struct AudioOutputConfig {
    pub rate: Option<u8>,
    pub volume: Option<u8>,
    pub pitch: Option<u8>,
}

/// What the post-processing engine is set up with: the sample rate, the channel
/// count, and each configured parameter in thousandths.
#[derive(Debug, Clone, Copy)]
pub struct EngineSettings {
    pub sample_rate: u32,
    pub channels: u32,
    pub speed: Option<u32>,
    pub volume: Option<u32>,
    pub pitch: Option<u32>,
}

/// Work for the post-processing engine: its settings and the samples to feed it.
#[derive(Debug)]
pub struct EngineJob {
    pub settings: EngineSettings,
    pub samples: Vec<i16>,
}

/// What applying the effects to a buffer comes to: the buffer as it was, with no
/// engine session at all, or a job for the engine.
#[derive(Debug)]
pub enum ApplyPlan {
    Unchanged(Vec<i16>),
    Run(EngineJob),
}

/// The native value of an optional percentage.
pub open spec fn opt_param(p: Option<u8>, min: u32, max: u32) -> Option<u32> {
    match p {
        Some(v) => Some(param_of(v as int, min as int, max as int) as u32),
        None => None,
    }
}

fn opt_percent_to_param(p: Option<u8>, min: u32, max: u32) -> (r: Option<u32>)
    requires
        min <= max <= 10_000_000,
    ensures
        r == opt_param(p, min, max),
{
    match p {
        Some(v) => Some(percent_to_param(v, min, max)),
        None => None,
    }
}

impl AudioOutputConfig {
    pub fn new(rate: Option<u8>, volume: Option<u8>, pitch: Option<u8>) -> (r: Self)
        ensures
            r.rate == rate,
            r.volume == volume,
            r.pitch == pitch,
    {
        AudioOutputConfig { rate, volume, pitch }
    }

    pub open spec fn any_set(&self) -> bool {
        self.rate is Some || self.volume is Some || self.pitch is Some
    }

    /// Whether at least one of rate, volume and pitch is set.
    pub fn has_any_option_set(&self) -> (r: bool)
        ensures
            r == self.any_set(),
    {
        self.rate.is_some() || self.volume.is_some() || self.pitch.is_some()
    }

    /// The engine settings for a buffer at `sample_rate`.
    pub open spec fn settings_for(&self, sample_rate: u32) -> EngineSettings {
        EngineSettings {
            sample_rate,
            channels: CHANNELS,
            speed: opt_param(self.rate, RATE_MIN, RATE_MAX),
            volume: opt_param(self.volume, VOLUME_MIN, VOLUME_MAX),
            pitch: opt_param(self.pitch, PITCH_MIN, PITCH_MAX),
        }
    }

    pub fn engine_settings(&self, sample_rate: u32) -> (r: EngineSettings)
        ensures
            r == self.settings_for(sample_rate),
    {
        EngineSettings {
            sample_rate,
            channels: CHANNELS,
            speed: opt_percent_to_param(self.rate, RATE_MIN, RATE_MAX),
            volume: opt_percent_to_param(self.volume, VOLUME_MIN, VOLUME_MAX),
            pitch: opt_percent_to_param(self.pitch, PITCH_MIN, PITCH_MAX),
        }
    }

    /// The first half of applying the effects: an empty buffer comes back as it
    /// is, and no engine is involved; any other becomes a job for the engine.
    pub fn apply(&self, audio: Vec<i16>, sample_rate: u32) -> (r: ApplyPlan)
        ensures
            audio@.len() == 0 ==> r == ApplyPlan::Unchanged(audio),
            audio@.len() > 0 ==> r == ApplyPlan::Run(
                (EngineJob { settings: self.settings_for(sample_rate), samples: audio }),
            ),
    {
        if audio.len() == 0 {
            return ApplyPlan::Unchanged(audio);
        }
        let settings = self.engine_settings(sample_rate);
        ApplyPlan::Run(EngineJob { settings, samples: audio })
    }
}

/// The second half of applying the effects: the engine reported `available`
/// samples after its flush and `read` was read out of it. A count that is not
/// positive is a fault of the parameters or of the engine.
pub fn finish_apply(available: i32, read: Vec<i16>) -> (r: PiperResult<Vec<i16>>)
    ensures
        available <= 0 ==> (r matches Err(PiperError::OperationError(_))),
        available > 0 ==> r == Ok::<Vec<i16>, PiperError>(read),
{
    if available <= 0 {
        return Err(
            PiperError::OperationError(
                "failed to apply audio config: invalid parameter value for rate, volume, or pitch".to_string(),
            ),
        );
    }
    Ok(read)
}

} // verus!
