//! Run configuration: sampling parameters and generation limits.
//!
//! Sampling parameters that the surrounding program receives as binary
//! floating-point knobs are held here in fixed-point form, as integer
//! millionths, so the engine's decisions about them can be verified.  The
//! driver converts to the inference runtime's own scale at the boundary.

use vstd::prelude::*;

verus! {

/// One whole unit in the fixed-point scale used for sampling parameters:
/// a parameter value of 1.0 is stored as 1_000_000 millionths.
pub const MICROS_PER_UNIT: i64 = 1_000_000;

/// Sampling parameters, resolved once per run and immutable afterwards.
///
/// All `*_micros` fields are fixed-point millionths of a unit.
#[derive(Clone, Debug)]
pub struct SamplingConfig {
    /// Temperature; 0 disables scaling. Never negative once sanitized.
    pub temperature_micros: i64,
    /// Nucleus probability mass in [0, 1]; one whole unit disables filtering.
    pub top_p_micros: i64,
    /// Top-k cap; 0 disables filtering.
    pub top_k: usize,
    /// Repeat penalty; one whole unit disables it.
    pub repeat_penalty_micros: i64,
    /// Size of the penalty recency window; negative means the entire context.
    pub repeat_last_n: i32,
    /// Presence penalty; 0 disables it.
    pub presence_penalty_micros: i64,
    /// Frequency penalty; 0 disables it.
    pub frequency_penalty_micros: i64,
    /// Random seed; `None` asks for a time-derived seed.
    pub seed: Option<u32>,
    /// Whether the terminal selection stage is mirostat rather than a
    /// plain seeded multinomial draw.
    pub mirostat: bool,
    /// Mirostat target surprise (tau).
    pub mirostat_tau_micros: i64,
    /// Mirostat learning rate (eta).
    pub mirostat_eta_micros: i64,
}

/// Limits and switches for one generation run.
#[derive(Clone, Debug)]
pub struct GenerationConfig {
    /// Context capacity in tokens.
    pub context_size: usize,
    /// Optional cap on generated tokens; reaching it is a graceful stop.
    pub max_tokens: Option<usize>,
    /// Interval between anchor injections; `None` or zero disables them.
    pub anchor_interval: Option<usize>,
    /// Whether the repetition guard is consulted.
    pub loop_guard: bool,
    /// Whether run metadata is silenced.
    pub quiet: bool,
    /// Optional override of the user-intent prompt.
    pub user_prompt: Option<String>,
}

/// Clamps a temperature to be non-negative.
pub fn sanitize_temperature(temp_micros: i64) -> (r: i64)
    ensures
        r == if temp_micros < 0 { 0int } else { temp_micros as int },
{
    if temp_micros < 0 {
        0
    } else {
        temp_micros
    }
}

/// Clamps a nucleus mass into [0, 1] (in millionths).
pub fn clamp_top_p(top_p_micros: i64) -> (r: i64)
    ensures
        r == if top_p_micros < 0 {
            0int
        } else if top_p_micros > MICROS_PER_UNIT {
            MICROS_PER_UNIT as int
        } else {
            top_p_micros as int
        },
{
    if top_p_micros < 0 {
        0
    } else if top_p_micros > MICROS_PER_UNIT {
        MICROS_PER_UNIT
    } else {
        top_p_micros
    }
}

/// Clamps a penalty to be non-negative.
pub fn sanitize_penalty(penalty_micros: i64) -> (r: i64)
    ensures
        r == if penalty_micros < 0 { 0int } else { penalty_micros as int },
{
    if penalty_micros < 0 {
        0
    } else {
        penalty_micros
    }
}

} // verus!
