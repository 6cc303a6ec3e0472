//! Sampling pipeline builder: turns a sampling configuration into the
//! ordered sequence of logit transformations plus one terminal selection
//! stage, applied to a raw candidate distribution once per position.
//!
//! The stage order is fixed: temperature scaling, top-k filtering, top-p
//! filtering, the combined repeat/frequency/presence penalty, the static
//! logit bias, and finally either a seeded multinomial draw or mirostat.
//! Each stage appears only when its configuration enables it.  The driver
//! realises the plan in the inference runtime's own sampler objects.

use vstd::prelude::*;

use crate::config::MICROS_PER_UNIT;
use crate::config::SamplingConfig;

verus! {

/// Fixed bias applied to every discouraged token id, in millionths.
pub const LOGIT_BIAS_MICROS: i64 = -2_200_000;

/// A fixed additive adjustment to one token id's selection score,
/// independent of recency.
#[derive(Clone, Copy, Debug, PartialEq, Eq, Structural)]
pub struct BiasEntry {
    pub token_id: i32,
    pub bias_micros: i64,
}

/// One stage of the sampling pipeline, in fixed-point millionths where the
/// inference runtime takes a fraction.
#[derive(Clone, Debug)]
pub enum SamplerStage {
    /// Reshapes the distribution's sharpness; present only when the
    /// temperature is positive.
    Temperature { micros: i64 },
    /// Retains the k highest-probability candidates; present only when k
    /// is positive.
    TopK { k: usize },
    /// Retains the minimal prefix of sorted candidates whose cumulative
    /// probability reaches the mass; present only when the mass is below
    /// one whole unit.
    TopP { micros: i64 },
    /// Penalizes candidates seen within the trailing penalty window of
    /// accepted tokens; `last_n` of -1 spans the entire context.
    Penalties {
        last_n: i32,
        repeat_micros: i64,
        frequency_micros: i64,
        presence_micros: i64,
    },
    /// Subtracts a fixed penalty from every biased token id; present only
    /// when the table is non-empty.
    Bias { vocab_size: i32, entries: Vec<BiasEntry> },
    /// Terminal stage: a seeded multinomial draw.
    Multinomial { seed: u32 },
    /// Terminal stage: adaptive perplexity-targeting selection with
    /// running state.
    Mirostat { seed: u32, tau_micros: i64, eta_micros: i64 },
}

/// Whether any of the recency penalties is configured on.
pub open spec fn spec_penalties_enabled(cfg: &SamplingConfig) -> bool {
    ||| cfg.repeat_penalty_micros != MICROS_PER_UNIT
    ||| cfg.frequency_penalty_micros != 0
    ||| cfg.presence_penalty_micros != 0
    ||| cfg.repeat_last_n != 0
}

/// The resolved penalty window: a negative request means the entire
/// context (the runtime's convention is -1); otherwise the request, capped
/// at the context size.
pub open spec fn spec_penalty_window(cfg: &SamplingConfig, context_size: int) -> int {
    if cfg.repeat_last_n < 0 {
        -1
    } else if cfg.repeat_last_n <= context_size {
        cfg.repeat_last_n as int
    } else {
        context_size
    }
}

/// The full pipeline for one run: every enabled stage in the fixed order,
/// closed by exactly one terminal selection stage.
pub open spec fn spec_sampler_plan(
    cfg: &SamplingConfig,
    context_size: int,
    seed: u32,
    vocab_size: i32,
    biases: Vec<BiasEntry>,
) -> Seq<SamplerStage> {
    (if cfg.temperature_micros > 0 {
        seq![SamplerStage::Temperature { micros: cfg.temperature_micros }]
    } else {
        Seq::<SamplerStage>::empty()
    }) + (if cfg.top_k > 0 {
        seq![SamplerStage::TopK { k: cfg.top_k }]
    } else {
        Seq::<SamplerStage>::empty()
    }) + (if cfg.top_p_micros < MICROS_PER_UNIT {
        seq![SamplerStage::TopP { micros: cfg.top_p_micros }]
    } else {
        Seq::<SamplerStage>::empty()
    }) + (if spec_penalties_enabled(cfg) {
        seq![
            SamplerStage::Penalties {
                last_n: spec_penalty_window(cfg, context_size) as i32,
                repeat_micros: cfg.repeat_penalty_micros,
                frequency_micros: cfg.frequency_penalty_micros,
                presence_micros: cfg.presence_penalty_micros,
            },
        ]
    } else {
        Seq::<SamplerStage>::empty()
    }) + (if biases@.len() > 0 {
        seq![SamplerStage::Bias { vocab_size, entries: biases }]
    } else {
        Seq::<SamplerStage>::empty()
    }) + seq![
        if cfg.mirostat {
            SamplerStage::Mirostat {
                seed,
                tau_micros: cfg.mirostat_tau_micros,
                eta_micros: cfg.mirostat_eta_micros,
            }
        } else {
            SamplerStage::Multinomial { seed }
        },
    ]
}

/// Resolves the penalty window against the context size.
pub fn penalty_window(sampling: &SamplingConfig, context_size: usize) -> (r: i32)
    requires
        context_size <= i32::MAX,
    ensures
        r == spec_penalty_window(sampling, context_size as int),
{
    if sampling.repeat_last_n < 0 {
        -1
    } else if sampling.repeat_last_n as usize <= context_size {
        sampling.repeat_last_n
    } else {
        context_size as i32
    }
}

/// Builds the pipeline for one run: every enabled stage in the fixed
/// order, closed by exactly one terminal selection stage.
pub fn build_sampler_chain(
    sampling: &SamplingConfig,
    context_size: usize,
    seed: u32,
    vocab_size: i32,
    logit_biases: Vec<BiasEntry>,
) -> (plan: Vec<SamplerStage>)
    requires
        context_size <= i32::MAX,
    ensures
        plan@ =~= spec_sampler_plan(sampling, context_size as int, seed, vocab_size,
        logit_biases),
{
    let mut plan: Vec<SamplerStage> = Vec::new();
    if sampling.temperature_micros > 0 {
        plan.push(SamplerStage::Temperature { micros: sampling.temperature_micros });
    }
    if sampling.top_k > 0 {
        plan.push(SamplerStage::TopK { k: sampling.top_k });
    }
    if sampling.top_p_micros < MICROS_PER_UNIT {
        plan.push(SamplerStage::TopP { micros: sampling.top_p_micros });
    }
    if sampling.repeat_penalty_micros != MICROS_PER_UNIT || sampling.frequency_penalty_micros
        != 0 || sampling.presence_penalty_micros != 0 || sampling.repeat_last_n != 0 {
        plan.push(
            SamplerStage::Penalties {
                last_n: penalty_window(sampling, context_size),
                repeat_micros: sampling.repeat_penalty_micros,
                frequency_micros: sampling.frequency_penalty_micros,
                presence_micros: sampling.presence_penalty_micros,
            },
        );
    }
    if logit_biases.len() > 0 {
        plan.push(SamplerStage::Bias { vocab_size, entries: logit_biases });
    }
    if sampling.mirostat {
        plan.push(
            SamplerStage::Mirostat {
                seed,
                tau_micros: sampling.mirostat_tau_micros,
                eta_micros: sampling.mirostat_eta_micros,
            },
        );
    } else {
        plan.push(SamplerStage::Multinomial { seed });
    }
    plan
}

/// The bias entries for the discouraged terms, one per sub-token, each
/// carrying the fixed bias.
pub open spec fn spec_bias_entries_of(ts: Seq<i32>) -> Seq<BiasEntry> {
    ts.map_values(|t: i32| BiasEntry { token_id: t, bias_micros: LOGIT_BIAS_MICROS })
}

/// The flattened bias table over the tokenizations of all terms, in term
/// order.
pub open spec fn spec_flatten_biases(lists: Seq<Seq<i32>>) -> Seq<BiasEntry>
    decreases lists.len(),
{
    if lists.len() == 0 {
        Seq::empty()
    } else {
        spec_flatten_biases(lists.drop_last()) + spec_bias_entries_of(lists.last())
    }
}

/// Builds the static logit-bias table from the tokenizations of the
/// discouraged terms: every sub-token of every term is biased identically.
pub fn build_bias_entries(token_lists: &Vec<Vec<i32>>) -> (r: Vec<BiasEntry>)
    ensures
        r@ =~= spec_flatten_biases(token_lists.deep_view()),
{
    let ghost lists = token_lists.deep_view();
    let mut r: Vec<BiasEntry> = Vec::new();
    let mut i: usize = 0;
    while i < token_lists.len()
        invariant
            0 <= i <= token_lists@.len(),
            lists == token_lists.deep_view(),
            lists.len() == token_lists@.len(),
            r@ =~= spec_flatten_biases(lists.subrange(0, i as int)),
        decreases token_lists@.len() - i,
    {
        proof {
            assert(lists[i as int] == token_lists@[i as int]@);
        }
        let list = &token_lists[i];
        let mut j: usize = 0;
        while j < list.len()
            invariant
                0 <= j <= list@.len(),
                lists == token_lists.deep_view(),
                lists.len() == token_lists@.len(),
                0 <= i < token_lists@.len(),
                list@ == lists[i as int],
                r@ =~= spec_flatten_biases(lists.subrange(0, i as int))
                    + spec_bias_entries_of(list@.subrange(0, j as int)),
            decreases list@.len() - j,
        {
            r.push(BiasEntry { token_id: list[j], bias_micros: LOGIT_BIAS_MICROS });
            proof {
                assert(list@.subrange(0, j as int + 1) =~= list@.subrange(0, j as int).push(
                list@[j as int]));
                assert(spec_bias_entries_of(list@.subrange(0, j as int + 1))
                    =~= spec_bias_entries_of(list@.subrange(0, j as int)).push(
                BiasEntry { token_id: list@[j as int], bias_micros: LOGIT_BIAS_MICROS }));
            }
            j += 1;
        }
        proof {
            assert(list@.subrange(0, list@.len() as int) =~= list@);
            assert(lists.subrange(0, i as int + 1).drop_last() =~= lists.subrange(
                0,
                i as int,
            ));
            assert(lists.subrange(0, i as int + 1).last() == lists[i as int]);
        }
        i += 1;
    }
    proof {
        assert(lists.subrange(0, lists.len() as int) =~= lists);
    }
    r
}

/// The fixed list of discouraged terms: punctuation, meta-markers,
/// self-referential phrases and digits.  Every sub-token of each term's
/// tokenization receives the fixed bias.
pub open spec fn spec_discouraged_terms() -> Seq<Seq<char>> {
    seq![
        "\""@,
        "\u{201c}"@,
        "\u{201d}"@,
        ":"@,
        "?"@,
        "Q:"@,
        "A:"@,
        "%"@,
        "<|im_start|>"@,
        "<|im_end|>"@,
        "~~~"@,
        "The world is"@,
        "I'm not here"@,
        "I do not"@,
        "I have been"@,
        "dialogue"@,
        "you are a"@,
        "I am"@,
        "I am a"@,
        "I have been programmed"@,
        "I am not here"@,
        "I do not know"@,
        "I cannot"@,
        "100%"@,
        "percent"@,
        "0"@,
        "1"@,
        "2"@,
        "3"@,
        "4"@,
        "5"@,
        "6"@,
        "7"@,
        "8"@,
        "9"@,
    ]
}

/// The fixed list of discouraged terms, for the driver to tokenize.
pub fn discouraged_terms() -> (r: Vec<&'static str>)
    ensures
        r.deep_view() =~= spec_discouraged_terms(),
{
    let mut r: Vec<&'static str> = Vec::new();
    r.push("\"");
    r.push("\u{201c}");
    r.push("\u{201d}");
    r.push(":");
    r.push("?");
    r.push("Q:");
    r.push("A:");
    r.push("%");
    r.push("<|im_start|>");
    r.push("<|im_end|>");
    r.push("~~~");
    r.push("The world is");
    r.push("I'm not here");
    r.push("I do not");
    r.push("I have been");
    r.push("dialogue");
    r.push("you are a");
    r.push("I am");
    r.push("I am a");
    r.push("I have been programmed");
    r.push("I am not here");
    r.push("I do not know");
    r.push("I cannot");
    r.push("100%");
    r.push("percent");
    r.push("0");
    r.push("1");
    r.push("2");
    r.push("3");
    r.push("4");
    r.push("5");
    r.push("6");
    r.push("7");
    r.push("8");
    r.push("9");
    proof {
        assert(r.deep_view() =~= spec_discouraged_terms());
    }
    r
}

/// Relies on `std::time::SystemTime::now` for a time-derived seed; nothing
/// is promised of the value, and the caller treats every outcome alike.
#[verifier::external_body]
fn nanos_seed() -> u32 {
    let now = std::time::SystemTime::now()
        .duration_since(std::time::UNIX_EPOCH)
        .unwrap_or_default();
    (now.as_nanos() & 0xFFFF_FFFF) as u32
}

/// An explicit seed is kept as given; otherwise a time-derived seed is
/// drawn, of which nothing is assumed.
pub fn resolve_seed(seed: Option<u32>) -> (r: u32)
    ensures
        seed matches Some(s) ==> r == s,
{
    match seed {
        Some(s) => s,
        None => nanos_seed(),
    }
}

} // verus!
