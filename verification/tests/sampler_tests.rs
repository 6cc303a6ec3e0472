use out_of_context::config::MICROS_PER_UNIT;
use out_of_context::config::SamplingConfig;
use out_of_context::config::clamp_top_p;
use out_of_context::config::sanitize_penalty;
use out_of_context::config::sanitize_temperature;
use out_of_context::sampler::BiasEntry;
use out_of_context::sampler::LOGIT_BIAS_MICROS;
use out_of_context::sampler::SamplerStage;
use out_of_context::sampler::build_bias_entries;
use out_of_context::sampler::build_sampler_chain;
use out_of_context::sampler::discouraged_terms;
use out_of_context::sampler::penalty_window;
use out_of_context::sampler::resolve_seed;

fn default_sampling() -> SamplingConfig {
    SamplingConfig {
        temperature_micros: 220_000,
        top_p_micros: 500_000,
        top_k: 20,
        repeat_penalty_micros: 2_150_000,
        repeat_last_n: -1,
        presence_penalty_micros: 1_350_000,
        frequency_penalty_micros: 1_050_000,
        seed: Some(42),
        mirostat: false,
        mirostat_tau_micros: 5_000_000,
        mirostat_eta_micros: 100_000,
    }
}

#[test]
fn negative_repeat_last_n_spans_entire_context() {
    let mut s = default_sampling();
    s.repeat_last_n = -1;
    assert_eq!(penalty_window(&s, 1024), -1);
}

#[test]
fn positive_repeat_last_n_is_kept() {
    let mut s = default_sampling();
    s.repeat_last_n = 50;
    assert_eq!(penalty_window(&s, 1024), 50);
}

#[test]
fn repeat_last_n_is_capped_at_context_size() {
    let mut s = default_sampling();
    s.repeat_last_n = 2000;
    assert_eq!(penalty_window(&s, 1024), 1024);
}

#[test]
fn full_chain_has_every_stage_in_order() {
    let s = default_sampling();
    let biases = vec![BiasEntry { token_id: 7, bias_micros: LOGIT_BIAS_MICROS }];
    let plan = build_sampler_chain(&s, 1024, 42, 32000, biases);
    assert_eq!(plan.len(), 6);
    assert!(matches!(plan[0], SamplerStage::Temperature { micros: 220_000 }));
    assert!(matches!(plan[1], SamplerStage::TopK { k: 20 }));
    assert!(matches!(plan[2], SamplerStage::TopP { micros: 500_000 }));
    assert!(matches!(
        plan[3],
        SamplerStage::Penalties {
            last_n: -1,
            repeat_micros: 2_150_000,
            frequency_micros: 1_050_000,
            presence_micros: 1_350_000,
        }
    ));
    match &plan[4] {
        SamplerStage::Bias { vocab_size, entries } => {
            assert_eq!(*vocab_size, 32000);
            assert_eq!(entries.len(), 1);
            assert_eq!(entries[0], BiasEntry { token_id: 7, bias_micros: LOGIT_BIAS_MICROS });
        }
        other => panic!("expected a bias stage, got {other:?}"),
    }
    assert!(matches!(plan[5], SamplerStage::Multinomial { seed: 42 }));
}

#[test]
fn disabled_stages_leave_only_the_terminal_draw() {
    let s = SamplingConfig {
        temperature_micros: 0,
        top_p_micros: MICROS_PER_UNIT,
        top_k: 0,
        repeat_penalty_micros: MICROS_PER_UNIT,
        repeat_last_n: 0,
        presence_penalty_micros: 0,
        frequency_penalty_micros: 0,
        seed: Some(9),
        mirostat: false,
        mirostat_tau_micros: 5_000_000,
        mirostat_eta_micros: 100_000,
    };
    let plan = build_sampler_chain(&s, 1024, 9, 32000, Vec::new());
    assert_eq!(plan.len(), 1);
    assert!(matches!(plan[0], SamplerStage::Multinomial { seed: 9 }));
}

#[test]
fn mirostat_replaces_the_multinomial_draw() {
    let mut s = default_sampling();
    s.mirostat = true;
    let plan = build_sampler_chain(&s, 1024, 42, 32000, Vec::new());
    assert_eq!(plan.len(), 5);
    assert!(matches!(
        plan[4],
        SamplerStage::Mirostat { seed: 42, tau_micros: 5_000_000, eta_micros: 100_000 }
    ));
}

#[test]
fn nonzero_repeat_last_n_alone_enables_penalties() {
    let s = SamplingConfig {
        temperature_micros: 0,
        top_p_micros: MICROS_PER_UNIT,
        top_k: 0,
        repeat_penalty_micros: MICROS_PER_UNIT,
        repeat_last_n: 64,
        presence_penalty_micros: 0,
        frequency_penalty_micros: 0,
        seed: None,
        mirostat: false,
        mirostat_tau_micros: 0,
        mirostat_eta_micros: 0,
    };
    let plan = build_sampler_chain(&s, 1024, 1, 100, Vec::new());
    assert_eq!(plan.len(), 2);
    assert!(matches!(plan[0], SamplerStage::Penalties { last_n: 64, .. }));
}

#[test]
fn bias_entries_flatten_every_sub_token() {
    let lists = vec![vec![1, 2], vec![3]];
    let entries = build_bias_entries(&lists);
    assert_eq!(
        entries,
        vec![
            BiasEntry { token_id: 1, bias_micros: LOGIT_BIAS_MICROS },
            BiasEntry { token_id: 2, bias_micros: LOGIT_BIAS_MICROS },
            BiasEntry { token_id: 3, bias_micros: LOGIT_BIAS_MICROS },
        ]
    );
}

#[test]
fn discouraged_terms_list_is_fixed() {
    let terms = discouraged_terms();
    assert_eq!(terms.len(), 35);
    assert_eq!(terms[0], "\"");
    assert!(terms.contains(&"I am"));
    assert!(terms.contains(&"<|im_start|>"));
    assert_eq!(terms[34], "9");
}

#[test]
fn explicit_seed_is_kept() {
    assert_eq!(resolve_seed(Some(7)), 7);
    assert_eq!(resolve_seed(Some(0)), 0);
    // A missing seed still yields some seed.
    let _ = resolve_seed(None);
}

#[test]
fn sanitizers_clamp_out_of_range_values() {
    assert_eq!(sanitize_temperature(-5), 0);
    assert_eq!(sanitize_temperature(220_000), 220_000);
    assert_eq!(clamp_top_p(-1), 0);
    assert_eq!(clamp_top_p(2_000_000), MICROS_PER_UNIT);
    assert_eq!(clamp_top_p(500_000), 500_000);
    assert_eq!(sanitize_penalty(-1), 0);
    assert_eq!(sanitize_penalty(2_150_000), 2_150_000);
}
