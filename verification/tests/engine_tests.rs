use out_of_context::anchor::anchor_text;
use out_of_context::config::GenerationConfig;
use out_of_context::engine::Engine;
use out_of_context::engine::EngineError;
use out_of_context::engine::StepPlan;
use out_of_context::engine::TokenVerdict;

fn cfg(context_size: usize, max_tokens: Option<usize>, anchor_interval: Option<usize>) -> GenerationConfig {
    GenerationConfig {
        context_size,
        max_tokens,
        anchor_interval,
        loop_guard: true,
        quiet: true,
        user_prompt: None,
    }
}

#[test]
fn capped_run_emits_exactly_max_tokens() {
    // max_tokens = 10 with anchors disabled: exactly 10 organic tokens,
    // then a graceful stop.
    let c = cfg(1000, Some(10), None);
    let mut e = Engine::start(&c, 5).unwrap();
    let mut emitted = 0usize;
    while e.decide() == StepPlan::Sample {
        let v = e.accept_sampled(format!("t{emitted}"));
        assert_eq!(v, TokenVerdict::Flowing);
        emitted += 1;
        assert!(emitted <= 10);
    }
    assert_eq!(e.decide(), StepPlan::Capped);
    assert_eq!(emitted, 10);
    assert_eq!(e.generated_tokens(), 10);
    assert_eq!(e.tokens_used(), 15);
    assert_eq!(e.loop_strikes(), 0);
}

#[test]
fn oversized_prompt_is_rejected_before_generation() {
    let c = cfg(100, None, None);
    let r = Engine::start(&c, 100);
    assert_eq!(
        r.err(),
        Some(EngineError::PromptTooLarge { prompt_tokens: 100, context_size: 100 })
    );
    let r = Engine::start(&c, 250);
    assert_eq!(
        r.err(),
        Some(EngineError::PromptTooLarge { prompt_tokens: 250, context_size: 100 })
    );
    assert!(Engine::start(&c, 99).is_ok());
}

#[test]
fn repeated_five_gram_trips_the_guard_once() {
    // A candidate stream that repeats a 5-token phrase twice flags at the
    // fortieth token and not before.
    let c = cfg(2000, None, None);
    let mut e = Engine::start(&c, 10).unwrap();
    let mut stream: Vec<String> = (0..30).map(|i| format!("f{i}")).collect();
    for t in ["a", "b", "c", "d", "e", "a", "b", "c", "d", "e"] {
        stream.push(t.to_string());
    }
    for (i, t) in stream.iter().enumerate() {
        assert_eq!(e.decide(), StepPlan::Sample);
        let v = e.accept_sampled(t.clone());
        if i < 39 {
            assert_eq!(v, TokenVerdict::Flowing, "flagged early at token {i}");
        } else {
            assert_eq!(v, TokenVerdict::LoopDetected);
        }
    }
    assert_eq!(e.loop_strikes(), 1);
}

#[test]
fn disabled_guard_never_flags() {
    let mut c = cfg(2000, None, None);
    c.loop_guard = false;
    let mut e = Engine::start(&c, 10).unwrap();
    for _ in 0..3 {
        for t in ["a", "b", "c", "d", "e"] {
            assert_eq!(e.accept_sampled(t.to_string()), TokenVerdict::Flowing);
        }
    }
    for t in ["a", "b", "c", "d", "e", "a", "b", "c", "d", "e",
              "a", "b", "c", "d", "e", "a", "b", "c", "d", "e",
              "a", "b", "c", "d", "e"] {
        assert_eq!(e.accept_sampled(t.to_string()), TokenVerdict::Flowing);
    }
    assert_eq!(e.loop_strikes(), 0);
}

#[test]
fn anchor_indices_cycle_by_stride_three() {
    // Four consecutive injections select table positions 0, 3, 6, 0.
    let c = cfg(1000, None, Some(1));
    let mut e = Engine::start(&c, 10).unwrap();
    assert_eq!(e.decide(), StepPlan::Sample);
    e.accept_sampled("t".to_string());
    assert_eq!(e.decide(), StepPlan::InjectAnchor);
    assert_eq!(e.begin_anchor(), anchor_text(0));
    assert_eq!(e.anchor_index(), 3);
    assert_eq!(e.begin_anchor(), anchor_text(3));
    assert_eq!(e.begin_anchor(), anchor_text(6));
    assert_eq!(e.begin_anchor(), anchor_text(0));
    assert_eq!(e.anchor_index(), 3);
}

#[test]
fn anchor_trigger_needs_positive_generated_count() {
    let c = cfg(1000, None, Some(1));
    let e = Engine::start(&c, 10).unwrap();
    // No token generated yet: no trigger, despite 0 % 1 == 0.
    assert_eq!(e.decide(), StepPlan::Sample);
}

#[test]
fn zero_interval_disables_anchors() {
    let c = cfg(1000, None, Some(0));
    let mut e = Engine::start(&c, 10).unwrap();
    e.accept_sampled("t".to_string());
    assert_eq!(e.decide(), StepPlan::Sample);
}

#[test]
fn injected_tokens_count_like_sampled_ones() {
    let c = cfg(100, None, Some(2));
    let mut e = Engine::start(&c, 10).unwrap();
    e.accept_sampled("t0".to_string());
    e.accept_sampled("t1".to_string());
    assert_eq!(e.decide(), StepPlan::InjectAnchor);
    let _sentence = e.begin_anchor();
    let pieces = vec!["x1".to_string(), "x2".to_string(), "x3".to_string()];
    let v = e.accept_injected(&pieces).unwrap();
    assert_eq!(v, TokenVerdict::Flowing);
    assert_eq!(e.tokens_used(), 15);
    assert_eq!(e.generated_tokens(), 5);
    // 5 % 2 == 1: back to sampling.
    assert_eq!(e.decide(), StepPlan::Sample);
}

#[test]
fn anchor_that_cannot_fit_is_an_error() {
    let c = cfg(21, None, Some(1));
    let mut e = Engine::start(&c, 10).unwrap();
    e.accept_sampled("t".to_string());
    assert_eq!(e.decide(), StepPlan::InjectAnchor);
    let pieces: Vec<String> = (0..11).map(|i| format!("x{i}")).collect();
    let r = e.accept_injected(&pieces);
    assert_eq!(
        r.err(),
        Some(EngineError::AnchorOverflow { anchor_tokens: 11, remaining: 10 })
    );
    // Nothing was consumed.
    assert_eq!(e.tokens_used(), 11);
    assert_eq!(e.generated_tokens(), 1);
}

#[test]
fn crossing_the_panic_threshold_exhausts_the_run() {
    // Capacity 20: the threshold is 19.
    let c = cfg(20, None, None);
    let mut e = Engine::start(&c, 18).unwrap();
    assert_eq!(e.decide(), StepPlan::Sample);
    assert_eq!(e.accept_sampled("t".to_string()), TokenVerdict::Flowing);
    assert_eq!(e.decide(), StepPlan::Exhausted);
    assert_eq!(e.tokens_used(), 19);
}

#[test]
fn exhaustion_outranks_the_cap() {
    let c = cfg(20, Some(1000), None);
    let mut e = Engine::start(&c, 18).unwrap();
    e.accept_sampled("t".to_string());
    assert_eq!(e.decide(), StepPlan::Exhausted);
}

#[test]
fn error_descriptions_name_the_stage() {
    let too_large = EngineError::PromptTooLarge { prompt_tokens: 10, context_size: 10 };
    assert_eq!(too_large.describe(), "prompt too large for the context window");
    let overflow = EngineError::AnchorOverflow { anchor_tokens: 9, remaining: 1 };
    assert_eq!(overflow.describe(), "anchor does not fit in the remaining context");
}
