//! Generation loop controller: the state machine that drives one run.
//!
//! The engine owns the context budget, the repetition window and the anchor
//! index.  The surrounding program performs the outside work — tokenizing,
//! decoding, sampling and writing output — and hands the engine the decoded
//! token texts; the engine makes every decision: when to inject an anchor,
//! when to stop gracefully at the generation cap, and when to end the run
//! fatally on context exhaustion or detected repetition.

use vstd::prelude::*;

use crate::anchor::ANCHOR_COUNT;
use crate::anchor::ANCHOR_STRIDE;
use crate::anchor::anchor_due;
use crate::anchor::anchor_text;
use crate::anchor::next_anchor_index;
use crate::anchor::spec_anchor_due;
use crate::anchor::spec_anchor_text;
use crate::budget::BudgetTracker;
use crate::budget::spec_panic_threshold;
use crate::config::GenerationConfig;
use crate::guard::is_looping;
use crate::guard::spec_is_looping;
use crate::window::RecentTokenWindow;
use crate::window::spec_window_append;

verus! {

/// What the engine asks the driver to do next.
#[derive(Clone, Copy, Debug, PartialEq, Eq, Structural)]
pub enum StepPlan {
    /// The context budget has crossed its exhaustion threshold: end the run
    /// fatally.
    Exhausted,
    /// The generation cap is reached: end the run gracefully.
    Capped,
    /// An anchor injection is due: it replaces one sampling step.
    InjectAnchor,
    /// Sample one token through the pipeline.
    Sample,
}

/// The engine's verdict after accepting emitted tokens.
#[derive(Clone, Copy, Debug, PartialEq, Eq, Structural)]
pub enum TokenVerdict {
    /// The stream may continue.
    Flowing,
    /// The repetition guard flagged a loop: end the run fatally.
    LoopDetected,
}

/// How a finished run ended; the driver maps this to its exit behaviour.
#[derive(Clone, Copy, Debug, PartialEq, Eq, Structural)]
pub enum RunOutcome {
    /// The generation cap was reached: a graceful stop.
    Capped,
    /// The context budget was exhausted: a fatal, designed-for ending.
    Exhausted,
    /// The repetition guard tripped: a fatal, designed-for ending.
    LoopDetected,
}

/// A defect reported before or during generation; the run aborts cleanly.
#[derive(Debug, PartialEq, Eq, Structural)]
pub enum EngineError {
    /// The prompt does not leave room for a single generated token.
    PromptTooLarge { prompt_tokens: usize, context_size: usize },
    /// An anchor's tokens do not fit in the remaining context budget, so
    /// its batch cannot be decoded.
    AnchorOverflow { anchor_tokens: usize, remaining: usize },
}

impl EngineError {
    /// A fixed description of the failing stage.
    pub fn describe(&self) -> (r: &'static str)
        ensures
            r@ == match self {
                EngineError::PromptTooLarge { .. } => {
                    "prompt too large for the context window"@
                },
                EngineError::AnchorOverflow { .. } => {
                    "anchor does not fit in the remaining context"@
                },
            },
    {
        match self {
            EngineError::PromptTooLarge { .. } => "prompt too large for the context window",
            EngineError::AnchorOverflow { .. } => "anchor does not fit in the remaining context",
        }
    }
}

/// Folds one injection's decoded token texts into a window, one at a time,
/// consulting the repetition guard after each append exactly as for sampled
/// tokens.  Yields the final window, how many texts were accepted before
/// the guard (if enabled) flagged, and whether it flagged.
pub open spec fn spec_inject(w: Seq<Seq<char>>, texts: Seq<Seq<char>>, guard_on: bool) -> (
    Seq<Seq<char>>,
    nat,
    bool,
)
    decreases texts.len(),
{
    if texts.len() == 0 {
        (w, 0nat, false)
    } else {
        let w1 = spec_window_append(w, texts[0]);
        if guard_on && spec_is_looping(w1) {
            (w1, 1nat, true)
        } else {
            let rest = spec_inject(w1, texts.drop_first(), guard_on);
            (rest.0, (rest.1 + 1) as nat, rest.2)
        }
    }
}

/// The generation engine: counters, budget, repetition window and anchor
/// cursor for one run.
pub struct Engine {
    budget: BudgetTracker,
    window: RecentTokenWindow,
    prompt_tokens: usize,
    generated_tokens: usize,
    max_tokens: Option<usize>,
    anchor_interval: Option<usize>,
    loop_guard: bool,
    anchor_index: usize,
    loop_strikes: usize,
    organic_tokens: Ghost<nat>,
    injected_tokens: Ghost<nat>,
}

impl Engine {
    /// Tokens consumed so far: the prompt plus everything emitted.
    pub closed spec fn spec_tokens_used(&self) -> int {
        self.budget.spec_tokens_used()
    }

    /// The fixed context capacity.
    pub closed spec fn spec_context_size(&self) -> int {
        self.budget.spec_context_size()
    }

    /// Length of the prompt in tokens.
    pub closed spec fn spec_prompt_tokens(&self) -> int {
        self.prompt_tokens as int
    }

    /// Tokens emitted so far, organic and injected together.
    pub closed spec fn spec_generated_tokens(&self) -> int {
        self.generated_tokens as int
    }

    /// Tokens emitted by sampling.
    pub closed spec fn spec_organic_tokens(&self) -> nat {
        self.organic_tokens@
    }

    /// Tokens emitted by anchor injection.
    pub closed spec fn spec_injected_tokens(&self) -> nat {
        self.injected_tokens@
    }

    /// The optional cap on generated tokens.
    pub closed spec fn spec_max_tokens(&self) -> Option<usize> {
        self.max_tokens
    }

    /// The optional anchor injection interval.
    pub closed spec fn spec_anchor_interval(&self) -> Option<usize> {
        self.anchor_interval
    }

    /// Whether the repetition guard is consulted.
    pub closed spec fn spec_loop_guard(&self) -> bool {
        self.loop_guard
    }

    /// The anchor table cursor.
    pub closed spec fn spec_anchor_index(&self) -> int {
        self.anchor_index as int
    }

    /// How many times the repetition guard has flagged.
    pub closed spec fn spec_loop_strikes(&self) -> int {
        self.loop_strikes as int
    }

    /// The retained trailing window of decoded token texts.
    pub closed spec fn spec_window(&self) -> Seq<Seq<char>> {
        self.window@
    }

    /// The engine's invariant; every operation preserves it.
    pub closed spec fn well_formed(&self) -> bool {
        &&& self.budget.well_formed()
        &&& self.spec_prompt_tokens() < self.spec_context_size()
        &&& self.spec_tokens_used() == self.spec_prompt_tokens()
            + self.spec_generated_tokens()
        &&& self.spec_generated_tokens() == self.spec_organic_tokens()
            + self.spec_injected_tokens()
        &&& self.spec_loop_strikes() <= self.spec_generated_tokens()
        &&& self.spec_anchor_index() < ANCHOR_COUNT
        &&& self.window.well_formed()
    }

    /// Unchanged run configuration between two engine states.
    pub open spec fn same_run(&self, other: &Engine) -> bool {
        &&& self.spec_context_size() == other.spec_context_size()
        &&& self.spec_prompt_tokens() == other.spec_prompt_tokens()
        &&& self.spec_max_tokens() == other.spec_max_tokens()
        &&& self.spec_anchor_interval() == other.spec_anchor_interval()
        &&& self.spec_loop_guard() == other.spec_loop_guard()
    }

    /// What the engine decides in its steady state, in fixed priority
    /// order: exhaustion first, then the cap, then a due anchor, else
    /// sampling.
    pub open spec fn spec_decide(&self) -> StepPlan {
        if self.spec_tokens_used() >= spec_panic_threshold(self.spec_context_size()) {
            StepPlan::Exhausted
        } else if match self.spec_max_tokens() {
            Some(m) => self.spec_generated_tokens() >= m,
            None => false,
        } {
            StepPlan::Capped
        } else if spec_anchor_due(self.spec_generated_tokens(), self.spec_anchor_interval()) {
            StepPlan::InjectAnchor
        } else {
            StepPlan::Sample
        }
    }

    /// Validates the prompt against the capacity and primes a fresh engine:
    /// the whole prompt is consumed, nothing is generated yet, the anchor
    /// cursor is at the table's start.  Fails with `PromptTooLarge` exactly
    /// when the prompt fills or exceeds the context window, before any
    /// generation.
    pub fn start(cfg: &GenerationConfig, prompt_tokens: usize) -> (r: Result<
        Engine,
        EngineError,
    >)
        ensures
            match r {
                Ok(e) => {
                    &&& prompt_tokens < cfg.context_size
                    &&& e.well_formed()
                    &&& e.spec_context_size() == cfg.context_size
                    &&& e.spec_prompt_tokens() == prompt_tokens
                    &&& e.spec_tokens_used() == prompt_tokens
                    &&& e.spec_generated_tokens() == 0
                    &&& e.spec_organic_tokens() == 0
                    &&& e.spec_injected_tokens() == 0
                    &&& e.spec_max_tokens() == cfg.max_tokens
                    &&& e.spec_anchor_interval() == cfg.anchor_interval
                    &&& e.spec_loop_guard() == cfg.loop_guard
                    &&& e.spec_anchor_index() == 0
                    &&& e.spec_loop_strikes() == 0
                    &&& e.spec_window() =~= Seq::<Seq<char>>::empty()
                },
                Err(err) => {
                    &&& prompt_tokens >= cfg.context_size
                    &&& err == (EngineError::PromptTooLarge {
                        prompt_tokens,
                        context_size: cfg.context_size,
                    })
                },
            },
    {
        if prompt_tokens >= cfg.context_size {
            return Err(
                EngineError::PromptTooLarge { prompt_tokens, context_size: cfg.context_size },
            );
        }
        Ok(
            Engine {
                budget: BudgetTracker::new(cfg.context_size, prompt_tokens),
                window: RecentTokenWindow::new(),
                prompt_tokens,
                generated_tokens: 0,
                max_tokens: cfg.max_tokens,
                anchor_interval: cfg.anchor_interval,
                loop_guard: cfg.loop_guard,
                anchor_index: 0,
                loop_strikes: 0,
                organic_tokens: Ghost(0nat),
                injected_tokens: Ghost(0nat),
            },
        )
    }

    /// One steady-state decision, in the fixed priority order.
    pub fn decide(&self) -> (p: StepPlan)
        ensures
            p == self.spec_decide(),
    {
        if self.budget.exhausted() {
            return StepPlan::Exhausted;
        }
        let capped = match self.max_tokens {
            Some(m) => self.generated_tokens >= m,
            None => false,
        };
        if capped {
            return StepPlan::Capped;
        }
        if anchor_due(self.generated_tokens, self.anchor_interval) {
            return StepPlan::InjectAnchor;
        }
        StepPlan::Sample
    }

    /// Selects the anchor sentence for a due injection and advances the
    /// cyclic cursor by its stride.
    pub fn begin_anchor(&mut self) -> (r: &'static str)
        requires
            old(self).well_formed(),
            old(self).spec_decide() == StepPlan::InjectAnchor,
        ensures
            final (self).well_formed(),
            final (self).same_run(old(self)),
            r@ == spec_anchor_text(old(self).spec_anchor_index()),
            final (self).spec_anchor_index() == (old(self).spec_anchor_index()
                + ANCHOR_STRIDE) % (ANCHOR_COUNT as int),
            final (self).spec_tokens_used() == old(self).spec_tokens_used(),
            final (self).spec_generated_tokens() == old(self).spec_generated_tokens(),
            final (self).spec_organic_tokens() == old(self).spec_organic_tokens(),
            final (self).spec_injected_tokens() == old(self).spec_injected_tokens(),
            final (self).spec_loop_strikes() == old(self).spec_loop_strikes(),
            final (self).spec_window() == old(self).spec_window(),
    {
        let text = anchor_text(self.anchor_index);
        self.anchor_index = next_anchor_index(self.anchor_index);
        text
    }

    /// Accepts one organically sampled token's decoded text: consumes one
    /// budget token, appends the text to the repetition window and, when
    /// the guard is enabled, returns its verdict on the new window.
    pub fn accept_sampled(&mut self, text: String) -> (v: TokenVerdict)
        requires
            old(self).well_formed(),
            old(self).spec_decide() == StepPlan::Sample,
        ensures
            final (self).well_formed(),
            final (self).same_run(old(self)),
            final (self).spec_tokens_used() == old(self).spec_tokens_used() + 1,
            final (self).spec_generated_tokens() == old(self).spec_generated_tokens() + 1,
            final (self).spec_organic_tokens() == old(self).spec_organic_tokens() + 1,
            final (self).spec_injected_tokens() == old(self).spec_injected_tokens(),
            final (self).spec_anchor_index() == old(self).spec_anchor_index(),
            final (self).spec_window() == spec_window_append(old(self).spec_window(), text@),
            (v == TokenVerdict::LoopDetected) == (old(self).spec_loop_guard()
                && spec_is_looping(final (self).spec_window())),
            final (self).spec_loop_strikes() == old(self).spec_loop_strikes() + (
            if v == TokenVerdict::LoopDetected {
                1int
            } else {
                0int
            }),
    {
        proof {
            crate::budget::lemma_panic_threshold_below_capacity(self.spec_context_size());
            assert(old(self).spec_tokens_used() + 1 <= old(self).spec_context_size());
        }
        self.budget.consume(1);
        proof {
            assert(self.generated_tokens == old(self).spec_generated_tokens());
            assert(self.generated_tokens + 1 <= old(self).spec_context_size());
        }
        self.generated_tokens = self.generated_tokens + 1;
        proof {
            self.organic_tokens@ = self.organic_tokens@ + 1;
        }
        self.window.append(text);
        let flagged = self.loop_guard && is_looping(self.window.texts());
        if flagged {
            self.loop_strikes = self.loop_strikes + 1;
            TokenVerdict::LoopDetected
        } else {
            TokenVerdict::Flowing
        }
    }

    /// Accepts one injection's decoded token texts, in emission order.
    /// Each consumes one budget token, enters the repetition window and is
    /// subject to the guard exactly like a sampled token; the injection is
    /// cut short at the first flag.  Fails with `AnchorOverflow`, changing
    /// nothing, exactly when the texts outnumber the remaining budget.
    pub fn accept_injected(&mut self, texts: &Vec<String>) -> (r: Result<
        TokenVerdict,
        EngineError,
    >)
        requires
            old(self).well_formed(),
            old(self).spec_decide() == StepPlan::InjectAnchor,
        ensures
            final (self).well_formed(),
            final (self).same_run(old(self)),
            final (self).spec_anchor_index() == old(self).spec_anchor_index(),
            match r {
                Ok(v) => {
                    let fold = spec_inject(
                        old(self).spec_window(),
                        texts.deep_view(),
                        old(self).spec_loop_guard(),
                    );
                    &&& texts@.len() <= old(self).spec_context_size() - old(
                        self,
                    ).spec_tokens_used()
                    &&& final (self).spec_window() == fold.0
                    &&& final (self).spec_tokens_used() == old(self).spec_tokens_used()
                        + fold.1
                    &&& final (self).spec_generated_tokens() == old(
                        self,
                    ).spec_generated_tokens() + fold.1
                    &&& final (self).spec_injected_tokens() == old(
                        self,
                    ).spec_injected_tokens() + fold.1
                    &&& final (self).spec_organic_tokens() == old(self).spec_organic_tokens()
                    &&& (v == TokenVerdict::LoopDetected) == fold.2
                    &&& final (self).spec_loop_strikes() == old(self).spec_loop_strikes() + (
                    if fold.2 {
                        1int
                    } else {
                        0int
                    })
                },
                Err(err) => {
                    &&& texts@.len() > old(self).spec_context_size() - old(
                        self,
                    ).spec_tokens_used()
                    &&& err == (EngineError::AnchorOverflow {
                        anchor_tokens: texts.len(),
                        remaining: (old(self).spec_context_size() - old(
                            self,
                        ).spec_tokens_used()) as usize,
                    })
                    &&& *final (self) == *old(self)
                },
            },
    {
        let ghost ts = texts.deep_view();
        let ghost w0 = self.window@;
        let ghost fold = spec_inject(w0, ts, self.loop_guard);
        let n = texts.len();
        let room = self.budget.remaining();
        if n > room {
            return Err(EngineError::AnchorOverflow { anchor_tokens: n, remaining: room });
        }
        let mut i: usize = 0;
        proof {
            assert(ts.skip(0) =~= ts);
        }
        while i < n
            invariant
                0 <= i <= n,
                n == ts.len(),
                ts == texts.deep_view(),
                self.well_formed(),
                self.same_run(old(self)),
                self.spec_anchor_index() == old(self).spec_anchor_index(),
                self.spec_tokens_used() == old(self).spec_tokens_used() + i,
                self.spec_tokens_used() + (n - i) <= self.spec_context_size(),
                self.spec_generated_tokens() == old(self).spec_generated_tokens() + i,
                self.spec_injected_tokens() == old(self).spec_injected_tokens() + i,
                self.spec_organic_tokens() == old(self).spec_organic_tokens(),
                self.spec_loop_strikes() == old(self).spec_loop_strikes(),
                fold == spec_inject(
                    old(self).spec_window(),
                    texts.deep_view(),
                    old(self).spec_loop_guard(),
                ),
                fold.0 == spec_inject(
                    self.spec_window(),
                    ts.skip(i as int),
                    old(self).spec_loop_guard(),
                ).0,
                fold.1 == spec_inject(
                    self.spec_window(),
                    ts.skip(i as int),
                    old(self).spec_loop_guard(),
                ).1 + i,
                fold.2 == spec_inject(
                    self.spec_window(),
                    ts.skip(i as int),
                    old(self).spec_loop_guard(),
                ).2,
            decreases n - i,
        {
            let ghost g = old(self).spec_loop_guard();
            let ghost w_cur = self.window@;
            let ghost skip_i = ts.skip(i as int);
            let ghost w1 = spec_window_append(w_cur, ts[i as int]);
            proof {
                assert(skip_i.len() > 0);
                assert(skip_i[0] == ts[i as int]);
                assert(skip_i.drop_first() =~= ts.skip(i as int + 1));
                assert(ts[i as int] == texts@[i as int]@);
            }
            let text = texts[i].clone();
            self.budget.consume(1);
            proof {
                assert(self.generated_tokens == old(self).spec_generated_tokens() + i);
                assert(self.generated_tokens + 1 <= self.budget.spec_context_size());
            }
            self.generated_tokens = self.generated_tokens + 1;
            proof {
                self.injected_tokens@ = self.injected_tokens@ + 1;
            }
            self.window.append(text);
            proof {
                assert(self.window@ == w1);
            }
            let flagged = self.loop_guard && is_looping(self.window.texts());
            if flagged {
                self.loop_strikes = self.loop_strikes + 1;
                proof {
                    assert(g && spec_is_looping(w1));
                    assert(spec_inject(w_cur, skip_i, g).0 == w1);
                    assert(spec_inject(w_cur, skip_i, g).1 == 1);
                    assert(spec_inject(w_cur, skip_i, g).2 == true);
                }
                return Ok(TokenVerdict::LoopDetected);
            }
            proof {
                assert(!(g && spec_is_looping(w1)));
                let rest = spec_inject(w1, skip_i.drop_first(), g);
                assert(spec_inject(w_cur, skip_i, g).0 == rest.0);
                assert(spec_inject(w_cur, skip_i, g).1 == rest.1 + 1);
                assert(spec_inject(w_cur, skip_i, g).2 == rest.2);
            }
            i += 1;
        }
        proof {
            assert(ts.skip(n as int) =~= Seq::<Seq<char>>::empty());
            assert(spec_inject(self.spec_window(), ts.skip(n as int), old(
                self,
            ).spec_loop_guard()).1 == 0);
        }
        Ok(TokenVerdict::Flowing)
    }

    /// Tokens consumed so far, the prompt included.
    pub fn tokens_used(&self) -> (n: usize)
        ensures
            n == self.spec_tokens_used(),
    {
        self.budget.tokens_used()
    }

    /// The fixed context capacity.
    pub fn context_size(&self) -> (n: usize)
        ensures
            n == self.spec_context_size(),
    {
        self.budget.context_size()
    }

    /// Tokens emitted so far, organic and injected together.
    pub fn generated_tokens(&self) -> (n: usize)
        ensures
            n == self.spec_generated_tokens(),
    {
        self.generated_tokens
    }

    /// The anchor table cursor.
    pub fn anchor_index(&self) -> (n: usize)
        ensures
            n == self.spec_anchor_index(),
    {
        self.anchor_index
    }

    /// How many times the repetition guard has flagged.
    pub fn loop_strikes(&self) -> (n: usize)
        ensures
            n == self.spec_loop_strikes(),
    {
        self.loop_strikes
    }
}

/// Token accounting: consumption always equals the prompt length plus the
/// organically sampled plus the injected tokens, and never exceeds the
/// context capacity.
pub proof fn lemma_token_accounting(e: &Engine)
    requires
        e.well_formed(),
    ensures
        e.spec_tokens_used() == e.spec_prompt_tokens() + e.spec_organic_tokens()
            + e.spec_injected_tokens(),
        e.spec_tokens_used() <= e.spec_context_size(),
{
}

} // verus!
