//! Context budget tracker: counts consumed tokens against a fixed capacity
//! and exposes the fatal exhaustion threshold.
//!
//! Crossing 95% of the capacity is a distinguished terminal condition,
//! separate from reaching a generation cap (which is a graceful stop).

use vstd::prelude::*;
use vstd::arithmetic::div_mod::lemma_div_multiples_vanish_fancy;

verus! {

/// The exhaustion threshold: 95% of the capacity, rounded down.
pub open spec fn spec_panic_threshold(context_size: int) -> int {
    19 * context_size / 20
}

/// For a positive capacity, the exhaustion threshold lies strictly below
/// it: a run always stops short of filling the context completely.
pub proof fn lemma_panic_threshold_below_capacity(c: int)
    requires
        c > 0,
    ensures
        spec_panic_threshold(c) < c,
{
    assert(19 * c < 20 * c);
    assert(19 * c / 20 <= (20 * c - 1) / 20);
    lemma_div_multiples_vanish_fancy(c - 1, 19, 20);
    assert((20 * (c - 1) + 19) / 20 == c - 1);
    assert(20 * c - 1 == 20 * (c - 1) + 19);
}

/// Tracks tokens consumed against a fixed context capacity.
#[derive(Clone, Copy, Debug)]
pub struct BudgetTracker {
    tokens_used: usize,
    context_size: usize,
}

impl BudgetTracker {
    /// Tokens consumed so far, the prompt included.
    pub closed spec fn spec_tokens_used(&self) -> int {
        self.tokens_used as int
    }

    /// The fixed context capacity in tokens.
    pub closed spec fn spec_context_size(&self) -> int {
        self.context_size as int
    }

    /// Consumption never exceeds the capacity, and both counters fit the
    /// machine word they are stored in.
    pub open spec fn well_formed(&self) -> bool {
        &&& 0 <= self.spec_tokens_used()
        &&& self.spec_tokens_used() <= self.spec_context_size()
        &&& self.spec_context_size() <= usize::MAX as int
    }

    /// A tracker over `context_size` tokens of which `already_used` are
    /// already consumed.
    pub fn new(context_size: usize, already_used: usize) -> (t: BudgetTracker)
        requires
            already_used <= context_size,
        ensures
            t.spec_tokens_used() == already_used,
            t.spec_context_size() == context_size,
            t.well_formed(),
    {
        BudgetTracker { tokens_used: already_used, context_size }
    }

    /// Tokens consumed so far.
    pub fn tokens_used(&self) -> (n: usize)
        ensures
            n == self.spec_tokens_used(),
    {
        self.tokens_used
    }

    /// The context capacity.
    pub fn context_size(&self) -> (n: usize)
        ensures
            n == self.spec_context_size(),
    {
        self.context_size
    }

    /// How many tokens may still be consumed.
    pub fn remaining(&self) -> (n: usize)
        requires
            self.well_formed(),
        ensures
            n == self.spec_context_size() - self.spec_tokens_used(),
    {
        self.context_size - self.tokens_used
    }

    /// The exhaustion threshold, 95% of the capacity rounded down.
    pub fn panic_threshold(&self) -> (n: usize)
        ensures
            n == spec_panic_threshold(self.spec_context_size()),
            n < self.spec_context_size() || self.spec_context_size() == 0,
    {
        let q = self.context_size / 20;
        let r = self.context_size % 20;
        let t = 19 * q + (19 * r) / 20;
        proof {
            let c = self.context_size as int;
            assert(c == 20 * q + r);
            assert(19 * c == 20 * (19 * (q as int)) + 19 * r);
            assert(19 * r == 20 * ((19 * (r as int)) / 20) + (19 * (r as int)) % 20);
            assert(19 * c == 20 * (19 * (q as int) + (19 * (r as int)) / 20) + (19 * (
            r as int)) % 20);
            lemma_div_multiples_vanish_fancy(
                19 * (q as int) + (19 * (r as int)) / 20,
                (19 * (r as int)) % 20,
                20,
            );
            assert(t == spec_panic_threshold(c));
            if c > 0 {
                lemma_panic_threshold_below_capacity(c);
            }
        }
        t
    }

    /// Whether consumption has crossed the exhaustion threshold.
    pub fn exhausted(&self) -> (r: bool)
        ensures
            r == (self.spec_tokens_used() >= spec_panic_threshold(
                self.spec_context_size(),
            )),
    {
        self.tokens_used >= self.panic_threshold()
    }

    /// Advances consumption by `n` tokens and reports whether the new total
    /// has crossed the exhaustion threshold.
    pub fn consume(&mut self, n: usize) -> (crossed: bool)
        requires
            old(self).well_formed(),
            old(self).spec_tokens_used() + n <= old(self).spec_context_size(),
        ensures
            final (self).well_formed(),
            final (self).spec_context_size() == old(self).spec_context_size(),
            final (self).spec_tokens_used() == old(self).spec_tokens_used() + n,
            crossed == (final (self).spec_tokens_used() >= spec_panic_threshold(
                final (self).spec_context_size(),
            )),
    {
        self.tokens_used = self.tokens_used + n;
        self.exhausted()
    }
}

} // verus!
