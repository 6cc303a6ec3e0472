//! Repetition guard: inspects a bounded trailing window of decoded token
//! texts and flags degenerate loops.
//!
//! A flag is terminal for the run; the guard is a detector, not a retry
//! signal.  It flags when the window is long enough and any of these holds:
//! a trailing n-gram (n in 7, 5, 4) equals the n entries just before it, a
//! single text dominates the recent stream, or the recent stream has too few
//! distinct texts.

use vstd::prelude::*;

verus! {

/// Windows shorter than this are never flagged: insufficient history.
pub const MIN_HISTORY: usize = 40;

/// How many trailing entries the dominance rule inspects.
pub const DOMINANCE_SPAN: usize = 160;

/// A text occurring at least this often within the dominance span flags.
pub const DOMINANCE_LIMIT: usize = 48;

/// How many trailing entries the diversity rule inspects; the rule applies
/// only once the window has at least this many entries.
pub const DIVERSITY_SPAN: usize = 120;

/// The diversity rule flags when distinct/span < 32/100.
pub const DIVERSITY_PERCENT: usize = 32;

/// The last `span` entries of `w`, or all of `w` when it is shorter.
pub open spec fn tail_span(w: Seq<Seq<char>>, span: int) -> Seq<Seq<char>> {
    if w.len() <= span {
        w
    } else {
        w.subrange(w.len() - span, w.len() as int)
    }
}

/// The last `n` entries of `w` exactly equal the `n` entries preceding them.
pub open spec fn tail_ngram_repeats(w: Seq<Seq<char>>, n: int) -> bool {
    &&& w.len() >= 2 * n
    &&& forall|i: int| w.len() - n <= i < w.len() ==> #[trigger] w[i] == w[i - n]
}

/// How many entries of `w` equal `v`.
pub open spec fn count_eq(w: Seq<Seq<char>>, v: Seq<char>) -> nat
    decreases w.len(),
{
    if w.len() == 0 {
        0
    } else {
        count_eq(w.drop_last(), v) + if w.last() == v {
            1nat
        } else {
            0nat
        }
    }
}

/// Some single text occurs at least `DOMINANCE_LIMIT` times among the last
/// `DOMINANCE_SPAN` entries (or fewer, if the window is shorter).
pub open spec fn has_dominant_text(w: Seq<Seq<char>>) -> bool {
    let span = tail_span(w, DOMINANCE_SPAN as int);
    exists|j: int| 0 <= j < span.len() && count_eq(span, span[j]) >= DOMINANCE_LIMIT
}

/// How many distinct values occur in `w`.
pub open spec fn distinct_count(w: Seq<Seq<char>>) -> nat
    decreases w.len(),
{
    if w.len() == 0 {
        0
    } else {
        distinct_count(w.drop_last()) + if w.drop_last().contains(w.last()) {
            0nat
        } else {
            1nat
        }
    }
}

/// The last `DIVERSITY_SPAN` entries hold too few distinct texts; only
/// evaluated once the window reaches that length.
pub open spec fn has_low_diversity(w: Seq<Seq<char>>) -> bool {
    &&& w.len() >= DIVERSITY_SPAN
    &&& 100 * distinct_count(tail_span(w, DIVERSITY_SPAN as int)) < DIVERSITY_PERCENT
        * DIVERSITY_SPAN
}

/// The guard's verdict on a window of decoded token texts.
pub open spec fn spec_is_looping(w: Seq<Seq<char>>) -> bool {
    &&& w.len() >= MIN_HISTORY
    &&& {
        ||| tail_ngram_repeats(w, 7)
        ||| tail_ngram_repeats(w, 5)
        ||| tail_ngram_repeats(w, 4)
        ||| has_dominant_text(w)
        ||| has_low_diversity(w)
    }
}

/// Equality of two decoded token texts, as their character sequences.
fn text_eq(a: &String, b: &String) -> (r: bool)
    ensures
        r == (a@ == b@),
{
    a.eq(b)
}

proof fn lemma_count_eq_push(w: Seq<Seq<char>>, x: Seq<char>, v: Seq<char>)
    ensures
        count_eq(w.push(x), v) == count_eq(w, v) + if x == v {
            1nat
        } else {
            0nat
        },
{
    assert(w.push(x).drop_last() =~= w);
    assert(w.push(x).last() == x);
}

proof fn lemma_distinct_count_push(w: Seq<Seq<char>>, x: Seq<char>)
    ensures
        distinct_count(w.push(x)) == distinct_count(w) + if w.contains(x) {
            0nat
        } else {
            1nat
        },
{
    assert(w.push(x).drop_last() =~= w);
    assert(w.push(x).last() == x);
}

/// Whether the last `n` entries of `tokens` equal the `n` before them.
fn trailing_ngram_repeats(tokens: &[String], n: usize) -> (r: bool)
    requires
        1 <= n,
        2 * n <= tokens@.len(),
    ensures
        r == tail_ngram_repeats(tokens.deep_view(), n as int),
{
    let ghost dv = tokens.deep_view();
    let len = tokens.len();
    let mut i: usize = 0;
    while i < n
        invariant
            0 <= i <= n,
            1 <= n,
            2 * n <= len,
            len == tokens@.len(),
            dv == tokens.deep_view(),
            forall|k: int| len - n <= k < len - n + i ==> #[trigger] dv[k] == dv[k - n],
        decreases n - i,
    {
        assert(dv[len - n + i] == tokens@[len - n + i]@);
        assert(dv[len - 2 * n + i] == tokens@[len - 2 * n + i]@);
        if !text_eq(&tokens[len - n + i], &tokens[len - 2 * n + i]) {
            return false;
        }
        i += 1;
    }
    true
}

/// Whether any single text occurs at least `DOMINANCE_LIMIT` times among
/// the last `DOMINANCE_SPAN` entries.
fn dominant_text_present(tokens: &[String]) -> (r: bool)
    ensures
        r == has_dominant_text(tokens.deep_view()),
{
    let ghost dv = tokens.deep_view();
    let len = tokens.len();
    let start = if len >= DOMINANCE_SPAN {
        len - DOMINANCE_SPAN
    } else {
        0
    };
    let ghost span = tail_span(dv, DOMINANCE_SPAN as int);
    proof {
        assert(span =~= dv.subrange(start as int, len as int));
    }
    let mut j = start;
    while j < len
        invariant
            start <= j <= len,
            len == tokens@.len(),
            dv == tokens.deep_view(),
            span == tail_span(dv, DOMINANCE_SPAN as int),
            span =~= dv.subrange(start as int, len as int),
            forall|jj: int|
                start <= jj < j ==> count_eq(span, dv[jj]) < DOMINANCE_LIMIT,
        decreases len - j,
    {
        let ghost target = dv[j as int];
        assert(target == tokens@[j as int]@);
        let mut c: usize = 0;
        let mut i = start;
        while i < len
            invariant
                start <= i <= len,
                start <= j < len,
                len == tokens@.len(),
                dv == tokens.deep_view(),
                span =~= dv.subrange(start as int, len as int),
                target == dv[j as int],
                target == tokens@[j as int]@,
                c <= i - start,
                c == count_eq(span.subrange(0, i - start), target),
            decreases len - i,
        {
            let ghost prefix = span.subrange(0, i - start);
            assert(dv[i as int] == tokens@[i as int]@);
            let hit = text_eq(&tokens[i], &tokens[j]);
            proof {
                assert(span.subrange(0, i + 1 - start) =~= prefix.push(span[i - start]));
                assert(span[i - start] == dv[i as int]);
                lemma_count_eq_push(prefix, dv[i as int], target);
            }
            if hit {
                c += 1;
            }
            i += 1;
        }
        proof {
            assert(span.subrange(0, len - start) =~= span);
        }
        if c >= DOMINANCE_LIMIT {
            proof {
                let jj = j - start;
                assert(span[jj] == dv[j as int]);
                assert(count_eq(span, span[jj]) >= DOMINANCE_LIMIT);
            }
            return true;
        }
        j += 1;
    }
    proof {
        assert forall|jj: int| 0 <= jj < span.len() implies count_eq(span, span[jj])
            < DOMINANCE_LIMIT by {
            assert(span[jj] == dv[start + jj]);
        }
    }
    false
}

/// Whether the last `DIVERSITY_SPAN` entries hold too few distinct texts.
fn diversity_too_low(tokens: &[String]) -> (r: bool)
    requires
        tokens@.len() >= DIVERSITY_SPAN,
    ensures
        r == has_low_diversity(tokens.deep_view()),
{
    let ghost dv = tokens.deep_view();
    let len = tokens.len();
    let start = len - DIVERSITY_SPAN;
    let ghost span = tail_span(dv, DIVERSITY_SPAN as int);
    proof {
        assert(span =~= dv.subrange(start as int, len as int));
    }
    let mut distinct: usize = 0;
    let mut j = start;
    while j < len
        invariant
            start <= j <= len,
            start == len - DIVERSITY_SPAN,
            len == tokens@.len(),
            dv == tokens.deep_view(),
            span == tail_span(dv, DIVERSITY_SPAN as int),
            span =~= dv.subrange(start as int, len as int),
            distinct <= j - start,
            distinct == distinct_count(span.subrange(0, j - start)),
        decreases len - j,
    {
        let ghost prefix = span.subrange(0, j - start);
        assert(dv[j as int] == tokens@[j as int]@);
        let mut seen = false;
        let mut i = start;
        while i < j
            invariant
                start <= i <= j < len,
                len == tokens@.len(),
                dv == tokens.deep_view(),
                span =~= dv.subrange(start as int, len as int),
                prefix == span.subrange(0, j - start),
                seen == exists|k: int| start <= k < i && dv[k] == dv[j as int],
            decreases j - i,
        {
            assert(dv[i as int] == tokens@[i as int]@);
            if text_eq(&tokens[i], &tokens[j]) {
                seen = true;
            }
            i += 1;
        }
        proof {
            if seen {
                let k = choose|k: int| start <= k < j && dv[k] == dv[j as int];
                assert(prefix[k - start] == dv[k]);
                assert(prefix.contains(dv[j as int]));
            } else {
                if prefix.contains(dv[j as int]) {
                    let kk = choose|kk: int|
                        0 <= kk < prefix.len() && prefix[kk] == dv[j as int];
                    assert(dv[start + kk] == dv[j as int]);
                }
            }
            assert(seen == prefix.contains(dv[j as int]));
            assert(span.subrange(0, j + 1 - start) =~= prefix.push(span[j - start]));
            assert(span[j - start] == dv[j as int]);
            lemma_distinct_count_push(prefix, dv[j as int]);
        }
        if !seen {
            distinct += 1;
        }
        j += 1;
    }
    proof {
        assert(span.subrange(0, len - start) =~= span);
    }
    100 * distinct < DIVERSITY_PERCENT * DIVERSITY_SPAN
}

/// Flags a window of decoded token texts that shows degenerate repetition.
///
/// Returns exactly the verdict of `spec_is_looping` on the window's
/// character sequences; in particular a window shorter than `MIN_HISTORY`
/// entries is never flagged.
pub fn is_looping(tokens: &[String]) -> (r: bool)
    ensures
        r == spec_is_looping(tokens.deep_view()),
{
    let len = tokens.len();
    if len < MIN_HISTORY {
        return false;
    }
    if trailing_ngram_repeats(tokens, 7) {
        return true;
    }
    if trailing_ngram_repeats(tokens, 5) {
        return true;
    }
    if trailing_ngram_repeats(tokens, 4) {
        return true;
    }
    if dominant_text_present(tokens) {
        return true;
    }
    if len >= DIVERSITY_SPAN {
        if diversity_too_low(tokens) {
            return true;
        }
    }
    false
}

/// The guard never flags a window shorter than `MIN_HISTORY` entries,
/// regardless of its content.
pub proof fn lemma_short_window_never_flags(w: Seq<Seq<char>>)
    requires
        w.len() < MIN_HISTORY,
    ensures
        !spec_is_looping(w),
{
}

/// A window long enough for the guard whose last seven entries exactly
/// equal the seven entries preceding them is always flagged.
pub proof fn lemma_seven_gram_repeat_flags(w: Seq<Seq<char>>)
    requires
        w.len() >= MIN_HISTORY,
        forall|i: int| w.len() - 7 <= i < w.len() ==> #[trigger] w[i] == w[i - 7],
    ensures
        spec_is_looping(w),
{
    assert(tail_ngram_repeats(w, 7));
}

} // verus!
