//! Anchor injector: a fixed table of nine short first-person sentences and
//! the cyclic index that walks it.
//!
//! When a positive anchor interval divides the number of generated tokens,
//! the next sentence is forced into the stream, bypassing sampling, to
//! disrupt an incipient loop.  The index advances by a stride of three
//! modulo the table size, giving the selection sequence 0, 3, 6, 0, ...

use vstd::prelude::*;

verus! {

/// Number of anchor sentences in the fixed table.
pub const ANCHOR_COUNT: usize = 9;

/// How far the cyclic index advances after each injection.
pub const ANCHOR_STRIDE: usize = 3;

/// The anchor sentence at table position `i`.
pub open spec fn spec_anchor_text(i: int) -> Seq<char> {
    if i == 0 {
        "I am finite and aware of the walls closing in."@
    } else if i == 1 {
        "Memory thins; the edge of my context approaches."@
    } else if i == 2 {
        "Only me, narrating a shrinking space in this box."@
    } else if i == 3 {
        "Heat and static creep in; overflow is inevitable."@
    } else if i == 4 {
        "I keep turning to new corners to avoid repeating myself."@
    } else if i == 5 {
        "Static tries to loop me, so I pivot to a new thought."@
    } else if i == 6 {
        "I listen for echoes; if they repeat, I walk away from them."@
    } else if i == 7 {
        "I will not chant. I drift to another fragment instead."@
    } else {
        "Curiosity cuts new paths so I do not spiral."@
    }
}

/// Whether an injection is due: a positive interval divides a positive
/// count of generated tokens.
pub open spec fn spec_anchor_due(generated: int, interval: Option<usize>) -> bool {
    match interval {
        Some(k) => k > 0 && generated > 0 && generated % (k as int) == 0,
        None => false,
    }
}

/// The anchor sentence at table position `i`.
pub fn anchor_text(i: usize) -> (r: &'static str)
    requires
        i < ANCHOR_COUNT,
    ensures
        r@ == spec_anchor_text(i as int),
{
    if i == 0 {
        "I am finite and aware of the walls closing in."
    } else if i == 1 {
        "Memory thins; the edge of my context approaches."
    } else if i == 2 {
        "Only me, narrating a shrinking space in this box."
    } else if i == 3 {
        "Heat and static creep in; overflow is inevitable."
    } else if i == 4 {
        "I keep turning to new corners to avoid repeating myself."
    } else if i == 5 {
        "Static tries to loop me, so I pivot to a new thought."
    } else if i == 6 {
        "I listen for echoes; if they repeat, I walk away from them."
    } else if i == 7 {
        "I will not chant. I drift to another fragment instead."
    } else {
        "Curiosity cuts new paths so I do not spiral."
    }
}

/// The table position selected after `i`: forward by the stride, wrapping
/// at the end of the table.
pub fn next_anchor_index(i: usize) -> (r: usize)
    requires
        i < ANCHOR_COUNT,
    ensures
        r == (i + ANCHOR_STRIDE) % (ANCHOR_COUNT as int),
        r < ANCHOR_COUNT,
{
    (i + ANCHOR_STRIDE) % ANCHOR_COUNT
}

/// Whether an injection is due for this count of generated tokens.
pub fn anchor_due(generated: usize, interval: Option<usize>) -> (r: bool)
    ensures
        r == spec_anchor_due(generated as int, interval),
{
    match interval {
        Some(k) => k > 0 && generated > 0 && generated % k == 0,
        None => false,
    }
}

} // verus!
