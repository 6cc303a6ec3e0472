//! Bounded trailing window of decoded token texts.
//!
//! An ordered sequence of at most `WINDOW_CAPACITY` entries; once full, the
//! oldest entry is evicted first.  The repetition guard is its only reader.

use vstd::prelude::*;

verus! {

/// Upper bound on the number of retained token texts.
pub const WINDOW_CAPACITY: usize = 4096;

/// What appending one text does to the window's contents: the new text goes
/// to the back, and the oldest entry leaves when the window is full.
pub open spec fn spec_window_append(w: Seq<Seq<char>>, text: Seq<char>) -> Seq<Seq<char>> {
    if w.len() >= WINDOW_CAPACITY {
        w.drop_first().push(text)
    } else {
        w.push(text)
    }
}

/// Bounded FIFO of recently emitted token texts.
#[derive(Debug)]
pub struct RecentTokenWindow {
    entries: Vec<String>,
}

impl View for RecentTokenWindow {
    type V = Seq<Seq<char>>;

    closed spec fn view(&self) -> Seq<Seq<char>> {
        self.entries.deep_view()
    }
}

impl RecentTokenWindow {
    /// The window never holds more than `WINDOW_CAPACITY` entries.
    pub open spec fn well_formed(&self) -> bool {
        self@.len() <= WINDOW_CAPACITY
    }

    /// An empty window.
    pub fn new() -> (w: RecentTokenWindow)
        ensures
            w@ =~= Seq::<Seq<char>>::empty(),
            w.well_formed(),
    {
        RecentTokenWindow { entries: Vec::new() }
    }

    /// How many texts the window currently holds.
    pub fn len(&self) -> (n: usize)
        ensures
            n == self@.len(),
    {
        self.entries.len()
    }

    /// Appends one decoded token text, evicting the oldest entry when the
    /// window is already at capacity.
    pub fn append(&mut self, text: String)
        requires
            old(self).well_formed(),
        ensures
            final (self).well_formed(),
            final (self)@ =~= spec_window_append(old(self)@, text@),
    {
        let ghost before = self.entries.deep_view();
        if self.entries.len() >= WINDOW_CAPACITY {
            self.entries.remove(0);
            proof {
                assert(self.entries.deep_view() =~= before.drop_first());
            }
        }
        let ghost mid = self.entries.deep_view();
        self.entries.push(text);
        proof {
            assert(self.entries.deep_view() =~= mid.push(text@));
        }
    }

    /// The retained texts, oldest first.
    pub fn texts(&self) -> (r: &[String])
        ensures
            r.deep_view() == self@,
    {
        let r = self.entries.as_slice();
        proof {
            assert(r.deep_view() =~= self.entries.deep_view());
        }
        r
    }
}

} // verus!
