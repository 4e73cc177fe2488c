//! The shared digital state vector: one boolean level per monitored line,
//! index = line identity.
//!
//! Each index is written only by the edge monitor that owns that line; the
//! contract of `set_line` pins down that a write to line `i` leaves every
//! other index unchanged. The caller that shares the vector between tasks
//! puts it behind its mutual-exclusion primitive so that the aggregator's
//! snapshot is atomic.

use vstd::prelude::*;
use crate::containers::line_elems;
use crate::containers::line_vec_new;
use crate::containers::line_vec_push;
use crate::containers::line_vec_get;
use crate::containers::line_vec_set;
use crate::containers::line_vec_clone;
use crate::N_LINES;

verus! {

pub struct DigitalState {
    lines: heapless::Vec<bool, N_LINES>,
}

impl DigitalState {
    /// The level of each monitored line, line 0 first.
    pub closed spec fn lines(&self) -> Seq<bool> {
        line_elems(self.lines)
    }

    /// From first construction on, the vector holds one level per line.
    pub open spec fn wf(&self) -> bool {
        self.lines().len() == N_LINES
    }

    /// A fresh state: every line reads low.
    pub fn new() -> (s: DigitalState)
        ensures
            s.wf(),
            forall|i: int| 0 <= i < N_LINES ==> s.lines()[i] == false,
    {
        let mut v = line_vec_new();
        let mut i: usize = 0;
        while i < N_LINES
            invariant
                i <= N_LINES,
                line_elems(v).len() == i,
                forall|j: int| 0 <= j < i ==> line_elems(v)[j] == false,
            decreases N_LINES - i,
        {
            let _ok = line_vec_push(&mut v, false);
            i = i + 1;
        }
        DigitalState { lines: v }
    }

    /// An edge monitor's write: records the new level of its own line and
    /// changes no other index.
    pub fn set_line(&mut self, i: usize, level: bool)
        requires
            old(self).wf(),
            i < N_LINES,
        ensures
            final(self).wf(),
            final(self).lines() =~= old(self).lines().update(i as int, level),
            final(self).lines()[i as int] == level,
            forall|j: int|
                0 <= j < N_LINES && j != i ==> final(self).lines()[j] == old(self).lines()[j],
    {
        line_vec_set(&mut self.lines, i, level);
    }

    /// The current level of one line.
    pub fn get_line(&self, i: usize) -> (r: bool)
        requires
            self.wf(),
            i < N_LINES,
        ensures
            r == self.lines()[i as int],
    {
        line_vec_get(&self.lines, i)
    }

    /// An atomic snapshot of the whole vector for the aggregator.
    pub fn snapshot(&self) -> (r: heapless::Vec<bool, N_LINES>)
        ensures
            line_elems(r) =~= self.lines(),
    {
        line_vec_clone(&self.lines)
    }
}

/// A transition on line `i` updates only index `i`: for any state vector,
/// writing `level` at `i` leaves every other index as it was.
pub proof fn lemma_set_line_updates_only_its_index(s: Seq<bool>, i: int, level: bool)
    requires
        0 <= i < s.len(),
    ensures
        s.update(i, level).len() == s.len(),
        s.update(i, level)[i] == level,
        forall|j: int| 0 <= j < s.len() && j != i ==> s.update(i, level)[j] == s[j],
{
}

} // verus!
