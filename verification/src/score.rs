//! Score and record tracking. The score counts the food eaten in the
//! current session and resets to zero on every (re)start; the record is the
//! best score ever reached in this process, is updated only when a session
//! ends fatally, and never decreases.

use vstd::prelude::*;

verus! {

/// The running score of the current play session.
#[derive(Clone, Copy, Debug, PartialEq, Eq, Structural)]
pub struct Score(pub u32);

/// The best score reached in this process lifetime.
#[derive(Clone, Copy, Debug, PartialEq, Eq, Structural)]
pub struct Record(pub u32);

impl Score {
    /// Reset the score for a fresh session.
    pub fn clear_score(&mut self)
        ensures
            final(self).0 == 0,
    {
        self.0 = 0;
    }
}

impl Record {
    /// Commit a finished session's score: the record becomes the maximum of
    /// itself and the score, so it never decreases.
    pub fn commit(&mut self, score: &Score)
        ensures
            final(self).0 == if score.0 > old(self).0 {
                score.0
            } else {
                old(self).0
            },
            final(self).0 >= old(self).0,
            final(self).0 >= score.0,
    {
        if score.0 > self.0 {
            self.0 = score.0;
        }
    }
}

proof fn lemma_record_chain(records: Seq<u32>, i: int, j: int)
    requires
        forall|k: int| 0 <= k && k + 1 < records.len() ==> #[trigger] records[k] <= records[k
            + 1],
        0 <= i <= j < records.len(),
    ensures
        records[i] <= records[j],
    decreases j - i,
{
    if i < j {
        lemma_record_chain(records, i, j - 1);
        assert(records[j - 1] <= records[j]);
    }
}

/// The record is monotone across a whole process: along any run of observed
/// record values in which each step keeps or raises the value (as every
/// operation of this library does), every later value is at least every
/// earlier one, no matter how many restarts lie in between.
pub proof fn lemma_record_monotone(records: Seq<u32>)
    requires
        forall|k: int| 0 <= k && k + 1 < records.len() ==> #[trigger] records[k] <= records[k
            + 1],
    ensures
        forall|i: int, j: int| 0 <= i <= j < records.len() ==> records[i] <= records[j],
{
    assert forall|i: int, j: int| 0 <= i <= j < records.len() implies records[i] <= records[j] by {
        lemma_record_chain(records, i, j);
    }
}

} // verus!
