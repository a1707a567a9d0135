use crate::state::{nobody, Address};
use vstd::prelude::*;

verus! {

/// The position from `i` on where `score` would enter: the first entry that it
/// beats, or the length if it beats none.
pub open spec fn rank_from(e: Seq<(Address, u64)>, score: u64, i: int) -> int
    decreases e.len() - i,
{
    if i >= e.len() {
        e.len() as int
    } else if score > e[i].1 {
        i
    } else {
        rank_from(e, score, i + 1)
    }
}

/// Where `score` enters the table.
pub open spec fn rank(e: Seq<(Address, u64)>, score: u64) -> int {
    rank_from(e, score, 0)
}

/// The table after `(player, score)` is submitted: inserted before the first
/// entry that it beats, the last entry falling off; unchanged if it beats none.
pub open spec fn submitted(e: Seq<(Address, u64)>, player: Address, score: u64) -> Seq<
    (Address, u64),
> {
    let r = rank(e, score);
    if r < e.len() {
        e.take(r).push((player, score)) + e.subrange(r, e.len() - 1)
    } else {
        e
    }
}

/// Scores never increase from one entry to the next.
pub open spec fn descending(e: Seq<(Address, u64)>) -> bool {
    forall|i: int, j: int| 0 <= i <= j < e.len() ==> #[trigger] e[i].1 >= #[trigger] e[j].1
}

/// The all-time top ten, best first.
#[derive(Debug, Clone, Copy)]
pub struct Leaderboard {
    pub top_scores: [(Address, u64); 10],
}

/// The rank is the first position whose entry the score beats.
pub proof fn lemma_rank(e: Seq<(Address, u64)>, score: u64, i: int)
    requires
        0 <= i <= e.len(),
    ensures
        i <= rank_from(e, score, i) <= e.len(),
        forall|j: int| i <= j < rank_from(e, score, i) ==> score <= #[trigger] e[j].1,
        rank_from(e, score, i) < e.len() ==> score > e[rank_from(e, score, i)].1,
    decreases e.len() - i,
{
    if i < e.len() && score <= e[i].1 {
        lemma_rank(e, score, i + 1);
    }
}

impl Leaderboard {
    /// The ordering invariant of the table.
    pub open spec fn wf(&self) -> bool {
        descending(self.top_scores@)
    }

    /// An empty table: ten zero entries held by nobody.
    pub fn new() -> (r: Leaderboard)
        ensures
            r.wf(),
            forall|i: int| 0 <= i < 10 ==> (#[trigger] r.top_scores@[i]).1 == 0,
            forall|i: int| 0 <= i < 10 ==> (#[trigger] r.top_scores@[i]).0@ == nobody(),
    {
        let z = Address::zero();
        Leaderboard { top_scores: [(z, 0u64); 10] }
    }

    /// Submits a finished game's score.
    pub fn update(&mut self, player: Address, score: u64)
        ensures
            final(self).top_scores@ == submitted(old(self).top_scores@, player, score),
            old(self).wf() ==> final(self).wf(),
    {
        let ghost e = self.top_scores@;
        let mut i: usize = 0;
        while i < 10
            invariant
                0 <= i <= 10,
                self.top_scores@ == e,
                e.len() == 10,
                rank_from(e, score, 0) == rank_from(e, score, i as int),
            ensures
                0 <= i <= 10,
                self.top_scores@ == e,
                rank_from(e, score, 0) == rank_from(e, score, i as int),
                i < 10 ==> score > e[i as int].1,
            decreases 10 - i,
        {
            if score > self.top_scores[i].1 {
                break;
            }
            i = i + 1;
        }
        assert(rank(e, score) == i as int);
        if i < 10 {
            let mut j: usize = 9;
            while j > i
                invariant
                    i <= j <= 9,
                    i < 10,
                    e.len() == 10,
                    self.top_scores@.len() == 10,
                    forall|k: int| 0 <= k <= j ==> #[trigger] self.top_scores@[k] == e[k],
                    forall|k: int| j < k < 10 ==> #[trigger] self.top_scores@[k] == e[k - 1],
                decreases j,
            {
                let prev = self.top_scores[j - 1];
                self.top_scores[j] = prev;
                j = j - 1;
            }
            self.top_scores[i] = (player, score);
            assert(self.top_scores@ =~= submitted(e, player, score));
        }
        proof {
            if descending(e) {
                lemma_submitted_descending(e, player, score);
            }
        }
    }
}

/// Submitting keeps the table in descending order.
pub proof fn lemma_submitted_descending(e: Seq<(Address, u64)>, player: Address, score: u64)
    requires
        descending(e),
    ensures
        descending(submitted(e, player, score)),
{
    lemma_rank(e, score, 0);
    let r = rank(e, score);
    if r < e.len() {
        let n = submitted(e, player, score);
        assert forall|i: int, j: int| 0 <= i <= j < n.len() implies #[trigger] n[i].1
            >= #[trigger] n[j].1 by {
            if j < r {
            } else if j == r {
                if i < r {
                    assert(score <= e[i].1);
                }
            } else if i < r {
                assert(e[i].1 >= e[j - 1].1);
            } else if i == r {
                assert(score > e[r].1);
                assert(e[r].1 >= e[j - 1].1);
            } else {
                assert(e[i - 1].1 >= e[j - 1].1);
            }
        }
    }
}

/// A score that ties an entry does not displace it: the entry keeps its place.
pub proof fn lemma_tie_keeps_place(e: Seq<(Address, u64)>, player: Address, score: u64, k: int)
    requires
        descending(e),
        0 <= k < e.len(),
        e[k].1 == score,
    ensures
        submitted(e, player, score)[k] == e[k],
{
    lemma_rank(e, score, 0);
    let r = rank(e, score);
    if r <= k {
        assert(e[r].1 >= e[k].1);
    }
}

/// A score that does not beat the last entry leaves the table as it was.
pub proof fn lemma_too_low_no_effect(e: Seq<(Address, u64)>, player: Address, score: u64)
    requires
        descending(e),
        e.len() > 0,
        score <= e[e.len() - 1].1,
    ensures
        submitted(e, player, score) == e,
{
    lemma_rank(e, score, 0);
    let r = rank(e, score);
    if r < e.len() {
        assert(e[r].1 >= e[e.len() - 1].1);
    }
}

/// A score that beats the second-to-last entry enters at a place above the last.
proof fn lemma_enters_above_last(e: Seq<(Address, u64)>, player: Address, score: u64)
    requires
        descending(e),
        e.len() >= 2,
        score > e[e.len() - 2].1,
    ensures
        rank(e, score) <= e.len() - 2,
        submitted(e, player, score).len() == e.len(),
        submitted(e, player, score)[rank(e, score)] == (player, score),
        submitted(e, player, score)[e.len() - 1] == e[e.len() - 2],
        descending(submitted(e, player, score)),
{
    lemma_rank(e, score, 0);
    lemma_submitted_descending(e, player, score);
}

/// Two scores that both beat the second-to-last entry both end up in the
/// table, whichever is submitted first.
pub proof fn lemma_two_submissions_both_kept(
    e: Seq<(Address, u64)>,
    a: Address,
    sa: u64,
    b: Address,
    sb: u64,
)
    requires
        descending(e),
        e.len() >= 2,
        sa > e[e.len() - 2].1,
        sb > e[e.len() - 2].1,
    ensures
        submitted(submitted(e, a, sa), b, sb).contains((a, sa)),
        submitted(submitted(e, a, sa), b, sb).contains((b, sb)),
        submitted(submitted(e, b, sb), a, sa).contains((a, sa)),
        submitted(submitted(e, b, sb), a, sa).contains((b, sb)),
{
    lemma_second_kept(e, a, sa, b, sb);
    lemma_second_kept(e, b, sb, a, sa);
}

proof fn lemma_second_kept(e: Seq<(Address, u64)>, a: Address, sa: u64, b: Address, sb: u64)
    requires
        descending(e),
        e.len() >= 2,
        sa > e[e.len() - 2].1,
        sb > e[e.len() - 2].1,
    ensures
        submitted(submitted(e, a, sa), b, sb).contains((a, sa)),
        submitted(submitted(e, a, sa), b, sb).contains((b, sb)),
{
    let n = e.len();
    lemma_enters_above_last(e, a, sa);
    let e1 = submitted(e, a, sa);
    let ra = rank(e, sa);
    lemma_rank(e, sa, 0);
    lemma_rank(e1, sb, 0);
    let rb = rank(e1, sb);
    assert(rb < n) by {
        if rb >= n {
            assert(sb <= e1[n - 1].1);
        }
    }
    let e2 = submitted(e1, b, sb);
    let front = e1.take(rb).push((b, sb));
    assert(e2 == front + e1.subrange(rb, n - 1));
    assert(e2.len() == n);
    assert(e2[rb] == (b, sb));
    if ra < rb {
        assert(front[ra] == e1[ra]);
        assert(e2[ra] == (a, sa));
    } else {
        assert(e2[ra + 1] == e1.subrange(rb, n - 1)[ra - rb]);
        assert(e2[ra + 1] == (a, sa));
    }
}

} // verus!
