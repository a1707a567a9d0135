use crate::error::CustomError;
use vstd::prelude::*;

verus! {

/// How many of the dice show `v`.
pub open spec fn count_of(d: Seq<u8>, v: u8) -> nat
    decreases d.len(),
{
    if d.len() == 0 {
        0
    } else {
        count_of(d.drop_last(), v) + if d.last() == v {
            1nat
        } else {
            0nat
        }
    }
}

/// A category is one of the faces 1 to 6.
pub open spec fn valid_category(c: u8) -> bool {
    1 <= c <= 6
}

/// What the dice are worth in category `c`: `c * 1000` for each die showing `c`.
pub open spec fn category_score(d: Seq<u8>, c: u8) -> int {
    c * 1000 * count_of(d, c)
}

proof fn lemma_count_bound(d: Seq<u8>, v: u8)
    ensures
        count_of(d, v) <= d.len(),
    decreases d.len(),
{
    if d.len() > 0 {
        lemma_count_bound(d.drop_last(), v);
    }
}

/// Scores five dice in a category.
pub fn score_dice(dice: &Vec<u8>, score_type: u8) -> (r: Result<u64, CustomError>)
    requires
        dice@.len() == 5,
    ensures
        valid_category(score_type) ==> r == Ok::<u64, CustomError>(
            category_score(dice@, score_type) as u64,
        ),
        valid_category(score_type) ==> category_score(dice@, score_type) <= 30000,
        !valid_category(score_type) ==> r == Err::<u64, CustomError>(CustomError::InvalidScoreType),
{
    if score_type < 1 || score_type > 6 {
        return Err(CustomError::InvalidScoreType);
    }
    let mut count: u64 = 0;
    let mut i: usize = 0;
    while i < dice.len()
        invariant
            0 <= i <= dice@.len(),
            dice@.len() == 5,
            count == count_of(dice@.take(i as int), score_type),
            count <= i,
        decreases dice@.len() - i,
    {
        assert(dice@.take(i + 1).drop_last() =~= dice@.take(i as int));
        if dice[i] == score_type {
            count = count + 1;
        }
        i = i + 1;
    }
    assert(dice@.take(5) =~= dice@);
    proof {
        assert(score_type * 1000 * count <= 30000) by (nonlinear_arith)
            requires
                score_type <= 6,
                count <= 5,
        ;
    }
    Ok(score_type as u64 * 1000 * count)
}

} // verus!
