//! Time gained from a plain list of clock readings, taken in turn at the
//! start and at the end of each interval.

use crate::error::TimerError;
use vstd::prelude::*;

verus! {

/// The readings of `instants` two by two: the start and the end of each
/// interval.
pub open spec fn paired(instants: Seq<u128>) -> Seq<(u128, u128)> {
    Seq::new(instants.len() / 2, |i: int| (instants[2 * i], instants[2 * i + 1]))
}

/// Whether no interval ends before it starts.
pub open spec fn pairs_in_order(pairs: Seq<(u128, u128)>) -> bool {
    forall|i: int| 0 <= i < pairs.len() ==> (#[trigger] pairs[i]).0 <= pairs[i].1
}

/// The sum of the lengths of the intervals.
pub open spec fn pairs_sum(pairs: Seq<(u128, u128)>) -> int
    decreases pairs.len(),
{
    if pairs.len() == 0 {
        0
    } else {
        pairs_sum(pairs.drop_last()) + (pairs.last().1 - pairs.last().0)
    }
}

/// The sum of a list of spans.
pub open spec fn spans_sum(spans: Seq<u128>) -> int
    decreases spans.len(),
{
    if spans.len() == 0 {
        0
    } else {
        spans_sum(spans.drop_last()) + spans.last()
    }
}

/// The time gained over the intervals `pairs` and the additions: refused
/// when an interval ends before it starts, and when the sum leaves 128
/// bits.
pub open spec fn gained(pairs: Seq<(u128, u128)>, additions: Seq<u128>) -> Result<
    u128,
    TimerError,
> {
    if !pairs_in_order(pairs) {
        Err(TimerError::ClockWentBackward)
    } else if pairs_sum(pairs) + spans_sum(additions) > u128::MAX {
        Err(TimerError::Overflow)
    } else {
        Ok((pairs_sum(pairs) + spans_sum(additions)) as u128)
    }
}

/// The sum of intervals in order is not negative.
proof fn lemma_pairs_sum_bounds(pairs: Seq<(u128, u128)>)
    requires
        pairs_in_order(pairs),
    ensures
        pairs_sum(pairs) >= 0,
    decreases pairs.len(),
{
    if pairs.len() > 0 {
        assert(pairs_in_order(pairs.drop_last())) by {
            assert forall|i: int| 0 <= i < pairs.drop_last().len() implies (
            #[trigger] pairs.drop_last()[i]).0 <= pairs.drop_last()[i].1 by {
                assert(pairs[i].0 <= pairs[i].1);
            }
        }
        lemma_pairs_sum_bounds(pairs.drop_last());
        assert(pairs[pairs.len() - 1].0 <= pairs[pairs.len() - 1].1);
    }
}

/// The sum of spans is not negative.
proof fn lemma_spans_sum_bounds(spans: Seq<u128>)
    ensures
        spans_sum(spans) >= 0,
    decreases spans.len(),
{
    if spans.len() > 0 {
        lemma_spans_sum_bounds(spans.drop_last());
    }
}

/// Pairs up a list of readings. A list of odd length has a start without
/// an end and is turned away.
pub fn convert_vec_to_vec_of_tuples(untupled_vec: Vec<u128>) -> (r: Result<
    Vec<(u128, u128)>,
    TimerError,
>)
    ensures
        untupled_vec@.len() % 2 == 0 ==> r is Ok && r->Ok_0@ == paired(untupled_vec@),
        untupled_vec@.len() % 2 != 0 ==> r is Err && r->Err_0 == TimerError::UnpairedInstant,
{
    if untupled_vec.len() % 2 != 0 {
        return Err(TimerError::UnpairedInstant);
    }
    let mut tupled_vec: Vec<(u128, u128)> = Vec::new();
    let mut idx: usize = 0;
    while idx < untupled_vec.len()
        invariant
            idx <= untupled_vec.len(),
            idx % 2 == 0,
            untupled_vec@.len() % 2 == 0,
            tupled_vec@.len() == idx / 2,
            forall|j: int|
                0 <= j < tupled_vec@.len() ==> #[trigger] tupled_vec@[j] == (
                    untupled_vec@[2 * j],
                    untupled_vec@[2 * j + 1],
                ),
        decreases untupled_vec.len() - idx,
    {
        tupled_vec.push((untupled_vec[idx], untupled_vec[idx + 1]));
        idx += 2;
    }
    assert(tupled_vec@ =~= paired(untupled_vec@));
    Ok(tupled_vec)
}

/// The time gained over the intervals and the additions.
pub fn get_duration_from_vec_of_tupled_instants(
    tupled_vec: Vec<(u128, u128)>,
    additions: Vec<u128>,
) -> (r: Result<u128, TimerError>)
    ensures
        r == gained(tupled_vec@, additions@),
{
    let mut i: usize = 0;
    while i < tupled_vec.len()
        invariant
            i <= tupled_vec.len(),
            forall|j: int| 0 <= j < i ==> (#[trigger] tupled_vec@[j]).0 <= tupled_vec@[j].1,
        decreases tupled_vec.len() - i,
    {
        if tupled_vec[i].1 < tupled_vec[i].0 {
            return Err(TimerError::ClockWentBackward);
        }
        i += 1;
    }
    assert(pairs_in_order(tupled_vec@));
    let mut acc: Option<u128> = Some(0);
    let mut k: usize = 0;
    while k < tupled_vec.len()
        invariant
            k <= tupled_vec.len(),
            pairs_in_order(tupled_vec@),
            pairs_sum(tupled_vec@.take(k as int)) >= 0,
            match acc {
                Some(s) => s == pairs_sum(tupled_vec@.take(k as int)),
                None => pairs_sum(tupled_vec@.take(k as int)) > u128::MAX,
            },
        decreases tupled_vec.len() - k,
    {
        proof {
            assert(tupled_vec@.take(k + 1).drop_last() =~= tupled_vec@.take(k as int));
            assert(tupled_vec@.take(k + 1).last() == tupled_vec@[k as int]);
            assert(tupled_vec@[k as int].0 <= tupled_vec@[k as int].1);
        }
        let span = tupled_vec[k].1 - tupled_vec[k].0;
        acc = match acc {
            Some(s) => s.checked_add(span),
            None => None,
        };
        k += 1;
    }
    proof {
        assert(tupled_vec@.take(tupled_vec.len() as int) =~= tupled_vec@);
    }
    let mut m: usize = 0;
    while m < additions.len()
        invariant
            m <= additions.len(),
            pairs_sum(tupled_vec@) >= 0,
            spans_sum(additions@.take(m as int)) >= 0,
            match acc {
                Some(s) => s == pairs_sum(tupled_vec@) + spans_sum(additions@.take(m as int)),
                None => pairs_sum(tupled_vec@) + spans_sum(additions@.take(m as int)) > u128::MAX,
            },
        decreases additions.len() - m,
    {
        proof {
            assert(additions@.take(m + 1).drop_last() =~= additions@.take(m as int));
            assert(additions@.take(m + 1).last() == additions@[m as int]);
        }
        acc = match acc {
            Some(s) => s.checked_add(additions[m]),
            None => None,
        };
        m += 1;
    }
    proof {
        assert(additions@.take(additions.len() as int) =~= additions@);
    }
    match acc {
        Some(total) => Ok(total),
        None => Err(TimerError::Overflow),
    }
}

/// The time gained over a list of readings, taken in turn at the start
/// and at the end of each interval, and a list of additions.
pub fn report_time_gained(durations: Vec<u128>, additions: Vec<u128>) -> (r: Result<
    u128,
    TimerError,
>)
    ensures
        durations@.len() % 2 != 0 ==> r == Err::<u128, TimerError>(TimerError::UnpairedInstant),
        durations@.len() % 2 == 0 ==> r == gained(paired(durations@), additions@),
{
    match convert_vec_to_vec_of_tuples(durations) {
        Ok(pairs) => get_duration_from_vec_of_tupled_instants(pairs, additions),
        Err(e) => Err(e),
    }
}

} // verus!
