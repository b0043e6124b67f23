//! Laws of the bounded-history policy, proved over the same spec functions
//! that the executable contracts use.

use crate::driver::any_exhausted;
use crate::driver::flag_after_rewind;
use crate::driver::TrackedObject;
use crate::history::push_bounded;
use vstd::math::min;
use vstd::prelude::*;

verus! {

/// The history that a run of forward ticks leaves behind, starting from
/// `entries`: one bounded push per tick, oldest tick first.
pub open spec fn capture_seq<C>(entries: Seq<C>, values: Seq<C>, max_capture_count: nat) -> Seq<C>
    decreases values.len(),
{
    if values.len() == 0 {
        entries
    } else {
        capture_seq(
            push_bounded(entries, values.first(), max_capture_count),
            values.drop_first(),
            max_capture_count,
        )
    }
}

/// A run of forward ticks keeps exactly the most recent captures: starting
/// from a history within its bound, the history afterward is the suffix of
/// all values ever held — the old entries followed by the captured ones —
/// that the bound admits.
pub proof fn lemma_capture_seq_suffix<C>(entries: Seq<C>, values: Seq<C>, max_capture_count: nat)
    requires
        entries.len() <= max_capture_count,
    ensures
        ({
            let all = entries + values;
            let keep = min(all.len() as int, max_capture_count as int);
            capture_seq(entries, values, max_capture_count) =~= all.subrange(
                all.len() - keep,
                all.len() as int,
            )
        }),
    decreases values.len(),
{
    let all = entries + values;
    let keep = min(all.len() as int, max_capture_count as int);
    if values.len() == 0 {
        assert(all =~= entries);
    } else {
        let stepped = push_bounded(entries, values.first(), max_capture_count);
        let rest = values.drop_first();
        lemma_capture_seq_suffix(stepped, rest, max_capture_count);
        let all2 = stepped + rest;
        let keep2 = min(all2.len() as int, max_capture_count as int);
        if entries.len() + 1 > max_capture_count {
            assert(stepped =~= (entries.push(values.first())).drop_first());
            assert(all2 =~= all.drop_first());
            assert(all2.subrange(all2.len() - keep2, all2.len() as int) =~= all.subrange(
                all.len() - keep,
                all.len() as int,
            ));
        } else {
            assert(all2 =~= all);
        }
    }
}

/// For every run of N forward ticks with no rewind, starting from an empty
/// history, the history's length is the smaller of N and the capture bound,
/// and its tail is the most recently captured value.
pub proof fn lemma_forward_run<C>(values: Seq<C>, max_capture_count: nat)
    ensures
        capture_seq(Seq::<C>::empty(), values, max_capture_count).len() == min(
            values.len() as int,
            max_capture_count as int,
        ),
        values.len() > 0 && max_capture_count > 0 ==> capture_seq(
            Seq::<C>::empty(),
            values,
            max_capture_count,
        ).last() == values.last(),
{
    lemma_capture_seq_suffix(Seq::<C>::empty(), values, max_capture_count);
    assert(Seq::<C>::empty() + values =~= values);
}

/// Round trip: capturing `v1` then `v2` and then rewinding twice restores the
/// live value to `v2` then `v1`, in that exact LIFO order — the tail of the
/// history after both captures is `v2`, and the tail after removing it is
/// `v1`. It takes a bound of at least 2 for both values to be retained.
pub proof fn lemma_round_trip<C>(entries: Seq<C>, v1: C, v2: C, max_capture_count: nat)
    requires
        max_capture_count >= 2,
    ensures
        ({
            let after = push_bounded(
                push_bounded(entries, v1, max_capture_count),
                v2,
                max_capture_count,
            );
            &&& after.len() >= 2
            &&& after.last() == v2
            &&& after.drop_last().last() == v1
        }),
{
}

/// Idempotence of the bound: a push never lets the history exceed
/// `max_capture_count` once it is within it, growth is by exactly one entry
/// while the bound is not reached, and eviction drops exactly the oldest
/// entry — the head — never the newest.
pub proof fn lemma_push_bounded_bound<C>(entries: Seq<C>, value: C, max_capture_count: nat)
    ensures
        entries.len() <= max_capture_count ==> push_bounded(
            entries,
            value,
            max_capture_count,
        ).len() <= max_capture_count,
        entries.len() < max_capture_count ==> push_bounded(entries, value, max_capture_count)
            == entries.push(value),
        entries.len() >= max_capture_count ==> push_bounded(entries, value, max_capture_count)
            =~= entries.push(value).drop_first(),
{
}

/// Boundary: with a capture bound of zero no history is ever retained — every
/// capture step nets to an empty history, so a whole forward run from an
/// empty history leaves it empty.
pub proof fn lemma_zero_bound<C>(values: Seq<C>)
    ensures
        capture_seq(Seq::<C>::empty(), values, 0) =~= Seq::<C>::empty(),
{
    lemma_capture_seq_suffix(Seq::<C>::empty(), values, 0);
    assert(Seq::<C>::empty() + values =~= values);
}

/// Exhaustion latches the cancellation: if the policy is on and any object in
/// the pass has run out of history, the mode flag is false after the pass; a
/// pass that starts with the flag off leaves it off; and a pass never turns
/// the flag on — the flag after a rewind pass implies the flag before it.
pub proof fn lemma_exhaustion_latches<C>(
    flag_before: bool,
    cancel_on_empty_history: bool,
    objects: Seq<TrackedObject<C>>,
)
    ensures
        cancel_on_empty_history && any_exhausted(objects) ==> flag_after_rewind(
            flag_before,
            cancel_on_empty_history,
            objects,
        ) == false,
        flag_after_rewind(false, cancel_on_empty_history, objects) == false,
        flag_after_rewind(flag_before, cancel_on_empty_history, objects) ==> flag_before,
{
}

} // verus!
