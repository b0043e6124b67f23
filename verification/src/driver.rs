//! The per-tick capture/replay driver, generic over the tracked value type.

use crate::history::push_bounded;
use crate::history::RewindComponent;
use crate::settings::RewindSettings;
use crate::settings::Rewinding;
use vstd::pervasive::cloned;
use vstd::prelude::*;

verus! {

/// One live object tracked for rewind: its current value of one tracked type
/// together with the history of that value's past.
pub struct TrackedObject<C> {
    /// The live value, read in forward mode and overwritten in rewind mode.
    pub value: C,
    /// The record of past values of this object.
    pub history: RewindComponent<C>,
}

/// What one capture step does to one tracked object: the live value is left
/// unmodified and a clone of it is appended to the bounded history.
pub open spec fn object_captured<C: Clone>(
    pre: TrackedObject<C>,
    post: TrackedObject<C>,
    max_capture_count: nat,
) -> bool {
    &&& post.value == pre.value
    &&& exists|v: C|
        #[trigger] cloned(pre.value, v) && post.history@ == push_bounded(
            pre.history@,
            v,
            max_capture_count,
        )
}

/// What one rewind step does to one tracked object: the most recent entry, if
/// any, is removed from the history and becomes the live value; an exhausted
/// object is left unmodified.
pub open spec fn object_rewound<C>(pre: TrackedObject<C>, post: TrackedObject<C>) -> bool {
    if pre.history@.len() > 0 {
        post.value == pre.history@.last() && post.history@ == pre.history@.drop_last()
    } else {
        post.value == pre.value && post.history@ == pre.history@
    }
}

/// Whether some tracked object has run out of history.
pub open spec fn any_exhausted<C>(objects: Seq<TrackedObject<C>>) -> bool {
    exists|i: int| 0 <= i < objects.len() && (#[trigger] objects[i]).history@.len() == 0
}

/// The mode flag after one full rewind pass: it stays as it was unless the
/// cancellation policy is on and some object was found exhausted, in which
/// case it is force-reset to false.
pub open spec fn flag_after_rewind<C>(
    flag_before: bool,
    cancel_on_empty_history: bool,
    objects: Seq<TrackedObject<C>>,
) -> bool {
    flag_before && !(cancel_on_empty_history && any_exhausted(objects))
}

/// Forward-mode step for one object: append a clone of the live value to its
/// history under the bounding policy; the live value is left unmodified.
pub fn capture_component<C: Clone>(
    value: &C,
    history: &mut RewindComponent<C>,
    rewind_settings: &RewindSettings,
)
    ensures
        exists|v: C|
            #[trigger] cloned(*value, v) && final(history)@ == push_bounded(
                old(history)@,
                v,
                rewind_settings.max_capture_count as nat,
            ),
{
    let v = value.clone();
    proof {
        assert(cloned(*value, v));
    }
    history.push(v, rewind_settings.max_capture_count);
}

/// Rewind-mode step for one object: pop the most recent entry and write it
/// onto the live value; on an exhausted history the live value is left
/// unmodified and, if the cancellation policy is on, rewind mode is
/// force-exited. The step never turns the flag on.
pub fn rewind_component<C>(
    value: &mut C,
    history: &mut RewindComponent<C>,
    rewinding: &mut Rewinding,
    rewind_settings: &RewindSettings,
)
    ensures
        old(history)@.len() > 0 ==> *final(value) == old(history)@.last() && final(history)@ == old(
            history,
        )@.drop_last() && final(rewinding)@ == old(rewinding)@,
        old(history)@.len() == 0 ==> *final(value) == *old(value) && final(history)@ == old(
            history,
        )@ && final(rewinding)@ == (old(rewinding)@
            && !rewind_settings.cancel_on_empty_history),
        final(rewinding)@ ==> old(rewinding)@,
{
    if let Some(old_value) = history.pop() {
        *value = old_value;
    } else if rewind_settings.cancel_on_empty_history {
        rewinding.set_rewinding(false);
    }
}

/// Forward-mode pass over every tracked object of one value type: each live
/// value is captured into that object's history under the bounding policy and
/// is itself left unmodified.
pub fn capture_components<C: Clone>(
    objects: &mut Vec<TrackedObject<C>>,
    rewind_settings: &RewindSettings,
)
    ensures
        final(objects)@.len() == old(objects)@.len(),
        forall|i: int|
            0 <= i < old(objects)@.len() ==> object_captured(
                old(objects)@[i],
                #[trigger] final(objects)@[i],
                rewind_settings.max_capture_count as nat,
            ),
{
    let n = objects.len();
    let mut i: usize = 0;
    while i < n
        invariant
            i <= n,
            n == objects@.len(),
            objects@.len() == old(objects)@.len(),
            forall|j: int|
                0 <= j < i ==> object_captured(
                    old(objects)@[j],
                    #[trigger] objects@[j],
                    rewind_settings.max_capture_count as nat,
                ),
            forall|j: int| i <= j < n ==> objects@[j] == old(objects)@[j],
        decreases n - i,
    {
        let obj = &mut objects[i];
        let v = obj.value.clone();
        proof {
            assert(cloned(old(objects)@[i as int].value, v));
        }
        obj.history.push(v, rewind_settings.max_capture_count);
        i += 1;
    }
}

/// Rewind-mode pass over every tracked object of one value type: each object
/// pops its most recent entry and restores it as the live value; an exhausted
/// object is left unmodified and, under the cancellation policy, force-exits
/// rewind mode for every tracked type at once. The pass never turns the mode
/// flag on.
pub fn rewind_components<C>(
    objects: &mut Vec<TrackedObject<C>>,
    rewinding: &mut Rewinding,
    rewind_settings: &RewindSettings,
)
    ensures
        final(objects)@.len() == old(objects)@.len(),
        forall|i: int|
            0 <= i < old(objects)@.len() ==> object_rewound(
                old(objects)@[i],
                #[trigger] final(objects)@[i],
            ),
        final(rewinding)@ == flag_after_rewind(
            old(rewinding)@,
            rewind_settings.cancel_on_empty_history,
            old(objects)@,
        ),
        final(rewinding)@ ==> old(rewinding)@,
{
    let n = objects.len();
    let mut i: usize = 0;
    while i < n
        invariant
            i <= n,
            n == objects@.len(),
            objects@.len() == old(objects)@.len(),
            forall|j: int|
                0 <= j < i ==> object_rewound(old(objects)@[j], #[trigger] objects@[j]),
            forall|j: int| i <= j < n ==> objects@[j] == old(objects)@[j],
            rewinding@ == flag_after_rewind(
                old(rewinding)@,
                rewind_settings.cancel_on_empty_history,
                old(objects)@.subrange(0, i as int),
            ),
        decreases n - i,
    {
        let ghost prefix = old(objects)@.subrange(0, i as int);
        let obj = &mut objects[i];
        rewind_component(&mut obj.value, &mut obj.history, rewinding, rewind_settings);
        proof {
            let extended = old(objects)@.subrange(0, i + 1);
            assert(extended.drop_last() =~= prefix);
            assert(extended.last() == old(objects)@[i as int]);
            lemma_any_exhausted_extend(prefix, extended);
        }
        i += 1;
    }
    proof {
        assert(old(objects)@.subrange(0, n as int) =~= old(objects)@);
    }
}

/// Extending a run of objects by one: the extended run holds an exhausted
/// object exactly when the shorter run does or the new object is exhausted.
proof fn lemma_any_exhausted_extend<C>(prefix: Seq<TrackedObject<C>>, extended: Seq<TrackedObject<C>>)
    requires
        extended.len() == prefix.len() + 1,
        extended.drop_last() == prefix,
    ensures
        any_exhausted(extended) == (any_exhausted(prefix) || extended.last().history@.len() == 0),
{
    if any_exhausted(prefix) {
        let i = choose|i: int| 0 <= i < prefix.len() && (#[trigger] prefix[i]).history@.len() == 0;
        assert(extended[i].history@.len() == 0);
    }
    if extended.last().history@.len() == 0 {
        assert((#[trigger] extended[extended.len() - 1]).history@.len() == 0);
    }
    if any_exhausted(extended) {
        let i = choose|i: int|
            0 <= i < extended.len() && (#[trigger] extended[i]).history@.len() == 0;
        if i < prefix.len() {
            assert(prefix[i].history@.len() == 0);
        }
    }
}

/// One per-tick driver step for one tracked value type: the mode flag is
/// sampled once and selects exactly one of the two mutually exclusive passes,
/// capture (forward mode) or rewind (rewind mode). The step itself never
/// turns the flag on; only the host does, through [`Rewinding::set_rewinding`].
pub fn drive_tick<C: Clone>(
    objects: &mut Vec<TrackedObject<C>>,
    rewinding: &mut Rewinding,
    rewind_settings: &RewindSettings,
)
    ensures
        final(objects)@.len() == old(objects)@.len(),
        !old(rewinding)@ ==> final(rewinding)@ == false && forall|i: int|
            0 <= i < old(objects)@.len() ==> object_captured(
                old(objects)@[i],
                #[trigger] final(objects)@[i],
                rewind_settings.max_capture_count as nat,
            ),
        old(rewinding)@ ==> (forall|i: int|
            0 <= i < old(objects)@.len() ==> object_rewound(
                old(objects)@[i],
                #[trigger] final(objects)@[i],
            )) && final(rewinding)@ == flag_after_rewind(
            true,
            rewind_settings.cancel_on_empty_history,
            old(objects)@,
        ),
        final(rewinding)@ ==> old(rewinding)@,
{
    if rewinding.is_rewinding() {
        rewind_components(objects, rewinding, rewind_settings);
    } else {
        capture_components(objects, rewind_settings);
    }
}

} // verus!
