//! HTTP router: who owns a response while its body is streamed to the client.

use vstd::prelude::*;

verus! {

/// One step of a guarded stream. `next` is what the upstream stream gave, and
/// `guard` is the guard as the step before left it.
pub open spec fn stepped<T, E, G>(next: Option<Result<T, E>>, guard: Option<G>) -> Option<
    (Result<T, E>, Option<G>),
> {
    match next {
        Some(Ok(item)) => Some((Ok(item), guard)),
        Some(Err(error)) => Some((Err(error), None)),
        None => None,
    }
}

/// Keep a guard alive until a response stream completes, errors, or is dropped:
/// what to hand the client for `next`, and what is left of the guard. An item
/// keeps the guard, an error releases it and is still handed on, and the end of
/// the stream ends the guarded stream and releases the guard.
pub fn guarded_step<T, E, G>(next: Option<Result<T, E>>, guard: Option<G>) -> (step: Option<
    (Result<T, E>, Option<G>),
>)
    ensures
        step == stepped(next, guard),
{
    match next {
        Some(Ok(item)) => Some((Ok(item), guard)),
        Some(Err(error)) => Some((Err(error), None)),
        None => None,
    }
}

/// What has been handed to the client, and what is left of the guard, once the
/// upstream stream has given `given` and not yet ended.
pub open spec fn guarded_run<T, E, G>(given: Seq<Result<T, E>>, guard: G) -> (
    Seq<Result<T, E>>,
    Option<G>,
)
    decreases given.len(),
{
    if given.len() == 0 {
        (Seq::empty(), Some(guard))
    } else {
        let (handed, left) = guarded_run(given.drop_last(), guard);
        match stepped(Some(given.last()), left) {
            Some((out, left_now)) => (handed.push(out), left_now),
            None => (handed, None),
        }
    }
}

/// The client receives exactly what the upstream stream gave, in order: errors
/// included, and whatever an item holds.
pub proof fn law_stream_is_forwarded_unchanged<T, E, G>(given: Seq<Result<T, E>>, guard: G)
    ensures
        guarded_run(given, guard).0 == given,
    decreases given.len(),
{
    if given.len() > 0 {
        law_stream_is_forwarded_unchanged(given.drop_last(), guard);
        assert(given.drop_last().push(given.last()) == given);
    }
}

/// While the upstream stream has not ended, the guard is held as long as no
/// error has come, whatever the items hold, and is gone after the first error.
pub proof fn law_guard_is_held_until_the_first_error<T, E, G>(given: Seq<Result<T, E>>, guard: G)
    ensures
        guarded_run(given, guard).1 == if forall|i: int|
            0 <= i < given.len() ==> #[trigger] given[i] is Ok {
            Some(guard)
        } else {
            None
        },
    decreases given.len(),
{
    if given.len() > 0 {
        let before = given.drop_last();
        law_guard_is_held_until_the_first_error(before, guard);
        assert(forall|i: int| 0 <= i < before.len() ==> before[i] == #[trigger] given[i]);
        if given.last() is Ok && forall|i: int| 0 <= i < before.len() ==> #[trigger] before[i] is Ok {
            assert forall|i: int| 0 <= i < given.len() implies #[trigger] given[i] is Ok by {
                if i < before.len() {
                    assert(before[i] is Ok);
                }
            }
        } else if given.last() is Ok {
            let k = choose|k: int| 0 <= k < before.len() && !(#[trigger] before[k] is Ok);
            assert(!(given[k] is Ok));
        } else {
            assert(!(given[given.len() - 1] is Ok));
        }
    }
}

/// A released guard never comes back, so it is released once: whatever comes
/// after the release, no step holds a guard again.
pub proof fn law_guard_is_released_once<T, E, G>(given: Seq<Result<T, E>>, released: int, guard: G)
    requires
        0 <= released <= given.len(),
        guarded_run(given.take(released), guard).1 is None,
    ensures
        guarded_run(given, guard).1 is None,
    decreases given.len(),
{
    if released == given.len() {
        assert(given.take(released) == given);
    } else {
        assert(given.drop_last().take(released) == given.take(released));
        law_guard_is_released_once(given.drop_last(), released, guard);
    }
}

/// The end of the upstream stream ends the guarded stream and leaves no guard,
/// whether or not an error had released it before.
pub proof fn law_end_releases_the_guard<T, E, G>(guard: Option<G>)
    ensures
        stepped::<T, E, G>(None, guard) is None,
{
}

/// A step hands on exactly what came, and keeps what was left of the guard on
/// an item and nothing of it on an error.
pub proof fn law_step_hands_on_what_came<T, E, G>(came: Result<T, E>, guard: Option<G>)
    ensures
        stepped(Some(came), guard) matches Some((out, left)) && {
            &&& out == came
            &&& came is Ok ==> left == guard
            &&& came is Err ==> left is None
        },
{
}

} // verus!
