//! Replaying event logs.

use crate::aggregate::{Aggregate, AggregateError};
use crate::event::DomainEvent;
use vstd::prelude::*;

verus! {

/// Whether applying `event` to `pre` may leave `post` with the answer `outcome`.
pub open spec fn steps<A: Aggregate>(
    pre: A,
    event: DomainEvent,
    post: A,
    outcome: Result<(), AggregateError>,
) -> bool {
    &&& A::applied(pre, event, post, outcome)
    &&& outcome is Ok ==> post.version_model() == pre.version_model() + 1
}

/// Whether applying `events` to `pre`, in order and up to the first that is
/// refused, may end in `result`: the aggregate that all of them lead to, or the
/// error of the refused one.
pub open spec fn replays<A: Aggregate>(
    pre: A,
    events: Seq<DomainEvent>,
    result: Result<A, AggregateError>,
) -> bool
    decreases events.len(),
{
    if events.len() == 0 {
        result == Ok::<A, AggregateError>(pre)
    } else {
        exists|mid: A, outcome: Result<(), AggregateError>| #[trigger]
            steps(pre, events.first(), mid, outcome) && match outcome {
                Ok(_) => replays(mid, events.drop_first(), result),
                Err(error) => result == Err::<A, AggregateError>(error),
            }
    }
}

/// Applies `events` to `aggregate`, in order, up to the first that is refused.
pub fn replay<A: Aggregate>(aggregate: A, events: &[DomainEvent]) -> (result: Result<
    A,
    AggregateError,
>)
    ensures
        replays(aggregate, events@, result),
{
    let mut current = aggregate;
    let mut i: usize = 0;
    assert(events@.skip(0) =~= events@);
    while i < events.len()
        invariant
            i <= events@.len(),
            forall|result: Result<A, AggregateError>| #[trigger]
                replays(current, events@.skip(i as int), result) ==> replays(
                    aggregate,
                    events@,
                    result,
                ),
        decreases events@.len() - i,
    {
        let ghost before = current;
        let ghost rest = events@.skip(i as int);
        assert(rest.drop_first() =~= events@.skip(i + 1));
        let outcome = current.apply_event(&events[i]);
        assert(steps(before, rest.first(), current, outcome));
        match outcome {
            Ok(_) => {
                assert forall|result: Result<A, AggregateError>| #[trigger]
                    replays(current, events@.skip(i + 1), result) implies replays(
                    aggregate,
                    events@,
                    result,
                ) by {
                    assert(replays(before, rest, result));
                }
            },
            Err(error) => {
                assert(replays(before, rest, Err(error)));
                return Err(error);
            },
        }
        i += 1;
    }
    assert(replays(current, events@.skip(i as int), Ok(current)));
    Ok(current)
}

} // verus!
