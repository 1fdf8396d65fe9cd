use crate::notification::Notification;
use crate::subscriber::{after_pushes, Subscriber};
use vstd::prelude::*;

verus! {

/// What a single value is pushed as: the value, then the end of the stream.
pub open spec fn value_delivery<Item, E>(value: Item) -> Seq<Notification<Item, E>> {
    seq![Notification::Next(value), Notification::Complete]
}

/// What an outcome is pushed as: a success as its value and then the end of
/// the stream, a failure as one `Error` alone.
pub open spec fn outcome_delivery<Item, E>(outcome: Result<Item, E>) -> Seq<Notification<Item, E>> {
    match outcome {
        Ok(value) => value_delivery(value),
        Err(err) => seq![Notification::Error(err)],
    }
}

/// Pushes a single value to `subscriber`: `next(value)`, then `complete()`.
pub fn emit_value<Item, E>(value: Item, subscriber: &mut Subscriber<Item, E>)
    requires
        old(subscriber).wf(),
    ensures
        final(subscriber).wf(),
        final(subscriber)@ == after_pushes(old(subscriber)@, value_delivery::<Item, E>(value)),
{
    subscriber.next(value);
    subscriber.complete();
    proof {
        reveal_with_fuel(after_pushes, 3);
        assert(value_delivery::<Item, E>(value).drop_first() =~= seq![Notification::Complete]);
    }
}

/// Pushes an outcome to `subscriber`: a success as `next(value)` and then
/// `complete()`, a failure as `error(err)` alone.
pub fn emit_outcome<Item, E>(outcome: Result<Item, E>, subscriber: &mut Subscriber<Item, E>)
    requires
        old(subscriber).wf(),
    ensures
        final(subscriber).wf(),
        final(subscriber)@ == after_pushes(old(subscriber)@, outcome_delivery(outcome)),
{
    match outcome {
        Ok(value) => emit_value(value, subscriber),
        Err(err) => subscriber.error(err),
    }
}

} // verus!
