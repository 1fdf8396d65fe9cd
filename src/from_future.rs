use crate::emission::{emit_outcome, emit_value, outcome_delivery, value_delivery};
use crate::notification::{log_closed, Notification};
use crate::subscriber::{after_pushes, lemma_pushes_to_open_log, Subscriber};
use core::marker::PhantomData;
use vstd::prelude::*;

verus! {

/// A computation whose output is pushed as one value. The output is never
/// read as a failure, whatever its shape.
#[derive(Clone)]
pub struct FutureEmitter<F>(F);

/// A computation whose output, turned into a `Result` by the caller, is
/// pushed as a value or as a failure.
pub struct FutureResultEmitter<F, Item, E>(F, PhantomData<(Item, E)>);

/// Wraps `f` so that its output is pushed as one value followed by the end of
/// the stream; an output that looks like a failure is pushed as a value too.
pub fn from_future<F>(f: F) -> (r: FutureEmitter<F>)
    ensures
        r.computation() == f,
{
    FutureEmitter(f)
}

/// Wraps `f` so that its outcome is pushed as a value and the end of the
/// stream, or as one failure.
pub fn from_future_result<F, Item, E>(f: F) -> (r: FutureResultEmitter<F, Item, E>)
    ensures
        r.computation() == f,
{
    FutureResultEmitter(f, PhantomData)
}

/// What a value bridge does once its computation has produced an output: it
/// holds the subscriber that the output goes to.
pub struct ValueContinuation<Item> {
    subscriber: Subscriber<Item, ()>,
}

/// What a result bridge does once its computation has produced an outcome:
/// it holds the subscriber that the outcome goes to.
pub struct OutcomeContinuation<Item, E> {
    subscriber: Subscriber<Item, E>,
}

impl<F> FutureEmitter<F> {
    /// The wrapped computation.
    pub closed spec fn computation(&self) -> F {
        self.0
    }

    /// Subscribes `subscriber`. Nothing is pushed now: the computation comes
    /// back, to be run elsewhere, beside the continuation that will push its
    /// output. The emitter is consumed, so this happens at most once.
    pub fn emit<Item>(self, subscriber: Subscriber<Item, ()>) -> (r: (F, ValueContinuation<Item>))
        ensures
            r.0 == self.computation(),
            r.1.subscriber() == subscriber,
    {
        (self.0, ValueContinuation { subscriber })
    }
}

impl<F: Clone, Item, E> Clone for FutureResultEmitter<F, Item, E> {
    fn clone(&self) -> Self {
        FutureResultEmitter(self.0.clone(), PhantomData)
    }
}

impl<F, Item, E> FutureResultEmitter<F, Item, E> {
    /// The wrapped computation.
    pub closed spec fn computation(&self) -> F {
        self.0
    }

    /// Subscribes `subscriber`. Nothing is pushed now: the computation comes
    /// back, to be run elsewhere, beside the continuation that will push its
    /// outcome. The emitter is consumed, so this happens at most once.
    pub fn emit(self, subscriber: Subscriber<Item, E>) -> (r: (F, OutcomeContinuation<Item, E>))
        ensures
            r.0 == self.computation(),
            r.1.subscriber() == subscriber,
    {
        (self.0, OutcomeContinuation { subscriber })
    }
}

impl<Item> ValueContinuation<Item> {
    /// The subscriber that the output goes to.
    pub closed spec fn subscriber(&self) -> Subscriber<Item, ()> {
        self.subscriber
    }

    /// Pushes the computation's output as `next(output)` and `complete()`,
    /// and hands back the subscriber. It is consumed: it runs at most once.
    pub fn resolve(self, output: Item) -> (r: Subscriber<Item, ()>)
        requires
            self.subscriber().wf(),
        ensures
            r.wf(),
            r@ == after_pushes(self.subscriber()@, value_delivery::<Item, ()>(output)),
    {
        let mut subscriber = self.subscriber;
        emit_value(output, &mut subscriber);
        subscriber
    }
}

impl<Item, E> OutcomeContinuation<Item, E> {
    /// The subscriber that the outcome goes to.
    pub closed spec fn subscriber(&self) -> Subscriber<Item, E> {
        self.subscriber
    }

    /// Pushes the computation's outcome: a success as `next(value)` and
    /// `complete()`, a failure as `error(err)` alone. It hands back the
    /// subscriber and is consumed: it runs at most once.
    pub fn resolve(self, outcome: Result<Item, E>) -> (r: Subscriber<Item, E>)
        requires
            self.subscriber().wf(),
        ensures
            r.wf(),
            r@ == after_pushes(self.subscriber()@, outcome_delivery(outcome)),
    {
        let mut subscriber = self.subscriber;
        emit_outcome(outcome, &mut subscriber);
        subscriber
    }
}

/// A value bridge resolving onto a stream that has not ended delivers exactly
/// one `next(value)` followed by one `complete()`, and no `error`; the stream
/// has then ended.
pub proof fn lemma_value_bridge_delivers_value<Item>(
    received: Seq<Notification<Item, ()>>,
    value: Item,
)
    requires
        !log_closed(received),
    ensures
        after_pushes(received, value_delivery::<Item, ()>(value)) == received + seq![
            Notification::<Item, ()>::Next(value),
            Notification::<Item, ()>::Complete,
        ],
        forall|i: int|
            received.len() <= i < received.len() + 2 ==> !(#[trigger] after_pushes(
                received,
                value_delivery::<Item, ()>(value),
            )[i] is Error),
        log_closed(after_pushes(received, value_delivery::<Item, ()>(value))),
{
    lemma_pushes_to_open_log(received, value_delivery::<Item, ()>(value));
}

/// A result bridge whose outcome is `Ok(value)`, resolving onto a stream that
/// has not ended, delivers exactly one `next(value)` followed by one
/// `complete()`; the stream has then ended.
pub proof fn lemma_result_bridge_delivers_success<Item, E>(
    received: Seq<Notification<Item, E>>,
    value: Item,
)
    requires
        !log_closed(received),
    ensures
        after_pushes(received, outcome_delivery::<Item, E>(Ok(value))) == received + seq![
            Notification::<Item, E>::Next(value),
            Notification::<Item, E>::Complete,
        ],
        log_closed(after_pushes(received, outcome_delivery::<Item, E>(Ok(value)))),
{
    lemma_pushes_to_open_log(received, outcome_delivery::<Item, E>(Ok(value)));
}

/// A result bridge whose outcome is `Err(err)`, resolving onto a stream that
/// has not ended, delivers exactly one `error(err)` and neither a `next` nor
/// a `complete`; the stream has then ended.
pub proof fn lemma_result_bridge_delivers_failure<Item, E>(
    received: Seq<Notification<Item, E>>,
    err: E,
)
    requires
        !log_closed(received),
    ensures
        after_pushes(received, outcome_delivery::<Item, E>(Err(err))) == received.push(
            Notification::<Item, E>::Error(err),
        ),
        log_closed(after_pushes(received, outcome_delivery::<Item, E>(Err(err)))),
{
    lemma_pushes_to_open_log(received, outcome_delivery::<Item, E>(Err(err)));
    assert(received + seq![Notification::<Item, E>::Error(err)] =~= received.push(
        Notification::<Item, E>::Error(err),
    ));
}

/// A value bridge whose output is itself a failure, `Err(err)`, still
/// delivers it as `next(Err(err))` followed by `complete()`, never as an
/// `error`.
pub proof fn lemma_value_bridge_passes_failures_through<T, X>(
    received: Seq<Notification<Result<T, X>, ()>>,
    err: X,
)
    requires
        !log_closed(received),
    ensures
        after_pushes(received, value_delivery::<Result<T, X>, ()>(Err(err))) == received + seq![
            Notification::<Result<T, X>, ()>::Next(Err(err)),
            Notification::<Result<T, X>, ()>::Complete,
        ],
        forall|i: int|
            received.len() <= i < received.len() + 2 ==> !(#[trigger] after_pushes(
                received,
                value_delivery::<Result<T, X>, ()>(Err(err)),
            )[i] is Error),
{
    lemma_value_bridge_delivers_value::<Result<T, X>>(received, Err(err));
}

} // verus!
