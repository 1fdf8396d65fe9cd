use crate::notification::{log_closed, protocol_log, Notification};
use vstd::prelude::*;

verus! {

/// The log that `old` becomes when the notifications `pushed` are offered to
/// a subscriber in turn: each one is kept until the stream has ended, and
/// none after that.
pub open spec fn after_pushes<Item, E>(
    old: Seq<Notification<Item, E>>,
    pushed: Seq<Notification<Item, E>>,
) -> Seq<Notification<Item, E>>
    decreases pushed.len(),
{
    if pushed.len() == 0 {
        old
    } else {
        let first = if log_closed(old) {
            old
        } else {
            old.push(pushed[0])
        };
        after_pushes(first, pushed.drop_first())
    }
}

/// Offered to a stream that has not ended, notifications that obey the
/// protocol are all kept, in order.
pub proof fn lemma_pushes_to_open_log<Item, E>(
    old: Seq<Notification<Item, E>>,
    pushed: Seq<Notification<Item, E>>,
)
    requires
        !log_closed(old),
        protocol_log(pushed),
    ensures
        after_pushes(old, pushed) == old + pushed,
    decreases pushed.len(),
{
    if pushed.len() == 0 {
        assert(old + pushed =~= old);
    } else {
        let first = old.push(pushed[0]);
        let rest = pushed.drop_first();
        if rest.len() > 0 {
            assert(!pushed[0].is_terminal());
            assert(first.last() == pushed[0]);
            assert forall|i: int| 0 <= i < rest.len() - 1 implies !(#[trigger] rest[i]).is_terminal() by {
                assert(rest[i] == pushed[i + 1]);
            }
            lemma_pushes_to_open_log(first, rest);
        }
        assert(first + rest =~= old + pushed);
    }
}

/// Offered to a stream that has ended, notifications leave its log as it was.
pub proof fn lemma_pushes_to_closed_log<Item, E>(
    old: Seq<Notification<Item, E>>,
    pushed: Seq<Notification<Item, E>>,
)
    requires
        log_closed(old),
    ensures
        after_pushes(old, pushed) == old,
    decreases pushed.len(),
{
    if pushed.len() > 0 {
        lemma_pushes_to_closed_log(old, pushed.drop_first());
    }
}

/// Whatever is offered to a stream, its log keeps obeying the protocol:
/// nothing is ever recorded after an `Error` or a `Complete`.
pub proof fn lemma_pushes_keep_protocol<Item, E>(
    old: Seq<Notification<Item, E>>,
    pushed: Seq<Notification<Item, E>>,
)
    requires
        protocol_log(old),
    ensures
        protocol_log(after_pushes(old, pushed)),
    decreases pushed.len(),
{
    if pushed.len() > 0 {
        let first = if log_closed(old) {
            old
        } else {
            old.push(pushed[0])
        };
        if !log_closed(old) {
            assert forall|i: int| 0 <= i < first.len() - 1 implies !(#[trigger] first[i]).is_terminal() by {
                assert(first[i] == old[i]);
            }
        }
        lemma_pushes_keep_protocol(first, pushed.drop_first());
    }
}

/// The receiving end of a stream. It records what it was handed and stops
/// accepting notifications once an `Error` or a `Complete` has arrived.
pub struct Subscriber<Item, E> {
    received: Vec<Notification<Item, E>>,
    stopped: bool,
}

impl<Item, E> View for Subscriber<Item, E> {
    type V = Seq<Notification<Item, E>>;

    closed spec fn view(&self) -> Seq<Notification<Item, E>> {
        self.received@
    }
}

impl<Item, E> Subscriber<Item, E> {
    /// The log obeys the protocol, and the stop flag says whether it ended.
    pub closed spec fn wf(&self) -> bool {
        &&& protocol_log(self.received@)
        &&& self.stopped == log_closed(self.received@)
    }

    /// The stream has ended: nothing more is accepted.
    pub open spec fn closed(&self) -> bool {
        log_closed(self@)
    }

    /// A subscriber that has received nothing.
    pub fn new() -> (r: Self)
        ensures
            r.wf(),
            r@ == Seq::<Notification<Item, E>>::empty(),
    {
        Subscriber { received: Vec::new(), stopped: false }
    }

    /// Offers one notification: it is recorded unless the stream has ended.
    fn push(&mut self, n: Notification<Item, E>)
        requires
            old(self).wf(),
        ensures
            final(self).wf(),
            final(self)@ == (if old(self).closed() {
                old(self)@
            } else {
                old(self)@.push(n)
            }),
    {
        if !self.stopped {
            let terminal = !matches!(n, Notification::Next(_));
            self.received.push(n);
            self.stopped = terminal;
        }
    }

    /// Offers a value.
    pub fn next(&mut self, value: Item)
        requires
            old(self).wf(),
        ensures
            final(self).wf(),
            final(self)@ == after_pushes(old(self)@, seq![Notification::Next(value)]),
    {
        self.push(Notification::Next(value));
        proof {
            reveal_with_fuel(after_pushes, 2);
        }
    }

    /// Offers a failure, which ends the stream.
    pub fn error(&mut self, err: E)
        requires
            old(self).wf(),
        ensures
            final(self).wf(),
            final(self)@ == after_pushes(old(self)@, seq![Notification::Error(err)]),
    {
        self.push(Notification::Error(err));
        proof {
            reveal_with_fuel(after_pushes, 2);
        }
    }

    /// Offers the end of the stream.
    pub fn complete(&mut self)
        requires
            old(self).wf(),
        ensures
            final(self).wf(),
            final(self)@ == after_pushes(old(self)@, seq![Notification::Complete]),
    {
        self.push(Notification::Complete);
        proof {
            reveal_with_fuel(after_pushes, 2);
        }
    }

    /// Whether the stream has ended.
    pub fn is_closed(&self) -> (r: bool)
        requires
            self.wf(),
        ensures
            r == self.closed(),
    {
        self.stopped
    }

    /// What has been received so far, in order.
    pub fn received(&self) -> (r: &Vec<Notification<Item, E>>)
        ensures
            r@ == self@,
    {
        &self.received
    }

    /// Gives up the subscriber for what it received, in order.
    pub fn into_received(self) -> (r: Vec<Notification<Item, E>>)
        ensures
            r@ == self@,
    {
        self.received
    }
}

} // verus!
