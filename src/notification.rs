use vstd::prelude::*;

verus! {

/// One push notification of the protocol.
#[derive(Clone, Debug, PartialEq, Eq)]
pub enum Notification<Item, E> {
    /// A value.
    Next(Item),
    /// A failure; it ends the stream.
    Error(E),
    /// The end of the stream.
    Complete,
}

impl<Item, E> Notification<Item, E> {
    /// An `Error` or a `Complete`: nothing may follow it.
    pub open spec fn is_terminal(self) -> bool {
        !(self is Next)
    }
}

/// A log that obeys the protocol: a terminal notification, if any, is the
/// last one.
pub open spec fn protocol_log<Item, E>(log: Seq<Notification<Item, E>>) -> bool {
    forall|i: int| 0 <= i < log.len() - 1 ==> !(#[trigger] log[i]).is_terminal()
}

/// The stream that this log records has ended.
pub open spec fn log_closed<Item, E>(log: Seq<Notification<Item, E>>) -> bool {
    log.len() > 0 && log.last().is_terminal()
}

} // verus!
