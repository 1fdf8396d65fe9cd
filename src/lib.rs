//! Bridges a one-shot asynchronous computation onto the push protocol of
//! `next` / `error` / `complete` notifications.
//!
//! The library holds the decisions of the bridge: what a subscriber accepts,
//! what each kind of bridge pushes once its computation has resolved, and the
//! fact that subscribing pushes nothing. Driving the computation on a worker
//! pool is left to the caller, who hands the resolved output back.
pub mod notification;
pub mod subscriber;
pub mod emission;
pub mod from_future;
