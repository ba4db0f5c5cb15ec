//! Bridge from the event callbacks of the media platform to the render worker:
//! what a callback hands on, and whether it asks for the next event.

use crate::text::joined;
use vstd::prelude::*;
use vstd::string::*;

verus! {

/// Whose event it is; sources and streams are told apart by a number.
#[derive(Clone, Copy, Debug, PartialEq, Eq, Structural)]
pub enum EventOrigin {
    Transform,
    Source(u64),
    Stream(u64),
}

/// An event, or why there is none.
pub struct QueuedMediaEvent<E> {
    pub origin: EventOrigin,
    pub event: Result<E, String>,
}

/// A subscription to the events of one origin.
#[derive(Debug)]
pub struct MediaEventSubscription {
    pub origin: EventOrigin,
    pub active: bool,
}

impl MediaEventSubscription {
    /// A subscription, once the callback has its state and the first event was
    /// asked for; both may fail.
    pub fn start(
        origin: EventOrigin,
        callback_state: Result<(), String>,
        first_request: Result<(), String>,
    ) -> (subscription: Result<Self, String>)
        ensures
            match (callback_state, first_request) {
                (Err(reason), _) => subscription matches Err(error) && error@
                    == "Could not create Media Foundation callback state: "@ + reason@,
                (Ok(()), Err(reason)) => subscription matches Err(error) && error@
                    == "Could not subscribe to Media Foundation events: "@ + reason@,
                (Ok(()), Ok(())) => subscription == Ok::<MediaEventSubscription, String>(
                    MediaEventSubscription { origin, active: true },
                ),
            },
    {
        match (callback_state, first_request) {
            (Err(reason), _) => Err(
                joined("Could not create Media Foundation callback state: ", reason.as_str()),
            ),
            (Ok(()), Err(reason)) => Err(
                joined("Could not subscribe to Media Foundation events: ", reason.as_str()),
            ),
            (Ok(()), Ok(())) => Ok(MediaEventSubscription { origin, active: true }),
        }
    }

    /// What a callback hands on. It is counted, whatever it brings: an event, a
    /// failure, or nothing at all.
    pub fn invoke<E>(&self, callback_count: &mut u64, result: Option<Result<E, String>>) -> (queued:
        QueuedMediaEvent<E>)
        ensures
            *final(callback_count) == (if *old(callback_count) < u64::MAX {
                *old(callback_count) + 1
            } else {
                0
            }),
            queued.origin == self.origin,
            match result {
                None => queued.event matches Err(error) && error@
                    == "Media Foundation invoked an event callback without a result."@,
                Some(Err(reason)) => queued.event matches Err(error) && error@
                    == "Asynchronous Media Foundation event failed: "@ + reason@,
                Some(Ok(event)) => queued.event == Ok::<E, String>(event),
            },
    {
        *callback_count = callback_count.wrapping_add(1);
        let event = match result {
            None => Err(
                String::from_str("Media Foundation invoked an event callback without a result."),
            ),
            Some(Err(reason)) => Err(
                joined("Asynchronous Media Foundation event failed: ", reason.as_str()),
            ),
            Some(Ok(event)) => Ok(event),
        };
        QueuedMediaEvent { origin: self.origin, event }
    }

    /// Whether a callback asks for the next event: it had something to answer,
    /// somebody still listens, and nobody has stopped.
    pub fn asks_again(&self, had_result: bool, delivered: bool, engine_stop: bool) -> (asks: bool)
        ensures
            asks == (had_result && delivered && self.active && !engine_stop),
    {
        had_result && delivered && self.active && !engine_stop
    }

    /// Ends the subscription.
    pub fn close(&mut self)
        ensures
            *final(self) == (MediaEventSubscription { active: false, ..*old(self) }),
    {
        self.active = false;
    }
}

} // verus!
