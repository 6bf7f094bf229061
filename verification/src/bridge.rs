//! The event bridge: an unbounded channel that carries typed tray events from
//! the bus-facing interface objects (the producers) to the host event loop
//! (the single consumer). The channel itself comes from calloop; the library
//! only ever sends, polls, or hands the receiving half to the reactor.

use vstd::prelude::*;

use crate::item::StatusNotifierItemEvents;

verus! {

#[verifier::external_type_specification]
#[verifier::external_body]
#[verifier::reject_recursive_types(T)]
pub struct ExCalloopSender<T>(calloop::channel::Sender<T>);

#[verifier::external_type_specification]
#[verifier::external_body]
#[verifier::reject_recursive_types(T)]
pub struct ExCalloopChannel<T>(calloop::channel::Channel<T>);

/// The producer half of the event bridge. It is cloned into every bus-facing
/// interface object; sending never blocks and never fails loudly.
pub struct EventSender {
    inner: calloop::channel::Sender<StatusNotifierItemEvents>,
}

/// The consumer half of the event bridge, polled by the host reactor.
pub struct EventReceiver {
    inner: calloop::channel::Channel<StatusNotifierItemEvents>,
}

/// One attempt to take a message off the bridge.
pub(crate) enum ChannelPoll {
    /// The oldest pending message.
    Msg(StatusNotifierItemEvents),
    /// No message is pending right now.
    Empty,
    /// Every sender is gone and the queue is empty; nothing will ever arrive.
    Closed,
}

/// Relies on calloop's channel(): returns the connected producer and consumer
/// halves of a fresh unbounded channel. Panics only if the operating system
/// refuses the wakeup descriptor the channel is built on.
#[verifier::external_body]
pub fn event_channel() -> (r: (EventSender, EventReceiver)) {
    let (sender, channel) = calloop::channel::channel();
    (EventSender { inner: sender }, EventReceiver { inner: channel })
}

impl Clone for EventSender {
    /// Relies on calloop's Sender::clone: another handle onto the same channel.
    #[verifier::external_body]
    fn clone(&self) -> (r: Self) {
        EventSender { inner: self.inner.clone() }
    }
}

impl EventSender {
    /// Relies on calloop's Sender::send: queues the message and wakes the
    /// consumer; returns false exactly when the receiving half has been
    /// dropped, in which case the message is discarded. Never blocks and
    /// never panics.
    #[verifier::external_body]
    pub(crate) fn send(&self, event: StatusNotifierItemEvents) -> (delivered: bool) {
        self.inner.send(event).is_ok()
    }
}

impl EventReceiver {
    /// Relies on calloop's Channel::try_recv (std's mpsc try_recv underneath):
    /// the oldest pending message, or Empty when none is pending, or Closed
    /// when every sender was dropped and the queue is empty. Never blocks.
    #[verifier::external_body]
    fn try_recv(&self) -> (r: ChannelPoll) {
        match self.inner.try_recv() {
            Ok(msg) => ChannelPoll::Msg(msg),
            Err(std::sync::mpsc::TryRecvError::Empty) => ChannelPoll::Empty,
            Err(std::sync::mpsc::TryRecvError::Disconnected) => ChannelPoll::Closed,
        }
    }

    /// Drains pending messages, in queue order, up to one batch of 1024 (the
    /// same batch bound the reactor applies); the next poll picks up the
    /// rest. Messages sent while the drain is running may or may not be
    /// included.
    pub fn drain(&self) -> (events: Vec<StatusNotifierItemEvents>)
        ensures
            events@.len() <= 1024,
    {
        let mut events: Vec<StatusNotifierItemEvents> = Vec::new();
        let mut budget: usize = 1024;
        while budget > 0
            invariant
                events@.len() + budget == 1024,
            decreases budget,
        {
            match self.try_recv() {
                ChannelPoll::Msg(m) => {
                    events.push(m);
                    budget = budget - 1;
                },
                ChannelPoll::Empty => {
                    return events;
                },
                ChannelPoll::Closed => {
                    return events;
                },
            }
        }
        events
    }

    /// Hands the raw channel over, so the host reactor can register it as a
    /// readiness source.
    pub fn into_channel(self) -> calloop::channel::Channel<StatusNotifierItemEvents> {
        self.inner
    }
}

} // verus!
