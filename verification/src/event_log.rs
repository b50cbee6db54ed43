//! The event queue as a mathematical object.

use vstd::prelude::*;

verus! {

/// What an event queue is, mathematically.
///
/// The queue numbers the events it is sent: the first gets sequence number 0,
/// the next 1, and so on. `sent` is every event the queue was ever sent, so an
/// event's sequence number is its index there. Of these the queue still holds
/// the ones numbered `retained_from` and up; the ones numbered `frame_start`
/// and up arrived after the last `update`.
#[verifier::ext_equal]
pub struct EventLog<T> {
    pub sent: Seq<T>,
    pub retained_from: nat,
    pub frame_start: nat,
}

impl<T> EventLog<T> {
    /// The markers are in order and within the log.
    pub open spec fn wf(self) -> bool {
        self.retained_from <= self.frame_start <= self.sent.len()
    }

    /// The log of a queue that was never sent anything.
    pub open spec fn empty() -> Self {
        EventLog { sent: Seq::empty(), retained_from: 0, frame_start: 0 }
    }

    /// The sequence number that the next event will get: the number of events
    /// ever sent.
    pub open spec fn next_sequence(self) -> nat {
        self.sent.len()
    }

    /// The events that arrived between the last two updates, oldest first.
    pub open spec fn previous_frame(self) -> Seq<T> {
        self.sent.subrange(self.retained_from as int, self.frame_start as int)
    }

    /// The events that arrived since the last update, oldest first.
    pub open spec fn current_frame(self) -> Seq<T> {
        self.sent.subrange(self.frame_start as int, self.sent.len() as int)
    }

    /// The events that the queue still holds, oldest first: the previous
    /// frame, then the current one.
    pub open spec fn retained(self) -> Seq<T> {
        self.sent.subrange(self.retained_from as int, self.sent.len() as int)
    }

    /// The log after `event` was sent.
    pub open spec fn send(self, event: T) -> Self {
        EventLog { sent: self.sent.push(event), ..self }
    }

    /// The log after each of `events` was sent, in order.
    pub open spec fn send_all(self, events: Seq<T>) -> Self
        decreases events.len(),
    {
        if events.len() == 0 {
            self
        } else {
            self.send_all(events.drop_last()).send(events.last())
        }
    }

    /// The log after one `update`: the previous frame is let go, the current
    /// frame becomes the previous one, and a new frame begins.
    pub open spec fn update(self) -> Self {
        EventLog {
            sent: self.sent,
            retained_from: self.frame_start,
            frame_start: self.sent.len(),
        }
    }

    /// The sequence number of the first event that a reader at `position`
    /// still gets.
    pub open spec fn first_unread(self, position: nat) -> nat {
        if position >= self.retained_from {
            position
        } else {
            self.retained_from
        }
    }

    /// The events that a reader at `position` gets when it reads, oldest
    /// first: those retained events whose sequence number is `position` or
    /// more. A position beyond the log yields nothing.
    pub open spec fn unread(self, position: nat) -> Seq<T> {
        if position <= self.sent.len() {
            self.sent.subrange(self.first_unread(position) as int, self.sent.len() as int)
        } else {
            Seq::empty()
        }
    }
}

} // verus!
