//! The event queue: an append-only log of events that many readers follow at
//! their own pace, kept in two buffers so that old events can be let go.

use crate::event_log::EventLog;
use std::marker::PhantomData;
use vstd::prelude::*;

verus! {

/// The events behind a sequence of references.
pub open spec fn events_of<T>(references: Seq<&T>) -> Seq<T> {
    references.map_values(|reference: &T| *reference)
}

struct EventInstance<T> {
    pub event_count: u64,
    pub event: T,
}

enum State {
    A,
    B,
}

/// The events in `buffer`.
spec fn payloads<T>(buffer: Seq<EventInstance<T>>) -> Seq<T> {
    buffer.map_values(|instance: EventInstance<T>| instance.event)
}

/// The sequence numbers stamped on the events in `buffer`.
spec fn stamps<T>(buffer: Seq<EventInstance<T>>) -> Seq<nat> {
    buffer.map_values(|instance: EventInstance<T>| instance.event_count as nat)
}

/// The sequence numbers from `from` up to, not including, `to`.
pub open spec fn numbers(from: nat, to: nat) -> Seq<nat> {
    Seq::new((to - from) as nat, |i: int| (from + i) as nat)
}

/// Whether `buffer` holds exactly the events of `sent` numbered from `from`
/// up to, not including, `to`, each stamped with its sequence number.
spec fn holds<T>(buffer: Seq<EventInstance<T>>, sent: Seq<T>, from: nat, to: nat) -> bool {
    &&& buffer.len() == to - from
    &&& forall|i: int|
        0 <= i < buffer.len() ==> (#[trigger] buffer[i]).event == sent[from + i]
            && buffer[i].event_count == from + i
}

/// An event collection that represents the events that occurred within the last two
/// [Events::update] calls. Events can be cheaply read using an [EventReader]. This
/// collection is meant to be paired with a system that calls [Events::update] exactly
/// once per update/frame. [EventReader]s are expected to read events from this
/// collection at least once per update/frame. If events are not handled within one
/// frame/update, they will be dropped.
///
/// # Details
///
/// [Events] is implemented using a double buffer. Each call to [Events::update] swaps
/// buffers and clears out the oldest buffer. [EventReader]s that read at least once per
/// update will never drop events. [EventReader]s that read once within two updates might
/// still receive some events. [EventReader]s that read after two updates are guaranteed
/// to drop all events that occurred before those updates.
///
/// The buffers in [Events] will grow indefinitely if [Events::update] is never called.
pub struct Events<T> where T: Send + Sync + 'static {
    events_a: Vec<EventInstance<T>>,
    events_b: Vec<EventInstance<T>>,
    a_start_event_count: u64,
    b_start_event_count: u64,
    event_count: u64,
    state: State,
    sent: Ghost<Seq<T>>,
}

impl<T> View for Events<T> where T: Send + Sync + 'static {
    type V = EventLog<T>;

    closed spec fn view(&self) -> EventLog<T> {
        EventLog {
            sent: self.sent@,
            retained_from: self.previous_start() as nat,
            frame_start: self.active_start() as nat,
        }
    }
}

impl<T> Default for Events<T> where T: Send + Sync + 'static {
    fn default() -> (events: Self)
        ensures
            events.wf(),
            events@ == EventLog::<T>::empty(),
            events.active_buffer() == Seq::<T>::empty(),
            events.previous_buffer() == Seq::<T>::empty(),
    {
        Events {
            a_start_event_count: 0,
            b_start_event_count: 0,
            event_count: 0,
            events_a: Vec::new(),
            events_b: Vec::new(),
            state: State::A,
            sent: Ghost(Seq::empty()),
        }
    }
}

impl<T> Events<T> where T: Send + Sync + 'static {
    /// The buffer that `send` appends to.
    spec fn active(&self) -> Seq<EventInstance<T>> {
        match self.state {
            State::A => self.events_a@,
            State::B => self.events_b@,
        }
    }

    /// The buffer that was filled before the last `update`.
    spec fn previous(&self) -> Seq<EventInstance<T>> {
        match self.state {
            State::A => self.events_b@,
            State::B => self.events_a@,
        }
    }

    spec fn active_start(&self) -> u64 {
        match self.state {
            State::A => self.a_start_event_count,
            State::B => self.b_start_event_count,
        }
    }

    spec fn previous_start(&self) -> u64 {
        match self.state {
            State::A => self.b_start_event_count,
            State::B => self.a_start_event_count,
        }
    }

    /// The queue's invariant: the counter is the number of events ever sent,
    /// the previous buffer holds the events between the two start markers, and
    /// the active buffer holds the events from its start marker on.
    pub closed spec fn wf(&self) -> bool {
        &&& self.previous_start() <= self.active_start() <= self.event_count
        &&& self.sent@.len() == self.event_count
        &&& holds(
            self.previous(),
            self.sent@,
            self.previous_start() as nat,
            self.active_start() as nat,
        )
        &&& holds(self.active(), self.sent@, self.active_start() as nat, self.event_count as nat)
    }

    /// The events in the buffer that `send` writes to, oldest first.
    pub closed spec fn active_buffer(&self) -> Seq<T> {
        payloads(self.active())
    }

    /// The events in the other buffer, the one that the next `update` clears,
    /// oldest first.
    pub closed spec fn previous_buffer(&self) -> Seq<T> {
        payloads(self.previous())
    }

    /// The sequence numbers stamped on the events in the two buffers, those of
    /// the previous buffer first.
    pub closed spec fn buffered_numbers(&self) -> Seq<nat> {
        stamps(self.previous() + self.active())
    }

    /// What the invariant says of the buffers: the active buffer holds the
    /// current frame and the other buffer the previous frame, so that together
    /// they hold exactly the events that the log retains; and each event is
    /// stamped with its sequence number.
    pub proof fn lemma_buffers_hold_the_frames(&self)
        requires
            self.wf(),
        ensures
            self@.wf(),
            self.previous_buffer() == self@.previous_frame(),
            self.active_buffer() == self@.current_frame(),
            self.previous_buffer() + self.active_buffer() == self@.retained(),
            self.buffered_numbers() == numbers(self@.retained_from, self@.next_sequence()),
    {
    }

    /// "Sends" an `event` by writing it to the current event buffer. [EventReader]s can
    /// then read the event. The event gets the next sequence number; the other buffer is
    /// not touched.
    ///
    /// The counter of events must not be at its limit.
    pub fn send(&mut self, event: T)
        requires
            old(self).wf(),
            old(self)@.next_sequence() < u64::MAX,
        ensures
            final(self).wf(),
            final(self)@ == old(self)@.send(event),
            final(self).active_buffer() == old(self).active_buffer().push(event),
            final(self).previous_buffer() == old(self).previous_buffer(),
    {
        let event_instance = EventInstance { event, event_count: self.event_count };
        let ghost appended = self.sent@.push(event_instance.event);

        match self.state {
            State::A => self.events_a.push(event_instance),
            State::B => self.events_b.push(event_instance),
        }

        self.event_count += 1;
        self.sent = Ghost(appended);
    }

    /// Gets a new [EventReader]. This will include all events already in the event buffers.
    pub fn get_reader(&self) -> (reader: EventReader<T>)
        ensures
            reader@ == 0,
    {
        EventReader { last_event_count: 0, _marker: PhantomData }
    }

    /// Gets a new [EventReader]. This will ignore all events already in the event buffers.
    /// It will read all future events.
    pub fn get_reader_current(&self) -> (reader: EventReader<T>)
        requires
            self.wf(),
        ensures
            reader@ == self@.next_sequence(),
    {
        EventReader { last_event_count: self.event_count, _marker: PhantomData }
    }

    /// Swaps the event buffers and clears the oldest event buffer. In general, this should
    /// be called once per frame/update. An event is thus let go by the second update after
    /// it was sent.
    pub fn update(&mut self)
        requires
            old(self).wf(),
        ensures
            final(self).wf(),
            final(self)@ == old(self)@.update(),
            final(self).active_buffer() == Seq::<T>::empty(),
            final(self).previous_buffer() == old(self).active_buffer(),
    {
        match self.state {
            State::A => {
                self.events_b = Vec::new();
                self.state = State::B;
                self.b_start_event_count = self.event_count;
            },
            State::B => {
                self.events_a = Vec::new();
                self.state = State::A;
                self.a_start_event_count = self.event_count;
            },
        }
    }
}

/// Reads events of type `T` from an [Events] collection, keeping track of how far
/// it has read.
pub struct EventReader<T> {
    last_event_count: u64,
    _marker: PhantomData<T>,
}

impl<T> View for EventReader<T> {
    type V = nat;

    /// The reader's position: the sequence number of the first event that it
    /// has not seen.
    closed spec fn view(&self) -> nat {
        self.last_event_count as nat
    }
}

/// Something that can hand out readers for the event queues it holds, one queue for
/// each type of event.
pub trait GetEventReader {
    /// returns an [EventReader] of the given type, which will include all events
    /// already in the event buffers
    fn get_event_reader<T>(&self) -> (reader: EventReader<T>) where T: Send + Sync + 'static
        ensures
            reader@ == 0,
    ;
}

/// Whether `predicate` may answer `true` when asked about `event`.
pub open spec fn accepts<T, P: FnMut(&&T) -> bool>(predicate: P, event: T) -> bool {
    call_ensures(predicate, (&&event,), true)
}

/// Whether `predicate` may answer `false` when asked about `event`.
pub open spec fn rejects<T, P: FnMut(&&T) -> bool>(predicate: P, event: T) -> bool {
    call_ensures(predicate, (&&event,), false)
}

/// Whether the event at `index` is the newest of `unread` that `predicate`
/// accepted: it was accepted, and every newer one was rejected.
pub open spec fn is_latest_match<T, P: FnMut(&&T) -> bool>(
    unread: Seq<T>,
    predicate: P,
    index: int,
) -> bool {
    &&& 0 <= index < unread.len()
    &&& accepts(predicate, unread[index])
    &&& forall|j: int| index < j < unread.len() ==> rejects(predicate, #[trigger] unread[j])
}

fn map_event_instance<T>(event_instance: &EventInstance<T>) -> (event: &T) where
    T: Send + Sync + 'static,

    ensures
        *event == event_instance.event,
{
    &event_instance.event
}

/// What a reader has yet to see of the two buffers: the older buffer from
/// `older_from` on, then the newer buffer from `newer_from` on.
struct Unseen<'a, T> {
    older: &'a Vec<EventInstance<T>>,
    older_from: usize,
    newer: &'a Vec<EventInstance<T>>,
    newer_from: usize,
}

impl<'a, T> Unseen<'a, T> {
    spec fn wf(self) -> bool {
        &&& self.older_from <= self.older@.len()
        &&& self.newer_from <= self.newer@.len()
    }

    /// The unseen events of the older buffer, oldest first.
    spec fn older_events(self) -> Seq<T> {
        payloads(self.older@.subrange(self.older_from as int, self.older@.len() as int))
    }

    /// The unseen events of the newer buffer, oldest first.
    spec fn newer_events(self) -> Seq<T> {
        payloads(self.newer@.subrange(self.newer_from as int, self.newer@.len() as int))
    }

    /// The unseen events, oldest first.
    spec fn events(self) -> Seq<T> {
        self.older_events() + self.newer_events()
    }
}

/// The index in a buffer of `length` events, the first of them numbered
/// `start`, from which a reader at `position` has yet to read: the difference
/// where the reader is past the start, and no more than `length`.
fn unseen_from(position: u64, start: u64, length: usize) -> (index: usize)
    ensures
        index == (if position <= start {
            0
        } else if position - start <= length {
            position - start
        } else {
            length as int
        }),
{
    if position > start {
        let seen: u64 = position - start;
        if seen < length as u64 {
            seen as usize
        } else {
            length
        }
    } else {
        0
    }
}

impl<T> EventReader<T> where T: Send + Sync + 'static {
    /// Finds what this reader has not seen yet of the two buffers, and moves the reader
    /// to the end of the queue.
    fn unseen<'a>(&mut self, events: &'a Events<T>) -> (unseen: Unseen<'a, T>)
        requires
            events.wf(),
        ensures
            final(self)@ == events@.next_sequence(),
            unseen.wf(),
            unseen.events() == events@.unread(old(self)@),
    {
        // if the reader has seen some of the events in a buffer, find the proper index offset.
        // otherwise read all events in the buffer
        let a_index = unseen_from(
            self.last_event_count,
            events.a_start_event_count,
            events.events_a.len(),
        );
        let b_index = unseen_from(
            self.last_event_count,
            events.b_start_event_count,
            events.events_b.len(),
        );
        self.last_event_count = events.event_count;
        match events.state {
            State::A => Unseen {
                older: &events.events_b,
                older_from: b_index,
                newer: &events.events_a,
                newer_from: a_index,
            },
            State::B => Unseen {
                older: &events.events_a,
                older_from: a_index,
                newer: &events.events_b,
                newer_from: b_index,
            },
        }
    }

    /// Gives the events this EventReader has not seen yet, oldest first. This updates the
    /// EventReader's event counter to the queue's, which means subsequent event reads will
    /// not include events that happened before now.
    pub fn iter<'a>(&mut self, events: &'a Events<T>) -> (unseen: Vec<&'a T>)
        requires
            events.wf(),
        ensures
            final(self)@ == events@.next_sequence(),
            events_of(unseen@) == events@.unread(old(self)@),
            unseen@.len() == events@.unread(old(self)@).len(),
    {
        let found = self.unseen(events);
        let mut unseen: Vec<&'a T> = Vec::new();
        let mut index: usize = found.older_from;
        while index < found.older.len()
            invariant
                found.wf(),
                found.older_from <= index <= found.older@.len(),
                events_of(unseen@) == found.older_events().take(index - found.older_from),
            decreases found.older@.len() - index,
        {
            let ghost before = events_of(unseen@);
            let ghost count = index - found.older_from;
            unseen.push(map_event_instance(&found.older[index]));
            index += 1;
            assert(found.older_events().take(count + 1) =~= before.push(
                found.older_events()[count],
            ));
        }
        let mut index: usize = found.newer_from;
        while index < found.newer.len()
            invariant
                found.wf(),
                found.newer_from <= index <= found.newer@.len(),
                events_of(unseen@) == found.older_events() + found.newer_events().take(
                    index - found.newer_from,
                ),
            decreases found.newer@.len() - index,
        {
            let ghost before = events_of(unseen@);
            let ghost count = index - found.newer_from;
            unseen.push(map_event_instance(&found.newer[index]));
            index += 1;
            assert(found.older_events() + found.newer_events().take(count + 1) =~= before.push(
                found.newer_events()[count],
            ));
        }
        unseen
    }

    /// Retrieves the latest event that this EventReader hasn't seen yet. This updates the
    /// EventReader's event counter, which means subsequent event reads will not include
    /// events that happened before now.
    pub fn latest<'a>(&mut self, events: &'a Events<T>) -> (event: Option<&'a T>)
        requires
            events.wf(),
        ensures
            final(self)@ == events@.next_sequence(),
            (match event {
                Some(event) => events@.unread(old(self)@).len() > 0 && *event
                    == events@.unread(old(self)@).last(),
                None => events@.unread(old(self)@).len() == 0,
            }),
    {
        let found = self.unseen(events);
        if found.newer_from < found.newer.len() {
            let last: usize = found.newer.len() - 1;
            Some(map_event_instance(&found.newer[last]))
        } else if found.older_from < found.older.len() {
            let last: usize = found.older.len() - 1;
            Some(map_event_instance(&found.older[last]))
        } else {
            None
        }
    }

    /// Retrieves the latest event that matches the given `predicate` that this reader hasn't
    /// seen yet. This updates the EventReader's event counter, which means subsequent event
    /// reads will not include events that happened before now, whether they matched or not.
    ///
    /// The predicate is asked about the unseen events from the newest down, and no further
    /// than the first one that it accepts.
    #[verifier::loop_isolation(false)]
    pub fn find_latest<'a>(
        &mut self,
        events: &'a Events<T>,
        mut predicate: impl FnMut(&&T) -> bool,
    ) -> (event: Option<&'a T>)
        requires
            events.wf(),
            forall|i: int|
                0 <= i < events@.unread(old(self)@).len() ==> call_requires(
                    predicate,
                    (&&#[trigger] events@.unread(old(self)@)[i],),
                ),
        ensures
            final(self)@ == events@.next_sequence(),
            (match event {
                Some(event) => exists|i: int|
                    #[trigger] is_latest_match(events@.unread(old(self)@), predicate, i) && *event
                        == events@.unread(old(self)@)[i],
                None => forall|i: int|
                    0 <= i < events@.unread(old(self)@).len() ==> rejects(
                        predicate,
                        #[trigger] events@.unread(old(self)@)[i],
                    ),
            }),
    {
        let found = self.unseen(events);
        let ghost unread = found.events();
        let ghost asked = predicate;
        let ghost older_count = found.older@.len() - found.older_from;
        let mut index: usize = found.newer.len();
        while index > found.newer_from
            invariant
                predicate == asked,
                found.newer_from <= index <= found.newer@.len(),
                forall|i: int|
                    older_count + index - found.newer_from <= i < unread.len() ==> rejects(
                        asked,
                        #[trigger] unread[i],
                    ),
            decreases index,
        {
            index -= 1;
            let event: &'a T = map_event_instance(&found.newer[index]);
            let ghost place = older_count + index - found.newer_from;
            assert(unread[place] == *event);
            if predicate(&event) {
                assert(is_latest_match(unread, asked, place));
                return Some(event);
            }
        }
        let mut index: usize = found.older.len();
        while index > found.older_from
            invariant
                predicate == asked,
                found.older_from <= index <= found.older@.len(),
                forall|i: int|
                    index - found.older_from <= i < unread.len() ==> rejects(
                        asked,
                        #[trigger] unread[i],
                    ),
            decreases index,
        {
            index -= 1;
            let event: &'a T = map_event_instance(&found.older[index]);
            let ghost place = index - found.older_from;
            assert(unread[place] == *event);
            if predicate(&event) {
                assert(is_latest_match(unread, asked, place));
                return Some(event);
            }
        }
        None
    }

    /// Retrieves the earliest event in `events` that this reader hasn't seen yet. This
    /// updates the EventReader's event counter, which means subsequent event reads will not
    /// include events that happened before now.
    pub fn earliest<'a>(&mut self, events: &'a Events<T>) -> (event: Option<&'a T>)
        requires
            events.wf(),
        ensures
            final(self)@ == events@.next_sequence(),
            (match event {
                Some(event) => events@.unread(old(self)@).len() > 0 && *event
                    == events@.unread(old(self)@).first(),
                None => events@.unread(old(self)@).len() == 0,
            }),
    {
        let found = self.unseen(events);
        if found.older_from < found.older.len() {
            Some(map_event_instance(&found.older[found.older_from]))
        } else if found.newer_from < found.newer.len() {
            Some(map_event_instance(&found.newer[found.newer_from]))
        } else {
            None
        }
    }
}

} // verus!
