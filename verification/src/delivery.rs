//! What the event queue promises its readers, proved over the queue's log.
//!
//! A [`Session`] is a queue with some readers, and a [`Step`] is one thing that
//! happens to them: an event is sent, the queue is updated, or one of the
//! readers reads. The lemmas here say what a reader has seen after any run of
//! such steps.

use crate::event_log::EventLog;
use vstd::prelude::*;

verus! {

/// One reader of a queue: where it stands, and everything it has read so far,
/// in the order it read it.
#[verifier::ext_equal]
pub struct Reader<T> {
    pub position: nat,
    pub seen: Seq<T>,
}

/// A queue's log together with the readers that follow it.
#[verifier::ext_equal]
pub struct Session<T> {
    pub log: EventLog<T>,
    pub readers: Seq<Reader<T>>,
}

/// One thing that happens in a session.
pub enum Step<T> {
    /// An event is sent to the queue.
    Send(T),
    /// The queue is updated: one frame ends and the next begins.
    Update,
    /// The reader with this index reads everything it has not seen.
    Read(int),
}

impl<T> Reader<T> {
    /// The reader after it has read `log`: it has seen what was unread, and
    /// stands at the end of the log.
    pub open spec fn read(self, log: EventLog<T>) -> Self {
        Reader { position: log.next_sequence(), seen: self.seen + log.unread(self.position) }
    }

    /// Whether the reader has missed nothing of `log` that was sent before the
    /// current frame began, and is not ahead of the log.
    pub open spec fn keeps_up_with(self, log: EventLog<T>) -> bool {
        log.frame_start <= self.position <= log.next_sequence()
    }
}

impl<T> Session<T> {
    /// A new queue with `count` readers, each new as well.
    pub open spec fn fresh(count: nat) -> Self {
        Session {
            log: EventLog::empty(),
            readers: Seq::new(count, |i: int| Reader { position: 0, seen: Seq::empty() }),
        }
    }

    /// The session after `step`. A read by a reader that is not there changes
    /// nothing.
    pub open spec fn step(self, step: Step<T>) -> Self {
        match step {
            Step::Send(event) => Session { log: self.log.send(event), ..self },
            Step::Update => Session { log: self.log.update(), ..self },
            Step::Read(reader) => if 0 <= reader < self.readers.len() {
                Session {
                    readers: self.readers.update(reader, self.readers[reader].read(self.log)),
                    ..self
                }
            } else {
                self
            },
        }
    }

    /// The session after each of `steps`, in order.
    pub open spec fn run(self, steps: Seq<Step<T>>) -> Self
        decreases steps.len(),
    {
        if steps.len() == 0 {
            self
        } else {
            self.run(steps.drop_last()).step(steps.last())
        }
    }
}

/// The events that `steps` send, in order.
pub open spec fn sent_by<T>(steps: Seq<Step<T>>) -> Seq<T>
    decreases steps.len(),
{
    if steps.len() == 0 {
        Seq::empty()
    } else {
        match steps.last() {
            Step::Send(event) => sent_by(steps.drop_last()).push(event),
            _ => sent_by(steps.drop_last()),
        }
    }
}

/// Whether `reader` reads at some step strictly between steps `from` and `to`.
pub open spec fn reads_between<T>(steps: Seq<Step<T>>, reader: int, from: int, to: int) -> bool {
    exists|k: int| from < k < to && #[trigger] steps[k] == Step::<T>::Read(reader)
}

/// Whether `reader` reads at least once between every two updates of `steps`.
pub open spec fn reads_every_frame<T>(steps: Seq<Step<T>>, reader: int) -> bool {
    forall|i: int, j: int|
        0 <= i < j < steps.len() && steps[i] is Update && steps[j] is Update
            ==> #[trigger] reads_between(steps, reader, i, j)
}

/// Whether `reader` reads after every update of `steps`.
spec fn reads_after_updates<T>(steps: Seq<Step<T>>, reader: int) -> bool {
    forall|i: int|
        0 <= i < steps.len() && steps[i] is Update ==> #[trigger] reads_between(
            steps,
            reader,
            i,
            steps.len() as int,
        )
}

/// Sending several events appends them to the log, in order, and moves no
/// marker.
pub proof fn lemma_send_all<T>(log: EventLog<T>, events: Seq<T>)
    ensures
        log.send_all(events) == (EventLog { sent: log.sent + events, ..log }),
    decreases events.len(),
{
    if events.len() > 0 {
        lemma_send_all(log, events.drop_last());
    }
}

/// Sending adds to the current frame and leaves the previous one alone.
pub proof fn lemma_send_fills_current_frame<T>(log: EventLog<T>, event: T)
    requires
        log.wf(),
    ensures
        log.send(event).wf(),
        log.send(event).previous_frame() == log.previous_frame(),
        log.send(event).current_frame() == log.current_frame().push(event),
{
}

/// An update lets go of the previous frame, keeps the current frame as the
/// previous one, and begins an empty frame. It sends nothing and numbers
/// nothing anew.
pub proof fn lemma_update_rotates_frames<T>(log: EventLog<T>)
    requires
        log.wf(),
    ensures
        log.update().wf(),
        log.update().previous_frame() == log.current_frame(),
        log.update().current_frame() == Seq::<T>::empty(),
        log.update().retained() == log.current_frame(),
        log.update().sent == log.sent,
{
}

/// An event outlives one update and no more: whatever is sent later, an event
/// of the current frame is still held after the next update, and let go by
/// the one after that.
pub proof fn lemma_event_outlives_one_update<T>(
    log: EventLog<T>,
    number: nat,
    next_frame: Seq<T>,
)
    requires
        log.wf(),
        log.frame_start <= number < log.next_sequence(),
    ensures
        log.update().send_all(next_frame).retained_from <= number,
        log.update().send_all(next_frame).update().retained_from > number,
{
    lemma_send_all(log.update(), next_frame);
}

/// Sequence numbers count up by one from zero: whatever else happens to a new
/// queue, the event with sequence number `n` is the `n`-th event sent to it,
/// counting from zero, and the next sequence number is the number of events
/// sent.
pub proof fn lemma_sequence_numbers_count_sends<T>(readers: nat, steps: Seq<Step<T>>)
    ensures
        Session::<T>::fresh(readers).run(steps).log.sent == sent_by(steps),
        Session::<T>::fresh(readers).run(steps).log.next_sequence() == sent_by(steps).len(),
    decreases steps.len(),
{
    if steps.len() > 0 {
        lemma_sequence_numbers_count_sends(readers, steps.drop_last());
    }
}

/// Each send gives the event the next sequence number and raises the counter
/// by one; nothing else changes the counter or an event's number.
pub proof fn lemma_send_takes_next_number<T>(log: EventLog<T>, event: T)
    ensures
        log.send(event).next_sequence() == log.next_sequence() + 1,
        log.send(event).sent[log.next_sequence() as int] == event,
        log.send(event).sent.subrange(0, log.next_sequence() as int) == log.sent,
        log.update().sent == log.sent,
{
}

/// Nothing ever counts down: whatever happens, the log only grows, the markers
/// only move forward, and a reader that was not ahead of the log only moves
/// forward and never gets ahead of it.
pub proof fn lemma_counters_only_grow<T>(start: Session<T>, steps: Seq<Step<T>>, reader: int)
    requires
        start.log.wf(),
        0 <= reader < start.readers.len(),
        start.readers[reader].position <= start.log.next_sequence(),
    ensures
        ({
            let end = start.run(steps);
            &&& end.log.wf()
            &&& end.readers.len() == start.readers.len()
            &&& start.log.sent == end.log.sent.take(start.log.next_sequence() as int)
            &&& start.log.next_sequence() <= end.log.next_sequence()
            &&& start.log.frame_start <= end.log.frame_start
            &&& start.log.retained_from <= end.log.retained_from
            &&& start.readers[reader].position <= end.readers[reader].position
                <= end.log.next_sequence()
        }),
    decreases steps.len(),
{
    if steps.len() > 0 {
        lemma_counters_only_grow(start, steps.drop_last(), reader);
    }
}

/// What holds of a reader that reads in every frame, after any number of
/// steps: it is still within what the queue retains, it has caught up with the
/// current frame if it read since the last update, and what it has seen
/// followed by what it would read now is everything sent since it started.
proof fn lemma_keeping_up<T>(start: Session<T>, steps: Seq<Step<T>>, reader: int)
    requires
        start.log.wf(),
        0 <= reader < start.readers.len(),
        start.readers[reader].keeps_up_with(start.log),
        reads_every_frame(steps, reader),
    ensures
        ({
            let end = start.run(steps);
            let before = start.readers[reader];
            let now = end.readers[reader];
            &&& end.log.wf()
            &&& end.readers.len() == start.readers.len()
            &&& start.log.next_sequence() <= end.log.next_sequence()
            &&& end.log.retained_from <= now.position <= end.log.next_sequence()
            &&& (steps.len() == 0 || reads_after_updates(steps, reader)) ==> now.keeps_up_with(
                end.log,
            )
            &&& now.seen + end.log.unread(now.position) == before.seen + end.log.sent.subrange(
                before.position as int,
                end.log.next_sequence() as int,
            )
        }),
    decreases steps.len(),
{
    if steps.len() > 0 {
        let earlier = steps.drop_last();
        assert forall|i: int, j: int|
            0 <= i < j < earlier.len() && earlier[i] is Update
                && earlier[j] is Update implies #[trigger] reads_between(earlier, reader, i, j) by {
            assert(reads_between(steps, reader, i, j));
            let k = choose|k: int| i < k < j && #[trigger] steps[k] == Step::<T>::Read(reader);
            assert(earlier[k] == Step::<T>::Read(reader));
        }
        lemma_keeping_up(start, earlier, reader);
        let middle = start.run(earlier);
        let end = start.run(steps);
        let then = middle.readers[reader];
        let now = end.readers[reader];
        match steps.last() {
            Step::Send(event) => {
                if reads_after_updates(steps, reader) {
                    lemma_reads_after_updates_without_last(steps, reader);
                }
                // the new event is unread, and nothing else has changed
                assert(now.seen + end.log.unread(now.position) =~= (then.seen
                    + middle.log.unread(then.position)).push(event));
            },
            Step::Update => {
                // the reader has read since the update before this one, so
                // nothing that it has not seen lies in the frame that goes
                if earlier.len() > 0 {
                    assert forall|i: int|
                        0 <= i < earlier.len()
                            && earlier[i] is Update implies #[trigger] reads_between(
                        earlier,
                        reader,
                        i,
                        earlier.len() as int,
                    ) by {
                        assert(reads_between(steps, reader, i, steps.len() - 1));
                        let k = choose|k: int|
                            i < k < steps.len() - 1 && #[trigger] steps[k] == Step::<T>::Read(
                                reader,
                            );
                        assert(earlier[k] == Step::<T>::Read(reader));
                    }
                }
                assert(!reads_after_updates(steps, reader)) by {
                    if reads_after_updates(steps, reader) {
                        assert(reads_between(steps, reader, steps.len() - 1, steps.len() as int));
                    }
                }
            },
            Step::Read(other) => {
                if other != reader && reads_after_updates(steps, reader) {
                    lemma_reads_after_updates_without_last(steps, reader);
                }
            },
        }
    }
}

/// A reader that reads after every update of `steps` does so already before
/// the last step, where that step is not a read of its own.
proof fn lemma_reads_after_updates_without_last<T>(steps: Seq<Step<T>>, reader: int)
    requires
        steps.len() > 0,
        steps.last() != Step::<T>::Read(reader),
        reads_after_updates(steps, reader),
    ensures
        steps.len() == 1 || reads_after_updates(steps.drop_last(), reader),
{
    let earlier = steps.drop_last();
    assert forall|i: int|
        0 <= i < earlier.len() && earlier[i] is Update implies #[trigger] reads_between(
        earlier,
        reader,
        i,
        earlier.len() as int,
    ) by {
        assert(reads_between(steps, reader, i, steps.len() as int));
        let k = choose|k: int|
            i < k < steps.len() && #[trigger] steps[k] == Step::<T>::Read(reader);
        assert(earlier[k] == Step::<T>::Read(reader));
    }
}

/// A reader that reads at least once between every two updates misses nothing
/// and gets nothing twice: what it has seen, followed by what it would read
/// now, is every event sent since it started, in the order sent. Where its own
/// read is the last step, it has seen all of them.
///
/// The reader must start out having missed nothing from before the current
/// frame, as a reader does that has just read, or a new reader of a new queue.
/// What other readers do in between makes no difference.
pub proof fn lemma_reading_every_frame_loses_nothing<T>(
    start: Session<T>,
    steps: Seq<Step<T>>,
    reader: int,
)
    requires
        start.log.wf(),
        0 <= reader < start.readers.len(),
        start.readers[reader].keeps_up_with(start.log),
        reads_every_frame(steps, reader),
    ensures
        ({
            let end = start.run(steps);
            let before = start.readers[reader];
            let now = end.readers[reader];
            let since = end.log.sent.subrange(
                before.position as int,
                end.log.next_sequence() as int,
            );
            &&& before.position <= end.log.next_sequence()
            &&& now.seen + end.log.unread(now.position) == before.seen + since
            &&& steps.len() > 0 && steps.last() == Step::<T>::Read(reader) ==> now.seen
                == before.seen + since
        }),
{
    lemma_keeping_up(start, steps, reader);
}

/// A new reader of a new queue that reads at least once between every two
/// updates observes every event ever sent, in send order, with no duplicates:
/// what it has seen, followed by what it would read now, is exactly the events
/// sent.
pub proof fn lemma_reading_every_frame_sees_every_event<T>(
    readers: nat,
    steps: Seq<Step<T>>,
    reader: int,
)
    requires
        0 <= reader < readers,
        reads_every_frame(steps, reader),
    ensures
        ({
            let end = Session::<T>::fresh(readers).run(steps);
            let now = end.readers[reader];
            &&& now.seen + end.log.unread(now.position) == sent_by(steps)
            &&& steps.len() > 0 && steps.last() == Step::<T>::Read(reader) ==> now.seen
                == sent_by(steps)
        }),
{
    let start = Session::<T>::fresh(readers);
    lemma_reading_every_frame_loses_nothing(start, steps, reader);
    lemma_sequence_numbers_count_sends(readers, steps);
}

/// A reader that does not read across two updates has lost everything sent
/// before the first of them, and still gets everything sent since: after
/// `update`, the sending of `between`, `update` again and the sending of
/// `after`, a reader that stood anywhere in the log as it was reads exactly
/// `between` followed by `after`.
pub proof fn lemma_two_updates_drop_what_came_before<T>(
    log: EventLog<T>,
    position: nat,
    between: Seq<T>,
    after: Seq<T>,
)
    requires
        log.wf(),
        position <= log.next_sequence(),
    ensures
        ({
            let later = log.update().send_all(between).update().send_all(after);
            &&& later.wf()
            &&& later.first_unread(position) == log.next_sequence()
            &&& later.unread(position) == between + after
        }),
{
    let first = log.update();
    lemma_send_all(first, between);
    let second = first.send_all(between).update();
    lemma_send_all(second, after);
}

/// Reading leaves the queue and every other reader as they were.
pub proof fn lemma_read_touches_one_reader<T>(session: Session<T>, reader: int, other: int)
    requires
        0 <= other < session.readers.len(),
        other != reader,
    ensures
        session.step(Step::Read(reader)).log == session.log,
        session.step(Step::Read(reader)).readers.len() == session.readers.len(),
        session.step(Step::Read(reader)).readers[other] == session.readers[other],
{
}

/// Steps that send nothing leave a reader that has just read with nothing to
/// read: it stays at the end of the log.
proof fn lemma_nothing_sent<T>(start: Session<T>, steps: Seq<Step<T>>, reader: int)
    requires
        start.log.wf(),
        0 <= reader < start.readers.len(),
        start.readers[reader].position == start.log.next_sequence(),
        sent_by(steps).len() == 0,
    ensures
        ({
            let end = start.run(steps);
            &&& end.log.wf()
            &&& end.readers.len() == start.readers.len()
            &&& end.log.sent == start.log.sent
            &&& end.readers[reader] == start.readers[reader]
        }),
    decreases steps.len(),
{
    if steps.len() > 0 {
        lemma_nothing_sent(start, steps.drop_last(), reader);
    }
}

/// Reading twice with no send in between gives nothing the second time. The
/// first read gives the unread events, at least one of them exactly when some
/// retained event is at or after the reader's position; then, whatever happens
/// short of a send, the next read adds nothing.
pub proof fn lemma_second_read_is_empty<T>(start: Session<T>, idle: Seq<Step<T>>, reader: int)
    requires
        start.log.wf(),
        0 <= reader < start.readers.len(),
        sent_by(idle).len() == 0,
    ensures
        ({
            let before = start.readers[reader];
            let once = start.step(Step::Read(reader));
            let again = once.run(idle).step(Step::Read(reader));
            &&& once.readers[reader].seen == before.seen + start.log.unread(before.position)
            &&& start.log.unread(before.position).len() > 0 <==> before.position
                < start.log.next_sequence() && start.log.retained_from < start.log.next_sequence()
            &&& again.readers[reader] == once.readers[reader]
        }),
{
    lemma_nothing_sent(start.step(Step::Read(reader)), idle, reader);
}

/// A reader made new after some events were sent, and before any update, reads
/// exactly those events.
pub proof fn lemma_new_reader_sees_all_before_first_update<T>(events: Seq<T>)
    ensures
        EventLog::<T>::empty().send_all(events).unread(0) == events,
{
    lemma_send_all(EventLog::<T>::empty(), events);
}

/// Two readers of one queue that have both lost nothing read the same log from
/// different places: the one further back reads what lies between them, then
/// what the other reads.
pub proof fn lemma_readers_differ_by_offset<T>(log: EventLog<T>, earlier: nat, later: nat)
    requires
        log.wf(),
        log.retained_from <= earlier <= later <= log.next_sequence(),
    ensures
        log.unread(earlier) == log.sent.subrange(earlier as int, later as int) + log.unread(later),
{
}

} // verus!
