//! What a task does over a whole sequence of events, and what holds of
//! every such run.

use crate::connection::{registered_interest, step_spec, EventView, Readiness, State, TaskError};
use crate::text::{read_report, write_report};
use vstd::prelude::*;
use vstd::utf8::*;

verus! {

/// The lines printed so far, after a step that printed `line` or nothing.
pub open spec fn printed_after(printed: Seq<Seq<char>>, line: Option<Seq<char>>) -> Seq<
    Seq<char>,
> {
    match line {
        Some(text) => printed.push(text),
        None => printed,
    }
}

/// A task's run: the state it reaches from `state` when it is fed `events`
/// in order, and the lines it prints on the way, in order.
pub open spec fn run_spec(state: State, events: Seq<EventView>) -> (State, Seq<Seq<char>>)
    decreases events.len(),
{
    if events.len() == 0 {
        (state, Seq::empty())
    } else {
        let before = run_spec(state, events.drop_last());
        let last = step_spec(before.0, events.last());
        (last.0, printed_after(before.1, last.1))
    }
}

/// Whether `event` is a read that brought at least one byte.
pub open spec fn carries_data(event: EventView) -> bool {
    event matches EventView::Received(bytes) && bytes.len() > 0
}

/// Whether `event` is a readiness that reports more than every task
/// registers for.
pub open spec fn exceeds_registration(event: EventView) -> bool {
    event matches EventView::Ready(readiness) && !readiness.within(registered_interest())
}

/// Whether a task in `state` can no longer come to attempt a write, as long as
/// no readiness exceeds the registration.
pub open spec fn off_write_path(state: State) -> bool {
    state != State::Writing && state != (State::Reading { then_write: true })
}

/// Whether `line` is the report of some read.
pub open spec fn is_read_report(line: Seq<char>) -> bool {
    exists|count: nat, text: Seq<char>| line == #[trigger] read_report(count, text)
}

/// Whether `line` is the report of some write.
pub open spec fn is_write_report(line: Seq<char>) -> bool {
    exists|count: nat| line == #[trigger] write_report(count)
}

/// No line is both the report of a read and the report of a write.
pub proof fn lemma_reports_differ(line: Seq<char>)
    ensures
        !(is_read_report(line) && is_write_report(line)),
{
    if is_read_report(line) && is_write_report(line) {
        let (read_count, text) = choose|count: nat, text: Seq<char>|
            line == #[trigger] read_report(count, text);
        let write_count = choose|count: nat| line == #[trigger] write_report(count);
        reveal_strlit("read ");
        reveal_strlit("write ");
        assert(read_report(read_count, text)[0] == 'r');
        assert(write_report(write_count)[0] == 'w');
    }
}

/// Text that arrives is printed, and nothing else is.
///
/// A task that has just been spawned, is woken because its socket is
/// readable, and then reads `bytes` that are well-formed UTF-8, prints one
/// line: the report of that read, which carries the byte count and the decoded
/// text. That text encodes back to exactly the bytes received. Where no byte
/// arrived, nothing is printed. In both cases the task lives on.
pub proof fn lemma_received_text_is_printed(readiness: Readiness, bytes: Seq<u8>)
    requires
        readiness.readable,
        valid_utf8(bytes),
    ensures
        run_spec(
            State::WaitingReadable,
            seq![EventView::Ready(readiness), EventView::Received(bytes)],
        ).1 == if bytes.len() == 0 {
            Seq::<Seq<char>>::empty()
        } else {
            seq![read_report(bytes.len(), decode_utf8(bytes))]
        },
        !(run_spec(
            State::WaitingReadable,
            seq![EventView::Ready(readiness), EventView::Received(bytes)],
        ).0 is Terminated),
        encode_utf8(decode_utf8(bytes)) == bytes,
{
    let events = seq![EventView::Ready(readiness), EventView::Received(bytes)];
    let first = events.drop_last();
    assert(first.drop_last().len() == 0);
    assert(run_spec(State::WaitingReadable, first.drop_last()) == (
        State::WaitingReadable,
        Seq::<Seq<char>>::empty(),
    ));
    assert(first.last() == EventView::Ready(readiness));
    assert(run_spec(State::WaitingReadable, first) == (
        State::Reading { then_write: readiness.writable },
        Seq::<Seq<char>>::empty(),
    ));
    assert(events.last() == EventView::Received(bytes));
    let printed = run_spec(State::WaitingReadable, events).1;
    if bytes.len() == 0 {
        assert(printed =~= Seq::<Seq<char>>::empty());
    } else {
        assert(printed =~= seq![read_report(bytes.len(), decode_utf8(bytes))]);
    }
    decode_utf8_encode_utf8(bytes);
}

/// Bytes that are not text end the task that read them.
///
/// A task that reads bytes which are not well-formed UTF-8 ends with
/// [`TaskError::InvalidText`] and prints nothing.
pub proof fn lemma_invalid_text_ends_task(then_write: bool, bytes: Seq<u8>)
    requires
        !valid_utf8(bytes),
    ensures
        step_spec(State::Reading { then_write }, EventView::Received(bytes)) == (
            State::Terminated(TaskError::InvalidText),
            None::<Seq<char>>,
        ),
{
    assert(bytes.len() != 0);
}

/// What ends a task, and nothing else does.
///
/// A task that is alive ends in a step exactly when an operation failed, when
/// the readiness wait itself answered that it would block, or when a read
/// brought bytes that are not well-formed UTF-8. A read or a write that would
/// block does not end it, and neither does a read that brought nothing.
pub proof fn lemma_what_ends_a_task(state: State, event: EventView)
    requires
        !(state is Terminated),
    ensures
        step_spec(state, event).0 is Terminated <==> {
            ||| event is Failed
            ||| state is WaitingReadable && event is WouldBlock
            ||| state is Reading && event is Received && !valid_utf8(event->Received_0)
        },
        step_spec(state, event).0 is Terminated ==> step_spec(state, event).1 is None,
{
}

/// Empty reads do not end a task.
///
/// A read that brings no byte is not taken for the end of the stream. A task
/// that is woken again and again, and each time reads nothing, is still alive
/// after any number of rounds.
pub proof fn lemma_empty_reads_never_end_a_task(state: State, events: Seq<EventView>)
    requires
        !(state is Terminated),
        forall|i: int|
            0 <= i < events.len() ==> (#[trigger] events[i]) is Ready || events[i]
                == EventView::Received(Seq::empty()),
    ensures
        !(run_spec(state, events).0 is Terminated),
    decreases events.len(),
{
    if events.len() > 0 {
        let earlier = events.drop_last();
        assert forall|i: int| 0 <= i < earlier.len() implies (#[trigger] earlier[i]) is Ready
            || earlier[i] == EventView::Received(Seq::empty()) by {
            assert(earlier[i] == events[i]);
        }
        lemma_empty_reads_never_end_a_task(state, earlier);
        let last = events[events.len() - 1];
        assert(last is Ready || last == EventView::Received(Seq::empty()));
    }
}

/// A task that has ended stays ended and prints nothing more, whatever it is
/// fed.
pub proof fn lemma_ended_task_stays_silent(error: TaskError, events: Seq<EventView>)
    ensures
        run_spec(State::Terminated(error), events) == (
            State::Terminated(error),
            Seq::<Seq<char>>::empty(),
        ),
    decreases events.len(),
{
    if events.len() > 0 {
        lemma_ended_task_stays_silent(error, events.drop_last());
    }
}

/// Without data there is no report of a read.
///
/// A task whose reads never bring a byte, as with a peer that connects and
/// leaves at once, prints no report of a read, however long it runs and
/// wherever it starts.
pub proof fn lemma_no_data_no_read_report(state: State, events: Seq<EventView>)
    requires
        forall|i: int| 0 <= i < events.len() ==> !carries_data(#[trigger] events[i]),
    ensures
        forall|k: int|
            0 <= k < run_spec(state, events).1.len() ==> !is_read_report(
                #[trigger] run_spec(state, events).1[k],
            ),
    decreases events.len(),
{
    if events.len() > 0 {
        let earlier = events.drop_last();
        assert forall|i: int| 0 <= i < earlier.len() implies !carries_data(
            #[trigger] earlier[i],
        ) by {
            assert(earlier[i] == events[i]);
        }
        lemma_no_data_no_read_report(state, earlier);
        let before = run_spec(state, earlier);
        let last = step_spec(before.0, events.last());
        let printed = run_spec(state, events).1;
        assert(!carries_data(events[events.len() - 1]));
        assert forall|k: int| 0 <= k < printed.len() implies !is_read_report(
            #[trigger] printed[k],
        ) by {
            if k < before.1.len() {
                assert(printed[k] == before.1[k]);
            } else {
                assert(last.1 is Some);
                assert(before.0 == State::Writing);
                let sent = events.last()->Sent_0;
                assert(printed[k] == write_report(sent));
                assert(is_write_report(printed[k]));
                lemma_reports_differ(printed[k]);
            }
        }
    }
}

/// Under the registration the write is never attempted.
///
/// Every task registers for read-readiness only. As long as no readiness
/// reports more than was registered for, a task that is off the write path
/// stays off it, and prints no report of a write.
pub proof fn lemma_registration_never_writes(state: State, events: Seq<EventView>)
    requires
        off_write_path(state),
        forall|i: int| 0 <= i < events.len() ==> !exceeds_registration(#[trigger] events[i]),
    ensures
        off_write_path(run_spec(state, events).0),
        forall|k: int|
            0 <= k < run_spec(state, events).1.len() ==> !is_write_report(
                #[trigger] run_spec(state, events).1[k],
            ),
    decreases events.len(),
{
    if events.len() > 0 {
        let earlier = events.drop_last();
        assert forall|i: int| 0 <= i < earlier.len() implies !exceeds_registration(
            #[trigger] earlier[i],
        ) by {
            assert(earlier[i] == events[i]);
        }
        lemma_registration_never_writes(state, earlier);
        let before = run_spec(state, earlier);
        let last = step_spec(before.0, events.last());
        let printed = run_spec(state, events).1;
        assert(!exceeds_registration(events[events.len() - 1]));
        assert forall|k: int| 0 <= k < printed.len() implies !is_write_report(
            #[trigger] printed[k],
        ) by {
            if k < before.1.len() {
                assert(printed[k] == before.1[k]);
            } else {
                assert(last.1 is Some);
                let bytes = events.last()->Received_0;
                assert(printed[k] == read_report(bytes.len(), decode_utf8(bytes)));
                assert(is_read_report(printed[k]));
                lemma_reports_differ(printed[k]);
            }
        }
    }
}

/// A peer that sends nothing leaves no trace on the console.
///
/// A freshly spawned task whose reads never bring a byte, and whose readiness
/// never reports more than was registered for, prints nothing at all.
pub proof fn lemma_silent_peer_prints_nothing(events: Seq<EventView>)
    requires
        forall|i: int| 0 <= i < events.len() ==> !carries_data(#[trigger] events[i]),
        forall|i: int| 0 <= i < events.len() ==> !exceeds_registration(#[trigger] events[i]),
    ensures
        run_spec(State::WaitingReadable, events).1.len() == 0,
    decreases events.len(),
{
    if events.len() > 0 {
        let earlier = events.drop_last();
        assert forall|i: int| 0 <= i < earlier.len() implies !carries_data(
            #[trigger] earlier[i],
        ) && !exceeds_registration(earlier[i]) by {
            assert(earlier[i] == events[i]);
        }
        lemma_silent_peer_prints_nothing(earlier);
        lemma_registration_never_writes(State::WaitingReadable, earlier);
        assert(!carries_data(events[events.len() - 1]));
    }
}

} // verus!
