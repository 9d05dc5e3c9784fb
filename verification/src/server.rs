//! The server as a whole: one leader and the tasks it has spawned.
//!
//! This is a model, not code that runs. It puts the leader's decision and the
//! tasks' steps together the way the running server does, so that what holds
//! across connections can be stated and proved.

use crate::connection::{step_spec, EventView, State};
use crate::leader::{on_accept_spec, AcceptView, LeaderActionView};
use crate::text::accept_failure_report;
use crate::trace::{
    carries_data, is_read_report, lemma_no_data_no_read_report, printed_after, run_spec,
};
use vstd::prelude::*;
use vstd::utf8::*;

verus! {

/// The tasks spawned so far, in the order in which their connections were
/// accepted. A task that has ended keeps its place: nobody looks at how it
/// ended.
pub struct Server {
    pub tasks: Seq<State>,
}

/// Something that happens to the server.
pub enum ServerEvent {
    /// An accept attempt of the leader returned.
    Accept(AcceptView),
    /// The pending request of the task at `index` was answered.
    Task { index: int, event: EventView },
}

/// One step of the server, and the line it prints, if any.
///
/// An accepted connection gets a new task, which waits for readiness. A failed
/// accept is reported and changes nothing. An event for a task moves that task
/// and no other, and an event for a task that does not exist is lost.
pub open spec fn serve_spec(server: Server, event: ServerEvent) -> (Server, Option<Seq<char>>) {
    match event {
        ServerEvent::Accept(outcome) => match on_accept_spec(outcome) {
            LeaderActionView::Spawn => (
                Server { tasks: server.tasks.push(State::WaitingReadable) },
                None,
            ),
            LeaderActionView::Report(line) => (server, Some(line)),
        },
        ServerEvent::Task { index, event } => if 0 <= index < server.tasks.len() {
            let moved = step_spec(server.tasks[index], event);
            (Server { tasks: server.tasks.update(index, moved.0) }, moved.1)
        } else {
            (server, None)
        },
    }
}

/// The server's run: where `events`, taken in order, lead from `server`, and
/// the lines printed on the way.
pub open spec fn serve_all_spec(server: Server, events: Seq<ServerEvent>) -> (
    Server,
    Seq<Seq<char>>,
)
    decreases events.len(),
{
    if events.len() == 0 {
        (server, Seq::empty())
    } else {
        let before = serve_all_spec(server, events.drop_last());
        let last = serve_spec(before.0, events.last());
        (last.0, printed_after(before.1, last.1))
    }
}

/// How many of `events` are accepted connections.
pub open spec fn connections_in(events: Seq<ServerEvent>) -> nat
    decreases events.len(),
{
    if events.len() == 0 {
        0
    } else if events.last() == ServerEvent::Accept(AcceptView::Connected) {
        connections_in(events.drop_last()) + 1
    } else {
        connections_in(events.drop_last())
    }
}

/// The events among `events` that are for the task at `index`, in order.
pub open spec fn events_for(events: Seq<ServerEvent>, index: int) -> Seq<EventView>
    decreases events.len(),
{
    if events.len() == 0 {
        Seq::empty()
    } else {
        let earlier = events_for(events.drop_last(), index);
        match events.last() {
            ServerEvent::Task { index: target, event } => if target == index {
                earlier.push(event)
            } else {
                earlier
            },
            _ => earlier,
        }
    }
}

/// `events`, each addressed to the task at `index`.
pub open spec fn addressed_to(index: int, events: Seq<EventView>) -> Seq<ServerEvent> {
    Seq::new(events.len(), |i: int| ServerEvent::Task { index, event: events[i] })
}

/// The leader never stops accepting.
///
/// Whatever happens to the server, and however many of its tasks end on the
/// way, every connection that is accepted gets a task: the tasks that were
/// there keep their places, and behind them stands one task for each
/// connection accepted since.
pub proof fn lemma_every_connection_gets_a_task(server: Server, events: Seq<ServerEvent>)
    ensures
        serve_all_spec(server, events).0.tasks.len() == server.tasks.len() + connections_in(
            events,
        ),
    decreases events.len(),
{
    if events.len() > 0 {
        lemma_every_connection_gets_a_task(server, events.drop_last());
    }
}

/// Tasks do not touch each other.
///
/// Where a task stands after a run of the server depends on where it stood
/// before and on the events that were for it, in their order, and on nothing
/// else: not on the other tasks, not on their failures, not on the leader.
pub proof fn lemma_tasks_run_independently(server: Server, events: Seq<ServerEvent>, index: int)
    requires
        0 <= index < server.tasks.len(),
    ensures
        index < serve_all_spec(server, events).0.tasks.len(),
        serve_all_spec(server, events).0.tasks[index] == run_spec(
            server.tasks[index],
            events_for(events, index),
        ).0,
    decreases events.len(),
{
    if events.len() > 0 {
        let earlier = events.drop_last();
        lemma_tasks_run_independently(server, earlier, index);
        lemma_every_connection_gets_a_task(server, earlier);
        let own = events_for(events, index);
        match events.last() {
            ServerEvent::Task { index: target, event } => {
                if target == index {
                    assert(own.drop_last() =~= events_for(earlier, index));
                    assert(own.last() == event);
                }
            },
            _ => {},
        }
    }
}

/// A task that fails takes nothing with it.
///
/// When a task reads bytes that are not well-formed UTF-8, that task ends and
/// nothing is printed. Every other task stands where it stood. The leader
/// goes on as before: the next connection is accepted and gets a fresh task,
/// and the next failed accept is reported.
pub proof fn lemma_invalid_text_ends_only_its_task(
    server: Server,
    index: int,
    bytes: Seq<u8>,
    next: AcceptView,
)
    requires
        0 <= index < server.tasks.len(),
        server.tasks[index] is Reading,
        !valid_utf8(bytes),
    ensures
        ({
            let after = serve_spec(
                server,
                ServerEvent::Task { index, event: EventView::Received(bytes) },
            );
            &&& after.1 is None
            &&& after.0.tasks.len() == server.tasks.len()
            &&& after.0.tasks[index] is Terminated
            &&& forall|other: int|
                0 <= other < server.tasks.len() && other != index ==> after.0.tasks[other]
                    == server.tasks[other]
            &&& serve_spec(after.0, ServerEvent::Accept(next)) == match next {
                AcceptView::Connected => (
                    Server { tasks: after.0.tasks.push(State::WaitingReadable) },
                    None::<Seq<char>>,
                ),
                AcceptView::Failed(cause) => (after.0, Some(accept_failure_report(cause))),
            }
        }),
{
    assert(bytes.len() != 0);
}

/// The leader outlives its tasks.
///
/// After any step in which a task ends, whatever ended it, the leader answers
/// the next accept attempt as it always does: a connection gets a fresh task
/// behind the others, a failure is reported and changes nothing.
pub proof fn lemma_leader_accepts_after_task_failure(
    server: Server,
    index: int,
    event: EventView,
    next: AcceptView,
)
    requires
        0 <= index < server.tasks.len(),
        serve_spec(server, ServerEvent::Task { index, event }).0.tasks[index] is Terminated,
    ensures
        ({
            let after = serve_spec(server, ServerEvent::Task { index, event }).0;
            serve_spec(after, ServerEvent::Accept(next)) == match next {
                AcceptView::Connected => (
                    Server { tasks: after.tasks.push(State::WaitingReadable) },
                    None::<Seq<char>>,
                ),
                AcceptView::Failed(cause) => (after, Some(accept_failure_report(cause))),
            }
        }),
{
}

/// A run of one task, seen from the server.
///
/// When every event is for the same task, the server prints what that task
/// prints, the task goes where its own run takes it, and nothing else changes.
pub proof fn lemma_one_task_runs_alone(server: Server, index: int, events: Seq<EventView>)
    requires
        0 <= index < server.tasks.len(),
    ensures
        serve_all_spec(server, addressed_to(index, events)) == (
            Server {
                tasks: server.tasks.update(index, run_spec(server.tasks[index], events).0),
            },
            run_spec(server.tasks[index], events).1,
        ),
    decreases events.len(),
{
    let routed = addressed_to(index, events);
    if events.len() == 0 {
        assert(server.tasks.update(index, server.tasks[index]) =~= server.tasks);
    } else {
        let earlier = events.drop_last();
        lemma_one_task_runs_alone(server, index, earlier);
        assert(routed.drop_last() =~= addressed_to(index, earlier));
        assert(routed.last() == ServerEvent::Task { index, event: events.last() });
        let before = run_spec(server.tasks[index], earlier);
        let moved = step_spec(before.0, events.last());
        assert(server.tasks.update(index, before.0).update(index, moved.0)
            =~= server.tasks.update(index, moved.0));
    }
}

/// A connection that is opened and closed at once disturbs nothing.
///
/// Take a task whose peer never sends a byte, and let it run for as long as it
/// likes. The server prints no report of a read, no other task moves, and a
/// connection accepted afterwards gets a fresh task behind the others.
pub proof fn lemma_silent_connection_disturbs_nothing(
    server: Server,
    index: int,
    events: Seq<EventView>,
)
    requires
        0 <= index < server.tasks.len(),
        forall|i: int| 0 <= i < events.len() ==> !carries_data(#[trigger] events[i]),
    ensures
        ({
            let after = serve_all_spec(server, addressed_to(index, events));
            &&& forall|k: int| 0 <= k < after.1.len() ==> !is_read_report(#[trigger] after.1[k])
            &&& after.0.tasks.len() == server.tasks.len()
            &&& forall|other: int|
                0 <= other < server.tasks.len() && other != index ==> after.0.tasks[other]
                    == server.tasks[other]
            &&& serve_spec(after.0, ServerEvent::Accept(AcceptView::Connected)) == (
                Server { tasks: after.0.tasks.push(State::WaitingReadable) },
                None::<Seq<char>>,
            )
        }),
{
    lemma_one_task_runs_alone(server, index, events);
    lemma_no_data_no_read_report(server.tasks[index], events);
}

} // verus!
