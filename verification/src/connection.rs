//! The task that serves one accepted connection, as a state machine.
//!
//! The task never touches its socket. It says what it needs next
//! ([`Connection::request`]), the caller does that and reports what happened
//! ([`Connection::step`]), and the task answers with the line to print, if
//! there is one.

use crate::text::{decode_text, read_report, render_read_report, render_write_report, write_report};
use vstd::prelude::*;
use vstd::utf8::*;

verus! {

/// The size in bytes of the buffer that a read attempt is given.
pub const READ_CAPACITY: usize = 1024;

/// The readiness that a task asks to be woken for.
#[derive(Clone, Copy, Debug, PartialEq, Eq)]
pub enum Interest {
    Readable,
    Writable,
    ReadableOrWritable,
}

impl Interest {
    /// Whether read-readiness is asked for.
    pub open spec fn wants_read(self) -> bool {
        self != Interest::Writable
    }

    /// Whether write-readiness is asked for.
    pub open spec fn wants_write(self) -> bool {
        self != Interest::Readable
    }
}

/// What a readiness wait reported. It is a hint only: the operation it
/// announces may still answer that it would block.
#[derive(Clone, Copy, Debug, PartialEq, Eq)]
pub struct Readiness {
    pub readable: bool,
    pub writable: bool,
}

impl Readiness {
    /// Whether this readiness reports nothing that `interest` did not ask for.
    pub open spec fn within(self, interest: Interest) -> bool {
        &&& self.readable ==> interest.wants_read()
        &&& self.writable ==> interest.wants_write()
    }
}

/// Why a task ended.
#[derive(Clone, Copy, Debug, PartialEq, Eq)]
pub enum TaskError {
    /// A readiness wait, a read or a write failed, and not because it would
    /// block.
    Io,
    /// Received bytes were not well-formed UTF-8.
    InvalidText,
}

/// Where a task stands.
#[derive(Clone, Copy, Debug, PartialEq, Eq)]
pub enum State {
    /// Suspended until the socket reports readiness.
    WaitingReadable,
    /// The socket was reported readable, and a read is to be attempted.
    /// `then_write` records that it was reported writable too.
    Reading { then_write: bool },
    /// The socket was reported writable, and the write is to be attempted.
    Writing,
    /// The task has ended.
    Terminated(TaskError),
}

/// What the caller reports back to a task.
#[derive(Debug, PartialEq, Eq)]
pub enum Event {
    /// The readiness wait returned.
    Ready(Readiness),
    /// The read attempt returned these bytes, possibly none.
    Received(Vec<u8>),
    /// The write attempt wrote this many bytes.
    Sent(usize),
    /// The operation answered that it would block.
    WouldBlock,
    /// The operation failed for any other reason.
    Failed,
}

/// The mathematical content of an [`Event`].
pub enum EventView {
    Ready(Readiness),
    Received(Seq<u8>),
    Sent(nat),
    WouldBlock,
    Failed,
}

impl View for Event {
    type V = EventView;

    open spec fn view(&self) -> EventView {
        match *self {
            Event::Ready(readiness) => EventView::Ready(readiness),
            Event::Received(bytes) => EventView::Received(bytes@),
            Event::Sent(count) => EventView::Sent(count as nat),
            Event::WouldBlock => EventView::WouldBlock,
            Event::Failed => EventView::Failed,
        }
    }
}

/// What a task needs done next.
#[derive(Debug, PartialEq, Eq)]
pub enum Request {
    /// Wait until the socket is ready in the given sense.
    AwaitReadiness(Interest),
    /// Attempt one non-blocking read into a buffer of `capacity` bytes.
    Read { capacity: usize },
    /// Attempt one non-blocking write of `payload`.
    Write { payload: Vec<u8> },
    /// Nothing more: the task has ended with this error.
    Stop(TaskError),
}

/// The mathematical content of a [`Request`].
pub enum RequestView {
    AwaitReadiness(Interest),
    Read { capacity: nat },
    Write { payload: Seq<u8> },
    Stop(TaskError),
}

impl View for Request {
    type V = RequestView;

    open spec fn view(&self) -> RequestView {
        match *self {
            Request::AwaitReadiness(interest) => RequestView::AwaitReadiness(interest),
            Request::Read { capacity } => RequestView::Read { capacity: capacity as nat },
            Request::Write { payload } => RequestView::Write { payload: payload@ },
            Request::Stop(error) => RequestView::Stop(error),
        }
    }
}

/// The readiness that every task registers: readable only.
pub open spec fn registered_interest() -> Interest {
    Interest::Readable
}

/// The bytes that a write attempt sends: the text `hello world`.
pub open spec fn write_payload() -> Seq<u8> {
    encode_utf8("hello world"@)
}

/// What a task in `state` needs done next.
pub open spec fn request_spec(state: State) -> RequestView {
    match state {
        State::WaitingReadable => RequestView::AwaitReadiness(registered_interest()),
        State::Reading { .. } => RequestView::Read { capacity: READ_CAPACITY as nat },
        State::Writing => RequestView::Write { payload: write_payload() },
        State::Terminated(error) => RequestView::Stop(error),
    }
}

/// Where a waiting task goes when its wait reports `readiness`: to the read
/// if the socket is readable, else to the write if it is writable, else back
/// to waiting.
pub open spec fn after_readiness(readiness: Readiness) -> State {
    if readiness.readable {
        State::Reading { then_write: readiness.writable }
    } else if readiness.writable {
        State::Writing
    } else {
        State::WaitingReadable
    }
}

/// Where a reading task goes when its read returns `bytes`, and what it
/// prints.
///
/// No bytes: back to waiting, silently, whatever else was ready. Well-formed
/// text: the read is reported, and the task goes on to the write if the socket
/// was writable too, else back to waiting. Anything else ends the task.
pub open spec fn after_read(bytes: Seq<u8>, then_write: bool) -> (State, Option<Seq<char>>) {
    if bytes.len() == 0 {
        (State::WaitingReadable, None)
    } else if valid_utf8(bytes) {
        (
            if then_write {
                State::Writing
            } else {
                State::WaitingReadable
            },
            Some(read_report(bytes.len(), decode_utf8(bytes))),
        )
    } else {
        (State::Terminated(TaskError::InvalidText), None)
    }
}

/// One step of a task: the state it moves to on `event`, and the line it
/// prints, if any.
///
/// An event that does not answer the pending request changes nothing and
/// prints nothing. A task that has ended stays as it is.
pub open spec fn step_spec(state: State, event: EventView) -> (State, Option<Seq<char>>) {
    match state {
        State::WaitingReadable => match event {
            EventView::Ready(readiness) => (after_readiness(readiness), None),
            EventView::WouldBlock | EventView::Failed => (State::Terminated(TaskError::Io), None),
            _ => (state, None),
        },
        State::Reading { then_write } => match event {
            EventView::Received(bytes) => after_read(bytes, then_write),
            EventView::WouldBlock => (State::WaitingReadable, None),
            EventView::Failed => (State::Terminated(TaskError::Io), None),
            _ => (state, None),
        },
        State::Writing => match event {
            EventView::Sent(count) => (State::WaitingReadable, Some(write_report(count))),
            EventView::WouldBlock => (State::WaitingReadable, None),
            EventView::Failed => (State::Terminated(TaskError::Io), None),
            _ => (state, None),
        },
        State::Terminated(_) => (state, None),
    }
}

/// The characters of a line, if there is one.
pub open spec fn line_view(line: Option<String>) -> Option<Seq<char>> {
    match line {
        Some(text) => Some(text@),
        None => None,
    }
}

/// The task of one accepted connection.
#[derive(Clone, Copy, Debug, PartialEq, Eq)]
pub struct Connection {
    pub state: State,
}

impl Connection {
    /// A task that has just been spawned: it waits for readiness.
    pub fn new() -> (task: Connection)
        ensures
            task.state == State::WaitingReadable,
    {
        Connection { state: State::WaitingReadable }
    }

    /// What the task needs done next.
    pub fn request(&self) -> (request: Request)
        ensures
            request@ == request_spec(self.state),
    {
        match self.state {
            State::WaitingReadable => Request::AwaitReadiness(Interest::Readable),
            State::Reading { .. } => Request::Read { capacity: READ_CAPACITY },
            State::Writing => Request::Write { payload: "hello world".as_bytes_vec() },
            State::Terminated(error) => Request::Stop(error),
        }
    }

    /// Takes the outcome of the pending request, moves on, and returns the
    /// line to print, if any.
    pub fn step(&mut self, event: Event) -> (line: Option<String>)
        ensures
            final(self).state == step_spec(old(self).state, event@).0,
            line_view(line) == step_spec(old(self).state, event@).1,
    {
        match self.state {
            State::WaitingReadable => match event {
                Event::Ready(readiness) => {
                    self.state = if readiness.readable {
                        State::Reading { then_write: readiness.writable }
                    } else if readiness.writable {
                        State::Writing
                    } else {
                        State::WaitingReadable
                    };
                    None
                },
                Event::WouldBlock | Event::Failed => {
                    self.state = State::Terminated(TaskError::Io);
                    None
                },
                _ => None,
            },
            State::Reading { then_write } => match event {
                Event::Received(bytes) => {
                    let count = bytes.len();
                    if count == 0 {
                        self.state = State::WaitingReadable;
                        None
                    } else {
                        match decode_text(bytes) {
                            Some(text) => {
                                self.state = if then_write {
                                    State::Writing
                                } else {
                                    State::WaitingReadable
                                };
                                Some(render_read_report(count, text.as_str()))
                            },
                            None => {
                                self.state = State::Terminated(TaskError::InvalidText);
                                None
                            },
                        }
                    }
                },
                Event::WouldBlock => {
                    self.state = State::WaitingReadable;
                    None
                },
                Event::Failed => {
                    self.state = State::Terminated(TaskError::Io);
                    None
                },
                _ => None,
            },
            State::Writing => match event {
                Event::Sent(count) => {
                    self.state = State::WaitingReadable;
                    Some(render_write_report(count))
                },
                Event::WouldBlock => {
                    self.state = State::WaitingReadable;
                    None
                },
                Event::Failed => {
                    self.state = State::Terminated(TaskError::Io);
                    None
                },
                _ => None,
            },
            State::Terminated(_) => None,
        }
    }
}

} // verus!
