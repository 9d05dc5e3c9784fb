use readiness::connection::{
    Connection, Event, Interest, Readiness, Request, State, TaskError, READ_CAPACITY,
};

const READABLE: Readiness = Readiness { readable: true, writable: false };
const WRITABLE: Readiness = Readiness { readable: false, writable: true };
const BOTH: Readiness = Readiness { readable: true, writable: true };
const NEITHER: Readiness = Readiness { readable: false, writable: false };

fn reading(then_write: bool) -> Connection {
    Connection { state: State::Reading { then_write } }
}

fn writing() -> Connection {
    Connection { state: State::Writing }
}

#[test]
fn new_task_waits_for_read_readiness() {
    let task = Connection::new();
    assert_eq!(task.state, State::WaitingReadable);
    assert_eq!(task.request(), Request::AwaitReadiness(Interest::Readable));
}

#[test]
fn read_buffer_holds_1024_bytes() {
    assert_eq!(READ_CAPACITY, 1024);
    assert_eq!(reading(false).request(), Request::Read { capacity: 1024 });
    assert_eq!(reading(true).request(), Request::Read { capacity: 1024 });
}

#[test]
fn write_sends_hello_world() {
    assert_eq!(writing().request(), Request::Write { payload: b"hello world".to_vec() });
}

#[test]
fn ended_task_asks_for_nothing_more() {
    let io = Connection { state: State::Terminated(TaskError::Io) };
    assert_eq!(io.request(), Request::Stop(TaskError::Io));
    let text = Connection { state: State::Terminated(TaskError::InvalidText) };
    assert_eq!(text.request(), Request::Stop(TaskError::InvalidText));
}

#[test]
fn readable_leads_to_a_read() {
    let mut task = Connection::new();
    assert_eq!(task.step(Event::Ready(READABLE)), None);
    assert_eq!(task.state, State::Reading { then_write: false });
}

#[test]
fn readable_and_writable_leads_to_a_read_and_remembers_the_write() {
    let mut task = Connection::new();
    assert_eq!(task.step(Event::Ready(BOTH)), None);
    assert_eq!(task.state, State::Reading { then_write: true });
}

#[test]
fn writable_alone_leads_to_the_write() {
    let mut task = Connection::new();
    assert_eq!(task.step(Event::Ready(WRITABLE)), None);
    assert_eq!(task.state, State::Writing);
}

#[test]
fn readiness_for_nothing_leads_back_to_waiting() {
    let mut task = Connection::new();
    assert_eq!(task.step(Event::Ready(NEITHER)), None);
    assert_eq!(task.state, State::WaitingReadable);
}

#[test]
fn hi_is_reported_as_two_bytes() {
    let mut task = Connection::new();
    assert_eq!(task.step(Event::Ready(READABLE)), None);
    let line = task.step(Event::Received(b"hi".to_vec()));
    assert_eq!(line, Some(String::from("read 2 bytes: hi")));
    assert_eq!(task.state, State::WaitingReadable);
    assert_eq!(task.request(), Request::AwaitReadiness(Interest::Readable));
}

#[test]
fn received_text_is_printed_exactly() {
    let texts = ["a", "hello world", "line one\nline two", "tab\there", "h\u{e9}llo \u{2713} \u{1f600}", "\0"];
    for text in texts {
        let mut task = reading(false);
        let line = task.step(Event::Received(text.as_bytes().to_vec()));
        assert_eq!(line, Some(format!("read {} bytes: {}", text.len(), text)));
        assert_eq!(task.state, State::WaitingReadable);
    }
}

#[test]
fn a_full_buffer_of_text_is_printed() {
    let bytes = vec![b'a'; 1024];
    let mut task = reading(false);
    let line = task.step(Event::Received(bytes)).unwrap();
    assert_eq!(line.len(), "read 1024 bytes: ".len() + 1024);
    assert!(line.starts_with("read 1024 bytes: aaaa"));
    assert!(line["read 1024 bytes: ".len()..].bytes().all(|b| b == b'a'));
    assert_eq!(task.state, State::WaitingReadable);
}

#[test]
fn several_reads_are_reported_one_by_one() {
    let mut task = Connection::new();
    let mut printed = Vec::new();
    for chunk in ["one", "two", "three"] {
        assert_eq!(task.step(Event::Ready(READABLE)), None);
        if let Some(line) = task.step(Event::Received(chunk.as_bytes().to_vec())) {
            printed.push(line);
        }
    }
    assert_eq!(printed, vec!["read 3 bytes: one", "read 3 bytes: two", "read 5 bytes: three"]);
    assert_eq!(task.state, State::WaitingReadable);
}

#[test]
fn text_then_write_when_both_were_reported() {
    let mut task = reading(true);
    let line = task.step(Event::Received(b"hi".to_vec()));
    assert_eq!(line, Some(String::from("read 2 bytes: hi")));
    assert_eq!(task.state, State::Writing);
    let line = task.step(Event::Sent(11));
    assert_eq!(line, Some(String::from("write 11 bytes")));
    assert_eq!(task.state, State::WaitingReadable);
}

#[test]
fn partial_write_is_reported_with_its_count() {
    let mut task = writing();
    assert_eq!(task.step(Event::Sent(4)), Some(String::from("write 4 bytes")));
    assert_eq!(task.state, State::WaitingReadable);
}

#[test]
fn empty_read_goes_back_to_waiting_in_silence() {
    let mut task = reading(false);
    assert_eq!(task.step(Event::Received(Vec::new())), None);
    assert_eq!(task.state, State::WaitingReadable);
}

#[test]
fn empty_read_skips_the_write() {
    let mut task = reading(true);
    assert_eq!(task.step(Event::Received(Vec::new())), None);
    assert_eq!(task.state, State::WaitingReadable);
}

#[test]
fn zero_bytes_then_close_loops_without_end() {
    let mut task = Connection::new();
    for _ in 0..1000 {
        assert_eq!(task.request(), Request::AwaitReadiness(Interest::Readable));
        assert_eq!(task.step(Event::Ready(READABLE)), None);
        assert_eq!(task.request(), Request::Read { capacity: 1024 });
        assert_eq!(task.step(Event::Received(Vec::new())), None);
    }
    assert_eq!(task.state, State::WaitingReadable);
}

#[test]
fn read_that_would_block_goes_back_to_waiting() {
    for then_write in [false, true] {
        let mut task = reading(then_write);
        assert_eq!(task.step(Event::WouldBlock), None);
        assert_eq!(task.state, State::WaitingReadable);
    }
}

#[test]
fn write_that_would_block_goes_back_to_waiting() {
    let mut task = writing();
    assert_eq!(task.step(Event::WouldBlock), None);
    assert_eq!(task.state, State::WaitingReadable);
}

#[test]
fn invalid_text_ends_the_task() {
    let mut task = Connection::new();
    assert_eq!(task.step(Event::Ready(READABLE)), None);
    assert_eq!(task.step(Event::Received(vec![0x68, 0x69, 0xff])), None);
    assert_eq!(task.state, State::Terminated(TaskError::InvalidText));
    assert_eq!(task.request(), Request::Stop(TaskError::InvalidText));
}

#[test]
fn invalid_text_ends_the_task_before_the_write() {
    let mut task = reading(true);
    assert_eq!(task.step(Event::Received(vec![0xc3])), None);
    assert_eq!(task.state, State::Terminated(TaskError::InvalidText));
}

#[test]
fn failed_operation_ends_the_task() {
    for state in [State::WaitingReadable, State::Reading { then_write: false }, State::Reading { then_write: true }, State::Writing] {
        let mut task = Connection { state };
        assert_eq!(task.step(Event::Failed), None);
        assert_eq!(task.state, State::Terminated(TaskError::Io));
        assert_eq!(task.request(), Request::Stop(TaskError::Io));
    }
}

#[test]
fn failed_wait_ends_the_task_even_if_it_would_block() {
    let mut task = Connection::new();
    assert_eq!(task.step(Event::WouldBlock), None);
    assert_eq!(task.state, State::Terminated(TaskError::Io));
}

#[test]
fn ended_task_stays_ended() {
    for error in [TaskError::Io, TaskError::InvalidText] {
        let mut task = Connection { state: State::Terminated(error) };
        let events = vec![
            Event::Ready(BOTH),
            Event::Received(b"hi".to_vec()),
            Event::Received(Vec::new()),
            Event::Sent(11),
            Event::WouldBlock,
            Event::Failed,
        ];
        for event in events {
            assert_eq!(task.step(event), None);
            assert_eq!(task.state, State::Terminated(error));
        }
    }
}

#[test]
fn event_that_answers_nothing_is_dropped() {
    let mut task = Connection::new();
    assert_eq!(task.step(Event::Received(b"hi".to_vec())), None);
    assert_eq!(task.state, State::WaitingReadable);
    assert_eq!(task.step(Event::Sent(11)), None);
    assert_eq!(task.state, State::WaitingReadable);

    let mut task = reading(true);
    assert_eq!(task.step(Event::Ready(WRITABLE)), None);
    assert_eq!(task.state, State::Reading { then_write: true });
    assert_eq!(task.step(Event::Sent(11)), None);
    assert_eq!(task.state, State::Reading { then_write: true });

    let mut task = writing();
    assert_eq!(task.step(Event::Ready(READABLE)), None);
    assert_eq!(task.state, State::Writing);
    assert_eq!(task.step(Event::Received(b"hi".to_vec())), None);
    assert_eq!(task.state, State::Writing);
}

#[test]
fn registered_readiness_never_reaches_the_write() {
    let mut task = Connection::new();
    let mut printed = Vec::new();
    let chunks: [&[u8]; 4] = [b"ping", b"", b"pong", b""];
    for chunk in chunks {
        assert_eq!(task.step(Event::Ready(READABLE)), None);
        assert!(task.state != State::Writing);
        if let Some(line) = task.step(Event::Received(chunk.to_vec())) {
            printed.push(line);
        }
        assert!(task.state != State::Writing);
    }
    assert_eq!(printed, vec!["read 4 bytes: ping", "read 4 bytes: pong"]);
}

#[test]
fn silent_peer_prints_nothing() {
    let mut task = Connection::new();
    let events = vec![
        Event::Ready(READABLE),
        Event::WouldBlock,
        Event::Ready(NEITHER),
        Event::Ready(READABLE),
        Event::Received(Vec::new()),
        Event::Ready(READABLE),
        Event::Received(Vec::new()),
        Event::Ready(READABLE),
        Event::Failed,
    ];
    for event in events {
        assert_eq!(task.step(event), None);
    }
    assert_eq!(task.state, State::Terminated(TaskError::Io));
}
