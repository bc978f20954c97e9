use tmtool::protocol::{
    build_lock_request_frame, build_read_key_script, build_read_request_frame, Op, Step,
    INIT_PAUSE_MICROS, READ_SETTLE_MICROS, RETRY_BACKOFF_MICROS, WRITE_SETTLE_MICROS,
};
use tmtool::session::Phase;
use tmtool::{lock_keyslot, read_key, Action, Event, Session, TrustMDeviceError, TrustMLibError};
use tmtool::{TM_SLOT1, TM_SLOT2};

/// What a simulated chip saw, and the result the session finished with.
struct Trace {
    opens: usize,
    transfers: Vec<String>,
    written_frames: Vec<Vec<u8>>,
    sleeps: Vec<u64>,
    result: Result<Vec<u8>, TrustMLibError>,
}

/// Runs a session against a chip that answers every read of `n` bytes with
/// `answer(n)` and fails the attempts numbered in `failing` (counted from 0
/// over all transfer attempts).
fn drive(mut session: Session, answer: &dyn Fn(usize) -> Vec<u8>, failing: &[usize]) -> Trace {
    let mut trace = Trace {
        opens: 0,
        transfers: Vec::new(),
        written_frames: Vec::new(),
        sleeps: Vec::new(),
        result: Ok(Vec::new()),
    };
    let mut event = Event::Start;
    let mut attempt = 0usize;
    for _ in 0..100_000 {
        match session.step(event) {
            Action::Open => {
                trace.opens += 1;
                event = Event::Success(Vec::new());
            }
            Action::Transfer(op) => {
                let fails = failing.contains(&attempt);
                attempt += 1;
                trace.transfers.push(format!("{:?}", op));
                event = if fails {
                    Event::Failure
                } else {
                    match op {
                        Op::ReadBytes(n) => Event::Success(answer(n)),
                        Op::WriteBytes(frame) => {
                            trace.written_frames.push(frame);
                            Event::Success(Vec::new())
                        }
                        Op::WriteByte(_) => Event::Success(Vec::new()),
                    }
                };
            }
            Action::Sleep(us) => {
                trace.sleeps.push(us);
                event = Event::Elapsed;
            }
            Action::Finish(result) => {
                trace.result = result;
                return trace;
            }
        }
    }
    panic!("the session did not finish");
}

fn counting_answer(n: usize) -> Vec<u8> {
    (0..n).map(|i| i as u8).collect()
}

#[test]
fn read_key_returns_bytes_9_to_73_of_the_last_answer() {
    let trace = drive(read_key(TM_SLOT1), &counting_answer, &[]);
    let key = trace.result.unwrap();
    let expected: Vec<u8> = (9u8..73).collect();
    assert_eq!(key.len(), 64);
    assert_eq!(key, expected);
    assert_eq!(trace.opens, 1);
    // The reset, then the 28 operations of the read conversation.
    assert_eq!(trace.transfers.len(), 29);
    assert_eq!(trace.transfers[0], "WriteBytes([136, 255, 255])");
    assert_eq!(trace.transfers[28], "ReadBytes(74)");
}

#[test]
fn read_key_sends_the_read_request_of_its_slot() {
    let trace = drive(read_key(TM_SLOT2), &counting_answer, &[]);
    assert!(trace.result.is_ok());
    let request = vec![
        0x80u8, 0x04, 0x00, 0x0c, 0x08, 0x20, 0x81, 0x00, 0x00, 0x06, 0xe0, 0xe9, 0x00, 0x00,
        0x06, 0x11, 0x80, 0x56,
    ];
    assert!(trace.written_frames.contains(&request));
}

#[test]
fn read_key_pauses_as_the_driver_does() {
    let trace = drive(read_key(TM_SLOT1), &counting_answer, &[]);
    // Open, pause, reset and its settling pause, pause.
    assert_eq!(trace.sleeps[0], INIT_PAUSE_MICROS);
    assert_eq!(trace.sleeps[1], WRITE_SETTLE_MICROS);
    assert_eq!(trace.sleeps[2], INIT_PAUSE_MICROS);
    assert_eq!(*trace.sleeps.last().unwrap(), READ_SETTLE_MICROS);
    assert_eq!(trace.sleeps.len(), 2 + 29);
}

#[test]
fn failed_attempts_are_retried_after_a_pause() {
    let trace = drive(read_key(TM_SLOT1), &counting_answer, &[3, 4]);
    assert!(trace.result.is_ok());
    assert_eq!(trace.transfers.len(), 31);
    assert_eq!(trace.transfers[3], trace.transfers[4]);
    assert_eq!(trace.transfers[4], trace.transfers[5]);
    assert!(trace.sleeps.contains(&RETRY_BACKOFF_MICROS));
}

#[test]
fn an_operation_failing_200_times_ends_with_a_read_error() {
    // The third transfer is the first read (4 bytes after selecting the clock register).
    let failing: Vec<usize> = (2..202).collect();
    let trace = drive(read_key(TM_SLOT1), &counting_answer, &failing);
    match trace.result {
        Err(TrustMLibError::DeviceError { source }) => {
            assert_eq!(source, TrustMDeviceError::ReadFailed)
        }
        other => panic!("unexpected result {:?}", other),
    }
    assert_eq!(trace.transfers.len(), 202);
}

#[test]
fn an_operation_failing_199_times_then_succeeding_goes_on() {
    let failing: Vec<usize> = (1..200).collect();
    let trace = drive(read_key(TM_SLOT1), &counting_answer, &failing);
    assert!(trace.result.is_ok());
}

#[test]
fn a_write_failing_200_times_ends_with_a_write_error() {
    let failing: Vec<usize> = (0..200).collect();
    let trace = drive(lock_keyslot(TM_SLOT1), &counting_answer, &failing);
    match trace.result {
        Err(TrustMLibError::DeviceError { source }) => {
            assert_eq!(source, TrustMDeviceError::WriteFailed)
        }
        other => panic!("unexpected result {:?}", other),
    }
}

#[test]
fn a_device_that_does_not_open_ends_with_an_init_error() {
    let mut session = read_key(TM_SLOT1);
    assert!(matches!(session.step(Event::Start), Action::Open));
    match session.step(Event::Failure) {
        Action::Finish(Err(TrustMLibError::DeviceError { source })) => {
            assert_eq!(source, TrustMDeviceError::InitFailed)
        }
        other => panic!("unexpected action {:?}", other),
    }
    assert_eq!(session.phase(), Phase::Finished);
    // A finished session keeps answering with its result.
    assert!(matches!(
        session.step(Event::Elapsed),
        Action::Finish(Err(TrustMLibError::DeviceError { .. }))
    ));
}

#[test]
fn an_event_that_does_not_answer_repeats_the_request() {
    let mut session = read_key(TM_SLOT1);
    assert!(matches!(session.step(Event::Start), Action::Open));
    assert!(matches!(session.step(Event::Elapsed), Action::Open));
    assert!(matches!(session.step(Event::Success(Vec::new())), Action::Sleep(INIT_PAUSE_MICROS)));
}

#[test]
fn a_read_of_the_wrong_length_is_asked_again() {
    let mut session = read_key(TM_SLOT1);
    session.step(Event::Start); // asks to open
    session.step(Event::Success(Vec::new())); // opened: asks for a pause
    session.step(Event::Elapsed); // asks for the reset
    session.step(Event::Success(Vec::new())); // reset written: asks to settle
    session.step(Event::Elapsed); // asks for a pause
    session.step(Event::Elapsed); // asks to select a register
    assert!(matches!(session.step(Event::Success(Vec::new())), Action::Sleep(_))); // register selected
    assert!(matches!(session.step(Event::Elapsed), Action::Transfer(Op::ReadBytes(4))));
    assert!(matches!(session.step(Event::Success(vec![1, 2])), Action::Transfer(Op::ReadBytes(4))));
    assert!(matches!(session.step(Event::Success(vec![1, 2, 3, 4])), Action::Sleep(READ_SETTLE_MICROS)));
}

#[test]
fn lock_keyslot_sends_the_lock_request_and_returns_nothing() {
    let trace = drive(lock_keyslot(TM_SLOT1), &counting_answer, &[]);
    assert_eq!(trace.result.unwrap(), Vec::<u8>::new());
    let request = vec![
        0x80u8, 0x04, 0x00, 0x0f, 0x08, 0x20, 0x82, 0x01, 0x00, 0x09, 0xe0, 0xe8, 0x00, 0x00,
        0x20, 0x03, 0xd0, 0x01, 0xff, 0xdc, 0x67,
    ];
    assert!(trace.written_frames.contains(&request));
    assert_eq!(trace.written_frames.last().unwrap(), &vec![0x80u8, 0x81, 0x00, 0x00, 0x56, 0x30]);
}

#[test]
fn request_frames_for_an_unknown_slot() {
    assert_eq!(
        build_read_request_frame(0x1234),
        vec![
            0x80u8, 0x04, 0x00, 0x0c, 0x08, 0x20, 0x81, 0x00, 0x00, 0x06, 0xff, 0xff, 0x00, 0x00,
            0x06, 0x11, 0x8b, 0x12,
        ]
    );
    assert_eq!(build_lock_request_frame(0x1234), build_lock_request_frame(TM_SLOT2));
}

#[test]
fn read_key_script_starts_by_opening_the_link() {
    let script = build_read_key_script(TM_SLOT1);
    assert!(matches!(script[0], Step::Open));
    assert!(matches!(script[1], Step::Pause(INIT_PAUSE_MICROS)));
    assert_eq!(script.len(), 32);
}
