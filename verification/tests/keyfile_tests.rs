use tmtool::protocol::Op;
use tmtool::{write_key, Action, Event, TrustMLibError, TM_SLOT1, TM_SLOT2};

/// The DER header of a P-256 SubjectPublicKeyInfo, up to the point's tag.
const SPKI_HEADER: [u8; 26] = [
    0x30, 0x59, 0x30, 0x13, 0x06, 0x07, 0x2a, 0x86, 0x48, 0xce, 0x3d, 0x02, 0x01, 0x06, 0x08,
    0x2a, 0x86, 0x48, 0xce, 0x3d, 0x03, 0x01, 0x07, 0x03, 0x42, 0x00,
];

fn point() -> Vec<u8> {
    (0..64).map(|i| (i * 3 + 1) as u8).collect()
}

fn pem_file(contents: Vec<u8>) -> Vec<u8> {
    pem::encode(&pem::Pem::new("PUBLIC KEY", contents)).into_bytes()
}

fn spki_pem() -> Vec<u8> {
    let mut der = SPKI_HEADER.to_vec();
    der.push(0x04);
    der.extend_from_slice(&point());
    pem_file(der)
}

/// Runs a session that every step of succeeds and returns the frames written.
fn written_frames(mut session: tmtool::Session) -> Vec<Vec<u8>> {
    let mut frames = Vec::new();
    let mut event = Event::Start;
    loop {
        match session.step(event) {
            Action::Open => event = Event::Success(Vec::new()),
            Action::Transfer(Op::WriteBytes(frame)) => {
                frames.push(frame);
                event = Event::Success(Vec::new());
            }
            Action::Transfer(Op::ReadBytes(n)) => event = Event::Success(vec![0; n]),
            Action::Transfer(Op::WriteByte(_)) => event = Event::Success(Vec::new()),
            Action::Sleep(_) => event = Event::Elapsed,
            Action::Finish(result) => {
                assert!(result.unwrap().is_empty());
                return frames;
            }
        }
    }
}

#[test]
fn write_key_sends_the_point_of_the_pem_key() {
    let session = write_key(TM_SLOT1, &spki_pem()).unwrap();
    let frames = written_frames(session);
    let mut expected = vec![
        0x80u8, 0x04, 0x00, 0x4a, 0x08, 0x20, 0x82, 0x00, 0x00, 0x44, 0xe0, 0xe8, 0x00, 0x00,
    ];
    expected.extend_from_slice(&point());
    expected.extend_from_slice(&[0x2f, 0x10]);
    assert!(frames.contains(&expected));
    assert_eq!(frames[0], vec![0x88, 0xff, 0xff]);
    assert_eq!(frames[1], vec![0x88, 0x00, 0x00]);
    assert_eq!(frames.last().unwrap(), &vec![0x80u8, 0x81, 0x00, 0x00, 0x56, 0x30]);
}

#[test]
fn write_key_to_the_second_slot() {
    let frames = written_frames(write_key(TM_SLOT2, &spki_pem()).unwrap());
    let mut expected = vec![
        0x80u8, 0x04, 0x00, 0x4a, 0x08, 0x20, 0x82, 0x40, 0x00, 0x44, 0xe0, 0xe9, 0x00, 0x00,
    ];
    expected.extend_from_slice(&point());
    expected.extend_from_slice(&[0x5b, 0xb9]);
    assert!(frames.contains(&expected));
}

#[test]
fn write_key_takes_contents_from_byte_27_whatever_their_length() {
    let contents: Vec<u8> = (0..80u8).collect();
    let frames = written_frames(write_key(0x1111, &pem_file(contents)).unwrap());
    let mut expected = vec![
        0x80u8, 0x04, 0x00, 0x4a, 0x08, 0x20, 0x82, 0x40, 0x00, 0x44, 0xff, 0xff, 0x00, 0x00,
    ];
    expected.extend(27u8..80);
    expected.extend_from_slice(&[0x00, 0x00]);
    assert!(frames.contains(&expected));
}

#[test]
fn write_key_refuses_what_is_not_pem() {
    match write_key(TM_SLOT1, b"this is not a key") {
        Err(TrustMLibError::KeyError(message)) => {
            assert!(message.starts_with("failed to parse PEM: "), "{}", message);
            assert!(message.len() > "failed to parse PEM: ".len());
        }
        other => panic!("unexpected result {:?}", other.err()),
    }
}

#[test]
fn write_key_refuses_short_contents() {
    match write_key(TM_SLOT1, &pem_file(vec![7u8; 10])) {
        Err(TrustMLibError::KeyError(message)) => assert_eq!(
            message,
            "key file is too short, expected at least 74 bytes, got 10"
        ),
        other => panic!("unexpected result {:?}", other.err()),
    }
    match write_key(TM_SLOT1, &pem_file(vec![7u8; 73])) {
        Err(TrustMLibError::KeyError(message)) => assert_eq!(
            message,
            "key file is too short, expected at least 74 bytes, got 73"
        ),
        other => panic!("unexpected result {:?}", other.err()),
    }
    assert!(write_key(TM_SLOT1, &pem_file(vec![7u8; 74])).is_ok());
}
