//! The cipher codec and the framed-read state machine, end to end on
//! concrete byte sequences.

use tplinker::codec::{clarify, decrypt, encrypt, obfuscate};
use tplinker::error::TransportError;
use tplinker::frame::{FrameAccumulator, ReadEvent, ReadStep};

#[test]
fn encrypt_decrypt() {
    let json = "{\"system\":{\"get_sysinfo\":{}}}";

    let data = encrypt(json);
    let resp = decrypt(&data.unwrap().split_off(4));

    assert_eq!(json, resp);
}

#[test]
fn decode_of_encode_is_identity_on_bytes() {
    let messages: Vec<Vec<u8>> = vec![
        vec![],
        vec![0],
        vec![0xAB],
        vec![1, 2, 3, 4, 5],
        (0u16..=255).map(|b| b as u8).collect(),
    ];
    for m in messages {
        let c = obfuscate(&m);
        assert_eq!(clarify(&c), m);
    }
}

#[test]
fn encode_reseeds_per_message() {
    // Encoding m2 after m1 gives the same bytes as encoding m2 alone:
    // no key state leaks across messages.
    let m1 = "first message";
    let m2 = "second message";
    let _ = encrypt(m1).unwrap();
    let after = encrypt(m2).unwrap();
    let fresh = encrypt(m2).unwrap();
    assert_eq!(after, fresh);
}

#[test]
fn frame_has_big_endian_length_prefix() {
    let framed = encrypt("hello").unwrap();
    assert_eq!(&framed[0..4], &[0, 0, 0, 5]);
    assert_eq!(framed.len(), 9);
}

#[test]
fn reassembly_across_arbitrary_chunks() {
    let text = "{\"system\":{\"get_sysinfo\":null}}";
    let framed = encrypt(text).unwrap();

    // split the frame into chunks of every size from 1 to its length
    for size in 1..=framed.len() {
        let mut acc = FrameAccumulator::new();
        let mut done: Option<Vec<u8>> = None;
        for chunk in framed.chunks(size) {
            assert!(done.is_none(), "payload must not appear before the full frame");
            match acc.step(ReadEvent::Data(chunk.to_vec())) {
                ReadStep::Pending(next) => acc = next,
                ReadStep::Done(payload) => {
                    done = Some(payload);
                    acc = FrameAccumulator::new();
                }
                ReadStep::Failed(e) => panic!("unexpected failure: {:?}", e),
            }
        }
        let payload = done.expect("the full frame completes the read");
        assert_eq!(payload, text.as_bytes());
    }
}

#[test]
fn close_before_declared_length_is_incomplete() {
    let framed = encrypt("a longer message than the bytes delivered").unwrap();
    let mut acc = FrameAccumulator::new();
    match acc.step(ReadEvent::Data(framed[0..10].to_vec())) {
        ReadStep::Pending(next) => acc = next,
        other => panic!("ten bytes cannot complete this frame: {:?}", got_name(&other)),
    }
    match acc.step(ReadEvent::Closed) {
        ReadStep::Failed(TransportError::Incomplete) => {}
        other => panic!("expected Incomplete, got {}", got_name(&other)),
    }
}

#[test]
fn timeout_event_fails_with_timeout() {
    let acc = FrameAccumulator::new();
    match acc.step(ReadEvent::TimedOut) {
        ReadStep::Failed(TransportError::Timeout) => {}
        other => panic!("expected Timeout, got {}", got_name(&other)),
    }
}

#[test]
fn close_on_complete_frame_still_succeeds() {
    let framed = encrypt("ok").unwrap();
    let acc = FrameAccumulator::new();
    let acc = match acc.step(ReadEvent::Data(framed)) {
        ReadStep::Done(payload) => {
            assert_eq!(payload, b"ok");
            return;
        }
        ReadStep::Pending(a) => a,
        ReadStep::Failed(e) => panic!("unexpected failure: {:?}", e),
    };
    let _ = acc;
    panic!("a whole frame in one chunk must complete");
}

fn got_name(step: &ReadStep) -> &'static str {
    match step {
        ReadStep::Pending(_) => "Pending",
        ReadStep::Done(_) => "Done",
        ReadStep::Failed(TransportError::ConnectFailed) => "Failed(ConnectFailed)",
        ReadStep::Failed(TransportError::Timeout) => "Failed(Timeout)",
        ReadStep::Failed(TransportError::Incomplete) => "Failed(Incomplete)",
        ReadStep::Failed(TransportError::IOFailure) => "Failed(IOFailure)",
    }
}
