use echo_service::echo::{EchoAction, EchoSession, ECHO_CHUNK_SIZE};

/// Drive one session over the given read chunks (ending with the peer
/// closing its write side) and return the concatenation of everything the
/// session asked to write back.
fn run_session(chunks: &[&[u8]]) -> Vec<u8> {
    let mut session = EchoSession::new();
    let mut written: Vec<u8> = Vec::new();
    for chunk in chunks {
        match session.on_read(chunk.to_vec()) {
            EchoAction::Write(bytes) => {
                written.extend_from_slice(&bytes);
                session.on_write_ok();
            }
            EchoAction::Close => panic!("session closed before the peer did"),
        }
    }
    match session.on_read(Vec::new()) {
        EchoAction::Write(_) => panic!("session wrote on a zero-byte read"),
        EchoAction::Close => {}
    }
    written
}

#[test]
fn ping_is_echoed_exactly() {
    assert_eq!(run_session(&[b"ping"]), b"ping".to_vec());
}

#[test]
fn echo_is_a_byte_identity_round_trip() {
    let sent: Vec<u8> = (0u16..2048).map(|i| (i % 256) as u8).collect();
    for chunk_len in [1usize, 2, 3, 7, 100, 1023, 1024] {
        let chunks: Vec<&[u8]> = sent.chunks(chunk_len).collect();
        assert_eq!(run_session(&chunks), sent);
    }
}

#[test]
fn largest_chunk_is_echoed() {
    let chunk = vec![0xabu8; ECHO_CHUNK_SIZE];
    assert_eq!(run_session(&[&chunk]), chunk);
}

#[test]
fn zero_byte_read_closes_without_writing() {
    let mut session = EchoSession::new();
    match session.on_read(Vec::new()) {
        EchoAction::Write(_) => panic!("wrote on a connection that sent nothing"),
        EchoAction::Close => {}
    }
}

#[test]
fn concurrent_sessions_stay_isolated() {
    let mut a = EchoSession::new();
    let mut b = EchoSession::new();
    let mut got_a: Vec<u8> = Vec::new();
    let mut got_b: Vec<u8> = Vec::new();

    // Interleave the two connections chunk by chunk.
    let plan: [(bool, &[u8]); 6] = [
        (true, b"alpha-"),
        (false, b"beta-"),
        (true, b"one"),
        (false, b"two"),
        (false, b"-more"),
        (true, b"-end"),
    ];
    for (to_a, chunk) in plan {
        let (session, sink) = if to_a {
            (&mut a, &mut got_a)
        } else {
            (&mut b, &mut got_b)
        };
        match session.on_read(chunk.to_vec()) {
            EchoAction::Write(bytes) => {
                sink.extend_from_slice(&bytes);
                session.on_write_ok();
            }
            EchoAction::Close => panic!("session closed early"),
        }
    }
    assert_eq!(got_a, b"alpha-one-end".to_vec());
    assert_eq!(got_b, b"beta-two-more".to_vec());
}

#[test]
fn read_error_ends_only_that_session() {
    let mut failing = EchoSession::new();
    let mut healthy = EchoSession::new();
    failing.on_read_error();

    // The other connection goes on echoing as before.
    match healthy.on_read(b"still here".to_vec()) {
        EchoAction::Write(bytes) => assert_eq!(bytes, b"still here".to_vec()),
        EchoAction::Close => panic!("unaffected session closed"),
    }
}

#[test]
fn write_error_ends_the_session() {
    let mut session = EchoSession::new();
    match session.on_read(b"data".to_vec()) {
        EchoAction::Write(_) => session.on_write_error(),
        EchoAction::Close => panic!("session closed early"),
    }
    // The session took no further action; a new connection starts fresh.
    let mut next = EchoSession::new();
    match next.on_read(b"x".to_vec()) {
        EchoAction::Write(bytes) => assert_eq!(bytes, b"x".to_vec()),
        EchoAction::Close => panic!("fresh session closed early"),
    }
}
