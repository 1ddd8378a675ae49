use uring_runtime::runtime::Errno;
use uring_runtime::server::Next;
use uring_runtime::server::WorkerDriver;
use uring_runtime::server::FRAME;
use uring_runtime::server::READ_BUFFER;

fn reply(next: Next) -> Option<Vec<u8>> {
    match next {
        Next::Respond(bytes) => Some(bytes),
        Next::Close => None,
    }
}

#[test]
fn protocol_constants() {
    assert_eq!(FRAME, 6);
    assert_eq!(READ_BUFFER, 1024);
}

#[test]
fn two_pings_get_two_pongs() {
    let mut w = WorkerDriver::new();
    let next = w.on_read(Ok(b"PING\r\nPING\r\n".to_vec()));
    assert_eq!(reply(next), Some(b"PONG\r\nPONG\r\n".to_vec()));
    assert_eq!(w.room(), 1024);
}

#[test]
fn one_ping_gets_one_pong() {
    let mut w = WorkerDriver::new();
    assert_eq!(reply(w.on_read(Ok(b"PING\r\n".to_vec()))), Some(b"PONG\r\n".to_vec()));
}

#[test]
fn malformed_line_closes_the_connection() {
    let mut w = WorkerDriver::new();
    assert_eq!(reply(w.on_read(Ok(b"NOPE\r\n".to_vec()))), None);
}

#[test]
fn malformed_line_silences_earlier_requests_of_the_same_read() {
    let mut w = WorkerDriver::new();
    assert_eq!(reply(w.on_read(Ok(b"PING\r\nNOPE\r\nPING\r\n".to_vec()))), None);
}

#[test]
fn request_must_match_in_every_byte() {
    for bad in [
        &b"pING\r\n"[..],
        &b"PiNG\r\n"[..],
        &b"PIMG\r\n"[..],
        &b"PINg\r\n"[..],
        &b"PING\n\n"[..],
        &b"PING\r\r"[..],
        &b"PONG\r\n"[..],
    ] {
        let mut w = WorkerDriver::new();
        assert_eq!(reply(w.on_read(Ok(bad.to_vec()))), None);
    }
}

#[test]
fn end_of_stream_closes_the_connection() {
    let mut w = WorkerDriver::new();
    assert_eq!(reply(w.on_read(Ok(Vec::new()))), None);
    let mut w = WorkerDriver::new();
    assert_eq!(reply(w.on_read(Ok(b"PIN".to_vec()))), Some(Vec::new()));
    assert_eq!(reply(w.on_read(Ok(Vec::new()))), None);
}

#[test]
fn failed_read_closes_the_connection() {
    let mut w = WorkerDriver::new();
    assert_eq!(reply(w.on_read(Err(Errno(104)))), None);
}

#[test]
fn incomplete_line_is_kept_for_the_next_read() {
    let mut w = WorkerDriver::new();
    assert_eq!(w.held(), 0);
    assert_eq!(reply(w.on_read(Ok(b"PIN".to_vec()))), Some(Vec::new()));
    assert_eq!(w.held(), 3);
    assert_eq!(w.room(), 1021);
    assert_eq!(reply(w.on_read(Ok(b"G\r\nPI".to_vec()))), Some(b"PONG\r\n".to_vec()));
    assert_eq!(w.room(), 1022);
    assert_eq!(reply(w.on_read(Ok(b"NG\r\n".to_vec()))), Some(b"PONG\r\n".to_vec()));
    assert_eq!(w.room(), 1024);
}

#[test]
fn incomplete_line_is_not_judged_early() {
    let mut w = WorkerDriver::new();
    assert_eq!(reply(w.on_read(Ok(b"NOPE\r".to_vec()))), Some(Vec::new()));
    assert_eq!(reply(w.on_read(Ok(b"\n".to_vec()))), None);
}

#[test]
fn full_read_buffer_of_requests() {
    let mut w = WorkerDriver::new();
    let mut data = Vec::new();
    while data.len() + 6 <= 1024 {
        data.extend_from_slice(b"PING\r\n");
    }
    data.extend_from_slice(b"PING");
    assert_eq!(data.len(), 1024);
    let answer = reply(w.on_read(Ok(data))).unwrap();
    assert_eq!(answer.len(), 170 * 6);
    assert!(answer.chunks(6).all(|line| line == b"PONG\r\n"));
    assert_eq!(w.room(), 1020);
    assert_eq!(reply(w.on_read(Ok(b"\r\n".to_vec()))), Some(b"PONG\r\n".to_vec()));
}
