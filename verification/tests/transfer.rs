use bytes::Bytes;
use tokio::sync::mpsc::{channel, Receiver, Sender};
use vmod_cloudbucket::message::RespMsg;
use vmod_cloudbucket::transfer::{Arrival, BackendResp, Turn};

fn chunk(bytes: &'static [u8]) -> RespMsg {
    RespMsg::Chunk(Bytes::from_static(bytes))
}

fn open() -> (Sender<RespMsg>, BackendResp) {
    let (tx, rx): (Sender<RespMsg>, Receiver<RespMsg>) = channel(8);
    (tx, BackendResp::new(rx, None))
}

/// Takes turns, with the real channel, until one of them ends the call.
fn read(resp: &mut BackendResp, buf: &mut [u8]) -> Result<usize, String> {
    let mut n = 0;
    loop {
        let arrival = if resp.wants_message() {
            match resp.chan.as_mut().unwrap().blocking_recv() {
                Some(msg) => Arrival::Message(msg),
                None => Arrival::Closed,
            }
        } else {
            Arrival::Unasked
        };
        match resp.read(arrival, buf, n) {
            Turn::Again(m) => n = m,
            Turn::Done(m) => return Ok(m),
            Turn::Failed(e) => return Err(e),
        }
    }
}

#[test]
fn fresh_response_has_no_body_yet() {
    let (_tx, rx) = channel(1);
    let resp = BackendResp::new(rx, Some(7));
    assert!(resp.bytes.is_none());
    assert!(resp.chan.is_some());
    assert_eq!(resp.cursor, 0);
    assert_eq!(resp.len(), Some(7));
    assert!(resp.wants_message());
}

#[test]
fn length_may_be_unknown() {
    let (_tx, resp) = open();
    assert_eq!(resp.len(), None);
}

#[test]
fn pieces_are_read_in_order_and_whole() {
    let (tx, mut resp) = open();
    for piece in [&b"abc"[..], b"", b"de"] {
        tx.blocking_send(chunk(piece)).unwrap();
    }
    drop(tx);
    let mut buf = [b'-'; 8];
    assert_eq!(read(&mut resp, &mut buf), Ok(5));
    assert_eq!(&buf, b"abcde---");
}

#[test]
fn body_that_fits_exactly_is_read_whole() {
    let (tx, mut resp) = open();
    tx.blocking_send(chunk(b"abcd")).unwrap();
    drop(tx);
    let mut buf = [0u8; 4];
    assert_eq!(read(&mut resp, &mut buf), Ok(4));
    assert_eq!(&buf, b"abcd");
}

#[test]
fn reading_on_after_the_end_gives_nothing() {
    let (tx, mut resp) = open();
    tx.blocking_send(chunk(b"x")).unwrap();
    drop(tx);
    let mut buf = [0u8; 4];
    assert_eq!(read(&mut resp, &mut buf), Ok(1));
    assert_eq!(read(&mut resp, &mut buf), Ok(0));
}

#[test]
fn failure_ends_the_read_with_its_message() {
    let (tx, mut resp) = open();
    tx.blocking_send(chunk(b"abc")).unwrap();
    tx.blocking_send(RespMsg::Failed("connection reset".to_string())).unwrap();
    let mut buf = [0u8; 4];
    assert_eq!(read(&mut resp, &mut buf), Err("connection reset".to_string()));
}

#[test]
fn full_buffer_keeps_the_unfinished_piece() {
    let (_tx, mut resp) = open();
    let mut buf = [b'-'; 4];
    let first = resp.read(Arrival::Message(chunk(b"abcdef")), &mut buf, 1);
    assert!(matches!(first, Turn::Again(4)));
    assert_eq!(&buf, b"-abc");
    assert_eq!(resp.cursor, 3);
    assert!(!resp.wants_message());
    let second = resp.read(Arrival::Unasked, &mut buf, 4);
    assert!(matches!(second, Turn::Again(4)));
    assert_eq!(&buf, b"-abc");
    assert_eq!(resp.cursor, 3);
    let third = resp.read(Arrival::Unasked, &mut buf, 0);
    assert!(matches!(third, Turn::Again(3)));
    assert_eq!(&buf, b"defc");
    assert!(resp.bytes.is_none());
    assert!(resp.wants_message());
}

#[test]
fn response_without_a_channel_hands_out_its_piece() {
    let mut resp = BackendResp {
        chan: None,
        bytes: Some(Bytes::from_static(b"xyz")),
        cursor: 1,
        content_length: None,
    };
    assert!(!resp.wants_message());
    let mut buf = [0u8; 2];
    assert!(matches!(resp.read(Arrival::Unasked, &mut buf, 0), Turn::Again(2)));
    assert_eq!(&buf, b"yz");
    assert!(resp.bytes.is_none());
}
