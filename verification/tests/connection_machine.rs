//! The per-connection stage machine: buffer accounting, stage ordering,
//! partial writes with seek compensation, and emitted byte counts.

use static_http_server::connection::{
    Connection, ConnectionStage, RecvEvent, SendFileEvent, WriteEvent, REQUEST_BUFFER_SIZE,
};

fn stage_rank(s: ConnectionStage) -> u32 {
    match s {
        ConnectionStage::Recv => 0,
        ConnectionStage::Parse => 1,
        ConnectionStage::SendHeaders => 2,
        ConnectionStage::SendFile => 3,
        ConnectionStage::Close => 4,
    }
}

fn check_invariants(c: &Connection) {
    assert!(c.request_len <= REQUEST_BUFFER_SIZE);
    assert!(c.headers_sent <= c.headers.len());
    assert!(c.file_sent <= c.file_size);
}

#[test]
fn recv_accumulates_until_marker() {
    let mut c = Connection::new(3);
    assert_eq!(c.stage, ConnectionStage::Recv);
    assert_eq!(c.request_len, 0);
    let first = c.on_recv_event(RecvEvent::Data(b"GET / HTT".to_vec()));
    assert!(first.is_none());
    assert_eq!(c.request_len, 9);
    assert_eq!(c.stage, ConnectionStage::Recv);
    check_invariants(&c);
    let second = c.on_recv_event(RecvEvent::Data(b"P/1.1\r\n\r\n".to_vec()));
    let request = second.expect("marker arrived, the request must complete");
    assert_eq!(request, b"GET / HTTP/1.1\r\n\r\n".to_vec());
    assert_eq!(c.request_len, 0);
    assert_eq!(c.stage, ConnectionStage::Parse);
    check_invariants(&c);
}

#[test]
fn recv_detects_bare_lflf_marker() {
    let mut c = Connection::new(3);
    let done = c.on_recv_event(RecvEvent::Data(b"GET / HTTP/1.1\n\n".to_vec()));
    assert_eq!(done.unwrap(), b"GET / HTTP/1.1\n\n".to_vec());
    assert_eq!(c.stage, ConnectionStage::Parse);
}

#[test]
fn full_buffer_with_marker_in_last_four_bytes_parses() {
    // a request of exactly the buffer size whose final four bytes are CRLFCRLF
    let mut c = Connection::new(9);
    let mut req = vec![b'a'; REQUEST_BUFFER_SIZE - 4];
    req[0] = b'G';
    req.extend_from_slice(b"\r\n\r\n");
    assert_eq!(req.len(), REQUEST_BUFFER_SIZE);
    let half = REQUEST_BUFFER_SIZE / 2;
    assert!(c.on_recv_event(RecvEvent::Data(req[..half].to_vec())).is_none());
    let done = c.on_recv_event(RecvEvent::Data(req[half..].to_vec()));
    assert_eq!(done.expect("the marker sits in the last four bytes"), req);
    assert_eq!(c.stage, ConnectionStage::Parse);
    check_invariants(&c);
}

#[test]
fn peer_close_and_failure_close_the_connection() {
    let mut c = Connection::new(4);
    assert!(c.on_recv_event(RecvEvent::Closed).is_none());
    assert_eq!(c.stage, ConnectionStage::Close);
    let mut c2 = Connection::new(5);
    assert!(c2.on_recv_event(RecvEvent::Failed).is_none());
    assert_eq!(c2.stage, ConnectionStage::Close);
    let mut c3 = Connection::new(6);
    assert!(c3.on_recv_event(RecvEvent::WouldBlock).is_none());
    assert_eq!(c3.stage, ConnectionStage::Recv);
}

#[test]
fn header_writes_accumulate_and_close_for_head() {
    let mut c = Connection::new(7);
    c.on_recv_event(RecvEvent::Data(b"HEAD / HTTP/1.1\r\n\r\n".to_vec()));
    c.attach_file(0, true);
    c.install_headers(b"HTTP/1.1 200 OK\r\n\r\n".to_vec());
    assert_eq!(c.stage, ConnectionStage::SendHeaders);
    let total = c.headers.len();
    c.on_send_headers_event(WriteEvent::Wrote(5));
    assert_eq!(c.headers_sent, 5);
    assert_eq!(c.stage, ConnectionStage::SendHeaders);
    c.on_send_headers_event(WriteEvent::WouldBlock);
    assert_eq!(c.headers_sent, 5);
    c.on_send_headers_event(WriteEvent::Wrote(total - 5));
    assert_eq!(c.headers_sent, total);
    // HEAD: nothing more to send, so the connection closes having emitted
    // exactly the header bytes
    assert_eq!(c.stage, ConnectionStage::Close);
    assert_eq!(c.headers_sent as u64 + c.file_sent, total as u64);
    check_invariants(&c);
}

#[test]
fn stage_order_never_regresses_through_a_full_get() {
    let mut c = Connection::new(8);
    let mut last = stage_rank(c.stage);
    let mut observe = |c: &Connection, last: &mut u32| {
        let now = stage_rank(c.stage);
        assert!(now >= *last, "stage went backwards");
        *last = now;
    };
    c.on_recv_event(RecvEvent::Data(b"GET /f.bin HTTP/1.1\r\n\r\n".to_vec()));
    observe(&c, &mut last);
    c.attach_file(10, false);
    observe(&c, &mut last);
    c.install_headers(b"HTTP/1.1 200 OK\r\n\r\n".to_vec());
    observe(&c, &mut last);
    let total = c.headers.len();
    c.on_send_headers_event(WriteEvent::Wrote(total));
    observe(&c, &mut last);
    assert_eq!(c.stage, ConnectionStage::SendFile);
    c.on_send_file_event(SendFileEvent::Wrote { read: 10, written: 10 });
    observe(&c, &mut last);
    assert_eq!(c.stage, ConnectionStage::Close);
}

#[test]
fn partial_file_write_seeks_back_by_the_unsent_tail() {
    let mut c = Connection::new(9);
    c.on_recv_event(RecvEvent::Data(b"GET /f HTTP/1.1\r\n\r\n".to_vec()));
    c.attach_file(100, false);
    c.install_headers(b"h".to_vec());
    c.on_send_headers_event(WriteEvent::Wrote(1));
    assert_eq!(c.stage, ConnectionStage::SendFile);
    // 40 read, 25 written: 15 must be re-read
    let seek = c.on_send_file_event(SendFileEvent::Wrote { read: 40, written: 25 });
    assert_eq!(seek, Some(15));
    assert_eq!(c.file_sent, 25);
    assert_eq!(c.stage, ConnectionStage::SendFile);
    // a blocked write re-reads the whole chunk
    let seek = c.on_send_file_event(SendFileEvent::WriteWouldBlock { read: 40 });
    assert_eq!(seek, Some(40));
    assert_eq!(c.file_sent, 25);
    check_invariants(&c);
}

#[test]
fn simulated_partial_writes_deliver_the_full_body() {
    // A simulated socket that accepts a shrinking number of bytes per write,
    // and a simulated file honouring the seek-back amounts: the delivered
    // stream must equal headers plus the entire body.
    let body: Vec<u8> = (0..=255u8).cycle().take(1000).collect();
    let headers = b"HTTP/1.1 200 OK\r\nContent-Type: application/octet-stream\r\nContent-Length: 1000\r\nConnection: close\r\n\r\n".to_vec();

    let mut c = Connection::new(11);
    c.on_recv_event(RecvEvent::Data(b"GET /b HTTP/1.1\r\n\r\n".to_vec()));
    c.attach_file(body.len() as u64, false);
    c.install_headers(headers.clone());

    let mut wire: Vec<u8> = Vec::new();
    // headers go out in stubborn little pieces
    let mut step = 1usize;
    while c.stage == ConnectionStage::SendHeaders {
        let pending = c.headers.len() - c.headers_sent;
        let n = step.min(pending).max(1);
        wire.extend_from_slice(&c.headers[c.headers_sent..c.headers_sent + n]);
        c.on_send_headers_event(WriteEvent::Wrote(n));
        step += 7;
        check_invariants(&c);
    }
    assert_eq!(c.stage, ConnectionStage::SendFile);

    // the file side: a cursor that the seek-back amounts rewind
    let mut offset = 0usize;
    let mut writable = [3usize, 64, 0, 17, 128, 5, 1000].iter().cycle();
    while c.stage == ConnectionStage::SendFile {
        let read = 64.min(body.len() - offset);
        if read == 0 {
            c.on_send_file_event(SendFileEvent::ReadEof);
            break;
        }
        offset += read;
        let cap = *writable.next().unwrap();
        let written = cap.min(read);
        let seek = if written == 0 {
            c.on_send_file_event(SendFileEvent::WriteWouldBlock { read })
        } else {
            wire.extend_from_slice(&body[offset - read..offset - read + written]);
            c.on_send_file_event(SendFileEvent::Wrote { read, written })
        };
        if let Some(back) = seek {
            offset -= back;
        }
        check_invariants(&c);
    }
    assert_eq!(c.stage, ConnectionStage::Close);
    assert_eq!(c.file_sent, body.len() as u64);

    let mut expected = headers.clone();
    expected.extend_from_slice(&body);
    assert_eq!(wire, expected);
    // the emitted byte count is exactly headers plus file size
    assert_eq!(
        c.headers_sent as u64 + c.file_sent,
        headers.len() as u64 + body.len() as u64
    );
}

#[test]
fn send_file_read_eof_and_write_closed_close() {
    let mut c = Connection::new(12);
    c.on_recv_event(RecvEvent::Data(b"GET /f HTTP/1.1\r\n\r\n".to_vec()));
    c.attach_file(50, false);
    c.install_headers(b"h".to_vec());
    c.on_send_headers_event(WriteEvent::Wrote(1));
    let seek = c.on_send_file_event(SendFileEvent::WriteClosed { read: 10 });
    assert_eq!(seek, None);
    assert_eq!(c.stage, ConnectionStage::Close);
}
