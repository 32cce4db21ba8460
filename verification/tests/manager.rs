//! The connection manager: admission cap, readiness classification, reaping,
//! and event dispatch by descriptor.

use static_http_server::config::ServerConfig;
use static_http_server::connection::{ConnectionStage, RecvEvent, SendFileEvent, WriteEvent};
use static_http_server::connection_manager::{max_fd, ConnectionManager};

fn small_manager(cap: usize) -> ConnectionManager {
    let config = ServerConfig { max_connections: cap, ..ServerConfig::default() };
    ConnectionManager::with_config(&config)
}

#[test]
fn admission_cap_is_hard() {
    let mut m = small_manager(2);
    assert!(m.add_connection(10));
    assert!(m.add_connection(11));
    assert!(!m.add_connection(12), "the cap must reject the third connection");
    assert_eq!(m.get_connections_count(), 2);
    // room reappears once a record leaves
    m.close_connection(10);
    assert!(m.remove_connection(10).is_some());
    assert!(m.add_connection(12));
    assert_eq!(m.get_connections_count(), 2);
}

#[test]
fn duplicate_descriptor_is_refused() {
    let mut m = small_manager(8);
    assert!(m.add_connection(5));
    assert!(!m.add_connection(5));
    assert_eq!(m.get_connections_count(), 1);
}

#[test]
fn default_manager_caps_at_one_thousand() {
    let mut m = ConnectionManager::new();
    for fd in 0..1000 {
        assert!(m.add_connection(fd));
    }
    assert!(!m.add_connection(1000));
    assert_eq!(m.get_connections_count(), 1000);
}

#[test]
fn reaped_descriptor_is_unknown() {
    let mut m = small_manager(4);
    m.add_connection(21);
    m.add_connection(22);
    m.handle_recv_event(21, RecvEvent::Closed);
    let closed = m.get_closed_connections();
    assert_eq!(closed, vec![21]);
    let record = m.remove_connection(21).expect("a closed record must be removable");
    assert_eq!(record.fd, 21);
    assert_eq!(record.stage, ConnectionStage::Close);
    assert!(m.get_connection(21).is_none(), "a reaped descriptor is unknown");
    assert!(m.remove_connection(21).is_none());
    assert!(m.get_connection(22).is_some());
}

#[test]
fn classification_follows_stages() {
    let mut m = small_manager(8);
    m.add_connection(1); // stays in Recv
    m.add_connection(2); // moves to Parse
    m.add_connection(3); // moves to SendHeaders
    m.add_connection(4); // moves to Close
    m.handle_recv_event(2, RecvEvent::Data(b"GET / HTTP/1.1\r\n\r\n".to_vec()));
    m.handle_recv_event(3, RecvEvent::Data(b"GET / HTTP/1.1\r\n\r\n".to_vec()));
    assert!(m.install_headers(3, b"HTTP/1.1 200 OK\r\n\r\n".to_vec()));
    m.handle_recv_event(4, RecvEvent::Closed);
    let (read_fds, write_fds) = m.get_connections_for_select();
    assert_eq!(read_fds, vec![1, 2]);
    assert_eq!(write_fds, vec![3]);
    assert_eq!(m.get_closed_connections(), vec![4]);
}

#[test]
fn install_and_attach_require_parse_stage() {
    let mut m = small_manager(8);
    m.add_connection(7);
    // still receiving: neither applies
    assert!(!m.install_headers(7, b"x".to_vec()));
    assert!(!m.set_file_for_connection(7, 10, false));
    m.handle_recv_event(7, RecvEvent::Data(b"GET /f HTTP/1.1\r\n\r\n".to_vec()));
    assert!(m.set_file_for_connection(7, 10, false));
    assert!(m.install_headers(7, b"h".to_vec()));
    // already past parsing: a second install is refused
    assert!(!m.install_headers(7, b"h".to_vec()));
    assert!(!m.set_file_for_connection(7, 10, false));
    // unknown descriptors are refused
    assert!(!m.install_headers(99, b"h".to_vec()));
    assert!(!m.set_file_for_connection(99, 1, true));
}

#[test]
fn dispatch_ignores_wrong_stage_and_unknown_fds() {
    let mut m = small_manager(8);
    m.add_connection(5);
    // not writable yet: events are ignored
    m.handle_send_headers_event(5, WriteEvent::Wrote(1));
    assert_eq!(m.get_connection(5).unwrap().stage, ConnectionStage::Recv);
    assert_eq!(m.handle_send_file_event(5, SendFileEvent::ReadEof), None);
    assert_eq!(m.get_connection(5).unwrap().stage, ConnectionStage::Recv);
    // unknown descriptor: nothing happens
    assert!(m.handle_recv_event(99, RecvEvent::Closed).is_none());
    assert_eq!(m.get_connections_count(), 1);
}

#[test]
fn full_pipeline_through_the_manager() {
    let mut m = small_manager(8);
    m.add_connection(9);
    let request = m
        .handle_recv_event(9, RecvEvent::Data(b"GET /notes.txt HTTP/1.1\r\n\r\n".to_vec()))
        .expect("complete request");
    assert_eq!(request, b"GET /notes.txt HTTP/1.1\r\n\r\n".to_vec());
    assert!(m.set_file_for_connection(9, 5, false));
    assert!(m.install_headers(9, b"HH".to_vec()));
    m.handle_send_headers_event(9, WriteEvent::Wrote(2));
    assert_eq!(m.get_connection(9).unwrap().stage, ConnectionStage::SendFile);
    let seek = m.handle_send_file_event(9, SendFileEvent::Wrote { read: 5, written: 2 });
    assert_eq!(seek, Some(3));
    let seek = m.handle_send_file_event(9, SendFileEvent::Wrote { read: 3, written: 3 });
    assert_eq!(seek, None);
    let conn = m.get_connection(9).unwrap();
    assert_eq!(conn.stage, ConnectionStage::Close);
    assert_eq!(conn.file_sent, 5);
    assert_eq!(conn.headers_sent, 2);
}

#[test]
fn max_fd_covers_listener_and_all_sets() {
    let listener = 4;
    assert_eq!(max_fd(listener, &vec![], &vec![]), 4);
    assert_eq!(max_fd(listener, &vec![9, 2], &vec![7]), 9);
    assert_eq!(max_fd(listener, &vec![1], &vec![2, 30, 3]), 30);
    assert_eq!(max_fd(40, &vec![1], &vec![2]), 40);
}

#[test]
fn served_root_request_end_to_end() {
    // the whole pipeline for `GET / HTTP/1.1` against an 11-byte index.html,
    // driven through the manager: the wire carries exactly the expected
    // response
    let parser = static_http_server::request_parser::RequestParser::new(
        "static".to_owned(),
        134217728,
    );
    let mut m = small_manager(4);
    m.add_connection(30);

    let request = m
        .handle_recv_event(30, RecvEvent::Data(b"GET / HTTP/1.1\r\nHost: x\r\n\r\n".to_vec()))
        .expect("complete request");
    let body = b"<h1>hi</h1>".to_vec();
    let step = parser.parse_request(&request);
    let headers = match step {
        static_http_server::request_parser::ParseStep::Probe { file_path, is_head } => {
            assert_eq!(file_path, b"static/index.html".to_vec());
            match parser.finish(
                &file_path,
                is_head,
                static_http_server::request_parser::FileProbe::Regular {
                    size: body.len() as u64,
                },
            ) {
                static_http_server::request_parser::FinishStep::Serve {
                    headers,
                    file_size,
                    is_head,
                } => {
                    assert!(m.set_file_for_connection(30, file_size, is_head));
                    headers
                }
                _ => panic!("expected to serve"),
            }
        }
        _ => panic!("expected a probe"),
    };
    assert!(m.install_headers(30, headers.clone()));

    let mut wire: Vec<u8> = Vec::new();
    while m.get_connection(30).unwrap().stage == ConnectionStage::SendHeaders {
        let c = m.get_connection(30).unwrap();
        let n = (c.headers.len() - c.headers_sent).min(10);
        wire.extend_from_slice(&c.headers[c.headers_sent..c.headers_sent + n]);
        m.handle_send_headers_event(30, WriteEvent::Wrote(n));
    }
    let mut offset = 0usize;
    while m.get_connection(30).unwrap().stage == ConnectionStage::SendFile {
        let read = (body.len() - offset).min(4);
        if read == 0 {
            m.handle_send_file_event(30, SendFileEvent::ReadEof);
            break;
        }
        wire.extend_from_slice(&body[offset..offset + read]);
        offset += read;
        m.handle_send_file_event(30, SendFileEvent::Wrote { read, written: read });
    }

    let expected = b"HTTP/1.1 200 OK\r\nContent-Type: text/html\r\nContent-Length: 11\r\nConnection: close\r\n\r\n<h1>hi</h1>".to_vec();
    assert_eq!(wire, expected);

    // reap: the descriptor becomes unknown
    assert_eq!(m.get_closed_connections(), vec![30]);
    m.remove_connection(30);
    assert!(m.get_connection(30).is_none());
}
