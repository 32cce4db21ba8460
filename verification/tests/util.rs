//! The byte scanners, the default configuration, and the embedded assets.

use static_http_server::byte_scan::contains_double_newline;
use static_http_server::config::ServerConfig;
use static_http_server::static_files::{css_content, html_content};

#[test]
fn double_newline_detection() {
    assert!(contains_double_newline(b"GET / HTTP/1.1\r\n\r\n"));
    assert!(contains_double_newline(b"GET / HTTP/1.1\n\n"));
    assert!(contains_double_newline(b"a\r\n\r\nb"));
    assert!(!contains_double_newline(b"GET / HTTP/1.1\r\n"));
    assert!(!contains_double_newline(b"\r\n\r"));
    assert!(!contains_double_newline(b""));
    assert!(!contains_double_newline(b"\n"));
    assert!(contains_double_newline(b"\n\n"));
    // CR LF CR LF split across the last four bytes of a large buffer
    let mut buf = vec![b'x'; 8188];
    buf.extend_from_slice(b"\r\n\r\n");
    assert!(contains_double_newline(&buf));
    let plain = vec![b'x'; 8192];
    assert!(!contains_double_newline(&plain));
}

#[test]
fn default_configuration_values() {
    let c = ServerConfig::default();
    assert_eq!(c.host, "127.0.0.1");
    assert_eq!(c.port, 9898);
    assert_eq!(c.threads, 10);
    assert_eq!(c.document_root, "./static");
    assert_eq!(c.max_connections, 1000);
    assert_eq!(c.max_file_size, 128 * 1024 * 1024);
    assert_eq!(c.select_timeout, 1);
}

#[test]
fn embedded_assets_are_nonempty_html_and_css() {
    let html = html_content::get_html();
    assert!(!html.is_empty());
    assert!(html.contains("<!DOCTYPE html>"));
    assert!(html.contains("style.css"));
    let css = css_content::get_css();
    assert!(!css.is_empty());
    assert!(css.contains("body"));
}
