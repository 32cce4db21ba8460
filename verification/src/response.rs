//! Builds the byte buffers the server writes back: success headers and
//! complete error responses.

use vstd::prelude::*;
use vstd::string::StringSliceAdditionalSpecFns;
use vstd::utf8::encode_utf8;

use crate::http_status::HttpStatus;

verus! {

/// The decimal digit bytes of `n`, most significant digit first.
pub open spec fn spec_decimal(n: nat) -> Seq<u8>
    decreases n,
{
    if n < 10 {
        seq![(48 + n) as u8]
    } else {
        spec_decimal(n / 10).push((48 + n % 10) as u8)
    }
}

/// Appends the decimal representation of `n` to `out`.
pub fn push_decimal(out: &mut Vec<u8>, n: u64)
    ensures
        final(out)@ == old(out)@ + spec_decimal(n as nat),
    decreases n,
{
    if n >= 10 {
        push_decimal(out, n / 10);
    }
    let digit: u8 = 48 + (n % 10) as u8;
    out.push(digit);
    proof {
        assert(final(out)@ =~= old(out)@ + spec_decimal(n as nat));
    }
}

/// Appends all of `bytes` to `out`.
pub(crate) fn push_bytes(out: &mut Vec<u8>, bytes: &[u8])
    ensures
        final(out)@ == old(out)@ + bytes@,
{
    out.extend_from_slice(bytes);
}

/// The header block of a successful response: status line, content type,
/// content length, and the close marker, ending in an empty line.
pub open spec fn spec_ok_headers(content_type: Seq<char>, file_size: u64) -> Seq<u8> {
    HttpStatus::Okay.spec_response_line_bytes() + "Content-Type: ".spec_bytes()
        + encode_utf8(content_type) + "\r\nContent-Length: ".spec_bytes()
        + spec_decimal(file_size as nat) + "\r\nConnection: close\r\n\r\n".spec_bytes()
}

pub fn build_ok_headers(content_type: &str, file_size: u64) -> (r: Vec<u8>)
    ensures
        r@ == spec_ok_headers(content_type@, file_size),
{
    let mut out: Vec<u8> = Vec::new();
    push_bytes(&mut out, "HTTP/1.1 200 OK\r\n".as_bytes());
    push_bytes(&mut out, "Content-Type: ".as_bytes());
    push_bytes(&mut out, content_type.as_bytes());
    push_bytes(&mut out, "\r\nContent-Length: ".as_bytes());
    push_decimal(&mut out, file_size);
    push_bytes(&mut out, "\r\nConnection: close\r\n\r\n".as_bytes());
    proof {
        assert(out@ =~= spec_ok_headers(content_type@, file_size));
    }
    out
}

/// The HTML body of an error response.
pub open spec fn spec_error_body(status: HttpStatus) -> Seq<u8> {
    match status {
        HttpStatus::NotFound => "<html><body><h1>404 Not Found</h1></body></html>".spec_bytes(),
        HttpStatus::Forbidden => "<html><body><h1>403 Forbidden</h1></body></html>".spec_bytes(),
        HttpStatus::BadRequest => "<html><body><h1>400 Bad Request</h1></body></html>".spec_bytes(),
        HttpStatus::MethodNotAllowed => "<html><body><h1>405 Method Not Allowed</h1></body></html>".spec_bytes(),
        HttpStatus::PayloadTooLarge => "<html><body><h1>413 Payload Too Large</h1></body></html>".spec_bytes(),
        HttpStatus::InternalServerError => "<html><body><h1>500 Internal Server Error</h1></body></html>".spec_bytes(),
        HttpStatus::Okay => "<html><body><h1>Error</h1></body></html>".spec_bytes(),
    }
}

/// A complete error response: status line, fixed headers, and the HTML body,
/// with the content length giving the body's exact byte count.
pub open spec fn spec_error_response(status: HttpStatus) -> Seq<u8> {
    status.spec_response_line_bytes() + "Content-Type: text/html\r\nContent-Length: ".spec_bytes()
        + spec_decimal(spec_error_body(status).len())
        + "\r\nConnection: close\r\n\r\n".spec_bytes() + spec_error_body(status)
}

pub fn format_error_response(status: HttpStatus) -> (r: Vec<u8>)
    ensures
        r@ == spec_error_response(status),
{
    let body: &'static str = match status {
        HttpStatus::NotFound => "<html><body><h1>404 Not Found</h1></body></html>",
        HttpStatus::Forbidden => "<html><body><h1>403 Forbidden</h1></body></html>",
        HttpStatus::BadRequest => "<html><body><h1>400 Bad Request</h1></body></html>",
        HttpStatus::MethodNotAllowed => "<html><body><h1>405 Method Not Allowed</h1></body></html>",
        HttpStatus::PayloadTooLarge => "<html><body><h1>413 Payload Too Large</h1></body></html>",
        HttpStatus::InternalServerError => "<html><body><h1>500 Internal Server Error</h1></body></html>",
        HttpStatus::Okay => "<html><body><h1>Error</h1></body></html>",
    };
    let body_bytes: &[u8] = body.as_bytes();
    let line: String = status.as_response_line();
    let mut out: Vec<u8> = Vec::new();
    push_bytes(&mut out, line.as_str().as_bytes());
    push_bytes(&mut out, "Content-Type: text/html\r\nContent-Length: ".as_bytes());
    push_decimal(&mut out, body_bytes.len() as u64);
    push_bytes(&mut out, "\r\nConnection: close\r\n\r\n".as_bytes());
    push_bytes(&mut out, body_bytes);
    proof {
        assert(out@ =~= spec_error_response(status));
    }
    out
}

} // verus!
