//! The response statuses the server knows, with their wire representations.

use vstd::prelude::*;
use vstd::utf8::encode_utf8;

verus! {

/// Response status codes the server emits.
#[derive(Debug, Clone, Copy, PartialEq, Eq, Structural)]
pub enum HttpStatus {
    Okay,
    BadRequest,
    Forbidden,
    NotFound,
    MethodNotAllowed,
    PayloadTooLarge,
    InternalServerError,
}

impl HttpStatus {
    /// The numeric status code.
    pub open spec fn spec_code(self) -> u16 {
        match self {
            HttpStatus::Okay => 200,
            HttpStatus::BadRequest => 400,
            HttpStatus::Forbidden => 403,
            HttpStatus::NotFound => 404,
            HttpStatus::MethodNotAllowed => 405,
            HttpStatus::PayloadTooLarge => 413,
            HttpStatus::InternalServerError => 500,
        }
    }

    pub fn code(&self) -> (c: u16)
        ensures
            c == self.spec_code(),
    {
        match self {
            HttpStatus::Okay => 200,
            HttpStatus::BadRequest => 400,
            HttpStatus::Forbidden => 403,
            HttpStatus::NotFound => 404,
            HttpStatus::MethodNotAllowed => 405,
            HttpStatus::PayloadTooLarge => 413,
            HttpStatus::InternalServerError => 500,
        }
    }

    /// The reason phrase that accompanies the code on the status line.
    pub open spec fn spec_text(self) -> Seq<char> {
        match self {
            HttpStatus::Okay => "OK"@,
            HttpStatus::BadRequest => "Bad Request"@,
            HttpStatus::Forbidden => "Forbidden"@,
            HttpStatus::NotFound => "Not Found"@,
            HttpStatus::MethodNotAllowed => "Method Not Allowed"@,
            HttpStatus::PayloadTooLarge => "Payload Too Large"@,
            HttpStatus::InternalServerError => "Internal Server Error"@,
        }
    }

    pub fn text(&self) -> (t: &'static str)
        ensures
            t@ == self.spec_text(),
    {
        match self {
            HttpStatus::Okay => "OK",
            HttpStatus::BadRequest => "Bad Request",
            HttpStatus::Forbidden => "Forbidden",
            HttpStatus::NotFound => "Not Found",
            HttpStatus::MethodNotAllowed => "Method Not Allowed",
            HttpStatus::PayloadTooLarge => "Payload Too Large",
            HttpStatus::InternalServerError => "Internal Server Error",
        }
    }

    /// The full status line, terminated by CRLF.
    pub open spec fn spec_response_line(self) -> Seq<char> {
        match self {
            HttpStatus::Okay => "HTTP/1.1 200 OK\r\n"@,
            HttpStatus::BadRequest => "HTTP/1.1 400 Bad Request\r\n"@,
            HttpStatus::Forbidden => "HTTP/1.1 403 Forbidden\r\n"@,
            HttpStatus::NotFound => "HTTP/1.1 404 Not Found\r\n"@,
            HttpStatus::MethodNotAllowed => "HTTP/1.1 405 Method Not Allowed\r\n"@,
            HttpStatus::PayloadTooLarge => "HTTP/1.1 413 Payload Too Large\r\n"@,
            HttpStatus::InternalServerError => "HTTP/1.1 500 Internal Server Error\r\n"@,
        }
    }

    /// The status line as it appears in a response byte buffer.
    pub open spec fn spec_response_line_bytes(self) -> Seq<u8> {
        encode_utf8(self.spec_response_line())
    }

    pub fn as_response_line(&self) -> (r: String)
        ensures
            r@ == self.spec_response_line(),
    {
        let line: &'static str = match self {
            HttpStatus::Okay => "HTTP/1.1 200 OK\r\n",
            HttpStatus::BadRequest => "HTTP/1.1 400 Bad Request\r\n",
            HttpStatus::Forbidden => "HTTP/1.1 403 Forbidden\r\n",
            HttpStatus::NotFound => "HTTP/1.1 404 Not Found\r\n",
            HttpStatus::MethodNotAllowed => "HTTP/1.1 405 Method Not Allowed\r\n",
            HttpStatus::PayloadTooLarge => "HTTP/1.1 413 Payload Too Large\r\n",
            HttpStatus::InternalServerError => "HTTP/1.1 500 Internal Server Error\r\n",
        };
        line.to_owned()
    }
}

} // verus!
