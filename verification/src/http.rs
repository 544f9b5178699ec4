//! HTTP responses as plain values: a status code and a body.

use vstd::prelude::*;
use vstd::string::*;
use vstd::utf8::encode_utf8;

use crate::text::{decimal, u64_to_decimal};

verus! {

/// `200 OK`.
pub const STATUS_OK: u16 = 200;

/// `400 Bad Request`.
pub const STATUS_BAD_REQUEST: u16 = 400;

/// `404 Not Found`.
pub const STATUS_NOT_FOUND: u16 = 404;

/// `500 Internal Server Error`.
pub const STATUS_INTERNAL_SERVER_ERROR: u16 = 500;

/// A response: its status code and body bytes (it has no headers of its own).
#[derive(Debug)]
pub struct Response {
    pub status: u16,
    pub body: Vec<u8>,
}

/// A response with the given body and status.
pub fn bytes_to_resp(bytes: Vec<u8>, status: u16) -> (r: Response)
    ensures
        r.status == status,
        r.body@ == bytes@,
{
    Response { status, body: bytes }
}

/// A `500` response whose body is the UTF-8 text of the message.
pub fn server_error_(s: String) -> (r: Response)
    ensures
        r.status == STATUS_INTERNAL_SERVER_ERROR,
        r.body@ == encode_utf8(s@),
{
    bytes_to_resp(s.as_str().as_bytes_vec(), STATUS_INTERNAL_SERVER_ERROR)
}

/// A `404` response whose body is the UTF-8 text of the message.
pub fn not_found_(m: String) -> (r: Response)
    ensures
        r.status == STATUS_NOT_FOUND,
        r.body@ == encode_utf8(m@),
{
    bytes_to_resp(m.as_str().as_bytes_vec(), STATUS_NOT_FOUND)
}

/// A `400` response whose body is the UTF-8 text of the message.
pub fn bad_request_(m: String) -> (r: Response)
    ensures
        r.status == STATUS_BAD_REQUEST,
        r.body@ == encode_utf8(m@),
{
    bytes_to_resp(m.as_str().as_bytes_vec(), STATUS_BAD_REQUEST)
}

/// The JSON response for the outcome of serialising a value: `200` with the
/// serialised bytes, or, where serialisation failed, a `500` whose body reads
/// "failed to serialize json: " followed by the error's debug text.
pub fn json(serialized: Result<Vec<u8>, String>) -> (r: Response)
    ensures
        match serialized {
            Ok(bytes) => r.status == STATUS_OK && r.body@ == bytes@,
            Err(e) => r.status == STATUS_INTERNAL_SERVER_ERROR && r.body@ == encode_utf8(
                "failed to serialize json: "@ + e@,
            ),
        },
{
    match serialized {
        Ok(bytes) => bytes_to_resp(bytes, STATUS_OK),
        Err(e) => {
            let msg: String = String::from_str("failed to serialize json: ").concat(e.as_str());
            server_error_(msg)
        },
    }
}

/// The address to which a request is passed on: "http://localhost:", the
/// port in decimal, "/", then the request's path and query (its path where
/// it has no path-and-query).
pub fn proxy_uri(port: u16, path_and_query: Option<&str>, path: &str) -> (s: String)
    ensures
        s@ == "http://localhost:"@ + decimal(port as nat) + "/"@ + match path_and_query {
            Some(pq) => pq@,
            None => path@,
        },
{
    let tail: &str = match path_and_query {
        Some(pq) => pq,
        None => path,
    };
    let mut s: String = String::from_str("http://localhost:");
    let digits: String = u64_to_decimal(port as u64);
    s.append(digits.as_str());
    s.append("/");
    s.append(tail);
    s
}

} // verus!
