//! Replies: one of three status lines followed directly by a body.

use vstd::prelude::*;
use crate::model::ApiError;

verus! {

/// The three statuses the service can answer with.
#[derive(Debug, Clone, Copy, PartialEq, Eq, Structural)]
pub enum Status {
    Success,
    NotFound,
    InternalError,
}

/// A reply before it is turned into text.
#[derive(Debug, Clone, PartialEq, Eq)]
pub struct Response {
    pub status: Status,
    pub body: String,
}

/// The reply body after a successful create.
pub open spec fn created_text() -> Seq<char> {
    "User created"@
}

/// The reply body when no route matches.
pub open spec fn no_route_text() -> Seq<char> {
    "404 not found"@
}

/// The head of a reply: the status line, the content type on success only,
/// and the blank line that ends the head.
pub open spec fn status_head(status: Status) -> Seq<char> {
    match status {
        Status::Success => "HTTP/1.1 200 OK\r\nContent-Type: application/json\r\n\r\n"@,
        Status::NotFound => "HTTP/1.1 404 NOT FOUND\r\n\r\n"@,
        Status::InternalError => "HTTP/1.1 500 INTERNAL ERROR\r\n\r\n"@,
    }
}

/// The numeric code of a status.
pub open spec fn status_code(status: Status) -> int {
    match status {
        Status::Success => 200,
        Status::NotFound => 404,
        Status::InternalError => 500,
    }
}

/// The status an error is reported with: a miss is a 404, all else a 500.
pub open spec fn error_status(err: ApiError) -> Status {
    match err {
        ApiError::NotFound => Status::NotFound,
        _ => Status::InternalError,
    }
}

/// The body an error is reported with.
pub open spec fn error_text(err: ApiError) -> Seq<char> {
    match err {
        ApiError::MalformedPayload => "Malformed user payload"@,
        ApiError::StorageUnavailable => "Error in connecting with psql DB"@,
        ApiError::StorageError => "Storage error"@,
        ApiError::NotFound => "User not found"@,
    }
}

/// The full text of a reply: head, then body, nothing after it.
pub open spec fn encoded(status: Status, body: Seq<char>) -> Seq<char> {
    status_head(status) + body
}

impl Status {
    /// The numeric code of this status.
    pub fn code(&self) -> (c: u16)
        ensures
            c as int == status_code(*self),
    {
        match self {
            Status::Success => 200,
            Status::NotFound => 404,
            Status::InternalError => 500,
        }
    }

    /// The head of a reply with this status.
    pub fn head(&self) -> (h: &'static str)
        ensures
            h@ == status_head(*self),
    {
        match self {
            Status::Success => "HTTP/1.1 200 OK\r\nContent-Type: application/json\r\n\r\n",
            Status::NotFound => "HTTP/1.1 404 NOT FOUND\r\n\r\n",
            Status::InternalError => "HTTP/1.1 500 INTERNAL ERROR\r\n\r\n",
        }
    }
}

impl Response {
    /// The reply text: the status head followed directly by the body.
    pub fn encode(&self) -> (out: String)
        ensures
            out@ == encoded(self.status, self.body@),
    {
        let head = String::from_str(self.status.head());
        head.concat(self.body.as_str())
    }
}

/// The reply that reports `err`.
pub fn error_reply(err: ApiError) -> (r: Response)
    ensures
        r.status == error_status(err),
        r.body@ == error_text(err),
{
    match err {
        ApiError::MalformedPayload => Response {
            status: Status::InternalError,
            body: String::from_str("Malformed user payload"),
        },
        ApiError::StorageUnavailable => Response {
            status: Status::InternalError,
            body: String::from_str("Error in connecting with psql DB"),
        },
        ApiError::StorageError => Response {
            status: Status::InternalError,
            body: String::from_str("Storage error"),
        },
        ApiError::NotFound => Response {
            status: Status::NotFound,
            body: String::from_str("User not found"),
        },
    }
}

/// The reply for a request that matches no route.
pub fn no_route_reply() -> (r: Response)
    ensures
        r.status == Status::NotFound,
        r.body@ == no_route_text(),
{
    Response { status: Status::NotFound, body: String::from_str("404 not found") }
}

} // verus!
