//! What the server sends back.
use vstd::prelude::*;

verus! {

/// The body of a reply.
#[derive(Debug, PartialEq, Eq)]
pub enum Body {
    /// No bytes.
    Empty,
    /// The contents of the file that was opened for the request.
    File,
    /// A text, such as the description of an I/O error.
    Text(String),
}

/// A status code and a body.
#[derive(Debug, PartialEq, Eq)]
pub struct Reply {
    pub status: u16,
    pub body: Body,
}

/// What came of opening the requested file.
#[derive(Debug, PartialEq, Eq)]
pub enum Opened {
    /// The file is open for reading.
    Found,
    /// No file exists at the path.
    Missing,
    /// Opening failed otherwise; the error's description.
    Failed(String),
}

/// A reply with status `status` and an empty body.
pub open spec fn empty_reply(status: u16) -> Reply {
    Reply { status, body: Body::Empty }
}

/// The reply owed once the requested file was opened, or was not.
pub open spec fn reply_to_opened(opened: Opened) -> Reply {
    match opened {
        Opened::Found => Reply { status: 200, body: Body::File },
        Opened::Missing => empty_reply(404),
        Opened::Failed(e) => Reply { status: 500, body: Body::Text(e) },
    }
}

/// `reply` with its status replaced by `code` where one is given, its body
/// untouched.
pub open spec fn overridden(reply: Reply, code: Option<u16>) -> Reply {
    match code {
        Some(c) => Reply { status: c, body: reply.body },
        None => reply,
    }
}

/// Builds a reply with status `status` and an empty body.
pub fn empty(status: u16) -> (r: Reply)
    ensures
        r == empty_reply(status),
{
    Reply { status, body: Body::Empty }
}

/// Replaces the status of `reply` by `code` where one is given.
pub fn with_override(reply: Reply, code: Option<u16>) -> (r: Reply)
    ensures
        r == overridden(reply, code),
{
    match code {
        Some(c) => Reply { status: c, body: reply.body },
        None => reply,
    }
}

/// The reply for the outcome of opening the requested file: the file with
/// 200, 404 with an empty body where it does not exist, and 500 with the
/// error's description otherwise.
pub fn reply_for_opened(opened: Opened) -> (r: Reply)
    ensures
        r == reply_to_opened(opened),
{
    match opened {
        Opened::Found => Reply { status: 200, body: Body::File },
        Opened::Missing => empty(404),
        Opened::Failed(e) => Reply { status: 500, body: Body::Text(e) },
    }
}

} // verus!
