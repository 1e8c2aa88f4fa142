//! The responder and the builder that configures it.
use vstd::prelude::*;
use std::path::PathBuf;
use crate::delay::{nanos_left, Delay};
use crate::reply::{
    empty, empty_reply, overridden, reply_for_opened, reply_to_opened, with_override, Body, Opened,
    Reply,
};
use crate::target::{parent_at, resolve_target, target_of, Target};

verus! {

/// Makes std's `PathBuf` known to the verifier as an opaque type: the
/// hosted directory is only stored and handed back, never read here.
#[verifier::external_type_specification]
#[verifier::external_body]
pub struct ExPathBuf(PathBuf);

/// The first thing the server does for a request.
#[derive(Debug, PartialEq, Eq)]
pub enum Step {
    /// Send this reply.
    Reply(Reply),
    /// Open this path, relative to the hosted directory, and hand the
    /// outcome to `ServerResponder::finish`.
    Open(String),
}

/// Decides the reply to each request. Built once, read-only afterwards.
pub struct ServerResponder {
    /// The directory to host, if any
    host_directory: Option<PathBuf>,
    /// An override on the returned status code.
    status_code: Option<u16>,
    /// An extra delay to add before responding
    extra_delay: Delay,
}

impl ServerResponder {
    /// The hosted directory, if any.
    pub closed spec fn spec_host_directory(&self) -> Option<PathBuf> {
        self.host_directory
    }

    /// The status code that replaces every reply's own, if any.
    pub closed spec fn spec_status_code(&self) -> Option<u16> {
        self.status_code
    }

    /// The least time that handling a request takes.
    pub closed spec fn spec_extra_delay(&self) -> Delay {
        self.extra_delay
    }

    /// The reply to the request for `url` that needs no file to be opened,
    /// or `None` where a file of the hosted directory must be opened first.
    pub open spec fn reply_before_open(&self, url: Seq<char>) -> Option<Reply> {
        let code = self.spec_status_code();
        if self.spec_host_directory() is None {
            Some(overridden(empty_reply(200), code))
        } else {
            match target_of(url) {
                None => Some(overridden(empty_reply(404), code)),
                Some(None) => Some(overridden(empty_reply(400), code)),
                Some(Some(_)) => None,
            }
        }
    }

    /// The reply once the requested file was opened, or was not.
    pub open spec fn reply_after_open(&self, opened: Opened) -> Reply {
        overridden(reply_to_opened(opened), self.spec_status_code())
    }

    /// A builder with nothing set.
    #[must_use]
    pub fn builder() -> (b: ServerResponderBuilder)
        ensures
            b.spec_host_directory() is None,
            b.spec_status_code() is None,
            b.spec_extra_delay() is None,
    {
        ServerResponderBuilder::new()
    }

    /// The hosted directory, if any.
    pub fn host_directory(&self) -> (r: Option<&PathBuf>)
        ensures
            r is Some == self.spec_host_directory() is Some,
            r is Some ==> *r->0 == self.spec_host_directory()->0,
    {
        self.host_directory.as_ref()
    }

    /// The status code that replaces every reply's own, if any.
    pub fn status_code(&self) -> (r: Option<u16>)
        ensures
            r == self.spec_status_code(),
    {
        self.status_code
    }

    /// The least time that handling a request takes.
    pub fn extra_delay(&self) -> (r: &Delay)
        ensures
            *r == self.spec_extra_delay(),
    {
        &self.extra_delay
    }

    /// The first step for a request of `url`: a reply where no directory is
    /// hosted or the path names no file or escapes the directory, else the
    /// relative path of the file to open.
    pub fn start(&self, url: &str) -> (s: Step)
        ensures
            match s {
                Step::Reply(r) => self.reply_before_open(url@) == Some(r),
                Step::Open(p) => self.reply_before_open(url@) is None && target_of(url@) == Some(
                    Some(p@),
                ),
            },
    {
        if self.host_directory.is_none() {
            return Step::Reply(with_override(empty(200), self.status_code));
        }
        match resolve_target(url) {
            Target::NotFound => Step::Reply(with_override(empty(404), self.status_code)),
            Target::BadRequest => Step::Reply(with_override(empty(400), self.status_code)),
            Target::File(p) => Step::Open(p),
        }
    }

    /// The reply for a request whose file was opened, or was not.
    pub fn finish(&self, opened: Opened) -> (r: Reply)
        ensures
            r == self.reply_after_open(opened),
    {
        with_override(reply_for_opened(opened), self.status_code)
    }

    /// How long to wait before sending the reply to a request that has been
    /// in hand for `elapsed`: what is left of the extra delay, if anything.
    pub fn remaining_delay(&self, elapsed: &Delay) -> (d: Delay)
        ensures
            d.total_nanos() == nanos_left(
                self.spec_extra_delay().total_nanos(),
                elapsed.total_nanos(),
            ),
    {
        self.extra_delay.saturating_sub(elapsed)
    }
}

/// Gathers the settings of a `ServerResponder`, each at most once.
pub struct ServerResponderBuilder {
    /// The directory to host, if any
    host_directory: Option<PathBuf>,
    /// An override on the returned status code.
    status_code: Option<u16>,
    /// An extra delay to add before responding
    extra_delay: Option<Delay>,
}

impl ServerResponderBuilder {
    /// The directory set so far, if any.
    pub closed spec fn spec_host_directory(&self) -> Option<PathBuf> {
        self.host_directory
    }

    /// The status override set so far, if any.
    pub closed spec fn spec_status_code(&self) -> Option<u16> {
        self.status_code
    }

    /// The extra delay set so far, if any.
    pub closed spec fn spec_extra_delay(&self) -> Option<Delay> {
        self.extra_delay
    }

    /// A builder with nothing set.
    #[must_use]
    pub fn new() -> (b: Self)
        ensures
            b.spec_host_directory() is None,
            b.spec_status_code() is None,
            b.spec_extra_delay() is None,
    {
        Self { host_directory: None, status_code: None, extra_delay: None }
    }

    /// Sets the directory to host. Setting it a second time is a misuse
    /// that the precondition rules out.
    #[must_use]
    pub fn host_directory(self, dir: PathBuf) -> (b: Self)
        requires
            self.spec_host_directory() is None,
        ensures
            b.spec_host_directory() == Some(dir),
            b.spec_status_code() == self.spec_status_code(),
            b.spec_extra_delay() == self.spec_extra_delay(),
    {
        Self { host_directory: Some(dir), status_code: self.status_code, extra_delay: self.extra_delay }
    }

    /// Sets the status code that replaces every reply's own. Setting it a
    /// second time is a misuse that the precondition rules out.
    #[must_use]
    pub fn status_code(self, code: u16) -> (b: Self)
        requires
            self.spec_status_code() is None,
        ensures
            b.spec_host_directory() == self.spec_host_directory(),
            b.spec_status_code() == Some(code),
            b.spec_extra_delay() == self.spec_extra_delay(),
    {
        Self { host_directory: self.host_directory, status_code: Some(code), extra_delay: self.extra_delay }
    }

    /// Sets the least time that handling a request takes. Setting it a
    /// second time is a misuse that the precondition rules out.
    #[must_use]
    pub fn extra_delay(self, delay: Delay) -> (b: Self)
        requires
            self.spec_extra_delay() is None,
        ensures
            b.spec_host_directory() == self.spec_host_directory(),
            b.spec_status_code() == self.spec_status_code(),
            b.spec_extra_delay() == Some(delay),
    {
        Self { host_directory: self.host_directory, status_code: self.status_code, extra_delay: Some(delay) }
    }

    /// The responder with the settings made, an unset delay taken as zero.
    #[must_use]
    pub fn build(self) -> (r: ServerResponder)
        ensures
            r.spec_host_directory() == self.spec_host_directory(),
            r.spec_status_code() == self.spec_status_code(),
            self.spec_extra_delay() is Some ==> r.spec_extra_delay() == self.spec_extra_delay()->0,
            self.spec_extra_delay() is None ==> r.spec_extra_delay().total_nanos() == 0,
    {
        let extra_delay = match self.extra_delay {
            Some(d) => d,
            None => Delay::zero(),
        };
        ServerResponder {
            host_directory: self.host_directory,
            status_code: self.status_code,
            extra_delay,
        }
    }
}

/// A responder that hosts no directory and overrides no status answers
/// every request with 200 and an empty body, and opens nothing.
pub proof fn lemma_plain_responder_replies_ok(r: ServerResponder, url: Seq<char>)
    requires
        r.spec_host_directory() is None,
        r.spec_status_code() is None,
    ensures
        r.reply_before_open(url) == Some(empty_reply(200)),
{
}

/// A responder with a status override answers every request with that
/// status, whether or not a file was asked for, found or missing.
pub proof fn lemma_override_sets_status(
    r: ServerResponder,
    code: u16,
    url: Seq<char>,
    opened: Opened,
)
    requires
        r.spec_status_code() == Some(code),
    ensures
        r.reply_before_open(url) matches Some(reply) ==> reply.status == code,
        r.reply_after_open(opened).status == code,
{
}

/// A request whose path has a `..` component, made of a responder that
/// hosts a directory, gets 400 with an empty body before any file is
/// opened, so whatever the path names on disk plays no part.
pub proof fn lemma_parent_component_is_bad_request(r: ServerResponder, url: Seq<char>, i: int)
    requires
        r.spec_host_directory() is Some,
        r.spec_status_code() is None,
        url.len() > 0,
        url[0] == '/',
        parent_at(url.drop_first(), i),
    ensures
        r.reply_before_open(url) == Some(empty_reply(400)),
{
    assert('/' as u32 == 0x2f);
}

/// A request that names no existing file of the hosted directory gets 404
/// with an empty body: where its path is empty, and where opening reports
/// that nothing is there.
pub proof fn lemma_missing_file_is_not_found(r: ServerResponder, url: Seq<char>)
    requires
        r.spec_host_directory() is Some,
        r.spec_status_code() is None,
    ensures
        target_of(url) is None ==> r.reply_before_open(url) == Some(empty_reply(404)),
        r.reply_after_open(Opened::Missing) == empty_reply(404),
{
}

/// A request whose file was opened gets 200 and the file's contents.
pub proof fn lemma_found_file_is_served(r: ServerResponder)
    requires
        r.spec_status_code() is None,
    ensures
        r.reply_after_open(Opened::Found) == (Reply { status: 200, body: Body::File }),
{
}

/// Waiting out what `remaining_delay` returns after `elapsed` makes the
/// whole time spent on a request at least the extra delay, however long
/// the work before took.
pub proof fn lemma_delay_is_honoured(r: ServerResponder, elapsed: Delay, remaining: Delay)
    requires
        remaining.total_nanos() == nanos_left(
            r.spec_extra_delay().total_nanos(),
            elapsed.total_nanos(),
        ),
    ensures
        elapsed.total_nanos() + remaining.total_nanos() >= r.spec_extra_delay().total_nanos(),
{
}

} // verus!
