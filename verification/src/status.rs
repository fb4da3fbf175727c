//! Error reports.
//!
//! A [`Status`] carries the kind, numeric code and message of the last
//! failure that was written into it. [`Violation`] names the failures that
//! the protocol itself detects, each with a fixed code and message.

use vstd::prelude::*;

verus! {

/// The severity class of a status.
#[derive(Clone, Copy, PartialEq, Eq, Debug, Structural)]
pub enum StatusKind {
    /// No failure has been recorded.
    NoError,
    /// The caller or a collaborator broke the protocol or supplied bad data.
    ClientError,
    /// A key management request failed.
    KmsError,
}

/// The mathematical value of a [`Status`].
pub struct StatusView {
    pub kind: StatusKind,
    pub code: u32,
    pub message: Seq<char>,
}

impl StatusView {
    /// The status of an object on which nothing has failed.
    pub open spec fn clear() -> StatusView {
        StatusView { kind: StatusKind::NoError, code: 0, message: Seq::<char>::empty() }
    }

    /// True when the status records a failure.
    pub open spec fn is_failure(self) -> bool {
        self.kind != StatusKind::NoError
    }
}

/// A mutable error report: kind, numeric code and message.
#[derive(Debug)]
pub struct Status {
    kind: StatusKind,
    code: u32,
    message: String,
}

impl View for Status {
    type V = StatusView;

    closed spec fn view(&self) -> StatusView {
        StatusView { kind: self.kind, code: self.code, message: self.message@ }
    }
}

impl Status {
    /// A status that records no failure.
    pub fn new() -> (s: Status)
        ensures
            s@ == StatusView::clear(),
    {
        Status { kind: StatusKind::NoError, code: 0, message: String::new() }
    }

    /// Overwrites all three parts of the status.
    pub fn set(&mut self, kind: StatusKind, code: u32, message: &str)
        ensures
            final(self)@ == (StatusView { kind, code, message: message@ }),
    {
        self.kind = kind;
        self.code = code;
        self.message = message.to_owned();
    }

    /// The severity class.
    pub fn kind(&self) -> (k: StatusKind)
        ensures
            k == self@.kind,
    {
        self.kind
    }

    /// The numeric code.
    pub fn code(&self) -> (c: u32)
        ensures
            c == self@.code,
    {
        self.code
    }

    /// The message.
    pub fn message(&self) -> (m: &str)
        ensures
            m@ == self@.message,
    {
        self.message.as_str()
    }

    /// True when no failure is recorded.
    pub fn is_ok(&self) -> (ok: bool)
        ensures
            ok == !self@.is_failure(),
    {
        match self.kind {
            StatusKind::NoError => true,
            _ => false,
        }
    }

    /// A fresh status equal to this one.
    pub fn duplicate(&self) -> (s: Status)
        ensures
            s@ == self@,
    {
        Status { kind: self.kind, code: self.code, message: self.message.clone() }
    }

    /// Writes this status into `out` when it records a failure, and leaves
    /// `out` as it was otherwise: a status is never cleared by a success.
    /// Returns true when there was no failure to report.
    pub fn report(&self, out: &mut Status) -> (ok: bool)
        ensures
            ok == !self@.is_failure(),
            ok ==> final(out)@ == old(out)@,
            !ok ==> final(out)@ == self@,
    {
        if self.is_ok() {
            true
        } else {
            out.kind = self.kind;
            out.code = self.code;
            out.message = self.message.clone();
            false
        }
    }
}

/// The failures that the protocol detects by itself. Every one of them is
/// reported with kind [`StatusKind::ClientError`].
#[derive(Clone, Copy, PartialEq, Eq, Debug, Structural)]
pub enum Violation {
    /// The call is not the one that the current state asks for.
    WrongState,
    /// An operation was started on a context that already had one.
    AlreadyInitialized,
    /// A collaborator failed, or its reply is not a well-formed document.
    FailedReply,
    /// A second reply was fed where a single one is expected.
    ExtraReply,
    /// Completion was signalled before the single expected reply was fed.
    MissingReply,
    /// The key management request named has not been handed out.
    UnknownKmsRequest,
    /// A key management reply of zero bytes was fed.
    EmptyKmsFeed,
    /// More key management reply bytes were fed than were still needed.
    KmsOverfeed,
    /// The key management phase was closed while a request still needed bytes.
    KmsIncomplete,
    /// The engine asked for a state that does not lie ahead of the current one.
    OutOfOrder,
}

impl Violation {
    /// The numeric code reported for the violation.
    pub open spec fn spec_code(self) -> u32 {
        match self {
            Violation::WrongState => 1,
            Violation::AlreadyInitialized => 2,
            Violation::FailedReply => 3,
            Violation::ExtraReply => 4,
            Violation::MissingReply => 5,
            Violation::UnknownKmsRequest => 6,
            Violation::EmptyKmsFeed => 7,
            Violation::KmsOverfeed => 8,
            Violation::KmsIncomplete => 9,
            Violation::OutOfOrder => 10,
        }
    }

    /// The message reported for the violation.
    pub open spec fn spec_message(self) -> Seq<char> {
        match self {
            Violation::WrongState => "wrong state for this call"@,
            Violation::AlreadyInitialized => "context already initialized"@,
            Violation::FailedReply => "reply missing or not a well-formed document"@,
            Violation::ExtraReply => "more than one reply where one is expected"@,
            Violation::MissingReply => "no reply was fed where one is expected"@,
            Violation::UnknownKmsRequest => "unknown key management request"@,
            Violation::EmptyKmsFeed => "key management reply of zero bytes"@,
            Violation::KmsOverfeed => "key management reply longer than needed"@,
            Violation::KmsIncomplete => "key management request still needs bytes"@,
            Violation::OutOfOrder => "requested state does not lie ahead"@,
        }
    }

    /// The status that reports the violation.
    pub open spec fn status_view(self) -> StatusView {
        StatusView {
            kind: StatusKind::ClientError,
            code: self.spec_code(),
            message: self.spec_message(),
        }
    }

    /// The numeric code reported for the violation.
    pub fn code(self) -> (c: u32)
        ensures
            c == self.spec_code(),
    {
        match self {
            Violation::WrongState => 1,
            Violation::AlreadyInitialized => 2,
            Violation::FailedReply => 3,
            Violation::ExtraReply => 4,
            Violation::MissingReply => 5,
            Violation::UnknownKmsRequest => 6,
            Violation::EmptyKmsFeed => 7,
            Violation::KmsOverfeed => 8,
            Violation::KmsIncomplete => 9,
            Violation::OutOfOrder => 10,
        }
    }

    /// The message reported for the violation.
    pub fn message(self) -> (m: &'static str)
        ensures
            m@ == self.spec_message(),
    {
        match self {
            Violation::WrongState => "wrong state for this call",
            Violation::AlreadyInitialized => "context already initialized",
            Violation::FailedReply => "reply missing or not a well-formed document",
            Violation::ExtraReply => "more than one reply where one is expected",
            Violation::MissingReply => "no reply was fed where one is expected",
            Violation::UnknownKmsRequest => "unknown key management request",
            Violation::EmptyKmsFeed => "key management reply of zero bytes",
            Violation::KmsOverfeed => "key management reply longer than needed",
            Violation::KmsIncomplete => "key management request still needs bytes",
            Violation::OutOfOrder => "requested state does not lie ahead",
        }
    }

    /// The status that reports the violation.
    pub fn status(self) -> (s: Status)
        ensures
            s@ == self.status_view(),
    {
        let mut s = Status::new();
        s.set(StatusKind::ClientError, self.code(), self.message());
        s
    }
}

} // verus!
