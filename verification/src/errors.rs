//! Typed failure categories: fatal configuration errors surfaced at boot
//! (pattern compilation, socket binding) and per-request handler failures.

use vstd::prelude::*;

verus! {

/// A route template whose compiled matcher was rejected.
///
/// Mirrors the failure modes of the regular-expression engine: a syntax
/// error in the compiled source, a compiled program over the engine's size
/// limit, or a failure mode this library does not further distinguish.
#[derive(Debug)]
pub enum PatternError {
    Syntax(String),
    TooBig(usize),
    Unknown,
}

/// The operating-system failure categories that socket setup can surface.
#[derive(Clone, Copy, Debug, PartialEq, Eq, Structural)]
pub enum IoFailureKind {
    AddrInUse,
    PermissionDenied,
    InvalidInput,
    Other,
}

/// A plain-value picture of an operating-system I/O error: its category
/// and a human-readable detail line.
#[derive(Debug)]
pub struct IoFailure {
    pub kind: IoFailureKind,
    pub detail: String,
}

impl IoFailure {
    pub fn new(kind: IoFailureKind, detail: String) -> (r: IoFailure)
        ensures
            r.kind == kind,
            r.detail == detail,
    {
        IoFailure { kind, detail }
    }
}

/// The kinds of error that can occur while starting to listen.
#[derive(Debug)]
pub enum ListenErrorKind {
    Io(IoFailure),
}

/// An error that occurs while binding the listening sockets at startup.
#[derive(Debug)]
pub struct ListenError {
    pub kind: ListenErrorKind,
}

impl ListenError {
    pub fn new(kind: ListenErrorKind) -> (r: ListenError)
        ensures
            r.kind == kind,
    {
        ListenError { kind }
    }

    /// Builds the error straight from an I/O failure picture.
    pub fn from_io(io: IoFailure) -> (r: ListenError)
        ensures
            r.kind == ListenErrorKind::Io(io),
    {
        ListenError { kind: ListenErrorKind::Io(io) }
    }

    /// A human-readable description, in place of a `Display` rendering.
    pub fn message(&self) -> (r: String)
        ensures
            r@ == (match self.kind {
                ListenErrorKind::Io(io) => io.detail@,
            }),
    {
        match &self.kind {
            ListenErrorKind::Io(io) => io.detail.clone(),
        }
    }
}

impl From<IoFailure> for ListenErrorKind {
    fn from(io: IoFailure) -> (r: ListenErrorKind) {
        ListenErrorKind::Io(io)
    }
}

impl vstd::std_specs::convert::FromSpecImpl<IoFailure> for ListenErrorKind {
    open spec fn obeys_from_spec() -> bool {
        true
    }

    open spec fn from_spec(io: IoFailure) -> ListenErrorKind {
        ListenErrorKind::Io(io)
    }
}

impl From<ListenErrorKind> for ListenError {
    fn from(kind: ListenErrorKind) -> (r: ListenError) {
        ListenError { kind }
    }
}

impl vstd::std_specs::convert::FromSpecImpl<ListenErrorKind> for ListenError {
    open spec fn obeys_from_spec() -> bool {
        true
    }

    open spec fn from_spec(kind: ListenErrorKind) -> ListenError {
        ListenError { kind }
    }
}

/// A typed per-request failure raised by a handler; the stack converts it
/// into a plain 500 response instead of letting it escape the request.
#[derive(Debug)]
pub struct HandlerError {
    pub message: String,
}

impl HandlerError {
    pub fn new(message: String) -> (r: HandlerError)
        ensures
            r.message == message,
    {
        HandlerError { message }
    }
}

impl View for HandlerError {
    type V = Seq<char>;

    open spec fn view(&self) -> Seq<char> {
        self.message@
    }
}

} // verus!
