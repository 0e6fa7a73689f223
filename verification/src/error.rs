//! The closed set of failures that the inspector reports.

use vstd::prelude::*;

verus! {

/// What went wrong: binding the address, reading a body, or sending a response.
#[derive(Clone, Copy, Debug, PartialEq, Eq)]
pub enum ErrorKind {
    Bind,
    BodyRead,
    ResponseSend,
}

/// A failure with a message for the person reading the error output.
#[derive(Clone, Debug, PartialEq, Eq)]
pub struct InspectError {
    pub kind: ErrorKind,
    pub message: String,
}

/// The words that stand for an error kind in a description.
pub open spec fn kind_label(kind: ErrorKind) -> Seq<char> {
    match kind {
        ErrorKind::Bind => "bind error"@,
        ErrorKind::BodyRead => "body read error"@,
        ErrorKind::ResponseSend => "response send error"@,
    }
}

impl InspectError {
    /// Only startup failures end the process; the others are reported and the
    /// loop goes on.
    pub open spec fn spec_is_fatal(&self) -> bool {
        self.kind == ErrorKind::Bind
    }

    /// The one-line description: the kind's label, a colon and a space, the message.
    pub open spec fn spec_describe(&self) -> Seq<char> {
        kind_label(self.kind) + ": "@ + self.message@
    }

    pub fn new(kind: ErrorKind, message: String) -> (e: InspectError)
        ensures
            e.kind == kind,
            e.message@ == message@,
    {
        InspectError { kind, message }
    }

    /// Whether the process must stop on this failure: true for a bind
    /// failure and for no other.
    pub fn is_fatal(&self) -> (r: bool)
        ensures
            r == self.spec_is_fatal(),
    {
        match self.kind {
            ErrorKind::Bind => true,
            ErrorKind::BodyRead => false,
            ErrorKind::ResponseSend => false,
        }
    }

    /// Renders the failure as one line for the error output.
    pub fn describe(&self) -> (r: String)
        ensures
            r@ == self.spec_describe(),
    {
        let label = match self.kind {
            ErrorKind::Bind => "bind error",
            ErrorKind::BodyRead => "body read error",
            ErrorKind::ResponseSend => "response send error",
        };
        let mut out = String::from_str(label);
        out.append(": ");
        out.append(self.message.as_str());
        out
    }
}

} // verus!
