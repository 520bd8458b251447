//! Protocol errors answered to the Assuan client.

use vstd::prelude::*;

verus! {

/// The kind of an error answered with an `ERR` line.
#[derive(Debug, Clone, Copy, PartialEq, Eq)]
pub enum ErrorKind {
    /// General failure (also used for UI failures).
    General,
    /// The operation was canceled by the user.
    Canceled,
    /// The user pressed the "not ok" button.
    NotConfirmed,
    /// A command argument was invalid.
    InvalidParameter,
    /// The command or option is not known.
    UnknownCommand,
}

/// An error answered to the client: a kind and an optional message.
#[derive(Debug)]
pub struct ProtocolError {
    pub kind: ErrorKind,
    pub message: Option<String>,
}

/// Abstract contents of a [`ProtocolError`].
pub struct ProtocolErrorView {
    pub kind: ErrorKind,
    pub message: Option<Seq<char>>,
}

impl View for ProtocolError {
    type V = ProtocolErrorView;

    open spec fn view(&self) -> ProtocolErrorView {
        ProtocolErrorView {
            kind: self.kind,
            message: match self.message {
                Some(m) => Some(m@),
                None => None,
            },
        }
    }
}

impl ProtocolError {
    /// An error of the given kind with a message.
    pub fn with_message(kind: ErrorKind, message: &str) -> (e: Self)
        ensures
            e@ == (ProtocolErrorView { kind, message: Some(message@) }),
    {
        ProtocolError { kind, message: Some(String::from_str(message)) }
    }

    /// An error of the given kind without a message.
    pub fn bare(kind: ErrorKind) -> (e: Self)
        ensures
            e@ == (ProtocolErrorView { kind, message: None }),
    {
        ProtocolError { kind, message: None }
    }
}

} // verus!
