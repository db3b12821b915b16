//! What a call can fail with.

use vstd::prelude::*;
use crate::text::{decimal, join, to_decimal};

verus! {

/// Why a response body could not be read as the expected resource.
#[derive(Debug, Clone, Copy, PartialEq, Eq, Structural)]
pub enum DecodeFailure {
    /// The body is not a JSON document.
    Syntax,
    /// The body is JSON of another shape: a required field is missing, a
    /// field has the wrong type, or a page of results contradicts itself.
    Schema,
}

/// The failures of the client, one variant per cause.
#[derive(Debug, Clone, PartialEq, Eq)]
pub enum Error {
    /// The credential is empty.
    InvalidCredential,
    /// No credential was found where a convenience constructor looked for it.
    MissingCredential,
    /// The transport could not be configured, for instance because a fixed
    /// header value holds a byte that no header may carry.
    TransportInit,
    /// The round trip did not complete.
    Transport { message: String },
    /// The service answered with a status other than success.
    RemoteRejection { status: u16, body: String },
    /// The service answered with success and a body that cannot be decoded.
    Decode { failure: DecodeFailure },
}

/// The mathematical content of an [`Error`].
pub enum ErrorView {
    InvalidCredential,
    MissingCredential,
    TransportInit,
    Transport { message: Seq<char> },
    RemoteRejection { status: u16, body: Seq<char> },
    Decode { failure: DecodeFailure },
}

impl View for Error {
    type V = ErrorView;

    open spec fn view(&self) -> ErrorView {
        match *self {
            Error::InvalidCredential => ErrorView::InvalidCredential,
            Error::MissingCredential => ErrorView::MissingCredential,
            Error::TransportInit => ErrorView::TransportInit,
            Error::Transport { message } => ErrorView::Transport { message: message@ },
            Error::RemoteRejection { status, body } => ErrorView::RemoteRejection {
                status,
                body: body@,
            },
            Error::Decode { failure } => ErrorView::Decode { failure },
        }
    }
}

impl ErrorView {
    /// Whether the failure arose while the client was being configured,
    /// before any request could be attempted.
    pub open spec fn is_configuration(self) -> bool {
        self is InvalidCredential || self is MissingCredential || self is TransportInit
    }

    /// The text that [`Error::message`] writes.
    pub open spec fn message(self) -> Seq<char> {
        match self {
            ErrorView::InvalidCredential => "invalid token"@,
            ErrorView::MissingCredential => "no token found"@,
            ErrorView::TransportInit => "transport could not be configured"@,
            ErrorView::Transport { message } => "transport failure: "@ + message,
            ErrorView::RemoteRejection { status, body } => "request rejected with status "@
                + decimal(status as nat) + ": "@ + body,
            ErrorView::Decode { failure: DecodeFailure::Syntax } => "response body is not JSON"@,
            ErrorView::Decode {
                failure: DecodeFailure::Schema,
            } => "response body does not match the expected schema"@,
        }
    }
}

impl Error {
    /// Whether the failure arose while the client was being configured.
    pub fn is_configuration(&self) -> (b: bool)
        ensures
            b == self@.is_configuration(),
    {
        match self {
            Error::InvalidCredential => true,
            Error::MissingCredential => true,
            Error::TransportInit => true,
            _ => false,
        }
    }

    /// A one-line description for logs; a rejection is reported with its
    /// status and the body text as the service sent it.
    pub fn message(&self) -> (s: String)
        ensures
            s@ == self@.message(),
    {
        match self {
            Error::InvalidCredential => String::from_str("invalid token"),
            Error::MissingCredential => String::from_str("no token found"),
            Error::TransportInit => String::from_str("transport could not be configured"),
            Error::Transport { message } => join("transport failure: ", message.as_str()),
            Error::RemoteRejection { status, body } => {
                let code: String = to_decimal(*status as u32);
                let head: String = join("request rejected with status ", code.as_str());
                let head: String = join(head.as_str(), ": ");
                join(head.as_str(), body.as_str())
            },
            Error::Decode { failure: DecodeFailure::Syntax } => String::from_str(
                "response body is not JSON",
            ),
            Error::Decode { failure: DecodeFailure::Schema } => String::from_str(
                "response body does not match the expected schema",
            ),
        }
    }
}

} // verus!
