//! The failures a session operation can report.

use vstd::prelude::*;

verus! {

/// Why a session operation failed.
///
/// The last four variants carry the rendered message of a failure that
/// happened in a collaborator: the chat service, the credential store, the
/// voice transport and the audio producer.
#[derive(Debug, PartialEq, Eq)]
pub enum Error {
    /// The action was attempted in a channel that does not support it.
    InvalidChannel,
    /// The audio producer rejected the stored credentials.
    AuthenticationFailed,
    /// The action needs an idle session, and this one has an owner.
    AlreadyActive,
    /// Any other failure, with its message.
    Other(String),
    /// The chat service failed.
    Serenity(String),
    /// The credential store failed.
    Storage(String),
    /// The voice transport refused the join.
    JoinError(String),
    /// The audio producer failed.
    Librespot(String),
}

/// An [`Error`] with its message as a sequence of characters.
pub enum ErrorView {
    InvalidChannel,
    AuthenticationFailed,
    AlreadyActive,
    Other(Seq<char>),
    Serenity(Seq<char>),
    Storage(Seq<char>),
    JoinError(Seq<char>),
    Librespot(Seq<char>),
}

impl View for Error {
    type V = ErrorView;

    open spec fn view(&self) -> ErrorView {
        match self {
            Error::InvalidChannel => ErrorView::InvalidChannel,
            Error::AuthenticationFailed => ErrorView::AuthenticationFailed,
            Error::AlreadyActive => ErrorView::AlreadyActive,
            Error::Other(message) => ErrorView::Other(message@),
            Error::Serenity(message) => ErrorView::Serenity(message@),
            Error::Storage(message) => ErrorView::Storage(message@),
            Error::JoinError(message) => ErrorView::JoinError(message@),
            Error::Librespot(message) => ErrorView::Librespot(message@),
        }
    }
}

impl ErrorView {
    /// The text that describes the error to a user.
    pub open spec fn text(self) -> Seq<char> {
        match self {
            ErrorView::InvalidChannel => "The specified channel is invalid for this operation"@,
            ErrorView::AuthenticationFailed => "Authentication failed"@,
            ErrorView::AlreadyActive => "Cannot perform this action on an active session"@,
            ErrorView::Other(message) => message,
            ErrorView::Serenity(message) => message,
            ErrorView::Storage(message) => message,
            ErrorView::JoinError(message) => message,
            ErrorView::Librespot(message) => message,
        }
    }
}

impl Error {

    /// Renders the error as a message for the user.
    pub fn message(&self) -> (text: String)
        ensures
            text@ == self@.text(),
    {
        match self {
            Error::InvalidChannel => String::from_str(
                "The specified channel is invalid for this operation",
            ),
            Error::AuthenticationFailed => String::from_str("Authentication failed"),
            Error::AlreadyActive => String::from_str(
                "Cannot perform this action on an active session",
            ),
            Error::Other(message) => message.clone(),
            Error::Serenity(message) => message.clone(),
            Error::Storage(message) => message.clone(),
            Error::JoinError(message) => message.clone(),
            Error::Librespot(message) => message.clone(),
        }
    }
}

} // verus!
