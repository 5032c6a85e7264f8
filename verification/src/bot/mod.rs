//! The relay itself: what it does with a room message, and how it comes to
//! a session with the chat service.
//!
//! Nothing here talks to the outside. A message or a start-up becomes a
//! small machine that names one piece of outside work at a time; the caller
//! performs it and reports what came of it.

use vstd::prelude::*;

pub mod command;
pub mod dispatch;
pub mod pool;
pub mod session;
pub mod trace;

verus! {

/// The relay, under the identity it has in the chat service.
#[derive(Clone, Debug)]
pub struct Bot {
    pub user_id: String,
    pub password: String,
}

/// A failure of one of the outside services, with the service's own
/// description of it.
#[derive(Clone, Debug)]
pub enum Error {
    /// The chat service rejected the login.
    Auth(String),
    /// The key-value store failed to read or write. A record that is not
    /// there is no failure.
    Store(String),
    /// The pool API could not be reached or gave no usable answer.
    RemoteApi(String),
    /// The chat service failed to send or receive.
    Transport(String),
}

/// An [`Error`] as plain text.
pub ghost enum ErrorView {
    Auth(Seq<char>),
    Store(Seq<char>),
    RemoteApi(Seq<char>),
    Transport(Seq<char>),
}

impl View for Error {
    type V = ErrorView;

    open spec fn view(&self) -> ErrorView {
        match *self {
            Error::Auth(description) => ErrorView::Auth(description@),
            Error::Store(description) => ErrorView::Store(description@),
            Error::RemoteApi(description) => ErrorView::RemoteApi(description@),
            Error::Transport(description) => ErrorView::Transport(description@),
        }
    }
}

/// The text under which a failure is shown in a room: the kind of failure,
/// then the service's description.
pub open spec fn error_text(error: ErrorView) -> Seq<char> {
    match error {
        ErrorView::Auth(description) => "AuthError: "@ + description,
        ErrorView::Store(description) => "StoreError: "@ + description,
        ErrorView::RemoteApi(description) => "RemoteApiError: "@ + description,
        ErrorView::Transport(description) => "TransportError: "@ + description,
    }
}

impl Error {
    /// Writes the failure as it is shown in a room.
    pub fn describe(&self) -> (text: String)
        ensures
            text@ == error_text(self@),
    {
        match self {
            Error::Auth(description) => {
                let mut text = String::from_str("AuthError: ");
                text.append(description.as_str());
                text
            },
            Error::Store(description) => {
                let mut text = String::from_str("StoreError: ");
                text.append(description.as_str());
                text
            },
            Error::RemoteApi(description) => {
                let mut text = String::from_str("RemoteApiError: ");
                text.append(description.as_str());
                text
            },
            Error::Transport(description) => {
                let mut text = String::from_str("TransportError: ");
                text.append(description.as_str());
                text
            },
        }
    }
}

/// Where the relay stands in a room.
#[derive(Clone, Copy, Debug)]
pub enum Membership {
    Invited,
    Joined,
    Left,
}

/// A message event as it comes from a room.
#[derive(Clone, Debug)]
pub struct RoomMessage {
    pub sender: String,
    pub room_id: String,
    pub event_id: String,
    /// Where the relay stands in the room the message came from.
    pub membership: Membership,
    /// The message's text; `None` for a message that is not plain text.
    pub body: Option<String>,
}

} // verus!
