//! The two kinds of record that the relay keeps in its key-value store.
//!
//! Both are kept under the chat user's identifier, each kind in a partition
//! of its own. A record is found by the exact key or not at all.

use vstd::prelude::*;

verus! {

/// The credentials of one login to the chat service, kept so that the next
/// start can go on with it instead of logging in again.
#[derive(Clone, Debug)]
pub struct Session {
    pub access_token: String,
    pub device_id: String,
}

/// A [`Session`] as plain text.
pub ghost struct SessionView {
    pub access_token: Seq<char>,
    pub device_id: Seq<char>,
}

impl View for Session {
    type V = SessionView;

    open spec fn view(&self) -> SessionView {
        SessionView { access_token: self.access_token@, device_id: self.device_id@ }
    }
}

/// The link between a chat user and a pool account: the account's API token
/// and the room in which the user subscribed.
#[derive(Clone, Debug)]
pub struct User {
    pub room_id: String,
    pub token: String,
}

/// A [`User`] as plain text.
pub ghost struct UserView {
    pub room_id: Seq<char>,
    pub token: Seq<char>,
}

impl View for User {
    type V = UserView;

    open spec fn view(&self) -> UserView {
        UserView { room_id: self.room_id@, token: self.token@ }
    }
}

/// The view of a record that may be missing.
pub open spec fn found_user(found: Option<User>) -> Option<UserView> {
    match found {
        Some(user) => Some(user@),
        None => None,
    }
}

/// The view of a session record that may be missing.
pub open spec fn found_session(found: Option<Session>) -> Option<SessionView> {
    match found {
        Some(session) => Some(session@),
        None => None,
    }
}

/// The name of the partition that holds the [`User`] records.
pub const USER_CF: &'static str = "user";

/// The name of the partition that holds the [`Session`] records.
pub const SESSION_CF: &'static str = "session";

impl User {
    /// Whether this subscription was made in the room `room_id`.
    pub fn is_in_room(&self, room_id: &str) -> (same: bool)
        ensures
            same == (self.room_id@ == room_id@),
    {
        crate::text::same_text(self.room_id.as_str(), room_id)
    }
}

} // verus!
