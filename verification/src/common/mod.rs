//! Data types shared between the user interface and the backend.

pub mod id;
pub mod message;
pub mod contact;
pub mod account;
pub mod event;

pub use id::{Id, Jid, JidError};
pub use message::{Content, Message, Stamp};
pub use contact::{Contact, ContactId, ContactView};
pub use account::{Account, AccountId, AccountView};
pub use event::{BackendEvent, UiEvent};

use vstd::prelude::*;

verus! {

/// A password, as typed by the user and kept in the database.
pub type Password = String;

/// The presence of an account or a contact.
#[derive(Debug, Hash)]
pub enum Status {
    /// Online; holds the resource of the JID that the server bound, if any.
    Online(Option<String>),
    Offline,
    Connecting,
    Away,
    /// Do not disturb
    Dnd,
    /// Extended Away
    Xa,
}

impl Status {
    /// The text by which the status is shown to the user.
    pub open spec fn label(&self) -> Seq<char> {
        match self {
            Status::Online(_) => "Online"@,
            Status::Offline => "Offline"@,
            Status::Connecting => "Connecting"@,
            Status::Away => "Away"@,
            Status::Dnd => "Dnd"@,
            Status::Xa => "Extended Away"@,
        }
    }

    /// The text by which the status is shown to the user.
    pub fn to_string(&self) -> (res: String)
        ensures
            res@ == self.label(),
    {
        match self {
            Status::Online(_) => String::from_str("Online"),
            Status::Offline => String::from_str("Offline"),
            Status::Connecting => String::from_str("Connecting"),
            Status::Away => String::from_str("Away"),
            Status::Dnd => String::from_str("Dnd"),
            Status::Xa => String::from_str("Extended Away"),
        }
    }

    /// Whether both are the same status, with the same resource if online.
    pub open spec fn same(&self, other: &Status) -> bool {
        match (self, other) {
            (Status::Online(a), Status::Online(b)) => a.deep_view() == b.deep_view(),
            (Status::Offline, Status::Offline) => true,
            (Status::Connecting, Status::Connecting) => true,
            (Status::Away, Status::Away) => true,
            (Status::Dnd, Status::Dnd) => true,
            (Status::Xa, Status::Xa) => true,
            _ => false,
        }
    }
}

impl Clone for Status {
    fn clone(&self) -> (res: Self)
        ensures
            res == *self,
    {
        match self {
            Status::Online(r) => Status::Online(
                match r {
                    Some(s) => Some(s.clone()),
                    None => None,
                },
            ),
            Status::Offline => Status::Offline,
            Status::Connecting => Status::Connecting,
            Status::Away => Status::Away,
            Status::Dnd => Status::Dnd,
            Status::Xa => Status::Xa,
        }
    }
}

impl PartialEq for Status {
    fn eq(&self, other: &Status) -> (res: bool) {
        match (self, other) {
            (Status::Online(a), Status::Online(b)) => match (a, b) {
                (Some(x), Some(y)) => *x == *y,
                (None, None) => true,
                _ => false,
            },
            (Status::Offline, Status::Offline) => true,
            (Status::Connecting, Status::Connecting) => true,
            (Status::Away, Status::Away) => true,
            (Status::Dnd, Status::Dnd) => true,
            (Status::Xa, Status::Xa) => true,
            _ => false,
        }
    }
}

impl Eq for Status {
}

impl vstd::std_specs::cmp::PartialEqSpecImpl for Status {
    open spec fn obeys_eq_spec() -> bool {
        true
    }

    open spec fn eq_spec(&self, other: &Status) -> bool {
        self.same(other)
    }
}

} // verus!
