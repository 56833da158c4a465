//! The first form of the shared data types, in which an account keeps its
//! full JID and a status has no resource.

pub mod account;
pub mod contact;
pub mod event;

pub use account::{Account, AccountId, AccountView};
pub use contact::{Contact, ContactId, ContactView};
pub use event::{BackendEvent, UiEvent};
pub use crate::common::id::Id;

use vstd::prelude::*;

verus! {

/// The presence of an account or a contact.
#[derive(Debug, Clone, Copy, PartialEq, Eq, Structural, Hash)]
pub enum Status {
    Online,
    Offline,
    Connecting,
}

} // verus!
