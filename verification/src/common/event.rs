//! The events that pass between the user interface and the backend.

use vstd::prelude::*;
use super::account::{Account, AccountId};
use super::contact::{Contact, ContactId};
use super::id::{Id, Jid};
use super::message::Stamp;
use super::Status;

verus! {

/// What the user interface asks of the backend.
///
/// A freshly logged-in client travels beside `NewXmppClient` outside this
/// crate: the variant holds what the backend decides on.
#[derive(Debug, Clone)]
pub enum UiEvent {
    DisconnectAccount(AccountId),
    NewContact(AccountId, ContactId),
    NewTextMessage { from: Jid, to: Id, content: String },
    NewText { from: AccountId, to: ContactId, content: String },
    NewXmppClient { jid: Jid, password: String },
}

/// What the backend tells the user interface.
#[derive(Debug, Clone)]
pub enum BackendEvent {
    Account(AccountId, Account),
    AccountStatusUpdate(AccountId, Status),
    Contacts(Vec<(AccountId, ContactId, Contact)>),
    Contact { account: AccountId, contact: ContactId, chats: Vec<(bool, String)> },
    Message { to: Id, from: Id, body: String, by_me: bool, timestamp: Stamp, id: Option<String> },
}

} // verus!
