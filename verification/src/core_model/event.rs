//! The first form of the events between the user interface and the backend.

use vstd::prelude::*;
use crate::common::id::{Id, Jid};
use crate::common::message::Stamp;
use super::{Account, AccountId, Contact, ContactId, Status};

verus! {

/// What the user interface asks of the backend.
///
/// The client of `NewXmppClient` and `NewXmppClientt` travels beside the
/// event, outside this crate.
#[derive(Debug)]
pub enum UiEvent {
    Ping,
    RequestContacts(AccountId),
    DisconnectAccount(AccountId),
    NewContact(AccountId, ContactId),
    NewTextMessage { from: Jid, to: Id, content: String },
    NewText { from: Id, to: Id, content: String },
    NewAccount { jid: Jid, password: String },
    NewXmppClient { jid: Jid, password: String },
    NewXmppClientt(Jid),
}

/// What the backend tells the user interface.
#[derive(Debug, Clone)]
pub enum BackendEvent {
    AccountOnline(AccountId, Jid),
    Account(AccountId, Account),
    AccountStatusUpdate(ContactId, Status),
    Contacts(Vec<(AccountId, ContactId, Contact)>),
    Contact { account: AccountId, contact: ContactId, chats: Vec<(bool, String)> },
    Message { to: Id, from: Id, body: String, by_me: bool, timestamp: Stamp },
}

} // verus!
