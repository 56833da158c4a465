//! The contacts of an account and their chat histories.

use vstd::prelude::*;
use super::id::Id;
use super::message::{utc_now, Content, Message, Stamp};
use super::Status;

verus! {

/// The bare JID that names a contact.
pub type ContactId = Id;

/// The abstract value of a [`Contact`].
pub struct ContactView {
    pub jid: Seq<char>,
    pub status: Status,
    pub chat_history: Seq<Message>,
}

/// A contact: its bare JID, its presence and the messages exchanged with it,
/// oldest first.
#[derive(Debug)]
pub struct Contact {
    jid: ContactId,
    status: Status,
    pub chat_history: Vec<Message>,
}

impl View for Contact {
    type V = ContactView;

    closed spec fn view(&self) -> ContactView {
        ContactView { jid: self.jid@, status: self.status, chat_history: self.chat_history@ }
    }
}

impl Contact {
    pub fn new(jid: ContactId, status: Status, chat_history: Vec<Message>) -> (res: Self)
        ensures
            res@ == (ContactView { jid: jid@, status, chat_history: chat_history@ }),
    {
        Self { jid, status, chat_history }
    }

    pub fn jid(&self) -> (res: &Id)
        ensures
            res@ == self@.jid,
    {
        &self.jid
    }

    pub fn status(&self) -> (res: &Status)
        ensures
            *res == self@.status,
    {
        &self.status
    }

    pub fn set_status(&mut self, status: Status)
        ensures
            final(self)@ == (ContactView { status, ..old(self)@ }),
    {
        self.status = status;
    }

    pub fn clear_chat_history(&mut self)
        ensures
            final(self)@ == (ContactView { chat_history: Seq::empty(), ..old(self)@ }),
    {
        self.chat_history.clear()
    }

    /// Appends a text message stamped with `stamp`.
    pub fn new_text_at(&mut self, text: String, by_me: bool, stamp: Stamp)
        ensures
            final(self)@ == (ContactView {
                chat_history: old(self)@.chat_history.push(
                    Message { content: Content::Text(text), by_me, stamp },
                ),
                ..old(self)@
            }),
    {
        self.chat_history.push(Message::new_text(text, by_me, stamp));
    }

    /// Appends a text message stamped with the current time.
    pub fn new_text(&mut self, text: String, by_me: bool)
        ensures
            exists|stamp: Stamp|
                stamp.nanos < 2_000_000_000 && final(self)@ == (ContactView {
                    chat_history: old(self)@.chat_history.push(
                        Message { content: Content::Text(text), by_me, stamp },
                    ),
                    ..old(self)@
                }),
    {
        let stamp = utc_now();
        self.new_text_at(text, by_me, stamp);
    }
}

impl Clone for Contact {
    fn clone(&self) -> (res: Self)
        ensures
            res@ == self@,
    {
        let n = self.chat_history.len();
        let mut chats: Vec<Message> = Vec::new();
        let mut i: usize = 0;
        while i < n
            invariant
                n == self.chat_history@.len(),
                i <= n,
                chats@ == self.chat_history@.subrange(0, i as int),
            decreases n - i,
        {
            chats.push(self.chat_history[i].clone());
            i = i + 1;
            assert(chats@ =~= self.chat_history@.subrange(0, i as int));
        }
        assert(chats@ =~= self.chat_history@);
        Contact { jid: self.jid.clone(), status: self.status.clone(), chat_history: chats }
    }
}

} // verus!
