//! A contact whose status has no resource.

use vstd::prelude::*;
use crate::common::id::Id;
use crate::common::message::{utc_now, Content, Message, Stamp};
use super::Status;

verus! {

/// The bare JID that names a contact.
pub type ContactId = Id;

/// A contact: its bare JID, its presence and the messages exchanged with it,
/// oldest first.
#[derive(Debug)]
pub struct Contact {
    jid: ContactId,
    status: Status,
    pub chat_history: Vec<Message>,
}

/// The abstract value of a [`Contact`].
pub struct ContactView {
    pub jid: Seq<char>,
    pub status: Status,
    pub chat_history: Seq<Message>,
}

impl View for Contact {
    type V = ContactView;

    closed spec fn view(&self) -> ContactView {
        ContactView { jid: self.jid@, status: self.status, chat_history: self.chat_history@ }
    }
}

impl Contact {
    /// The view holds the JID, the status and the history.
    pub proof fn lemma_view(&self)
        ensures
            self@ == (ContactView { jid: self.spec_jid(), status: self.spec_status(), chat_history: self.spec_history() }),
    {
    }

    /// The bare JID of the contact.
    pub closed spec fn spec_jid(&self) -> Seq<char> {
        self.jid@
    }

    /// The messages exchanged with the contact, oldest first.
    pub closed spec fn spec_history(&self) -> Seq<Message> {
        self.chat_history@
    }

    /// The presence of the contact.
    pub closed spec fn spec_status(&self) -> Status {
        self.status
    }

    pub fn new(jid: ContactId, status: Status, chat_history: Vec<Message>) -> (res: Self)
        ensures
            res.spec_jid() == jid@,
            res.spec_status() == status,
            res.spec_history() == chat_history@,
    {
        Self { jid, status, chat_history }
    }

    pub fn jid(&self) -> (res: &Id)
        ensures
            res@ == self.spec_jid(),
    {
        &self.jid
    }

    pub fn status(&self) -> (res: &Status)
        ensures
            *res == self.spec_status(),
    {
        &self.status
    }

    pub fn set_status(&mut self, status: Status)
        ensures
            final(self).spec_status() == status,
            final(self).spec_jid() == old(self).spec_jid(),
            final(self).spec_history() == old(self).spec_history(),
    {
        self.status = status;
    }

    pub fn clear_chat_history(&mut self)
        ensures
            final(self).spec_history() == Seq::<Message>::empty(),
            final(self).spec_jid() == old(self).spec_jid(),
            final(self).spec_status() == old(self).spec_status(),
    {
        self.chat_history.clear()
    }

    /// Appends a text message stamped with `stamp`.
    pub fn new_text_at(&mut self, text: String, by_me: bool, stamp: Stamp)
        ensures
            final(self)@ == (ContactView {
                chat_history: old(self)@.chat_history.push(Message { content: Content::Text(text), by_me, stamp }),
                ..old(self)@
            }),
    {
        self.chat_history.push(Message::new_text(text, by_me, stamp));
    }

    /// Appends a text message stamped with the current time.
    pub fn new_text(&mut self, text: String, by_me: bool)
        ensures
            exists|stamp: Stamp|
                stamp.nanos < 2_000_000_000 && final(self).spec_history() == old(self).spec_history().push(
                    Message { content: Content::Text(text), by_me, stamp },
                ),
            final(self).spec_jid() == old(self).spec_jid(),
            final(self).spec_status() == old(self).spec_status(),
    {
        let naive = utc_now();
        let ghost written = text;
        self.chat_history.push(Message::new_text(text, by_me, naive));
        assert(self.spec_history() == old(self).spec_history().push(
            Message { content: Content::Text(written), by_me, stamp: naive },
        ));
    }
}

impl Clone for Contact {
    fn clone(&self) -> (res: Self)
        ensures
            res@ == self@,
    {
        let n = self.chat_history.len();
        let mut chats: Vec<Message> = Vec::new();
        let mut i: usize = 0;
        while i < n
            invariant
                n == self.chat_history@.len(),
                i <= n,
                chats@ == self.chat_history@.subrange(0, i as int),
            decreases n - i,
        {
            chats.push(self.chat_history[i].clone());
            i = i + 1;
            assert(chats@ =~= self.chat_history@.subrange(0, i as int));
        }
        assert(chats@ =~= self.chat_history@);
        Contact { jid: self.jid.clone(), status: self.status, chat_history: chats }
    }
}

} // verus!
