//! The dialog in which the user adds a contact to the current account.

use vstd::prelude::*;
use crate::common::id::{bare_jid_of, Id};
use crate::common::contact::ContactId;
use crate::screen::dashboard::Effect;

verus! {

#[derive(Debug, Clone)]
pub enum Message {
    Open,
    Close,
    Submit,
    TextInputJid(String),
}

/// The abstract value of an [`AddContact`] dialog.
pub struct AddContactView {
    pub show: bool,
    pub text_input_jid: Seq<char>,
    pub error: Seq<char>,
}

/// The text shown when the typed JID is refused.
pub open spec fn invalid_jid_text() -> Seq<char> {
    "Invalid Jid"@
}

impl AddContactView {
    /// A hidden, empty dialog.
    pub open spec fn initial() -> AddContactView {
        AddContactView { show: false, text_input_jid: Seq::empty(), error: Seq::empty() }
    }

    /// The dialog closed and emptied.
    pub open spec fn closed(self) -> AddContactView {
        AddContactView { show: false, text_input_jid: Seq::empty(), error: Seq::empty() }
    }

    /// The dialog after `message`.
    pub open spec fn next(self, message: Message) -> AddContactView {
        match message {
            Message::Open => AddContactView { show: true, ..self },
            Message::Close => self.closed(),
            Message::TextInputJid(s) => AddContactView { text_input_jid: s@, ..self },
            Message::Submit => match bare_jid_of(self.text_input_jid) {
                Some(_) => self.closed(),
                None => AddContactView { error: invalid_jid_text(), ..self },
            },
        }
    }

    /// The contact that `message` adds, if any.
    pub open spec fn added(self, message: Message) -> Option<Seq<char>> {
        match message {
            Message::Submit => bare_jid_of(self.text_input_jid),
            _ => None,
        }
    }
}

/// The dialog in which the user adds a contact.
#[derive(Debug)]
pub struct AddContact {
    pub show: bool,
    pub text_input_jid: String,
    pub error: String,
}

impl View for AddContact {
    type V = AddContactView;

    open spec fn view(&self) -> AddContactView {
        AddContactView { show: self.show, text_input_jid: self.text_input_jid@, error: self.error@ }
    }
}

impl AddContact {
    /// A hidden, empty dialog.
    pub fn new() -> (res: Self)
        ensures
            res@ == AddContactView::initial(),
    {
        Self { show: false, text_input_jid: String::new(), error: String::new() }
    }

    /// Applies `message`. Gives back the effect to perform and the contact
    /// that a valid submission adds.
    pub fn update(&mut self, message: Message) -> (res: (Effect, Option<ContactId>))
        ensures
            final(self)@ == old(self)@.next(message),
            res.0 == (if message is Open { Effect::FocusNext } else { Effect::Nothing }),
            match res.1 {
                Some(c) => old(self)@.added(message) == Some(c@),
                None => old(self)@.added(message) is None,
            },
    {
        match message {
            Message::Open => {
                self.show = true;
                (Effect::FocusNext, None)
            },
            Message::Close => {
                self.close();
                (Effect::Nothing, None)
            },
            Message::TextInputJid(s) => {
                self.text_input_jid = s;
                (Effect::Nothing, None)
            },
            Message::Submit => {
                match Id::parse(self.text_input_jid.as_str()) {
                    Ok(jid) => {
                        self.close();
                        (Effect::Nothing, Some(jid))
                    },
                    Err(_) => {
                        self.error = String::from_str("Invalid Jid");
                        (Effect::Nothing, None)
                    },
                }
            },
        }
    }

    fn close(&mut self)
        ensures
            final(self)@ == old(self)@.closed(),
    {
        self.error = String::new();
        self.text_input_jid = String::new();
        self.show = false;
    }
}

} // verus!
