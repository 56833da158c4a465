//! The dialog in which the user logs in to a new account.

use vstd::prelude::*;
use crate::common::id::{jid_parts, Jid};
use crate::backend::stanza::XmppEvent;
use crate::screen::dashboard::Effect;

verus! {

#[derive(Debug, Clone)]
pub enum Message {
    Open,
    Close,
    Submit,
    TextInputJid(String),
    TextInputPassword(String),
    LoginFailed(String),
    LoginSuccesful(Jid),
}

/// The abstract value of an [`AddAccount`] dialog.
pub struct AddAccountView {
    pub show: bool,
    pub text_input_jid: Seq<char>,
    pub text_input_password: Seq<char>,
    pub error: Seq<char>,
    pub submit_pending: bool,
}

impl AddAccountView {
    /// A hidden, empty dialog.
    pub open spec fn initial() -> AddAccountView {
        AddAccountView {
            show: false,
            text_input_jid: Seq::empty(),
            text_input_password: Seq::empty(),
            error: Seq::empty(),
            submit_pending: false,
        }
    }

    /// The dialog closed and emptied.
    pub open spec fn closed(self) -> AddAccountView {
        AddAccountView {
            show: false,
            text_input_jid: Seq::empty(),
            text_input_password: Seq::empty(),
            error: Seq::empty(),
            submit_pending: false,
        }
    }

    /// The dialog after `message`.
    pub open spec fn next(self, message: Message) -> AddAccountView {
        match message {
            Message::Open => AddAccountView { show: true, ..self },
            Message::Close => self.closed(),
            Message::TextInputJid(s) => AddAccountView { text_input_jid: s@, ..self },
            Message::TextInputPassword(s) => AddAccountView { text_input_password: s@, ..self },
            Message::Submit => AddAccountView { submit_pending: true, ..self },
            Message::LoginSuccesful(_) => self.closed(),
            Message::LoginFailed(e) => AddAccountView { error: e@, submit_pending: false, ..self },
        }
    }

    /// Submitting this dialog would fail: the typed text is no JID.
    pub open spec fn submit_fails(self) -> bool {
        jid_parts(self.text_input_jid) is None
    }
}

/// The dialog in which the user logs in to a new account.
#[derive(Debug)]
pub struct AddAccount {
    pub show: bool,
    pub text_input_jid: String,
    pub text_input_password: String,
    error: String,
    submit_pending: bool,
}

impl View for AddAccount {
    type V = AddAccountView;

    closed spec fn view(&self) -> AddAccountView {
        AddAccountView {
            show: self.show,
            text_input_jid: self.text_input_jid@,
            text_input_password: self.text_input_password@,
            error: self.error@,
            submit_pending: self.submit_pending,
        }
    }
}

impl AddAccount {
    /// A hidden, empty dialog.
    pub fn new() -> (res: Self)
        ensures
            res@ == AddAccountView::initial(),
    {
        Self {
            show: false,
            text_input_jid: String::new(),
            text_input_password: String::new(),
            error: String::new(),
            submit_pending: false,
        }
    }

    /// The error text shown under the inputs.
    pub fn error(&self) -> (res: &str)
        ensures
            res@ == self@.error,
    {
        self.error.as_str()
    }

    /// Whether a login is under way (the inputs are then locked).
    pub fn submit_pending(&self) -> (res: bool)
        ensures
            res == self@.submit_pending,
    {
        self.submit_pending
    }

    /// Whether submitting now would fail: the typed text is no JID.
    pub fn submit_fails(&self) -> (res: bool)
        ensures
            res == self@.submit_fails(),
    {
        Jid::parse(self.text_input_jid.as_str()).is_err()
    }

    /// Applies `message`. Gives back the effect to perform and the JID of the
    /// account whose login succeeded.
    ///
    /// A submission needs a text that is a JID.
    pub fn update(&mut self, message: Message) -> (res: (Effect, Option<Jid>))
        requires
            message is Submit ==> !old(self)@.submit_fails(),
        ensures
            final(self)@ == old(self)@.next(message),
            match message {
                Message::Open => res.0 == Effect::FocusNext && res.1 is None,
                Message::Submit => res.1 is None && (res.0 matches Effect::Login { jid, password }
                    && jid_parts(old(self)@.text_input_jid) == Some(jid@.parts())
                    && password@ == old(self)@.text_input_password),
                Message::LoginSuccesful(jid) => res.0 == Effect::Nothing && res.1 == Some(jid),
                _ => res.0 == Effect::Nothing && res.1 is None,
            },
    {
        match message {
            Message::Open => {
                self.show = true;
                (Effect::FocusNext, None)
            },
            Message::Close => {
                self.close();
                (Effect::Nothing, None)
            },
            Message::TextInputJid(s) => {
                self.text_input_jid = s;
                (Effect::Nothing, None)
            },
            Message::TextInputPassword(s) => {
                self.text_input_password = s;
                (Effect::Nothing, None)
            },
            Message::Submit => {
                self.submit_pending = true;
                let jid = match Jid::parse(self.text_input_jid.as_str()) {
                    Ok(jid) => jid,
                    Err(_) => {
                        proof { assert(false); }
                        return (Effect::Nothing, None);
                    },
                };
                let password = self.text_input_password.clone();
                (Effect::Login { jid, password }, None)
            },
            Message::LoginSuccesful(jid) => {
                self.close();
                (Effect::Nothing, Some(jid))
            },
            Message::LoginFailed(err) => {
                self.error = err;
                self.submit_pending = false;
                (Effect::Nothing, None)
            },
        }
    }

    fn close(&mut self)
        ensures
            final(self)@ == old(self)@.closed(),
    {
        self.text_input_jid = String::new();
        self.text_input_password = String::new();
        self.submit_pending = false;
        self.error = String::new();
        self.show = false;
    }
}

/// What the first event of a new client's connection says of the login: the
/// JID that the server bound, or why the connection failed. A stanza cannot
/// come before the connection is up.
pub fn login_outcome(first: XmppEvent) -> (res: Result<Jid, String>)
    requires
        !(first is Stanza),
    ensures
        match first {
            XmppEvent::Online { bound_jid, .. } => res == Ok::<Jid, String>(bound_jid),
            XmppEvent::Disconnected(reason) => res == Err::<Jid, String>(reason),
            XmppEvent::Stanza(_) => false,
        },
{
    match first {
        XmppEvent::Online { bound_jid, .. } => Ok(bound_jid),
        XmppEvent::Disconnected(reason) => Err(reason),
        XmppEvent::Stanza(_) => {
            proof { assert(false); }
            Err(String::new())
        },
    }
}

} // verus!
