//! The first form of the dashboard: accounts keep their full JID, and more
//! messages exist than are handled (those are only reported).

use vstd::prelude::*;
use crate::common::id::{jid_parts, Id, Jid};
use crate::common::message::{utc_now, Content, Message as ChatMessage, Stamp};
use crate::core_model::{Account, AccountId, AccountView, BackendEvent, Contact, ContactId, ContactView, Status, UiEvent};
use crate::id_map::{inner_wf, IdMap};
use crate::screen::dashboard::{message_sides, with_contact, Effect as ScreenEffect};
use crate::screen::dashboard::modal::add_account::{self, AddAccount, AddAccountView};
use crate::screen::dashboard::modal::add_contact::{self, AddContact, AddContactView};

verus! {

/// What the application is to do after an update.
#[derive(Debug)]
pub enum Effect {
    /// Nothing.
    Nothing,
    /// Move the keyboard focus to the next input.
    FocusNext,
    /// Hand the event to the backend.
    Send(UiEvent),
    /// Log in with a new client.
    Login { jid: Jid, password: String },
}

/// The messages of the first dashboard.
#[derive(Debug, Clone)]
pub enum Event {
    /// The window gained focus.
    Open,
    Hi,
    ThemeChanged,
    InputChanged(String),
    InputSubmit,
    ChangeCurrentAccount(ContactId),
    ChangeCurrentContact(ContactId),
    NewAccount(Jid),
    AccountButton(u32),
    AccountOnline(Jid),
    AccountDisconnected(Jid),
    NewContact { account_id: Jid, contact_id: Jid },
    BackendEvent(BackendEvent),
    LogIn { jid: Jid, password: String },
    ShowAddContactModal,
    HideAddContectModal,
    AddContactSubmit,
    AddContactTextInput(String),
    NewMessageSubmit,
    NewMessageTextInput(String),
    AddAccountTextInput(String),
    AddAccountSubmit,
    ShowAddAccountModal,
    HideAddAccountModal,
    TextInputAccountJid(String),
    TextInputAccountPassword(String),
    SubmitAccount,
    AddAccountModal(add_account::Message),
    AddContactModal(add_contact::Message),
}

/// The contacts of all accounts, keyed by account and then by contact.
pub type ContactsView = Map<Seq<char>, Map<Seq<char>, ContactView>>;

/// `contacts` after the triples of `list` were entered one after the other.
pub open spec fn apply_contacts(contacts: ContactsView, list: Seq<(AccountId, ContactId, Contact)>) -> ContactsView
    decreases list.len(),
{
    if list.len() == 0 {
        contacts
    } else {
        let last = list.last();
        with_contact(apply_contacts(contacts, list.drop_last()), last.0@, last.1@, last.2@)
    }
}

/// The abstract value of a [`State`].
pub struct StateView {
    pub input_value: Seq<char>,
    pub accounts: Map<Seq<char>, AccountView>,
    pub current_account: Option<Seq<char>>,
    pub current_contact: Option<Seq<char>>,
    pub contacts: ContactsView,
    pub new_message_text_input: Seq<char>,
    pub add_account_modal: AddAccountView,
    pub add_contact_modal: AddContactView,
}

impl StateView {
    /// Applying the backend event `e` would fail: it names an account or a
    /// contact that the state does not hold, or it is a `Contact` event,
    /// which this dashboard does not implement.
    pub open spec fn backend_fails(self, e: BackendEvent) -> bool {
        match e {
            BackendEvent::AccountOnline(id, _) => !self.accounts.contains_key(id@),
            BackendEvent::AccountStatusUpdate(id, _) => !self.accounts.contains_key(id@),
            BackendEvent::Contact { .. } => true,
            BackendEvent::Message { to, from, by_me, .. } => {
                let sides = message_sides(to@, from@, by_me);
                !self.contacts.contains_key(sides.0) || !self.contacts[sides.0].contains_key(sides.1)
            },
            _ => false,
        }
    }

    /// Applying `m` would fail (the application then stops).
    pub open spec fn fails_on(self, m: Event) -> bool {
        match m {
            Event::BackendEvent(e) => self.backend_fails(e),
            Event::AddAccountModal(am) => am is Submit && self.add_account_modal.submit_fails(),
            Event::AddContactModal(cm) => self.add_contact_modal.added(cm) is Some && self.current_account is None,
            Event::NewMessageSubmit => self.current_account is None || self.current_contact is None,
            _ => false,
        }
    }

    /// The state after the backend event `e`, where a new chat message is
    /// stamped with `now`.
    pub open spec fn after_backend(self, e: BackendEvent, now: Stamp) -> StateView {
        match e {
            BackendEvent::Account(id, account) => StateView { accounts: self.accounts.insert(id@, account@), ..self },
            BackendEvent::AccountOnline(id, new_jid) => StateView {
                accounts: self.accounts.insert(id@, AccountView { jid: new_jid@, status: Status::Online }),
                ..self
            },
            BackendEvent::AccountStatusUpdate(id, status) => StateView {
                accounts: self.accounts.insert(id@, AccountView { status, ..self.accounts[id@] }),
                ..self
            },
            BackendEvent::Contacts(list) => StateView { contacts: apply_contacts(self.contacts, list@), ..self },
            BackendEvent::Contact { .. } => self,
            BackendEvent::Message { to, from, body, by_me, .. } => {
                let sides = message_sides(to@, from@, by_me);
                let cv = self.contacts[sides.0][sides.1];
                StateView {
                    contacts: with_contact(
                        self.contacts,
                        sides.0,
                        sides.1,
                        ContactView {
                            chat_history: cv.chat_history.push(
                                ChatMessage { content: Content::Text(body), by_me, stamp: now },
                            ),
                            ..cv
                        },
                    ),
                    ..self
                }
            },
        }
    }

    /// `post` and `effect` are what `m` makes of `self`, a new chat message
    /// being stamped with `now`. Messages not listed here change nothing.
    pub open spec fn step(self, m: Event, now: Stamp, post: StateView, effect: Effect) -> bool {
        match m {
            Event::BackendEvent(e) => post == self.after_backend(e, now) && effect == Effect::Nothing,
            Event::AddAccountModal(am) => {
                &&& post == (StateView {
                    add_account_modal: self.add_account_modal.next(am),
                    accounts: match am {
                        add_account::Message::LoginSuccesful(jid) => self.accounts.insert(
                            jid@.bare,
                            AccountView { jid: jid@, status: Status::Online },
                        ),
                        _ => self.accounts,
                    },
                    ..self
                })
                &&& match am {
                    add_account::Message::Open => effect == Effect::FocusNext,
                    add_account::Message::Submit => effect matches Effect::Login { jid, password }
                        && jid_parts(self.add_account_modal.text_input_jid) == Some(jid@.parts())
                        && password@ == self.add_account_modal.text_input_password,
                    _ => effect == Effect::Nothing,
                }
            },
            Event::AddContactModal(cm) => match self.add_contact_modal.added(cm) {
                Some(c) => {
                    let a = self.current_account->Some_0;
                    &&& post == (StateView {
                        add_contact_modal: self.add_contact_modal.next(cm),
                        contacts: with_contact(
                            self.contacts,
                            a,
                            c,
                            ContactView { jid: c, status: Status::Offline, chat_history: Seq::empty() },
                        ),
                        ..self
                    })
                    &&& effect matches Effect::Send(UiEvent::NewContact(account, contact))
                    &&& account@ == a
                    &&& contact@ == c
                },
                None => {
                    &&& post == (StateView { add_contact_modal: self.add_contact_modal.next(cm), ..self })
                    &&& effect == (if cm is Open { Effect::FocusNext } else { Effect::Nothing })
                },
            },
            Event::ChangeCurrentAccount(id) => post == (StateView { current_account: Some(id@), ..self })
                && effect == Effect::Nothing,
            Event::ChangeCurrentContact(id) => post == (StateView { current_contact: Some(id@), ..self })
                && effect == Effect::Nothing,
            Event::NewMessageSubmit => {
                &&& post == (StateView { new_message_text_input: Seq::empty(), ..self })
                &&& effect matches Effect::Send(UiEvent::NewText { from, to, content })
                &&& from@ == self.current_account->Some_0
                &&& to@ == self.current_contact->Some_0
                &&& content@ == self.new_message_text_input
            },
            Event::NewMessageTextInput(text) => post == (StateView { new_message_text_input: text@, ..self })
                && effect == Effect::Nothing,
            _ => post == self && effect == Effect::Nothing,
        }
    }
}

/// The state of the first dashboard.
pub struct State {
    pub input_value: String,
    accounts: IdMap<Account>,
    current_account: Option<ContactId>,
    current_contact: Option<ContactId>,
    contacts: IdMap<IdMap<Contact>>,
    new_message_text_input: String,
    add_account_modal: AddAccount,
    add_contact_modal: AddContact,
}

impl View for State {
    type V = StateView;

    closed spec fn view(&self) -> StateView {
        StateView {
            input_value: self.input_value@,
            accounts: self.accounts@,
            current_account: match self.current_account {
                Some(id) => Some(id@),
                None => None,
            },
            current_contact: match self.current_contact {
                Some(id) => Some(id@),
                None => None,
            },
            contacts: self.contacts@,
            new_message_text_input: self.new_message_text_input@,
            add_account_modal: self.add_account_modal@,
            add_contact_modal: self.add_contact_modal@,
        }
    }
}

/// The effect of a dialog, as an effect of this dashboard.
fn from_dialog(effect: ScreenEffect) -> (res: Effect)
    requires
        !(effect is Send),
    ensures
        match effect {
            ScreenEffect::Nothing => res == Effect::Nothing,
            ScreenEffect::FocusNext => res == Effect::FocusNext,
            ScreenEffect::Login { jid, password } => res == (Effect::Login { jid, password }),
            ScreenEffect::Send(_) => false,
        },
{
    match effect {
        ScreenEffect::Nothing => Effect::Nothing,
        ScreenEffect::FocusNext => Effect::FocusNext,
        ScreenEffect::Login { jid, password } => Effect::Login { jid, password },
        ScreenEffect::Send(_) => {
            proof { assert(false); }
            Effect::Nothing
        },
    }
}

impl State {
    /// No account is held twice, nor any contact of an account.
    pub closed spec fn wf(&self) -> bool {
        &&& self.accounts.wf()
        &&& self.contacts.wf()
        &&& self.contacts.all(inner_wf())
    }

    /// A dashboard with no account, no contact and closed dialogs.
    pub fn new() -> (res: Self)
        ensures
            res.wf(),
            res@ == (StateView {
                input_value: Seq::empty(),
                accounts: Map::empty(),
                current_account: None,
                current_contact: None,
                contacts: Map::empty(),
                new_message_text_input: Seq::empty(),
                add_account_modal: AddAccountView::initial(),
                add_contact_modal: AddContactView::initial(),
            }),
    {
        State {
            add_account_modal: AddAccount::new(),
            add_contact_modal: AddContact::new(),
            new_message_text_input: String::new(),
            input_value: String::new(),
            accounts: IdMap::new(),
            current_account: None,
            current_contact: None,
            contacts: IdMap::new(),
        }
    }

    fn put_contact(&mut self, account: AccountId, contact: ContactId, value: Contact)
        ensures
            final(self)@ == (StateView {
                contacts: with_contact(old(self)@.contacts, account@, contact@, value@),
                ..old(self)@
            }),
            old(self).wf() ==> final(self).wf(),
    {
        let ghost target = with_contact(old(self)@.contacts, account@, contact@, value@);
        if !self.contacts.contains_key(&account) {
            let fresh: IdMap<Contact> = IdMap::new();
            self.contacts.insert(account.clone(), fresh);
        }
        let of_account = self.contacts.get_mut(&account);
        of_account.insert(contact, value);
        assert(self.contacts@ =~= target);
    }

    fn update_backend(&mut self, event: BackendEvent, now: Stamp)
        requires
            !old(self)@.backend_fails(event),
        ensures
            final(self)@ == old(self)@.after_backend(event, now),
            old(self).wf() ==> final(self).wf(),
    {
        match event {
            BackendEvent::Account(id, account) => {
                self.accounts.insert(id, account);
            },
            BackendEvent::AccountOnline(id, new_jid) => {
                let account = self.accounts.get_mut(&id);
                account.set_status(Status::Online);
                account.set_jid(new_jid);
            },
            BackendEvent::AccountStatusUpdate(id, new_status) => {
                let account = self.accounts.get_mut(&id);
                account.set_status(new_status);
            },
            BackendEvent::Contacts(contacts) => {
                let ghost list = contacts@;
                let ghost pre = self@;
                let mut rest = contacts;
                let ghost mut done: int = 0;
                while rest.len() > 0
                    invariant
                        0 <= done <= list.len(),
                        rest@ == list.subrange(done, list.len() as int),
                        self@ == (StateView { contacts: apply_contacts(pre.contacts, list.take(done)), ..pre }),
                        old(self).wf() ==> self.wf(),
                    decreases rest@.len(),
                {
                    let (account, contact, value) = rest.remove(0);
                    self.put_contact(account, contact, value);
                    proof {
                        done = done + 1;
                        assert(list.take(done).drop_last() =~= list.take(done - 1));
                        assert(rest@ =~= list.subrange(done, list.len() as int));
                    }
                }
                assert(list.take(done) =~= list);
            },
            BackendEvent::Contact { .. } => {
                proof { assert(false); }
            },
            BackendEvent::Message { to, from, body, by_me, .. } => {
                let of_account = if by_me {
                    self.contacts.get_mut(&from)
                } else {
                    self.contacts.get_mut(&to)
                };
                let contact = of_account.get_mut(if by_me { &to } else { &from });
                contact.new_text_at(body, by_me, now);
            },
        }
    }

    /// Applies `message`; a new chat message is stamped with `now`.
    pub fn update_at(&mut self, message: Event, now: Stamp) -> (res: Effect)
        requires
            !old(self)@.fails_on(message),
        ensures
            old(self)@.step(message, now, final(self)@, res),
            old(self).wf() ==> final(self).wf(),
    {
        match message {
            Event::AddAccountModal(m) => {
                let (task, added) = self.add_account_modal.update(m);
                if let Some(jid) = added {
                    let account = Account::new(jid.clone(), Status::Online);
                    self.accounts.insert(Id::new(jid), account);
                }
                from_dialog(task)
            },
            Event::AddContactModal(m) => {
                let (task, added) = self.add_contact_modal.update(m);
                match added {
                    Some(contact_jid) => {
                        let account = match &self.current_account {
                            Some(a) => a.clone(),
                            None => {
                                proof { assert(false); }
                                return Effect::Nothing;
                            },
                        };
                        let contact = Contact::new(contact_jid.clone(), Status::Offline, Vec::new());
                        proof { contact.lemma_view(); }
                        self.put_contact(account.clone(), contact_jid.clone(), contact);
                        Effect::Send(UiEvent::NewContact(account, contact_jid))
                    },
                    None => from_dialog(task),
                }
            },
            Event::BackendEvent(backend_event) => {
                self.update_backend(backend_event, now);
                Effect::Nothing
            },
            Event::ChangeCurrentAccount(index) => {
                self.current_account = Some(index);
                Effect::Nothing
            },
            Event::ChangeCurrentContact(jid) => {
                self.current_contact = Some(jid);
                Effect::Nothing
            },
            Event::NewMessageSubmit => {
                let (from, to) = match (&self.current_account, &self.current_contact) {
                    (Some(a), Some(c)) => (a.clone(), c.clone()),
                    _ => {
                        proof { assert(false); }
                        return Effect::Nothing;
                    },
                };
                let content = self.new_message_text_input.clone();
                self.new_message_text_input = String::new();
                Effect::Send(UiEvent::NewText { from, to, content })
            },
            Event::NewMessageTextInput(txt) => {
                self.new_message_text_input = txt;
                Effect::Nothing
            },
            _ => Effect::Nothing,
        }
    }

    /// Applies `message`; a new chat message is stamped with the current
    /// time.
    pub fn update(&mut self, message: Event) -> (res: Effect)
        requires
            !old(self)@.fails_on(message),
        ensures
            exists|now: Stamp| now.nanos < 2_000_000_000 && #[trigger] old(self)@.step(message, now, final(self)@, res),
            old(self).wf() ==> final(self).wf(),
    {
        let now = utc_now();
        self.update_at(message, now)
    }

    /// Whether applying `message` would fail (see [`StateView::fails_on`]).
    pub fn fails_on(&self, message: &Event) -> (res: bool)
        ensures
            res == self@.fails_on(*message),
    {
        match message {
            Event::BackendEvent(BackendEvent::AccountOnline(id, _)) => !self.accounts.contains_key(id),
            Event::BackendEvent(BackendEvent::AccountStatusUpdate(id, _)) => !self.accounts.contains_key(id),
            Event::BackendEvent(BackendEvent::Contact { .. }) => true,
            Event::BackendEvent(BackendEvent::Message { to, from, by_me, .. }) => {
                let of_account = if *by_me {
                    self.contacts.get(from)
                } else {
                    self.contacts.get(to)
                };
                match of_account {
                    Some(m) => !m.contains_key(if *by_me { to } else { from }),
                    None => true,
                }
            },
            Event::AddAccountModal(add_account::Message::Submit) => self.add_account_modal.submit_fails(),
            Event::AddContactModal(add_contact::Message::Submit) => {
                self.current_account.is_none() && Id::parse(self.add_contact_modal.text_input_jid.as_str()).is_ok()
            },
            Event::NewMessageSubmit => self.current_account.is_none() || self.current_contact.is_none(),
            _ => false,
        }
    }

    /// Applies `message` unless that would fail; gives back `None`, and
    /// leaves the state as it is, if it would.
    pub fn try_update(&mut self, message: Event) -> (res: Option<Effect>)
        ensures
            res is None <==> old(self)@.fails_on(message),
            res is None ==> final(self)@ == old(self)@,
            res matches Some(effect) ==> exists|now: Stamp|
                now.nanos < 2_000_000_000 && #[trigger] old(self)@.step(message, now, final(self)@, effect),
            old(self).wf() ==> final(self).wf(),
    {
        if self.fails_on(&message) {
            None
        } else {
            Some(self.update(message))
        }
    }
}

} // verus!
