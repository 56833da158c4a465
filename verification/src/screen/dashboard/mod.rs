//! The dashboard: the accounts, their contacts and the open chat.
//!
//! [`State::update`] is the state machine behind the window: it takes a
//! message from the window or from the backend, changes the state, and names
//! the one effect the application is to perform next.

pub mod modal;
pub mod style;

use vstd::prelude::*;
use crate::common::{Account, AccountId, AccountView, BackendEvent, Contact, ContactId, ContactView, Status, UiEvent};
use crate::common::id::{jid_parts, Id, Jid};
use crate::common::message::{utc_now, Content, Message as ChatMessage, Stamp};
use crate::id_map::{id_texts, inner_wf, no_duplicates, IdMap};
use modal::add_account::{self, AddAccount, AddAccountView};
use modal::add_contact::{self, AddContact, AddContactView};

verus! {

/// What the application is to do after an update.
#[derive(Debug)]
pub enum Effect {
    /// Nothing.
    Nothing,
    /// Move the keyboard focus to the next input.
    FocusNext,
    /// Hand the event to the backend.
    Send(UiEvent),
    /// Log in with a new client; its outcome comes back as
    /// `LoginSuccesful` or `LoginFailed` to the account dialog.
    Login { jid: Jid, password: String },
}

/// The messages that the dashboard handles.
#[derive(Debug, Clone)]
pub enum Message {
    /// The window gained focus.
    Open,
    ThemeChanged,
    BackendEvent(BackendEvent),
    AddAccountModal(add_account::Message),
    AddContactModal(add_contact::Message),
    ChangeCurrentAccount(AccountId),
    ChangeCurrentContact(ContactId),
    InputSubmit,
    InputChanged(String),
}

/// The contacts of all accounts, keyed by account and then by contact.
pub type ContactsView = Map<Seq<char>, Map<Seq<char>, ContactView>>;

/// The contacts of account `a` (none if the account has no entry).
pub open spec fn contacts_under<V>(contacts: Map<Seq<char>, Map<Seq<char>, V>>, a: Seq<char>) -> Map<Seq<char>, V> {
    if contacts.contains_key(a) {
        contacts[a]
    } else {
        Map::empty()
    }
}

/// `contacts` where contact `c` of account `a` is `cv`; the account gets an
/// entry if it had none.
pub open spec fn with_contact<V>(
    contacts: Map<Seq<char>, Map<Seq<char>, V>>,
    a: Seq<char>,
    c: Seq<char>,
    cv: V,
) -> Map<Seq<char>, Map<Seq<char>, V>> {
    contacts.insert(a, contacts_under(contacts, a).insert(c, cv))
}

/// `contacts` after the triples of `list` were entered one after the other.
pub open spec fn apply_contacts(contacts: ContactsView, list: Seq<(AccountId, ContactId, Contact)>) -> ContactsView
    decreases list.len(),
{
    if list.len() == 0 {
        contacts
    } else {
        let last = list.last();
        with_contact(apply_contacts(contacts, list.drop_last()), last.0@, last.1@, last.2@)
    }
}

/// The account and the contact of a message from `from` to `to`: the sender
/// is the account when the message is the user's own.
pub open spec fn message_sides(to: Seq<char>, from: Seq<char>, by_me: bool) -> (Seq<char>, Seq<char>) {
    if by_me {
        (from, to)
    } else {
        (to, from)
    }
}

/// The abstract value of a [`State`].
pub struct StateView {
    pub input_value: Seq<char>,
    pub accounts: Map<Seq<char>, AccountView>,
    pub current_account: Option<Seq<char>>,
    pub contacts: ContactsView,
    pub current_contact: Option<Seq<char>>,
    pub new_message_text_input: Seq<char>,
    pub selection: Option<Seq<char>>,
    pub add_account_modal: AddAccountView,
    pub add_contact_modal: AddContactView,
}

impl StateView {
    /// Applying the backend event `e` would fail: it names an account or a
    /// contact that the state does not hold.
    pub open spec fn backend_fails(self, e: BackendEvent) -> bool {
        match e {
            BackendEvent::AccountStatusUpdate(id, _) => !self.accounts.contains_key(id@),
            BackendEvent::Message { to, from, by_me, .. } => {
                let sides = message_sides(to@, from@, by_me);
                !self.contacts.contains_key(sides.0) || !self.contacts[sides.0].contains_key(sides.1)
            },
            _ => false,
        }
    }

    /// Applying `m` would fail (the application then stops): a backend event
    /// about something unknown, a login with a text that is no JID, a new
    /// contact or a message with no current account (or contact).
    pub open spec fn fails_on(self, m: Message) -> bool {
        match m {
            Message::BackendEvent(e) => self.backend_fails(e),
            Message::AddAccountModal(am) => am is Submit && self.add_account_modal.submit_fails(),
            Message::AddContactModal(cm) => self.add_contact_modal.added(cm) is Some
                && self.current_account is None,
            Message::InputSubmit => self.current_account is None || self.current_contact is None,
            _ => false,
        }
    }

    /// The state after the backend event `e`, where a new chat message is
    /// stamped with `now`.
    pub open spec fn after_backend(self, e: BackendEvent, now: Stamp) -> StateView {
        match e {
            BackendEvent::Account(id, account) => StateView { accounts: self.accounts.insert(id@, account@), ..self },
            BackendEvent::AccountStatusUpdate(id, status) => StateView {
                accounts: self.accounts.insert(id@, AccountView { status, ..self.accounts[id@] }),
                ..self
            },
            BackendEvent::Contacts(list) => StateView { contacts: apply_contacts(self.contacts, list@), ..self },
            BackendEvent::Contact { .. } => self,
            BackendEvent::Message { to, from, body, by_me, .. } => {
                let sides = message_sides(to@, from@, by_me);
                let cv = self.contacts[sides.0][sides.1];
                StateView {
                    contacts: with_contact(
                        self.contacts,
                        sides.0,
                        sides.1,
                        ContactView {
                            chat_history: cv.chat_history.push(
                                ChatMessage { content: Content::Text(body), by_me, stamp: now },
                            ),
                            ..cv
                        },
                    ),
                    ..self
                }
            },
        }
    }

    /// `post` and `effect` are what `m` makes of `self`, a new chat message
    /// being stamped with `now`.
    pub open spec fn step(self, m: Message, now: Stamp, post: StateView, effect: Effect) -> bool {
        match m {
            Message::Open => post == self && effect == Effect::Nothing,
            Message::ThemeChanged => post == self && effect == Effect::Nothing,
            Message::BackendEvent(e) => post == self.after_backend(e, now) && effect == Effect::Nothing,
            Message::AddAccountModal(am) => {
                &&& post == (StateView {
                    add_account_modal: self.add_account_modal.next(am),
                    accounts: match am {
                        add_account::Message::LoginSuccesful(jid) => self.accounts.insert(
                            jid@.bare,
                            AccountView { id: jid@.bare, resource: jid@.resource, status: Status::Online(None) },
                        ),
                        _ => self.accounts,
                    },
                    ..self
                })
                &&& match am {
                    add_account::Message::Open => effect == Effect::FocusNext,
                    add_account::Message::Submit => effect matches Effect::Login { jid, password }
                        && jid_parts(self.add_account_modal.text_input_jid) == Some(jid@.parts())
                        && password@ == self.add_account_modal.text_input_password,
                    _ => effect == Effect::Nothing,
                }
            },
            Message::AddContactModal(cm) => match self.add_contact_modal.added(cm) {
                Some(c) => {
                    let a = self.current_account->Some_0;
                    &&& post == (StateView {
                        add_contact_modal: self.add_contact_modal.next(cm),
                        contacts: with_contact(
                            self.contacts,
                            a,
                            c,
                            ContactView { jid: c, status: Status::Offline, chat_history: Seq::empty() },
                        ),
                        ..self
                    })
                    &&& effect matches Effect::Send(UiEvent::NewContact(account, contact))
                    &&& account@ == a
                    &&& contact@ == c
                },
                None => {
                    &&& post == (StateView { add_contact_modal: self.add_contact_modal.next(cm), ..self })
                    &&& effect == (if cm is Open { Effect::FocusNext } else { Effect::Nothing })
                },
            },
            Message::ChangeCurrentAccount(id) => post == (StateView { current_account: Some(id@), ..self })
                && effect == Effect::Nothing,
            Message::ChangeCurrentContact(id) => post == (StateView { current_contact: Some(id@), ..self })
                && effect == Effect::Nothing,
            Message::InputSubmit => {
                &&& post == (StateView { new_message_text_input: Seq::empty(), ..self })
                &&& effect matches Effect::Send(UiEvent::NewText { from, to, content })
                &&& from@ == self.current_account->Some_0
                &&& to@ == self.current_contact->Some_0
                &&& content@ == self.new_message_text_input
            },
            Message::InputChanged(text) => post == (StateView { new_message_text_input: text@, ..self })
                && effect == Effect::Nothing,
        }
    }
}

/// The state of the dashboard.
pub struct State {
    input_value: String,
    accounts: IdMap<Account>,
    current_account: Option<ContactId>,
    contacts: IdMap<IdMap<Contact>>,
    current_contact: Option<ContactId>,
    new_message_text_input: String,
    selection: Option<String>,
    add_account_modal: AddAccount,
    add_contact_modal: AddContact,
}

impl View for State {
    type V = StateView;

    closed spec fn view(&self) -> StateView {
        StateView {
            input_value: self.input_value@,
            accounts: self.accounts@,
            current_account: match self.current_account {
                Some(id) => Some(id@),
                None => None,
            },
            contacts: self.contacts@,
            current_contact: match self.current_contact {
                Some(id) => Some(id@),
                None => None,
            },
            new_message_text_input: self.new_message_text_input@,
            selection: self.selection.deep_view(),
            add_account_modal: self.add_account_modal@,
            add_contact_modal: self.add_contact_modal@,
        }
    }
}

impl State {
    /// No account is held twice, nor any contact of an account.
    pub closed spec fn wf(&self) -> bool {
        &&& self.accounts.wf()
        &&& self.contacts.wf()
        &&& self.contacts.all(inner_wf())
    }

    /// A dashboard with no account, no contact and closed dialogs.
    pub fn new() -> (res: Self)
        ensures
            res.wf(),
            res@ == (StateView {
                input_value: Seq::empty(),
                accounts: Map::empty(),
                current_account: None,
                contacts: Map::empty(),
                current_contact: None,
                new_message_text_input: Seq::empty(),
                selection: None,
                add_account_modal: AddAccountView::initial(),
                add_contact_modal: AddContactView::initial(),
            }),
    {
        State {
            add_account_modal: AddAccount::new(),
            add_contact_modal: AddContact::new(),
            new_message_text_input: String::new(),
            input_value: String::new(),
            accounts: IdMap::new(),
            current_account: None,
            current_contact: None,
            contacts: IdMap::new(),
            selection: None,
        }
    }

    /// Enters `contact` under `account`, giving the account an entry if it
    /// has none.
    fn put_contact(&mut self, account: AccountId, contact: ContactId, value: Contact)
        ensures
            final(self)@ == (StateView {
                contacts: with_contact(old(self)@.contacts, account@, contact@, value@),
                ..old(self)@
            }),
            old(self).wf() ==> final(self).wf(),
    {
        let ghost target = with_contact(old(self)@.contacts, account@, contact@, value@);
        if !self.contacts.contains_key(&account) {
            let fresh: IdMap<Contact> = IdMap::new();
            self.contacts.insert(account.clone(), fresh);
        }
        let of_account = self.contacts.get_mut(&account);
        of_account.insert(contact, value);
        assert(self.contacts@ =~= target);
    }

    /// Applies an event of the backend; a new chat message is stamped with
    /// `now`.
    fn update_backend(&mut self, event: BackendEvent, now: Stamp)
        requires
            !old(self)@.backend_fails(event),
        ensures
            final(self)@ == old(self)@.after_backend(event, now),
            old(self).wf() ==> final(self).wf(),
    {
        match event {
            BackendEvent::Account(id, account) => {
                self.accounts.insert(id, account);
            },
            BackendEvent::AccountStatusUpdate(id, new_status) => {
                let account = self.accounts.get_mut(&id);
                account.set_status(new_status);
            },
            BackendEvent::Contacts(contacts) => {
                let ghost list = contacts@;
                let ghost pre = self@;
                let mut rest = contacts;
                let ghost mut done: int = 0;
                while rest.len() > 0
                    invariant
                        0 <= done <= list.len(),
                        rest@ == list.subrange(done, list.len() as int),
                        self@ == (StateView { contacts: apply_contacts(pre.contacts, list.take(done)), ..pre }),
                        old(self).wf() ==> self.wf(),
                    decreases rest@.len(),
                {
                    let (account, contact, value) = rest.remove(0);
                    self.put_contact(account, contact, value);
                    proof {
                        done = done + 1;
                        assert(list.take(done).drop_last() =~= list.take(done - 1));
                        assert(rest@ =~= list.subrange(done, list.len() as int));
                    }
                }
                assert(list.take(done) =~= list);
            },
            BackendEvent::Contact { .. } => {},
            BackendEvent::Message { to, from, body, by_me, .. } => {
                let of_account = if by_me {
                    self.contacts.get_mut(&from)
                } else {
                    self.contacts.get_mut(&to)
                };
                let contact = of_account.get_mut(if by_me { &to } else { &from });
                contact.new_text_at(body, by_me, now);
            },
        }
    }

    /// Applies `message`; a new chat message is stamped with `now`.
    pub fn update_at(&mut self, message: Message, now: Stamp) -> (res: Effect)
        requires
            !old(self)@.fails_on(message),
        ensures
            old(self)@.step(message, now, final(self)@, res),
            old(self).wf() ==> final(self).wf(),
    {
        match message {
            Message::Open => Effect::Nothing,
            Message::ThemeChanged => Effect::Nothing,
            Message::BackendEvent(event) => {
                self.update_backend(event, now);
                Effect::Nothing
            },
            Message::AddAccountModal(m) => {
                let (task, added) = self.add_account_modal.update(m);
                if let Some(jid) = added {
                    let account = Account::new(jid.clone(), Status::Online(None));
                    self.accounts.insert(Id::new(jid), account);
                }
                task
            },
            Message::AddContactModal(m) => {
                let (task, added) = self.add_contact_modal.update(m);
                match added {
                    Some(contact_jid) => {
                        let account = match &self.current_account {
                            Some(a) => a.clone(),
                            None => {
                                proof { assert(false); }
                                return task;
                            },
                        };
                        let contact = Contact::new(contact_jid.clone(), Status::Offline, Vec::new());
                        self.put_contact(account.clone(), contact_jid.clone(), contact);
                        Effect::Send(UiEvent::NewContact(account, contact_jid))
                    },
                    None => task,
                }
            },
            Message::ChangeCurrentAccount(index) => {
                self.current_account = Some(index);
                Effect::Nothing
            },
            Message::ChangeCurrentContact(jid) => {
                self.current_contact = Some(jid);
                Effect::Nothing
            },
            Message::InputSubmit => {
                let (from, to) = match (&self.current_account, &self.current_contact) {
                    (Some(a), Some(c)) => (a.clone(), c.clone()),
                    _ => {
                        proof { assert(false); }
                        return Effect::Nothing;
                    },
                };
                let content = self.new_message_text_input.clone();
                self.new_message_text_input = String::new();
                Effect::Send(UiEvent::NewText { from, to, content })
            },
            Message::InputChanged(txt) => {
                self.new_message_text_input = txt;
                Effect::Nothing
            },
        }
    }

    /// Applies `message`; a new chat message is stamped with the current
    /// time.
    pub fn update(&mut self, message: Message) -> (res: Effect)
        requires
            !old(self)@.fails_on(message),
        ensures
            exists|now: Stamp| now.nanos < 2_000_000_000 && #[trigger] old(self)@.step(message, now, final(self)@, res),
            old(self).wf() ==> final(self).wf(),
    {
        let now = utc_now();
        self.update_at(message, now)
    }

    /// Whether applying `message` would fail (see [`StateView::fails_on`]).
    pub fn fails_on(&self, message: &Message) -> (res: bool)
        ensures
            res == self@.fails_on(*message),
    {
        match message {
            Message::BackendEvent(BackendEvent::AccountStatusUpdate(id, _)) => !self.accounts.contains_key(id),
            Message::BackendEvent(BackendEvent::Message { to, from, by_me, .. }) => {
                let of_account = if *by_me {
                    self.contacts.get(from)
                } else {
                    self.contacts.get(to)
                };
                match of_account {
                    Some(m) => !m.contains_key(if *by_me { to } else { from }),
                    None => true,
                }
            },
            Message::AddAccountModal(add_account::Message::Submit) => {
                self.add_account_modal.submit_fails()
            },
            Message::AddContactModal(add_contact::Message::Submit) => {
                self.current_account.is_none() && Id::parse(self.add_contact_modal.text_input_jid.as_str()).is_ok()
            },
            Message::InputSubmit => self.current_account.is_none() || self.current_contact.is_none(),
            _ => false,
        }
    }

    /// Applies `message` unless that would fail; gives back `None`, and
    /// leaves the state as it is, if it would.
    pub fn try_update(&mut self, message: Message) -> (res: Option<Effect>)
        ensures
            res is None <==> old(self)@.fails_on(message),
            res is None ==> final(self)@ == old(self)@,
            res matches Some(effect) ==> exists|now: Stamp|
                now.nanos < 2_000_000_000 && #[trigger] old(self)@.step(message, now, final(self)@, effect),
            old(self).wf() ==> final(self).wf(),
    {
        if self.fails_on(&message) {
            None
        } else {
            Some(self.update(message))
        }
    }

    /// The current account, if one is chosen.
    pub fn current_account(&self) -> (res: Option<&Id>)
        ensures
            match res {
                Some(id) => self@.current_account == Some(id@),
                None => self@.current_account is None,
            },
    {
        self.current_account.as_ref()
    }

    /// The contact whose chat is chosen, if any.
    pub fn current_contact(&self) -> (res: Option<&Id>)
        ensures
            match res {
                Some(id) => self@.current_contact == Some(id@),
                None => self@.current_contact is None,
            },
    {
        self.current_contact.as_ref()
    }

    /// The account `id`, if the state holds it.
    pub fn account(&self, id: &Id) -> (res: Option<&Account>)
        ensures
            match res {
                Some(a) => self@.accounts.contains_key(id@) && a@ == self@.accounts[id@],
                None => !self@.accounts.contains_key(id@),
            },
    {
        self.accounts.get(id)
    }

    /// The account dialog.
    pub fn add_account_modal(&self) -> (res: &AddAccount)
        ensures
            res@ == self@.add_account_modal,
    {
        &self.add_account_modal
    }

    /// The contact dialog.
    pub fn add_contact_modal(&self) -> (res: &AddContact)
        ensures
            res@ == self@.add_contact_modal,
    {
        &self.add_contact_modal
    }

    /// The text typed into the message box.
    pub fn new_message_text_input(&self) -> (res: &str)
        ensures
            res@ == self@.new_message_text_input,
    {
        self.new_message_text_input.as_str()
    }

    /// The contacts of the current account.
    pub fn current_contacts(&self) -> (res: Option<&IdMap<Contact>>)
        ensures
            match res {
                Some(m) => self@.current_account matches Some(a) && self@.contacts.contains_key(a)
                    && m@ == self@.contacts[a],
                None => self@.current_account matches Some(a) ==> !self@.contacts.contains_key(a),
            },
    {
        match &self.current_account {
            Some(a) => self.contacts.get(a),
            None => None,
        }
    }

    /// The contact whose chat is open, if the current account holds it.
    ///
    /// An open chat needs a current account.
    pub fn current_chat(&self) -> (res: Option<&Contact>)
        requires
            self@.current_contact is Some ==> self@.current_account is Some,
        ensures
            match res {
                Some(c) => self@.current_contact matches Some(k) && self@.current_account matches Some(a)
                    && self@.contacts.contains_key(a) && self@.contacts[a].contains_key(k)
                    && c@ == self@.contacts[a][k],
                None => self@.current_contact matches Some(k) ==> (self@.current_account matches Some(a) && (
                    !self@.contacts.contains_key(a) || !self@.contacts[a].contains_key(k))),
            },
    {
        let current_contact = match &self.current_contact {
            Some(c) => c,
            None => return None,
        };
        let account_id = match &self.current_account {
            Some(a) => a,
            None => {
                proof { assert(false); }
                return None;
            },
        };
        match self.contacts.get(account_id) {
            Some(map) => map.get(current_contact),
            None => None,
        }
    }

    /// The notice shown above the message box when the current account
    /// cannot send; the box is locked exactly when there is one.
    pub open spec fn notice(self) -> Option<Seq<char>> {
        match self@.current_account {
            Some(a) => if self@.accounts.contains_key(a) {
                match self@.accounts[a].status {
                    Status::Offline => Some("You need to be online to send messages..."@),
                    Status::Connecting => Some("still connecting. you can message when you're online"@),
                    _ => None,
                }
            } else {
                None
            },
            None => None,
        }
    }

    /// The notice shown above the message box, if sending is locked.
    pub fn compose_notice(&self) -> (res: Option<String>)
        ensures
            res.deep_view() == self.notice(),
    {
        if let Some(a) = &self.current_account {
            if let Some(account) = self.accounts.get(a) {
                match account.status() {
                    Status::Offline => {
                        return Some(String::from_str("You need to be online to send messages..."));
                    },
                    Status::Connecting => {
                        return Some(String::from_str("still connecting. you can message when you're online"));
                    },
                    _ => {},
                }
            }
        }
        None
    }

    /// The two lines of the account panel shown when no chat is open: the
    /// current account and its status.
    ///
    /// The current account must be one the state holds.
    pub fn status_panel(&self) -> (res: Option<(String, String)>)
        requires
            self@.current_account matches Some(a) ==> self@.accounts.contains_key(a),
        ensures
            match res {
                Some(lines) => self@.current_account matches Some(a) && lines.0@ == a
                    && lines.1@ == "Status: "@ + self@.accounts[a].status.label(),
                None => self@.current_account is None,
            },
    {
        let id = match &self.current_account {
            Some(id) => id,
            None => return None,
        };
        let account = match self.accounts.get(id) {
            Some(a) => a,
            None => {
                proof { assert(false); }
                return None;
            },
        };
        let status = String::from_str("Status: ").concat(account.status().to_string().as_str());
        Some((id.to_string(), status))
    }

    /// The JIDs of the accounts in the order in which they came.
    pub closed spec fn account_order(&self) -> Seq<Seq<char>> {
        self.accounts.key_seq()
    }

    /// The accounts, in the order of the account panel, each with whether it
    /// is the current one.
    pub fn account_entries(&self) -> (res: Vec<(Id, bool)>)
        ensures
            res@.len() == self.account_order().len(),
            forall|i: int| 0 <= i < res@.len() ==> (#[trigger] res@[i]).0@ == self.account_order()[i]
                && res@[i].1 == (self@.current_account == Some(self.account_order()[i])),
            forall|k: Seq<char>| self@.accounts.contains_key(k) <==> #[trigger] self.account_order().contains(k),
            self.wf() ==> no_duplicates(self.account_order()),
    {
        let keys = self.accounts.keys();
        let n = keys.len();
        let mut res: Vec<(Id, bool)> = Vec::new();
        let mut i: usize = 0;
        while i < n
            invariant
                n == keys@.len(),
                id_texts(keys@) == self.account_order(),
                i <= n,
                res@.len() == i,
                forall|j: int| 0 <= j < i ==> (#[trigger] res@[j]).0@ == self.account_order()[j]
                    && res@[j].1 == (self@.current_account == Some(self.account_order()[j])),
            decreases n - i,
        {
            let id = keys[i].clone();
            let selected = match &self.current_account {
                Some(a) => a.same(&id),
                None => false,
            };
            proof { assert(id_texts(keys@)[i as int] == keys@[i as int]@); }
            res.push((id, selected));
            i = i + 1;
        }
        res
    }

    /// The contacts of the current account, in the order of the contact
    /// panel; `None` when there is no current account.
    pub fn current_contact_ids(&self) -> (res: Option<Vec<Id>>)
        ensures
            match res {
                Some(ids) => self@.current_account matches Some(a) && (forall|k: Seq<char>|
                    contacts_under(self@.contacts, a).contains_key(k) <==> #[trigger] id_texts(ids@).contains(k))
                    && (self.wf() ==> no_duplicates(id_texts(ids@))),
                None => self@.current_account is None,
            },
    {
        match &self.current_account {
            Some(a) => match self.contacts.get(a) {
                Some(m) => {
                    let ids = m.keys();
                    Some(ids)
                },
                None => {
                    let ids: Vec<Id> = Vec::new();
                    proof {
                        assert(id_texts(ids@) =~= Seq::<Seq<char>>::empty());
                    }
                    Some(ids)
                },
            },
            None => None,
        }
    }
}

/// The letter on the button of an account: the first character of its JID.
///
/// The JID must begin with an ASCII character.
pub fn account_initial(id: &Id) -> (res: String)
    requires
        id@.len() > 0,
        (id@[0] as u32) < 128,
    ensures
        res@ == id@.subrange(0, 1),
{
    String::from_str(id.as_str().substring_char(0, 1))
}

} // verus!
