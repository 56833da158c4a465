//! The decisions of the backend.
//!
//! The backend holds one connection per account and reacts to two sources:
//! the events of the connections and the requests of the user interface.
//! The functions here decide what is to be done, as a list of [`Action`]s
//! that the application performs in order (sending stanzas, writing the
//! database, telling the user interface).

pub mod db;
pub mod stanza;

use vstd::prelude::*;
use crate::common::{Account, AccountId, AccountView, BackendEvent, Contact, ContactId, ContactView, Password, Status, UiEvent};
use crate::common::id::{Id, Jid};
use crate::common::message::{utc_now, Content, Message, Stamp};
use crate::id_map::IdMap;
use stanza::{make_presence, new_text_stanza, IncomingMessage, OutgoingMessage, OutgoingPresence, Stanza, XmppEvent};

verus! {

/// One step that the application is to perform for the backend.
#[derive(Debug)]
pub enum Action {
    /// Send `message` on the connection of `account`.
    SendMessage { account: AccountId, message: OutgoingMessage },
    /// Send `presence` on the connection of `account`.
    SendPresence { account: AccountId, presence: OutgoingPresence },
    /// Store a text message in the database.
    StoreMessage { from: Id, to: Id, body: String, timestamp: Stamp },
    /// Store a contact of an account in the database.
    StoreContact { account: AccountId, contact: ContactId },
    /// Store an account in the database.
    StoreAccount { id: AccountId, resource: Option<String>, password: Password },
    /// Take the connection of the client that logged in as `id` into the
    /// backend: its sink for sending, its events for receiving.
    AttachClient { id: AccountId },
    /// Tell the user interface.
    Emit(BackendEvent),
    /// The event is not handled; it is reported in the log.
    Unhandled(UiEvent),
}

/// The actions for a request of the user interface, a new message being
/// stamped with `now`.
pub open spec fn ui_actions(event: UiEvent, now: Stamp) -> Seq<Action> {
    match event {
        UiEvent::NewText { from, to, content } => seq![
            Action::SendMessage {
                account: from,
                message: OutgoingMessage { from: Jid::bare_of(from), to: Jid::bare_of(to), body: content },
            },
            Action::StoreMessage { from, to, body: content, timestamp: now },
            Action::Emit(BackendEvent::Message { to, from, body: content, by_me: true, timestamp: now, id: None }),
        ],
        UiEvent::NewContact(account, contact) => seq![Action::StoreContact { account, contact }],
        UiEvent::NewXmppClient { .. } => Seq::empty(),
        other => seq![Action::Unhandled(other)],
    }
}

/// The body of `message` in the default language, if it has one.
pub open spec fn default_body(bodies: Seq<(String, String)>) -> Option<String>
    decreases bodies.len(),
{
    if bodies.len() == 0 {
        None
    } else if bodies[0].0@ == Seq::<char>::empty() {
        Some(bodies[0].1)
    } else {
        default_body(bodies.drop_first())
    }
}

/// Whether handling `message` would fail: it has a body but lacks a sender
/// or a recipient.
pub open spec fn message_fails(message: IncomingMessage) -> bool {
    default_body(message.bodies@) is Some && (message.from is None || message.to is None)
}

/// The actions for a received message: with a body in the default language,
/// it is stored (stamped `stored_at`) and shown (stamped `shown_at`);
/// without one, nothing is done.
pub open spec fn message_actions(message: IncomingMessage, stored_at: Stamp, shown_at: Stamp) -> Seq<Action> {
    match default_body(message.bodies@) {
        Some(body) => {
            let from = message.from->Some_0;
            let to = message.to->Some_0;
            seq![
                Action::StoreMessage { from: from.bare_id(), to: to.bare_id(), body, timestamp: stored_at },
                Action::Emit(BackendEvent::Message {
                    to: to.bare_id(),
                    from: from.bare_id(),
                    body,
                    by_me: false,
                    timestamp: shown_at,
                    id: message.id,
                }),
            ]
        },
        None => Seq::empty(),
    }
}

/// The state the backend decides on: the accounts whose connection it
/// holds.
pub struct Backend {
    client_sk: IdMap<bool>,
}

impl View for Backend {
    type V = Set<Seq<char>>;

    /// The accounts with a connection.
    closed spec fn view(&self) -> Set<Seq<char>> {
        self.client_sk@.dom()
    }
}

impl Backend {
    /// A backend with no connection.
    pub fn new() -> (res: Self)
        ensures
            res@ == Set::<Seq<char>>::empty(),
    {
        let res = Backend { client_sk: IdMap::new() };
        assert(res@ =~= Set::<Seq<char>>::empty());
        res
    }

    /// Whether the backend holds the connection of `id`.
    pub fn holds(&self, id: &Id) -> (res: bool)
        ensures
            res == self@.contains(id@),
    {
        self.client_sk.contains_key(id)
    }

    /// Takes the stored account `jid`, whose client is being connected, into
    /// the backend; gives back the event that shows it, connecting.
    pub fn load_account(&mut self, jid: Id) -> (res: BackendEvent)
        ensures
            final(self)@ == old(self)@.insert(jid@),
            res matches BackendEvent::Account(id, account) && id == jid
                && account@ == (AccountView { id: jid@, resource: None, status: Status::Connecting }),
    {
        self.client_sk.insert(jid.clone(), true);
        let account = Account::new(Jid::from_bare(&jid), Status::Connecting);
        assert(final(self)@ =~= old(self)@.insert(jid@)) by {
            assert(self.client_sk@.dom() =~= old(self).client_sk@.dom().insert(jid@));
        }
        BackendEvent::Account(jid, account)
    }

    /// Decides on a request of the user interface, as the request loop does:
    /// a new client is stored and taken in; any other request goes to
    /// [`Backend::handle_ui_event_at`]. A new message is stamped with `now`.
    ///
    /// A text can only be sent from an account with a connection.
    pub fn on_ui_event_at(&mut self, event: UiEvent, now: Stamp) -> (res: Vec<Action>)
        requires
            event matches UiEvent::NewText { from, .. } ==> old(self)@.contains(from@),
        ensures
            match event {
                UiEvent::NewXmppClient { jid, password } => {
                    &&& final(self)@ == old(self)@.insert(jid@.bare)
                    &&& res@.len() == 2
                    &&& res@[0] matches Action::StoreAccount { id, resource, password: p }
                    &&& id@ == jid@.bare && resource.deep_view() == jid@.resource && p == password
                    &&& res@[1] matches Action::AttachClient { id: a }
                    &&& a@ == jid@.bare
                },
                _ => final(self)@ == old(self)@ && res@ == ui_actions(event, now),
            },
    {
        match event {
            UiEvent::NewXmppClient { jid, password } => {
                let resource = jid.resource();
                let id = Id::new(jid);
                self.client_sk.insert(id.clone(), true);
                proof {
                    assert(final(self)@ =~= old(self)@.insert(id@));
                }
                let mut res: Vec<Action> = Vec::new();
                res.push(Action::StoreAccount { id: id.clone(), resource, password });
                res.push(Action::AttachClient { id });
                res
            },
            other => self.handle_ui_event_at(other, now),
        }
    }

    /// Decides on a request of the user interface; a new message is stamped
    /// with `now`.
    ///
    /// A text can only be sent from an account with a connection.
    pub fn handle_ui_event_at(&self, event: UiEvent, now: Stamp) -> (res: Vec<Action>)
        requires
            event matches UiEvent::NewText { from, .. } ==> self@.contains(from@),
        ensures
            res@ == ui_actions(event, now),
    {
        let mut res: Vec<Action> = Vec::new();
        match event {
            UiEvent::NewText { from, to, content } => {
                let msg = new_text_stanza(Jid::from_bare(&from), Jid::from_bare(&to), content.clone());
                res.push(Action::SendMessage { account: from.clone(), message: msg });
                res.push(Action::StoreMessage { from: from.clone(), to: to.clone(), body: content.clone(), timestamp: now });
                res.push(Action::Emit(BackendEvent::Message { to, from, body: content, by_me: true, timestamp: now, id: None }));
            },
            UiEvent::NewContact(id, c_id) => {
                res.push(Action::StoreContact { account: id, contact: c_id });
            },
            UiEvent::NewXmppClient { .. } => {},
            other => {
                res.push(Action::Unhandled(other));
            },
        }
        assert(res@ =~= ui_actions(event, now));
        res
    }

    /// Decides on a request of the user interface, a new message being
    /// stamped with the current time.
    ///
    /// A text can only be sent from an account with a connection.
    pub fn on_ui_event(&mut self, event: UiEvent) -> (res: Vec<Action>)
        requires
            event matches UiEvent::NewText { from, .. } ==> old(self)@.contains(from@),
        ensures
            match event {
                UiEvent::NewXmppClient { jid, password } => {
                    &&& final(self)@ == old(self)@.insert(jid@.bare)
                    &&& res@.len() == 2
                    &&& res@[0] matches Action::StoreAccount { id, resource, password: p }
                    &&& id@ == jid@.bare && resource.deep_view() == jid@.resource && p == password
                    &&& res@[1] matches Action::AttachClient { id: a }
                    &&& a@ == jid@.bare
                },
                _ => final(self)@ == old(self)@ && exists|now: Stamp|
                    now.nanos < 2_000_000_000 && res@ == #[trigger] ui_actions(event, now),
            },
    {
        let now = utc_now();
        self.on_ui_event_at(event, now)
    }

    /// Decides on a received message; the stored copy is stamped
    /// `stored_at`, the shown one `shown_at`.
    ///
    /// A message with a body must name its sender and its recipient.
    pub fn handle_message_at(&self, message: IncomingMessage, stored_at: Stamp, shown_at: Stamp) -> (res: Vec<Action>)
        requires
            !message_fails(message),
        ensures
            res@ == message_actions(message, stored_at, shown_at),
    {
        let mut res: Vec<Action> = Vec::new();
        let body = find_default_body(&message.bodies);
        match body {
            Some(body) => {
                let (from, to) = match (&message.from, &message.to) {
                    (Some(f), Some(t)) => (f, t),
                    _ => {
                        proof { assert(false); }
                        return res;
                    },
                };
                res.push(Action::StoreMessage { from: from.to_bare(), to: to.to_bare(), body: body.clone(), timestamp: stored_at });
                res.push(Action::Emit(BackendEvent::Message {
                    to: Id::from_jid(to),
                    from: Id::from_jid(from),
                    body,
                    by_me: false,
                    timestamp: shown_at,
                    id: message.id,
                }));
            },
            None => {},
        }
        assert(res@ =~= message_actions(message, stored_at, shown_at));
        res
    }

    /// Decides on an event of the connection of `account`; a received
    /// message is stamped `stored_at` in the database and `shown_at` when
    /// shown.
    ///
    /// A connection that comes online must be one the backend holds; a
    /// message with a body must name its sender and its recipient.
    pub fn handle_xmpp_event_at(&self, account: &Id, event: XmppEvent, stored_at: Stamp, shown_at: Stamp) -> (res: Vec<Action>)
        requires
            event is Online ==> self@.contains(account@),
            event matches XmppEvent::Stanza(Stanza::Message(m)) ==> !message_fails(m),
        ensures
            match event {
                XmppEvent::Online { bound_jid, .. } => {
                    &&& res@.len() == 2
                    &&& res@[0] matches Action::SendPresence { account: a, presence }
                    &&& a == *account
                    &&& presence.is_announcement()
                    &&& res@[1] matches Action::Emit(BackendEvent::AccountStatusUpdate(id, Status::Online(resource)))
                    &&& id == *account
                    &&& resource.deep_view() == bound_jid@.resource
                },
                XmppEvent::Stanza(Stanza::Message(m)) => res@ == message_actions(m, stored_at, shown_at),
                _ => res@.len() == 0,
            },
    {
        match event {
            XmppEvent::Online { bound_jid, .. } => {
                let mut res: Vec<Action> = Vec::new();
                res.push(Action::SendPresence { account: account.clone(), presence: make_presence() });
                let resource = bound_jid.resource();
                res.push(Action::Emit(BackendEvent::AccountStatusUpdate(account.clone(), Status::Online(resource))));
                res
            },
            XmppEvent::Disconnected(_) => Vec::new(),
            XmppEvent::Stanza(stanza) => match stanza {
                Stanza::Iq => Vec::new(),
                Stanza::Message(message) => self.handle_message_at(message, stored_at, shown_at),
                Stanza::Presence => Vec::new(),
            },
        }
    }

    /// Decides on an event of the connection of `account`, stamping a
    /// received message with the current time.
    pub fn handle_xmpp_event(&self, account: &Id, event: XmppEvent) -> (res: Vec<Action>)
        requires
            event is Online ==> self@.contains(account@),
            event matches XmppEvent::Stanza(Stanza::Message(m)) ==> !message_fails(m),
        ensures
            match event {
                XmppEvent::Online { bound_jid, .. } => {
                    &&& res@.len() == 2
                    &&& res@[0] matches Action::SendPresence { account: a, presence }
                    &&& a == *account
                    &&& presence.is_announcement()
                    &&& res@[1] matches Action::Emit(BackendEvent::AccountStatusUpdate(id, Status::Online(resource)))
                    &&& id == *account
                    &&& resource.deep_view() == bound_jid@.resource
                },
                XmppEvent::Stanza(Stanza::Message(m)) => exists|stored_at: Stamp, shown_at: Stamp|
                    res@ == #[trigger] message_actions(m, stored_at, shown_at),
                _ => res@.len() == 0,
            },
    {
        let stored_at = utc_now();
        let shown_at = utc_now();
        self.handle_xmpp_event_at(account, event, stored_at, shown_at)
    }
}

/// The body in the default language.
fn find_default_body(bodies: &Vec<(String, String)>) -> (res: Option<String>)
    ensures
        res == default_body(bodies@),
{
    let n = bodies.len();
    let mut i: usize = 0;
    assert(bodies@.subrange(0, n as int) =~= bodies@);
    while i < n
        invariant
            n == bodies@.len(),
            i <= n,
            default_body(bodies@) == default_body(bodies@.subrange(i as int, n as int)),
        decreases n - i,
    {
        proof {
            let s = bodies@.subrange(i as int, n as int);
            assert(s.drop_first() =~= bodies@.subrange(i + 1, n as int));
        }
        if bodies[i].0.as_str().is_empty() {
            proof {
                let s = bodies@.subrange(i as int, n as int);
                assert(s[0] == bodies@[i as int]);
                assert(bodies@[i as int].0@ =~= Seq::<char>::empty());
            }
            return Some(bodies[i].1.clone());
        }
        i = i + 1;
    }
    None
}

/// The contacts of `account`, each with its chat history, as the event that
/// shows them; `None` when there is no contact.
pub fn contacts_event(account: &AccountId, contacts: Vec<(ContactId, Vec<(bool, String, Stamp)>)>) -> (res: Option<BackendEvent>)
    ensures
        match res {
            None => contacts@.len() == 0,
            Some(event) => contacts@.len() > 0 && (event matches BackendEvent::Contacts(list) && list@.len() == contacts@.len()
                && forall|i: int| 0 <= i < list@.len() ==> {
                    &&& (#[trigger] list@[i]).0 == *account
                    &&& list@[i].1 == contacts@[i].0
                    &&& list@[i].2@ == (ContactView {
                        jid: contacts@[i].0@,
                        status: Status::Offline,
                        chat_history: chats_of(contacts@[i].1@),
                    })
                }),
        },
{
    let n = contacts.len();
    let mut list: Vec<(AccountId, ContactId, Contact)> = Vec::new();
    let mut i: usize = 0;
    while i < n
        invariant
            n == contacts@.len(),
            i <= n,
            list@.len() == i,
            forall|j: int| 0 <= j < i ==> {
                &&& (#[trigger] list@[j]).0 == *account
                &&& list@[j].1 == contacts@[j].0
                &&& list@[j].2@ == (ContactView {
                    jid: contacts@[j].0@,
                    status: Status::Offline,
                    chat_history: chats_of(contacts@[j].1@),
                })
            },
        decreases n - i,
    {
        let contact = &contacts[i].0;
        let chats = messages_of(&contacts[i].1);
        list.push((account.clone(), contact.clone(), Contact::new(contact.clone(), Status::Offline, chats)));
        i = i + 1;
    }
    if list.len() == 0 {
        None
    } else {
        Some(BackendEvent::Contacts(list))
    }
}

/// The chat messages that stored triples (by me, body, stamp) stand for.
pub open spec fn chats_of(rows: Seq<(bool, String, Stamp)>) -> Seq<Message> {
    rows.map_values(|r: (bool, String, Stamp)| Message { content: Content::Text(r.1), by_me: r.0, stamp: r.2 })
}

fn messages_of(rows: &Vec<(bool, String, Stamp)>) -> (res: Vec<Message>)
    ensures
        res@ == chats_of(rows@),
{
    let n = rows.len();
    let mut res: Vec<Message> = Vec::new();
    let mut i: usize = 0;
    while i < n
        invariant
            n == rows@.len(),
            i <= n,
            res@ == chats_of(rows@.subrange(0, i as int)),
        decreases n - i,
    {
        res.push(Message::new_text(rows[i].1.clone(), rows[i].0, rows[i].2));
        i = i + 1;
        assert(res@ =~= chats_of(rows@.subrange(0, i as int)));
    }
    assert(rows@.subrange(0, n as int) =~= rows@);
    res
}

} // verus!
