//! Properties of the library that span several functions: what the user
//! types reaches the chat, what arrives is shown where it belongs, what the
//! dialogs undo, and what the database gives back.

use vstd::prelude::*;
use crate::common::{Account, AccountView, BackendEvent, ContactView, Status, UiEvent};
use crate::common::id::{bare_jid_of, Id, Jid, JidView};
use crate::common::message::{Content, Message as ChatMessage, Stamp};
use crate::backend::{chats_of, default_body, message_actions, message_fails, ui_actions, Action};
use crate::backend::db::read_back;
use crate::backend::stanza::IncomingMessage;
use crate::screen::dashboard::{apply_contacts, ContactsView, Effect, Message, State, StateView};
use crate::screen::dashboard::modal::add_account::{self, AddAccountView};
use crate::screen::dashboard::modal::add_contact::{self, AddContactView};
use crate::ui::screen::dashboard::{Event as FirstEvent, StateView as FirstStateView};
use crate::core_model;

verus! {

/// Text typed into the message box and then submitted is sent, from the
/// current account to the current contact, and the box is emptied.
pub proof fn law_typed_text_is_sent(
    s0: StateView,
    text: String,
    t1: Stamp,
    s1: StateView,
    e1: Effect,
    t2: Stamp,
    s2: StateView,
    e2: Effect,
)
    requires
        s0.current_account is Some,
        s0.current_contact is Some,
        s0.step(Message::InputChanged(text), t1, s1, e1),
        s1.step(Message::InputSubmit, t2, s2, e2),
    ensures
        e1 == Effect::Nothing,
        e2 matches Effect::Send(UiEvent::NewText { from, to, content }) && from@ == s0.current_account->Some_0
            && to@ == s0.current_contact->Some_0 && content@ == text@,
        s2.new_message_text_input == Seq::<char>::empty(),
        s2.contacts == s0.contacts,
        s2.accounts == s0.accounts,
{
}

/// A text sent from an account to one of its contacts is stored and shown
/// alike, and once the backend's event reaches the dashboard the text ends
/// the chat with that contact, as the user's own; no other chat changes.
pub proof fn law_sent_text_is_shown(
    s: StateView,
    from: Id,
    to: Id,
    content: String,
    sent_at: Stamp,
    shown_at: Stamp,
)
    requires
        s.contacts.contains_key(from@),
        s.contacts[from@].contains_key(to@),
    ensures
        ({
            let event = BackendEvent::Message { to, from, body: content, by_me: true, timestamp: sent_at, id: None };
            let actions = ui_actions(UiEvent::NewText { from, to, content }, sent_at);
            let post = s.after_backend(event, shown_at);
            &&& actions[1] == Action::StoreMessage { from, to, body: content, timestamp: sent_at }
            &&& actions[2] == Action::Emit(event)
            &&& !s.backend_fails(event)
            &&& post.contacts[from@][to@].chat_history == s.contacts[from@][to@].chat_history.push(
                ChatMessage { content: Content::Text(content), by_me: true, stamp: shown_at },
            )
            &&& forall|a: Seq<char>, c: Seq<char>|
                s.contacts.contains_key(a) && s.contacts[a].contains_key(c) && (a != from@ || c != to@)
                    ==> #[trigger] post.contacts[a][c] == s.contacts[a][c]
        }),
{
}

/// A received text is shown in the chat of the account it was sent to, with
/// the contact that sent it, as not the user's own; it is stored with the
/// same sender, recipient and body.
pub proof fn law_received_text_is_shown(s: StateView, message: IncomingMessage, stored_at: Stamp, shown_at: Stamp, now: Stamp)
    requires
        !message_fails(message),
        default_body(message.bodies@) is Some,
        s.contacts.contains_key(message.to->Some_0@.bare),
        s.contacts[message.to->Some_0@.bare].contains_key(message.from->Some_0@.bare),
    ensures
        ({
            let account = message.to->Some_0@.bare;
            let contact = message.from->Some_0@.bare;
            let body = default_body(message.bodies@)->Some_0;
            let actions = message_actions(message, stored_at, shown_at);
            &&& actions.len() == 2
            &&& actions[0] matches Action::StoreMessage { from, to, body: b, .. } && from@ == contact && to@ == account && b == body
            &&& actions[1] matches Action::Emit(event) && !s.backend_fails(event)
                && s.after_backend(event, now).contacts[account][contact].chat_history
                    == s.contacts[account][contact].chat_history.push(
                        ChatMessage { content: Content::Text(body), by_me: false, stamp: now },
                    )
        }),
{
    message.to->Some_0.lemma_bare_id();
    message.from->Some_0.lemma_bare_id();
}

/// A status update of a known account changes its status and nothing else.
pub proof fn law_status_update(s: StateView, id: Id, status: Status, now: Stamp)
    requires
        s.accounts.contains_key(id@),
    ensures
        !s.backend_fails(BackendEvent::AccountStatusUpdate(id, status)),
        s.after_backend(BackendEvent::AccountStatusUpdate(id, status), now).accounts[id@] == (AccountView {
            status,
            ..s.accounts[id@]
        }),
        s.after_backend(BackendEvent::AccountStatusUpdate(id, status), now).accounts.dom() == s.accounts.dom(),
        s.after_backend(BackendEvent::AccountStatusUpdate(id, status), now).contacts == s.contacts,
{
    assert(s.accounts.insert(id@, AccountView { status, ..s.accounts[id@] }).dom() =~= s.accounts.dom());
}

/// After a list of contacts is entered, each account and contact of the list
/// is held, with the value that came last for that pair.
pub proof fn law_listed_contacts_are_held(contacts: ContactsView, list: Seq<(Id, Id, crate::common::Contact)>, i: int)
    requires
        0 <= i < list.len(),
        forall|j: int| i < j < list.len() ==> (#[trigger] list[j]).0@ != list[i].0@ || list[j].1@ != list[i].1@,
    ensures
        apply_contacts(contacts, list).contains_key(list[i].0@),
        apply_contacts(contacts, list)[list[i].0@].contains_key(list[i].1@),
        apply_contacts(contacts, list)[list[i].0@][list[i].1@] == list[i].2@,
    decreases list.len(),
{
    if i != list.len() - 1 {
        let rest = list.drop_last();
        assert forall|j: int| i < j < rest.len() implies (#[trigger] rest[j]).0@ != rest[i].0@ || rest[j].1@ != rest[i].1@ by {
            assert(rest[j] == list[j]);
        }
        law_listed_contacts_are_held(contacts, rest, i);
        assert(rest[i] == list[i]);
        let last = list.last();
        assert(last == list[list.len() - 1]);
    }
}

/// A contact added through the dialog is held under the current account,
/// offline and with no messages; the backend is told; the dialog closes.
pub proof fn law_contact_added(s: StateView, now: Stamp, post: StateView, effect: Effect)
    requires
        s.current_account is Some,
        bare_jid_of(s.add_contact_modal.text_input_jid) is Some,
        s.step(Message::AddContactModal(add_contact::Message::Submit), now, post, effect),
    ensures
        ({
            let a = s.current_account->Some_0;
            let c = bare_jid_of(s.add_contact_modal.text_input_jid)->Some_0;
            &&& post.contacts.contains_key(a)
            &&& post.contacts[a].contains_key(c)
            &&& post.contacts[a][c] == (ContactView { jid: c, status: Status::Offline, chat_history: Seq::empty() })
            &&& effect matches Effect::Send(UiEvent::NewContact(account, contact)) && account@ == a && contact@ == c
            &&& post.add_contact_modal == AddContactView::initial()
        }),
{
    assert(post.add_contact_modal =~= AddContactView::initial());
}

/// A JID that is refused leaves the contacts as they were and says why.
pub proof fn law_contact_refused(s: StateView, now: Stamp, post: StateView, effect: Effect)
    requires
        bare_jid_of(s.add_contact_modal.text_input_jid) is None,
        s.step(Message::AddContactModal(add_contact::Message::Submit), now, post, effect),
    ensures
        post.contacts == s.contacts,
        post.add_contact_modal.error == "Invalid Jid"@,
        effect == Effect::Nothing,
{
}

/// Closing a dialog, whatever it held, leaves it as a fresh one; so does a
/// successful login.
pub proof fn law_dialogs_close_clean(a: AddAccountView, c: AddContactView, jid: Jid)
    ensures
        a.next(add_account::Message::Close) == AddAccountView::initial(),
        a.next(add_account::Message::LoginSuccesful(jid)) == AddAccountView::initial(),
        c.next(add_contact::Message::Close) == AddContactView::initial(),
{
}

/// A login that succeeds adds the account, online, under its bare JID.
pub proof fn law_login_adds_account(s: StateView, jid: Jid, now: Stamp, post: StateView, effect: Effect)
    requires
        s.step(Message::AddAccountModal(add_account::Message::LoginSuccesful(jid)), now, post, effect),
    ensures
        post.accounts.contains_key(jid@.bare),
        post.accounts[jid@.bare] == (AccountView { id: jid@.bare, resource: jid@.resource, status: Status::Online(None) }),
        effect == Effect::Nothing,
{
}

/// A bare identifier made a JID has no resource, and its bare part is the
/// identifier again.
pub proof fn law_bare_round_trip(id: Id)
    ensures
        Jid::bare_of(id).bare_id() == id,
        Jid::bare_of(id)@ == (JidView { full: id@, bare: id@, resource: None }),
{
    Jid::lemma_bare_round_trip(id);
}

/// A stored message is read back as the user's own exactly when its sender
/// is the account that reads it: a text the user sent comes back to the
/// sending account as theirs, and a text received from another JID comes back
/// to the receiving account as not; content and timestamp come back as
/// stored.
pub proof fn law_own_messages_read_back(
    from: Id,
    to: Id,
    content: String,
    now: Stamp,
    sent_row: (String, String, Stamp),
    message: IncomingMessage,
    stored_at: Stamp,
    shown_at: Stamp,
    received_row: (String, String, Stamp),
)
    requires
        !message_fails(message),
        default_body(message.bodies@) is Some,
        message.from->Some_0@.bare != message.to->Some_0@.bare,
        ui_actions(UiEvent::NewText { from, to, content }, now)[1] matches Action::StoreMessage { from: f, body, timestamp, .. }
            && sent_row.0@ == f@ && sent_row.1 == body && sent_row.2 == timestamp,
        message_actions(message, stored_at, shown_at)[0] matches Action::StoreMessage { from: f, body, timestamp, .. }
            && received_row.0@ == f@ && received_row.1 == body && received_row.2 == timestamp,
    ensures
        read_back(from@, sent_row) == (true, content, now),
        read_back(message.to->Some_0@.bare, received_row)
            == (false, default_body(message.bodies@)->Some_0, stored_at),
{
    message.to->Some_0.lemma_bare_id();
    message.from->Some_0.lemma_bare_id();
}

proof fn lemma_listed_contacts_keep(contacts: ContactsView, list: Seq<(Id, Id, crate::common::Contact)>, a: Seq<char>, c: Seq<char>)
    requires
        contacts.contains_key(a),
        contacts[a].contains_key(c),
    ensures
        apply_contacts(contacts, list).contains_key(a),
        apply_contacts(contacts, list)[a].contains_key(c),
    decreases list.len(),
{
    if list.len() > 0 {
        lemma_listed_contacts_keep(contacts, list.drop_last(), a, c);
    }
}

/// Nothing that the dashboard holds is forgotten: after any message, every
/// account held before is still held, and so is every contact of an account.
pub proof fn law_nothing_is_forgotten(
    s: StateView,
    m: Message,
    now: Stamp,
    post: StateView,
    effect: Effect,
    a: Seq<char>,
    c: Seq<char>,
)
    requires
        s.step(m, now, post, effect),
    ensures
        s.accounts.contains_key(a) ==> post.accounts.contains_key(a),
        s.contacts.contains_key(a) && s.contacts[a].contains_key(c) ==> post.contacts.contains_key(a)
            && post.contacts[a].contains_key(c),
{
    if let Message::BackendEvent(BackendEvent::Contacts(list)) = m {
        if s.contacts.contains_key(a) && s.contacts[a].contains_key(c) {
            lemma_listed_contacts_keep(s.contacts, list@, a, c);
        }
    }
}

/// `m` submits the contact dialog with a contact that the current account
/// already holds.
pub open spec fn readds_contact(s: StateView, m: Message) -> bool {
    match m {
        Message::AddContactModal(cm) => match (s.add_contact_modal.added(cm), s.current_account) {
            (Some(k), Some(ca)) => s.contacts.contains_key(ca) && s.contacts[ca].contains_key(k),
            _ => false,
        },
        _ => false,
    }
}

/// Chat histories only grow: a message that does not fail, is not a list of
/// contacts from the backend and does not add again a contact already held,
/// keeps each chat history as the beginning of the new one, adding at most
/// one message.
pub proof fn law_histories_only_grow(
    s: StateView,
    m: Message,
    now: Stamp,
    post: StateView,
    effect: Effect,
    a: Seq<char>,
    c: Seq<char>,
)
    requires
        s.step(m, now, post, effect),
        !s.fails_on(m),
        !(m matches Message::BackendEvent(BackendEvent::Contacts(_))),
        !readds_contact(s, m),
        s.contacts.contains_key(a),
        s.contacts[a].contains_key(c),
    ensures
        post.contacts.contains_key(a),
        post.contacts[a].contains_key(c),
        s.contacts[a][c].chat_history.is_prefix_of(post.contacts[a][c].chat_history),
        post.contacts[a][c].chat_history.len() <= s.contacts[a][c].chat_history.len() + 1,
{
    let h = s.contacts[a][c].chat_history;
    if let Message::BackendEvent(BackendEvent::Message { to, from, body, by_me, .. }) = m {
        let x = ChatMessage { content: Content::Text(body), by_me, stamp: now };
        assert(h.push(x).subrange(0, h.len() as int) =~= h);
    }
    assert(h.subrange(0, h.len() as int) =~= h);
}

/// The chat history loaded from the database keeps the order of the stored
/// rows, oldest first: message `k` is row `k`, with its text, its author and
/// its stamp.
pub proof fn law_stored_histories_keep_their_order(rows: Seq<(bool, String, Stamp)>)
    ensures
        chats_of(rows).len() == rows.len(),
        forall|k: int| 0 <= k < rows.len() ==> #[trigger] chats_of(rows)[k] == (ChatMessage {
            content: Content::Text(rows[k].1),
            by_me: rows[k].0,
            stamp: rows[k].2,
        }),
{
}

/// An account sent by the backend is held exactly as sent, status included,
/// whatever the dashboard held before; the other accounts and the contacts
/// stay as they were. So an account loaded at start-up, sent connecting,
/// is shown connecting.
pub proof fn law_sent_account_is_held_as_sent(s: StateView, id: Id, account: Account, now: Stamp)
    ensures
        ({
            let post = s.after_backend(BackendEvent::Account(id, account), now);
            &&& !s.backend_fails(BackendEvent::Account(id, account))
            &&& post.accounts.contains_key(id@)
            &&& post.accounts[id@] == account@
            &&& post.accounts[id@].status == account@.status
            &&& account@.status == Status::Connecting ==> post.accounts[id@].status == Status::Connecting
            &&& forall|k: Seq<char>| k != id@ ==> (post.accounts.contains_key(k) == s.accounts.contains_key(k)
                && #[trigger] post.accounts[k] == s.accounts[k])
            &&& post.contacts == s.contacts
        }),
{
}

/// The message box is locked, with a notice, exactly when the current account
/// is held and is offline or still connecting; an online account, with or
/// without a resource, never locks it.
pub proof fn law_only_offline_or_connecting_locks_the_box(s: State)
    ensures
        s.notice() is Some <==> (s@.current_account matches Some(a) && s@.accounts.contains_key(a)
            && (s@.accounts[a].status is Offline || s@.accounts[a].status is Connecting)),
        s@.current_account matches Some(a) && s@.accounts.contains_key(a) && s@.accounts[a].status is Online
            ==> s.notice() is None,
        s@.current_account matches Some(a) && s@.accounts.contains_key(a) && s@.accounts[a].status is Offline
            ==> s.notice() == Some("You need to be online to send messages..."@),
        s@.current_account matches Some(a) && s@.accounts.contains_key(a) && s@.accounts[a].status is Connecting
            ==> s.notice() == Some("still connecting. you can message when you're online"@),
{
}

/// A message event between a held account and one of its held contacts is
/// always applied, whichever chat is open and whatever account is current;
/// an event from the backend fails only when it names something not held.
pub proof fn law_held_chats_take_every_message(
    s: StateView,
    to: Id,
    from: Id,
    body: String,
    by_me: bool,
    timestamp: Stamp,
    id: Option<String>,
    now: Stamp,
)
    requires
        by_me ==> s.contacts.contains_key(from@) && s.contacts[from@].contains_key(to@),
        !by_me ==> s.contacts.contains_key(to@) && s.contacts[to@].contains_key(from@),
    ensures
        !s.fails_on(Message::BackendEvent(BackendEvent::Message { to, from, body, by_me, timestamp, id })),
        forall|e: BackendEvent| #[trigger] s.fails_on(Message::BackendEvent(e)) == s.backend_fails(e),
        !by_me ==> s.after_backend(BackendEvent::Message { to, from, body, by_me, timestamp, id }, now)
            .contacts[to@][from@].chat_history == s.contacts[to@][from@].chat_history.push(
                ChatMessage { content: Content::Text(body), by_me: false, stamp: now },
            ),
        by_me ==> s.after_backend(BackendEvent::Message { to, from, body, by_me, timestamp, id }, now)
            .contacts[from@][to@].chat_history == s.contacts[from@][to@].chat_history.push(
                ChatMessage { content: Content::Text(body), by_me: true, stamp: now },
            ),
{
}

/// Opening the account dialog shows it and leaves what it holds as it was;
/// in the dashboard it also moves the focus to the dialog and changes
/// nothing else.
pub proof fn law_opening_the_account_dialog_shows_it(v: AddAccountView, s: StateView, now: Stamp, post: StateView, effect: Effect)
    requires
        s.step(Message::AddAccountModal(add_account::Message::Open), now, post, effect),
    ensures
        v.next(add_account::Message::Open).show,
        v.next(add_account::Message::Open).text_input_jid == v.text_input_jid,
        v.next(add_account::Message::Open).text_input_password == v.text_input_password,
        v.next(add_account::Message::Open).error == v.error,
        v.next(add_account::Message::Open).submit_pending == v.submit_pending,
        post.add_account_modal.show,
        post.add_account_modal.text_input_jid == s.add_account_modal.text_input_jid,
        post.accounts == s.accounts,
        post.contacts == s.contacts,
        effect == Effect::FocusNext,
{
}

/// In the first form of the dashboard too, an account sent by the backend is
/// held exactly as sent; an account coming online keeps its entry, takes the
/// JID it was bound to and is online; and a message between a held account
/// and a held contact is always applied, to that chat.
pub proof fn law_first_dashboard_follows_the_backend(
    s: FirstStateView,
    id: Id,
    account: core_model::Account,
    bound: Jid,
    to: Id,
    from: Id,
    body: String,
    by_me: bool,
    timestamp: Stamp,
    now: Stamp,
)
    requires
        s.accounts.contains_key(id@),
        !by_me ==> s.contacts.contains_key(to@) && s.contacts[to@].contains_key(from@),
        by_me ==> s.contacts.contains_key(from@) && s.contacts[from@].contains_key(to@),
    ensures
        s.after_backend(core_model::BackendEvent::Account(id, account), now).accounts[id@] == account@,
        !s.fails_on(FirstEvent::BackendEvent(core_model::BackendEvent::AccountOnline(id, bound))),
        s.after_backend(core_model::BackendEvent::AccountOnline(id, bound), now).accounts[id@]
            == (core_model::AccountView { jid: bound@, status: core_model::Status::Online }),
        !s.fails_on(FirstEvent::BackendEvent(core_model::BackendEvent::Message { to, from, body, by_me, timestamp })),
        !by_me ==> s.after_backend(core_model::BackendEvent::Message { to, from, body, by_me, timestamp }, now)
            .contacts[to@][from@].chat_history == s.contacts[to@][from@].chat_history.push(
                ChatMessage { content: Content::Text(body), by_me: false, stamp: now },
            ),
        by_me ==> s.after_backend(core_model::BackendEvent::Message { to, from, body, by_me, timestamp }, now)
            .contacts[from@][to@].chat_history == s.contacts[from@][to@].chat_history.push(
                ChatMessage { content: Content::Text(body), by_me: true, stamp: now },
            ),
{
}

/// Opening the contact dialog shows it and leaves what it holds as it was.
pub proof fn law_opening_the_contact_dialog_shows_it(v: AddContactView)
    ensures
        v.next(add_contact::Message::Open).show,
        v.next(add_contact::Message::Open).text_input_jid == v.text_input_jid,
        v.next(add_contact::Message::Open).error == v.error,
        v.added(add_contact::Message::Open) is None,
{
}

} // verus!
