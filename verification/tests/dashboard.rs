use akama::backend::stanza::XmppEvent;
use akama::common::id::{Id, Jid};
use akama::common::message::{Content, Stamp};
use akama::common::{Account, BackendEvent, Contact, Status, UiEvent};
use akama::screen::dashboard::modal::{add_account, add_contact};
use akama::screen::dashboard::{account_initial, Effect, Message, State};

fn id(text: &str) -> Id {
    Id::parse(text).unwrap()
}

fn with_contact(account: &str, contact: &str) -> State {
    let mut state = State::new();
    let acc = Account::new(Jid::parse(account).unwrap(), Status::Online(None));
    state.update(Message::BackendEvent(BackendEvent::Account(id(account), acc)));
    let c = Contact::new(id(contact), Status::Offline, Vec::new());
    state.update(Message::BackendEvent(BackendEvent::Contacts(vec![(id(account), id(contact), c)])));
    state
}

#[test]
fn typed_text_is_sent_and_the_box_emptied() {
    let mut state = with_contact("me@x.org", "you@y.org");
    state.update(Message::ChangeCurrentAccount(id("me@x.org")));
    state.update(Message::ChangeCurrentContact(id("you@y.org")));
    assert!(matches!(state.update(Message::InputChanged(String::from("hello"))), Effect::Nothing));
    assert_eq!(state.new_message_text_input(), "hello");
    match state.update(Message::InputSubmit) {
        Effect::Send(UiEvent::NewText { from, to, content }) => {
            assert_eq!(from.as_str(), "me@x.org");
            assert_eq!(to.as_str(), "you@y.org");
            assert_eq!(content, "hello");
        },
        other => panic!("unexpected effect {:?}", other),
    }
    assert_eq!(state.new_message_text_input(), "");
}

#[test]
fn submit_without_current_contact_fails() {
    let mut state = with_contact("me@x.org", "you@y.org");
    state.update(Message::ChangeCurrentAccount(id("me@x.org")));
    assert!(state.fails_on(&Message::InputSubmit));
    assert!(state.try_update(Message::InputSubmit).is_none());
}

#[test]
fn sent_text_is_shown_in_own_chat() {
    let mut state = with_contact("me@x.org", "you@y.org");
    state.update(Message::ChangeCurrentAccount(id("me@x.org")));
    state.update(Message::ChangeCurrentContact(id("you@y.org")));
    let event = BackendEvent::Message {
        to: id("you@y.org"),
        from: id("me@x.org"),
        body: String::from("hi there"),
        by_me: true,
        timestamp: Stamp { secs: 5, nanos: 0 },
        id: None,
    };
    assert!(!state.fails_on(&Message::BackendEvent(event.clone_for_test())));
    state.update(Message::BackendEvent(event));
    let chat = state.current_chat().unwrap();
    assert_eq!(chat.chat_history.len(), 1);
    assert_eq!(chat.chat_history[0].content, Content::Text(String::from("hi there")));
    assert!(chat.chat_history[0].by_me);
}

trait CloneForTest {
    fn clone_for_test(&self) -> Self;
}

impl CloneForTest for BackendEvent {
    fn clone_for_test(&self) -> Self {
        match self {
            BackendEvent::Message { to, from, body, by_me, timestamp, id } => BackendEvent::Message {
                to: to.clone(),
                from: from.clone(),
                body: body.clone(),
                by_me: *by_me,
                timestamp: *timestamp,
                id: id.clone(),
            },
            _ => panic!("only messages are cloned here"),
        }
    }
}

#[test]
fn received_text_is_shown_under_the_recipient() {
    let mut state = with_contact("me@x.org", "you@y.org");
    state.update(Message::ChangeCurrentAccount(id("me@x.org")));
    state.update(Message::ChangeCurrentContact(id("you@y.org")));
    state.update(Message::BackendEvent(BackendEvent::Message {
        to: id("me@x.org"),
        from: id("you@y.org"),
        body: String::from("ping"),
        by_me: false,
        timestamp: Stamp { secs: 5, nanos: 0 },
        id: Some(String::from("m1")),
    }));
    let chat = state.current_chat().unwrap();
    assert_eq!(chat.chat_history.len(), 1);
    assert!(!chat.chat_history[0].by_me);
}

#[test]
fn message_for_unknown_contact_fails() {
    let mut state = with_contact("me@x.org", "you@y.org");
    let m = Message::BackendEvent(BackendEvent::Message {
        to: id("me@x.org"),
        from: id("stranger@z.org"),
        body: String::from("?"),
        by_me: false,
        timestamp: Stamp { secs: 0, nanos: 0 },
        id: None,
    });
    assert!(state.fails_on(&m));
    assert!(state.try_update(m).is_none());
}

#[test]
fn status_update_of_known_account() {
    let mut state = with_contact("me@x.org", "you@y.org");
    state.update(Message::ChangeCurrentAccount(id("me@x.org")));
    state.update(Message::BackendEvent(BackendEvent::AccountStatusUpdate(id("me@x.org"), Status::Connecting)));
    assert_eq!(
        state.status_panel(),
        Some((String::from("me@x.org"), String::from("Status: Connecting")))
    );
    assert_eq!(
        state.compose_notice(),
        Some(String::from("still connecting. you can message when you're online"))
    );
    state.update(Message::BackendEvent(BackendEvent::AccountStatusUpdate(id("me@x.org"), Status::Offline)));
    assert_eq!(state.compose_notice(), Some(String::from("You need to be online to send messages...")));
    state.update(Message::BackendEvent(BackendEvent::AccountStatusUpdate(
        id("me@x.org"),
        Status::Online(Some(String::from("pc"))),
    )));
    assert_eq!(state.compose_notice(), None);
    assert_eq!(
        state.status_panel(),
        Some((String::from("me@x.org"), String::from("Status: Online")))
    );
}

#[test]
fn status_update_of_unknown_account_fails() {
    let mut state = State::new();
    let m = Message::BackendEvent(BackendEvent::AccountStatusUpdate(id("nobody@x.org"), Status::Away));
    assert!(state.try_update(m).is_none());
}

#[test]
fn contact_dialog_refuses_invalid_jid() {
    let mut state = with_contact("me@x.org", "you@y.org");
    state.update(Message::ChangeCurrentAccount(id("me@x.org")));
    assert!(matches!(state.update(Message::AddContactModal(add_contact::Message::Open)), Effect::FocusNext));
    assert!(state.add_contact_modal().show);
    state.update(Message::AddContactModal(add_contact::Message::TextInputJid(String::from("@bad"))));
    assert!(matches!(state.update(Message::AddContactModal(add_contact::Message::Submit)), Effect::Nothing));
    assert_eq!(state.add_contact_modal().error, "Invalid Jid");
    assert!(state.add_contact_modal().show);
    assert_eq!(state.current_contact_ids().unwrap().len(), 1);
}

#[test]
fn contact_dialog_adds_contact() {
    let mut state = with_contact("me@x.org", "you@y.org");
    state.update(Message::ChangeCurrentAccount(id("me@x.org")));
    state.update(Message::AddContactModal(add_contact::Message::Open));
    state.update(Message::AddContactModal(add_contact::Message::TextInputJid(String::from("New@Z.org"))));
    match state.update(Message::AddContactModal(add_contact::Message::Submit)) {
        Effect::Send(UiEvent::NewContact(account, contact)) => {
            assert_eq!(account.as_str(), "me@x.org");
            assert_eq!(contact.as_str(), "new@z.org");
        },
        other => panic!("unexpected effect {:?}", other),
    }
    assert!(!state.add_contact_modal().show);
    assert_eq!(state.add_contact_modal().text_input_jid, "");
    let ids: Vec<String> = state.current_contact_ids().unwrap().iter().map(|i| i.to_string()).collect();
    assert_eq!(ids, vec![String::from("you@y.org"), String::from("new@z.org")]);
    state.update(Message::ChangeCurrentContact(id("new@z.org")));
    let chat = state.current_chat().unwrap();
    assert_eq!(chat.status(), &Status::Offline);
    assert!(chat.chat_history.is_empty());
}

#[test]
fn contact_dialog_without_current_account_fails() {
    let mut state = State::new();
    state.update(Message::AddContactModal(add_contact::Message::TextInputJid(String::from("a@b.org"))));
    assert!(state.try_update(Message::AddContactModal(add_contact::Message::Submit)).is_none());
    state.update(Message::AddContactModal(add_contact::Message::TextInputJid(String::from("@b.org"))));
    assert!(state.try_update(Message::AddContactModal(add_contact::Message::Submit)).is_some());
}

#[test]
fn account_dialog_login_flow() {
    let mut state = State::new();
    assert!(matches!(state.update(Message::AddAccountModal(add_account::Message::Open)), Effect::FocusNext));
    state.update(Message::AddAccountModal(add_account::Message::TextInputJid(String::from("Me@X.org/desk"))));
    state.update(Message::AddAccountModal(add_account::Message::TextInputPassword(String::from("pw"))));
    match state.update(Message::AddAccountModal(add_account::Message::Submit)) {
        Effect::Login { jid, password } => {
            assert_eq!(jid.as_str(), "me@x.org/desk");
            assert_eq!(password, "pw");
        },
        other => panic!("unexpected effect {:?}", other),
    }
    assert!(state.add_account_modal().submit_pending());
    state.update(Message::AddAccountModal(add_account::Message::LoginFailed(String::from("no route"))));
    assert_eq!(state.add_account_modal().error(), "no route");
    assert!(!state.add_account_modal().submit_pending());
    let jid = Jid::parse("me@x.org/desk").unwrap();
    state.update(Message::AddAccountModal(add_account::Message::LoginSuccesful(jid)));
    assert!(!state.add_account_modal().show);
    assert_eq!(state.add_account_modal().text_input_jid, "");
    assert_eq!(state.add_account_modal().error(), "");
    let entries = state.account_entries();
    assert_eq!(entries.len(), 1);
    assert_eq!(entries[0].0.as_str(), "me@x.org");
    assert!(!entries[0].1);
    state.update(Message::ChangeCurrentAccount(id("me@x.org")));
    assert!(state.account_entries()[0].1);
    assert_eq!(state.status_panel(), Some((String::from("me@x.org"), String::from("Status: Online"))));
}

#[test]
fn account_dialog_submit_of_invalid_jid_fails() {
    let mut state = State::new();
    state.update(Message::AddAccountModal(add_account::Message::TextInputJid(String::from("@x.org"))));
    assert!(state.try_update(Message::AddAccountModal(add_account::Message::Submit)).is_none());
    assert!(!state.add_account_modal().submit_pending());
}

#[test]
fn dialogs_close_clean() {
    let mut state = State::new();
    state.update(Message::AddAccountModal(add_account::Message::Open));
    state.update(Message::AddAccountModal(add_account::Message::TextInputJid(String::from("a"))));
    state.update(Message::AddAccountModal(add_account::Message::TextInputPassword(String::from("b"))));
    state.update(Message::AddAccountModal(add_account::Message::Close));
    assert!(!state.add_account_modal().show);
    assert_eq!(state.add_account_modal().text_input_jid, "");
    assert_eq!(state.add_account_modal().text_input_password, "");
    state.update(Message::AddContactModal(add_contact::Message::Open));
    state.update(Message::AddContactModal(add_contact::Message::TextInputJid(String::from("zz"))));
    state.update(Message::AddContactModal(add_contact::Message::Close));
    assert!(!state.add_contact_modal().show);
    assert_eq!(state.add_contact_modal().text_input_jid, "");
    assert_eq!(state.add_contact_modal().error, "");
}

#[test]
fn later_listed_contact_wins() {
    let mut state = State::new();
    state.update(Message::ChangeCurrentAccount(id("me@x.org")));
    state.update(Message::ChangeCurrentContact(id("you@y.org")));
    let first = Contact::new(id("you@y.org"), Status::Offline, Vec::new());
    let second = Contact::new(id("you@y.org"), Status::Away, Vec::new());
    state.update(Message::BackendEvent(BackendEvent::Contacts(vec![
        (id("me@x.org"), id("you@y.org"), first),
        (id("me@x.org"), id("you@y.org"), second),
    ])));
    assert_eq!(state.current_chat().unwrap().status(), &Status::Away);
    assert_eq!(state.current_contact_ids().unwrap().len(), 1);
}

#[test]
fn panels_without_current_account() {
    let state = State::new();
    assert!(state.current_contact_ids().is_none());
    assert!(state.current_contacts().is_none());
    assert!(state.current_chat().is_none());
    assert!(state.status_panel().is_none());
    assert_eq!(state.compose_notice(), None);
    assert!(state.account_entries().is_empty());
}

#[test]
fn account_initial_is_first_letter() {
    assert_eq!(account_initial(&id("alice@x.org")), "a");
}

#[test]
fn unhandled_messages_change_nothing() {
    let mut state = with_contact("me@x.org", "you@y.org");
    assert!(matches!(state.update(Message::Open), Effect::Nothing));
    assert!(matches!(state.update(Message::ThemeChanged), Effect::Nothing));
    assert!(matches!(
        state.update(Message::BackendEvent(BackendEvent::Contact {
            account: id("me@x.org"),
            contact: id("you@y.org"),
            chats: vec![(true, String::from("x"))],
        })),
        Effect::Nothing
    ));
    assert_eq!(state.account_entries().len(), 1);
}

#[test]
fn histories_grow_by_one_message_at_a_time() {
    let mut state = with_contact("me@x.org", "you@y.org");
    state.update(Message::ChangeCurrentAccount(id("me@x.org")));
    state.update(Message::ChangeCurrentContact(id("you@y.org")));
    for (n, body) in ["one", "two"].iter().enumerate() {
        state.update(Message::BackendEvent(BackendEvent::Message {
            to: id("me@x.org"),
            from: id("you@y.org"),
            body: String::from(*body),
            by_me: false,
            timestamp: Stamp { secs: n as i64, nanos: 0 },
            id: None,
        }));
        assert_eq!(state.current_chat().unwrap().chat_history.len(), n + 1);
    }
    state.update(Message::InputChanged(String::from("draft")));
    state.update(Message::ChangeCurrentAccount(id("me@x.org")));
    let chat = state.current_chat().unwrap();
    assert_eq!(chat.chat_history.len(), 2);
    assert_eq!(chat.chat_history[0].content, Content::Text(String::from("one")));
    assert_eq!(chat.chat_history[1].content, Content::Text(String::from("two")));
    assert!(state.account(&id("me@x.org")).is_some());
}

#[test]
fn adding_a_held_contact_again_empties_its_chat() {
    let mut state = with_contact("me@x.org", "you@y.org");
    state.update(Message::ChangeCurrentAccount(id("me@x.org")));
    state.update(Message::ChangeCurrentContact(id("you@y.org")));
    state.update(Message::BackendEvent(BackendEvent::Message {
        to: id("me@x.org"),
        from: id("you@y.org"),
        body: String::from("kept?"),
        by_me: false,
        timestamp: Stamp { secs: 1, nanos: 0 },
        id: None,
    }));
    assert_eq!(state.current_chat().unwrap().chat_history.len(), 1);
    state.update(Message::AddContactModal(add_contact::Message::TextInputJid(String::from("you@y.org"))));
    state.update(Message::AddContactModal(add_contact::Message::Submit));
    assert_eq!(state.current_chat().unwrap().chat_history.len(), 0);
    assert_eq!(state.current_contact_ids().unwrap().len(), 1);
}

#[test]
fn first_event_of_a_login_decides_it() {
    let bound = Jid::parse("me@x.org/desk").unwrap();
    match add_account::login_outcome(XmppEvent::Online { bound_jid: bound, resumed: false }) {
        Ok(jid) => assert_eq!(jid.as_str(), "me@x.org/desk"),
        Err(e) => panic!("unexpected failure {}", e),
    }
    match add_account::login_outcome(XmppEvent::Disconnected(String::from("auth failed"))) {
        Err(e) => assert_eq!(e, "auth failed"),
        Ok(_) => panic!("a failed login came back as one that succeeded"),
    }
}

#[test]
fn packed_colours_split_into_bytes() {
    let (r, g, b, a) = akama::screen::dashboard::style::hex_channels(0x80_12_34_56);
    assert_eq!((r, g, b, a), (0x56, 0x34, 0x12, 0x80));
    assert_eq!(akama::screen::dashboard::style::hex_channels(0), (0, 0, 0, 0));
    assert_eq!(akama::screen::dashboard::style::hex_channels(u32::MAX), (255, 255, 255, 255));
}
