use akama::backend::db::{get_accounts, get_contacts, get_messages};
use akama::backend::stanza::{
    displayed_elm, handle_payloads, make_presence, new_text_stanza, recieved_elm, subscribe, IncomingMessage,
    PresenceShow, PresenceType, Stanza, XmppEvent,
};
use akama::backend::{contacts_event, Action, Backend};
use akama::common::id::{Id, Jid};
use akama::common::message::{Content, Stamp};
use akama::common::{BackendEvent, Status, UiEvent};

fn id(text: &str) -> Id {
    Id::parse(text).unwrap()
}

fn jid(text: &str) -> Jid {
    Jid::parse(text).unwrap()
}

#[test]
fn new_text_is_sent_stored_and_shown() {
    let mut backend = Backend::new();
    backend.load_account(id("me@x.org"));
    let now = Stamp { secs: 100, nanos: 7 };
    let actions = backend.on_ui_event_at(
        UiEvent::NewText { from: id("me@x.org"), to: id("you@y.org"), content: String::from("hey") },
        now,
    );
    assert_eq!(actions.len(), 3);
    match &actions[0] {
        Action::SendMessage { account, message } => {
            assert_eq!(account.as_str(), "me@x.org");
            assert_eq!(message.from.as_str(), "me@x.org");
            assert_eq!(message.to.as_str(), "you@y.org");
            assert_eq!(message.body, "hey");
        },
        other => panic!("unexpected {:?}", other),
    }
    match &actions[1] {
        Action::StoreMessage { from, to, body, timestamp } => {
            assert_eq!(from.as_str(), "me@x.org");
            assert_eq!(to.as_str(), "you@y.org");
            assert_eq!(body, "hey");
            assert_eq!(*timestamp, now);
        },
        other => panic!("unexpected {:?}", other),
    }
    match &actions[2] {
        Action::Emit(BackendEvent::Message { to, from, body, by_me, timestamp, id }) => {
            assert_eq!(from.as_str(), "me@x.org");
            assert_eq!(to.as_str(), "you@y.org");
            assert_eq!(body, "hey");
            assert!(*by_me);
            assert_eq!(*timestamp, now);
            assert!(id.is_none());
        },
        other => panic!("unexpected {:?}", other),
    }
}

#[test]
fn new_contact_is_stored() {
    let mut backend = Backend::new();
    let actions = backend.on_ui_event(UiEvent::NewContact(id("me@x.org"), id("c@y.org")));
    assert_eq!(actions.len(), 1);
    assert!(matches!(&actions[0], Action::StoreContact { account, contact }
        if account.as_str() == "me@x.org" && contact.as_str() == "c@y.org"));
}

#[test]
fn other_requests_are_reported() {
    let mut backend = Backend::new();
    let actions = backend.on_ui_event(UiEvent::DisconnectAccount(id("me@x.org")));
    assert_eq!(actions.len(), 1);
    assert!(matches!(&actions[0], Action::Unhandled(UiEvent::DisconnectAccount(_))));
    let backend2 = Backend::new();
    let none = backend2.handle_ui_event_at(
        UiEvent::NewXmppClient { jid: jid("a@b.org/r"), password: String::from("p") },
        Stamp { secs: 0, nanos: 0 },
    );
    assert!(none.is_empty());
}

#[test]
fn new_client_is_stored_and_taken_in() {
    let mut backend = Backend::new();
    let actions = backend.on_ui_event(UiEvent::NewXmppClient { jid: jid("Me@X.org/laptop"), password: String::from("secret") });
    assert_eq!(actions.len(), 2);
    match &actions[0] {
        Action::StoreAccount { id, resource, password } => {
            assert_eq!(id.as_str(), "me@x.org");
            assert_eq!(resource, &Some(String::from("laptop")));
            assert_eq!(password, "secret");
        },
        other => panic!("unexpected {:?}", other),
    }
    assert!(matches!(&actions[1], Action::AttachClient { id } if id.as_str() == "me@x.org"));
    let sent = backend.on_ui_event(UiEvent::NewText { from: id("me@x.org"), to: id("y@z.org"), content: String::from("x") });
    assert_eq!(sent.len(), 3);
}

#[test]
fn loaded_account_is_shown_connecting() {
    let mut backend = Backend::new();
    match backend.load_account(id("me@x.org")) {
        BackendEvent::Account(i, account) => {
            assert_eq!(i.as_str(), "me@x.org");
            assert_eq!(account.id().as_str(), "me@x.org");
            assert_eq!(account.resource(), &None);
            assert_eq!(account.status(), &Status::Connecting);
        },
        other => panic!("unexpected {:?}", other),
    }
}

#[test]
fn online_connection_announces_itself() {
    let mut backend = Backend::new();
    backend.load_account(id("me@x.org"));
    let actions = backend.handle_xmpp_event(
        &id("me@x.org"),
        XmppEvent::Online { bound_jid: jid("me@x.org/abc123"), resumed: false },
    );
    assert_eq!(actions.len(), 2);
    match &actions[0] {
        Action::SendPresence { account, presence } => {
            assert_eq!(account.as_str(), "me@x.org");
            assert_eq!(presence.type_, PresenceType::Available);
            assert_eq!(presence.show, Some(PresenceShow::Chat));
            assert_eq!(presence.status, Some((String::from("en"), String::from("Echoing messages."))));
            assert!(presence.to.is_none());
        },
        other => panic!("unexpected {:?}", other),
    }
    assert!(matches!(&actions[1], Action::Emit(BackendEvent::AccountStatusUpdate(i, Status::Online(Some(r))))
        if i.as_str() == "me@x.org" && r == "abc123"));
}

#[test]
fn received_message_with_body_is_stored_and_shown() {
    let backend = Backend::new();
    let message = IncomingMessage {
        from: Some(jid("you@y.org/phone")),
        to: Some(jid("me@x.org/pc")),
        id: Some(String::from("id1")),
        bodies: vec![(String::from("de"), String::from("hallo")), (String::new(), String::from("hello"))],
    };
    let actions = backend.handle_message_at(message, Stamp { secs: 1, nanos: 0 }, Stamp { secs: 2, nanos: 0 });
    assert_eq!(actions.len(), 2);
    match &actions[0] {
        Action::StoreMessage { from, to, body, timestamp } => {
            assert_eq!(from.as_str(), "you@y.org");
            assert_eq!(to.as_str(), "me@x.org");
            assert_eq!(body, "hello");
            assert_eq!(timestamp.secs, 1);
        },
        other => panic!("unexpected {:?}", other),
    }
    match &actions[1] {
        Action::Emit(BackendEvent::Message { to, from, body, by_me, timestamp, id }) => {
            assert_eq!(to.as_str(), "me@x.org");
            assert_eq!(from.as_str(), "you@y.org");
            assert_eq!(body, "hello");
            assert!(!*by_me);
            assert_eq!(timestamp.secs, 2);
            assert_eq!(id, &Some(String::from("id1")));
        },
        other => panic!("unexpected {:?}", other),
    }
}

#[test]
fn received_message_without_default_body_is_dropped() {
    let backend = Backend::new();
    let message = IncomingMessage {
        from: None,
        to: None,
        id: None,
        bodies: vec![(String::from("fr"), String::from("salut"))],
    };
    let actions = backend.handle_xmpp_event(&id("me@x.org"), XmppEvent::Stanza(Stanza::Message(message)));
    assert!(actions.is_empty());
    assert!(backend.handle_xmpp_event(&id("me@x.org"), XmppEvent::Stanza(Stanza::Iq)).is_empty());
    assert!(backend.handle_xmpp_event(&id("me@x.org"), XmppEvent::Stanza(Stanza::Presence)).is_empty());
    assert!(backend.handle_xmpp_event(&id("me@x.org"), XmppEvent::Disconnected(String::from("eof"))).is_empty());
}

#[test]
fn contacts_event_only_when_there_are_contacts() {
    assert!(contacts_event(&id("me@x.org"), Vec::new()).is_none());
    let rows = vec![(id("c@y.org"), vec![(true, String::from("a"), Stamp { secs: 3, nanos: 0 })])];
    match contacts_event(&id("me@x.org"), rows) {
        Some(BackendEvent::Contacts(list)) => {
            assert_eq!(list.len(), 1);
            assert_eq!(list[0].0.as_str(), "me@x.org");
            assert_eq!(list[0].1.as_str(), "c@y.org");
            assert_eq!(list[0].2.status(), &Status::Offline);
            assert_eq!(list[0].2.chat_history.len(), 1);
            assert_eq!(list[0].2.chat_history[0].content, Content::Text(String::from("a")));
            assert!(list[0].2.chat_history[0].by_me);
        },
        other => panic!("unexpected {:?}", other),
    }
}

#[test]
fn account_rows() {
    let good = vec![(Some(String::from("Me@X.org")), String::from("pw"))];
    let accounts = get_accounts(&good).unwrap();
    assert_eq!(accounts.len(), 1);
    assert_eq!(accounts[0].0.as_str(), "me@x.org");
    assert_eq!(accounts[0].1, "pw");
    assert!(get_accounts(&vec![(None, String::from("pw"))]).is_none());
    assert!(get_accounts(&vec![(Some(String::from("a@b.org/r")), String::from("pw"))]).is_none());
}

#[test]
fn contact_rows() {
    let ids = get_contacts(&vec![String::from("a@b.org"), String::from("C@D.org")]).unwrap();
    assert_eq!(ids[1].as_str(), "c@d.org");
    assert!(get_contacts(&vec![String::from("a@b.org"), String::from("@bad")]).is_none());
}

#[test]
fn message_rows_know_who_wrote_them() {
    let rows = vec![
        (String::from("me@x.org"), String::from("mine"), Stamp { secs: 1, nanos: 0 }),
        (String::from("you@y.org"), String::from("yours"), Stamp { secs: 2, nanos: 0 }),
    ];
    let chats = get_messages(&id("me@x.org"), &rows);
    assert_eq!(chats, vec![
        (true, String::from("mine"), Stamp { secs: 1, nanos: 0 }),
        (false, String::from("yours"), Stamp { secs: 2, nanos: 0 }),
    ]);
}

#[test]
fn stanzas() {
    let m = new_text_stanza(jid("a@b.org"), jid("c@d.org"), String::from("t"));
    assert_eq!(m.from.as_str(), "a@b.org");
    assert_eq!(m.body, "t");
    let p = make_presence();
    assert_eq!(p.type_, PresenceType::Available);
    let s = subscribe(jid("c@d.org"));
    assert_eq!(s.type_, PresenceType::Subscribe);
    assert_eq!(s.to.unwrap().as_str(), "c@d.org");
    assert!(s.show.is_none());
    let r = recieved_elm("42");
    assert_eq!((r.name.as_str(), r.namespace.as_str(), r.id.as_str()), ("recieved", "urn:xmpp:reciepts:0", "42"));
    let d = displayed_elm("42");
    assert_eq!((d.name.as_str(), d.namespace.as_str()), ("displayed", "urn:xmpp:chat-markers:0"));
    let names = vec![String::from("request"), String::from("delay"), String::from("request")];
    let markers = handle_payloads(&names, "9");
    assert_eq!(markers.len(), 2);
    assert_eq!(markers[0].namespace, "urn:xmpp:reciepts");
    assert_eq!(markers[1].id, "9");
}
