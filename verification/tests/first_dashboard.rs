use akama::common::id::{Id, Jid};
use akama::common::message::Stamp;
use akama::core_model::{Account, BackendEvent, Contact, Status, UiEvent};
use akama::ui::screen::dashboard::{Effect, Event, State};

fn id(text: &str) -> Id {
    Id::parse(text).unwrap()
}

#[test]
fn first_dashboard_account_online_updates_jid() {
    let mut state = State::new();
    let account = Account::new(Jid::parse("me@x.org").unwrap(), Status::Connecting);
    state.update(Event::BackendEvent(BackendEvent::Account(id("me@x.org"), account)));
    let online = Event::BackendEvent(BackendEvent::AccountOnline(id("me@x.org"), Jid::parse("me@x.org/r1").unwrap()));
    assert!(!state.fails_on(&online));
    assert!(matches!(state.update(online), Effect::Nothing));
    let unknown = Event::BackendEvent(BackendEvent::AccountOnline(id("no@x.org"), Jid::parse("no@x.org/r").unwrap()));
    assert!(state.try_update(unknown).is_none());
}

#[test]
fn first_dashboard_contact_event_is_not_implemented() {
    let mut state = State::new();
    let m = Event::BackendEvent(BackendEvent::Contact { account: id("a@b.org"), contact: id("c@d.org"), chats: Vec::new() });
    assert!(state.try_update(m).is_none());
}

#[test]
fn first_dashboard_message_submit() {
    let mut state = State::new();
    let contact = Contact::new(id("you@y.org"), Status::Offline, Vec::new());
    state.update(Event::BackendEvent(BackendEvent::Contacts(vec![(id("me@x.org"), id("you@y.org"), contact)])));
    state.update(Event::ChangeCurrentAccount(id("me@x.org")));
    state.update(Event::ChangeCurrentContact(id("you@y.org")));
    state.update(Event::NewMessageTextInput(String::from("yo")));
    match state.update(Event::NewMessageSubmit) {
        Effect::Send(UiEvent::NewText { from, to, content }) => {
            assert_eq!(from.as_str(), "me@x.org");
            assert_eq!(to.as_str(), "you@y.org");
            assert_eq!(content, "yo");
        },
        other => panic!("unexpected {:?}", other),
    }
    state.update(Event::BackendEvent(BackendEvent::Message {
        to: id("me@x.org"),
        from: id("you@y.org"),
        body: String::from("back"),
        by_me: false,
        timestamp: Stamp { secs: 0, nanos: 0 },
    }));
    assert!(matches!(state.update(Event::Hi), Effect::Nothing));
    assert!(matches!(state.update(Event::InputChanged(String::from("ignored"))), Effect::Nothing));
}

#[test]
fn first_account_type_keeps_full_jid() {
    let mut account = Account::new(Jid::parse("me@x.org/a").unwrap(), Status::Offline);
    assert_eq!(account.jid().as_str(), "me@x.org/a");
    account.set_jid(Jid::parse("me@x.org/b").unwrap());
    account.set_status(Status::Online);
    assert_eq!(account.jid().as_str(), "me@x.org/b");
    assert_eq!(*account.status(), Status::Online);
}
