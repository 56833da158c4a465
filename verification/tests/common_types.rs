use akama::common::id::{Id, Jid, JidError};
use akama::common::message::{Content, Message, Stamp};
use akama::common::{Account, Contact, Status};
use akama::id_map::IdMap;

#[test]
fn jid_parse_normalizes_through_the_jid_crate() {
    let jid = Jid::parse("Foo@Example.COM/Res").unwrap();
    assert_eq!(jid.as_str(), "foo@example.com/Res");
    assert_eq!(jid.to_bare().as_str(), "foo@example.com");
    assert_eq!(jid.resource(), Some(String::from("Res")));
}

#[test]
fn jid_parse_without_resource() {
    let jid = Jid::parse("alice@example.com").unwrap();
    assert_eq!(jid.as_str(), "alice@example.com");
    assert_eq!(jid.resource(), None);
}

#[test]
fn jid_parse_refuses_empty_node() {
    assert!(matches!(Jid::parse("@example.com"), Err(JidError::Invalid)));
    assert!(matches!(Jid::parse(""), Err(JidError::Invalid)));
}

#[test]
fn id_parse_refuses_a_resource() {
    assert!(matches!(Id::parse("a@b.org/phone"), Err(JidError::ResourceInBareJid)));
    assert!(matches!(Id::parse("@b.org"), Err(JidError::Invalid)));
}

#[test]
fn id_parse_normalizes() {
    let id = Id::parse("Alice@Example.com").unwrap();
    assert_eq!(id.as_str(), "alice@example.com");
    assert_eq!(id.to_string(), "alice@example.com");
    assert_eq!(id, Id::parse("alice@EXAMPLE.com").unwrap());
    assert!(id.same(&Id::parse("alice@example.com").unwrap()));
    assert_ne!(id, Id::parse("bob@example.com").unwrap());
}

#[test]
fn jid_from_parts_keeps_each_part() {
    let parts = (String::from("a@b.org/x"), String::from("a@b.org"), Some(String::from("x")));
    let jid = Jid::from_parts(Some(parts)).unwrap();
    assert_eq!(jid.as_str(), "a@b.org/x");
    assert_eq!(jid.to_bare().as_str(), "a@b.org");
    assert_eq!(jid.resource(), Some(String::from("x")));
    assert!(matches!(Jid::from_parts(None), Err(JidError::Invalid)));
}

#[test]
fn id_from_parts_refuses_a_resource() {
    let bare = (String::from("c@d.net"), String::from("c@d.net"), None);
    assert_eq!(Id::from_parts(Some(bare)).unwrap().as_str(), "c@d.net");
    let full = (String::from("c@d.net/r"), String::from("c@d.net"), Some(String::from("r")));
    assert!(matches!(Id::from_parts(Some(full)), Err(JidError::ResourceInBareJid)));
    assert!(matches!(Id::from_parts(None), Err(JidError::Invalid)));
}

#[test]
fn id_of_jid_drops_the_resource() {
    let jid = Jid::parse("a@b.org/home").unwrap();
    assert_eq!(Id::from_jid(&jid).as_str(), "a@b.org");
    assert_eq!(Id::new(jid).as_str(), "a@b.org");
}

#[test]
fn bare_round_trip() {
    let id = Id::parse("a@b.org").unwrap();
    let jid = Jid::from_bare(&id);
    assert_eq!(jid.as_str(), "a@b.org");
    assert_eq!(jid.resource(), None);
    assert_eq!(jid.to_bare(), id);
}

#[test]
fn status_labels() {
    assert_eq!(Status::Online(Some(String::from("r"))).to_string(), "Online");
    assert_eq!(Status::Online(None).to_string(), "Online");
    assert_eq!(Status::Offline.to_string(), "Offline");
    assert_eq!(Status::Connecting.to_string(), "Connecting");
    assert_eq!(Status::Away.to_string(), "Away");
    assert_eq!(Status::Dnd.to_string(), "Dnd");
    assert_eq!(Status::Xa.to_string(), "Extended Away");
}

#[test]
fn status_equality_looks_at_the_resource() {
    assert_eq!(Status::Online(None), Status::Online(None));
    assert_ne!(Status::Online(None), Status::Online(Some(String::from("x"))));
    assert_eq!(Status::Online(Some(String::from("x"))), Status::Online(Some(String::from("x"))).clone());
    assert_ne!(Status::Away, Status::Xa);
}

#[test]
fn message_new_text() {
    let stamp = Stamp { secs: 10, nanos: 5 };
    let m = Message::new_text(String::from("hi"), true, stamp);
    assert_eq!(m.content, Content::Text(String::from("hi")));
    assert!(m.by_me);
    assert_eq!(m.stamp, stamp);
    assert_eq!(m.clone(), m);
}

#[test]
fn account_new_takes_the_resource() {
    let jid = Jid::parse("me@server.net/laptop").unwrap();
    let mut account = Account::new(jid, Status::Connecting);
    assert_eq!(account.id().as_str(), "me@server.net");
    assert_eq!(account.resource(), &Some(String::from("laptop")));
    assert_eq!(account.status(), &Status::Connecting);
    account.set_status(Status::Away);
    assert_eq!(account.status(), &Status::Away);
    account.set_jid_resource(String::from("phone"));
    assert_eq!(account.resource(), &Some(String::from("phone")));
}

#[test]
fn contact_new_text_is_stamped_now() {
    let mut contact = Contact::new(Id::parse("c@d.org").unwrap(), Status::Offline, Vec::new());
    contact.new_text(String::from("hello"), false);
    assert_eq!(contact.chat_history.len(), 1);
    let m = &contact.chat_history[0];
    assert_eq!(m.content, Content::Text(String::from("hello")));
    assert!(!m.by_me);
    assert!(m.stamp.secs > 1_600_000_000);
    assert!(m.stamp.nanos < 2_000_000_000);
    contact.new_text_at(String::from("later"), true, Stamp { secs: 1, nanos: 2 });
    assert_eq!(contact.chat_history.len(), 2);
    assert_eq!(contact.chat_history[1].stamp, Stamp { secs: 1, nanos: 2 });
    contact.clear_chat_history();
    assert!(contact.chat_history.is_empty());
    assert_eq!(contact.jid().as_str(), "c@d.org");
    contact.set_status(Status::Dnd);
    assert_eq!(contact.status(), &Status::Dnd);
}

#[test]
fn id_map_read_after_write() {
    let a = Id::parse("a@x.org").unwrap();
    let b = Id::parse("b@x.org").unwrap();
    let mut m: IdMap<u32> = IdMap::new();
    assert!(m.get(&a).is_none());
    assert_eq!(m.insert(a.clone(), 1), None);
    assert_eq!(m.insert(b.clone(), 2), None);
    assert_eq!(m.get(&a), Some(&1));
    assert_eq!(m.insert(Id::parse("A@X.org").unwrap(), 3), Some(1));
    assert_eq!(m.get(&a), Some(&3));
    assert_eq!(m.get(&b), Some(&2));
    *m.get_mut(&b) = 7;
    assert_eq!(m.get(&b), Some(&7));
    assert!(m.contains_key(&a));
    assert!(!m.contains_key(&Id::parse("c@x.org").unwrap()));
    let keys: Vec<String> = m.keys().iter().map(|k| k.to_string()).collect();
    assert_eq!(keys, vec![String::from("a@x.org"), String::from("b@x.org")]);
}
