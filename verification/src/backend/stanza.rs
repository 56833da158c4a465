//! The stanzas the backend sends and the XMPP events it receives, held as
//! plain values; the application converts them to and from `xmpp_parsers`
//! and `tokio_xmpp` types.

use vstd::prelude::*;
use crate::common::id::Jid;

verus! {

/// A chat message to send: of type `chat`, with `body` as its one body in
/// the default language, and no id, subject, thread or payload.
#[derive(Debug)]
pub struct OutgoingMessage {
    pub from: Jid,
    pub to: Jid,
    pub body: String,
}

/// The `type` attribute of a presence stanza.
#[derive(Debug, Clone, Copy, PartialEq, Eq, Structural)]
pub enum PresenceType {
    /// No `type` attribute: the sender is available.
    Available,
    Subscribe,
}

/// The `show` element of a presence stanza.
#[derive(Debug, Clone, Copy, PartialEq, Eq, Structural)]
pub enum PresenceShow {
    Away,
    Chat,
    Dnd,
    Xa,
}

/// A presence stanza to send. `status` is its one status text, with the
/// language of that text.
#[derive(Debug)]
pub struct OutgoingPresence {
    pub type_: PresenceType,
    pub to: Option<Jid>,
    pub show: Option<PresenceShow>,
    pub status: Option<(String, String)>,
}

impl OutgoingPresence {
    /// The presence by which an account announces itself once online.
    pub open spec fn is_announcement(self) -> bool {
        &&& self.type_ == PresenceType::Available
        &&& self.to is None
        &&& self.show == Some(PresenceShow::Chat)
        &&& self.status matches Some(s) && s.0@ == "en"@ && s.1@ == "Echoing messages."@
    }
}

/// A receipt element (`urn:xmpp:reciepts` family) or a chat marker that
/// acknowledges the message with the given id.
#[derive(Debug)]
pub struct Marker {
    pub name: String,
    pub namespace: String,
    pub id: String,
}

/// A message stanza as received.
#[derive(Debug)]
pub struct IncomingMessage {
    pub from: Option<Jid>,
    pub to: Option<Jid>,
    pub id: Option<String>,
    /// The bodies, each with its language (`""` for the default one); no
    /// language occurs twice.
    pub bodies: Vec<(String, String)>,
}

/// A stanza as received.
#[derive(Debug)]
pub enum Stanza {
    Iq,
    Message(IncomingMessage),
    Presence,
}

/// What a client connection reports.
#[derive(Debug)]
pub enum XmppEvent {
    /// The connection is up, bound to `bound_jid`.
    Online { bound_jid: Jid, resumed: bool },
    /// The connection dropped, for the reason given.
    Disconnected(String),
    Stanza(Stanza),
}

/// A chat message of type `chat` from `from` to `to` whose one body is
/// `text`.
pub fn new_text_stanza(from: Jid, to: Jid, text: String) -> (res: OutgoingMessage)
    ensures
        res == (OutgoingMessage { from, to, body: text }),
{
    OutgoingMessage { from, to, body: text }
}

/// The presence by which an account announces itself once online: available,
/// ready to chat, with the English status "Echoing messages.".
pub fn make_presence() -> (res: OutgoingPresence)
    ensures
        res.is_announcement(),
{
    OutgoingPresence {
        type_: PresenceType::Available,
        to: None,
        show: Some(PresenceShow::Chat),
        status: Some((String::from_str("en"), String::from_str("Echoing messages."))),
    }
}

/// A subscription request to `to`.
pub fn subscribe(to: Jid) -> (res: OutgoingPresence)
    ensures
        res == (OutgoingPresence { type_: PresenceType::Subscribe, to: Some(to), show: None, status: None }),
{
    OutgoingPresence { type_: PresenceType::Subscribe, to: Some(to), show: None, status: None }
}

/// The receipt that acknowledges message `id`.
pub fn recieved_elm(id: &str) -> (res: Marker)
    ensures
        res.name@ == "recieved"@,
        res.namespace@ == "urn:xmpp:reciepts:0"@,
        res.id@ == id@,
{
    Marker {
        name: String::from_str("recieved"),
        namespace: String::from_str("urn:xmpp:reciepts:0"),
        id: String::from_str(id),
    }
}

/// The chat marker that says message `id` was displayed.
pub fn displayed_elm(id: &str) -> (res: Marker)
    ensures
        res.name@ == "displayed"@,
        res.namespace@ == "urn:xmpp:chat-markers:0"@,
        res.id@ == id@,
{
    Marker {
        name: String::from_str("displayed"),
        namespace: String::from_str("urn:xmpp:chat-markers:0"),
        id: String::from_str(id),
    }
}

/// For each payload named `request` (a receipt request), the receipt that
/// answers it, with `id`; other payloads are passed over.
pub fn handle_payloads(payload_names: &Vec<String>, id: &str) -> (res: Vec<Marker>)
    ensures
        res@.len() == payload_names@.filter(|n: String| n@ == "request"@).len(),
        forall|i: int| 0 <= i < res@.len() ==> (#[trigger] res@[i]).name@ == "recieved"@
            && res@[i].namespace@ == "urn:xmpp:reciepts"@ && res@[i].id@ == id@,
{
    let mut elms: Vec<Marker> = Vec::new();
    let n = payload_names.len();
    let request = String::from_str("request");
    let mut i: usize = 0;
    while i < n
        invariant
            n == payload_names@.len(),
            i <= n,
            request@ == "request"@,
            elms@.len() == payload_names@.subrange(0, i as int).filter(|n: String| n@ == "request"@).len(),
            forall|j: int| 0 <= j < elms@.len() ==> (#[trigger] elms@[j]).name@ == "recieved"@
                && elms@[j].namespace@ == "urn:xmpp:reciepts"@ && elms@[j].id@ == id@,
        decreases n - i,
    {
        proof {
            let s = payload_names@.subrange(0, i as int + 1);
            assert(s.drop_last() =~= payload_names@.subrange(0, i as int));
            reveal_with_fuel(Seq::filter, 1);
        }
        if payload_names[i] == request {
            elms.push(Marker {
                name: String::from_str("recieved"),
                namespace: String::from_str("urn:xmpp:reciepts"),
                id: String::from_str(id),
            });
        }
        i = i + 1;
    }
    assert(payload_names@.subrange(0, n as int) =~= payload_names@);
    elms
}

} // verus!
