//! Chat messages and the instants at which they were sent or received.

use vstd::prelude::*;

verus! {

/// An instant, as seconds and nanoseconds since the Unix epoch (UTC).
#[derive(Debug, Clone, Copy, PartialEq, Eq, Structural, Hash)]
pub struct Stamp {
    pub secs: i64,
    pub nanos: u32,
}

/// Calls `chrono::Utc::now()` and reads the instant as seconds
/// (`timestamp`) and nanoseconds (`timestamp_subsec_nanos`). The contract
/// claims only the range of the nanoseconds that chrono documents (leap
/// seconds included); which instant comes back is the clock's.
#[verifier::external_body]
pub(crate) fn utc_now() -> (res: Stamp)
    ensures
        res.nanos < 2_000_000_000,
{
    let now = chrono::Utc::now();
    Stamp { secs: now.timestamp(), nanos: now.timestamp_subsec_nanos() }
}

/// What a message says.
#[derive(Debug)]
pub enum Content {
    Text(String),
}

impl Content {
    /// The text of the content.
    pub open spec fn text(&self) -> String {
        match self {
            Content::Text(t) => *t,
        }
    }
}

impl Clone for Content {
    fn clone(&self) -> (res: Self)
        ensures
            res == *self,
    {
        match self {
            Content::Text(t) => Content::Text(t.clone()),
        }
    }
}

impl PartialEq for Content {
    fn eq(&self, other: &Content) -> (res: bool) {
        match (self, other) {
            (Content::Text(a), Content::Text(b)) => *a == *b,
        }
    }
}

impl Eq for Content {
}

impl vstd::std_specs::cmp::PartialEqSpecImpl for Content {
    open spec fn obeys_eq_spec() -> bool {
        true
    }

    open spec fn eq_spec(&self, other: &Content) -> bool {
        match (self, other) {
            (Content::Text(a), Content::Text(b)) => a@ == b@,
        }
    }
}

/// One message of a chat.
#[derive(Debug)]
pub struct Message {
    pub content: Content,
    /// Whether the user of this client wrote it.
    pub by_me: bool,
    pub stamp: Stamp,
}

impl Message {
    /// A text message.
    pub fn new_text(text: String, by_me: bool, stamp: Stamp) -> (res: Self)
        ensures
            res == (Message { content: Content::Text(text), by_me, stamp }),
    {
        Self { content: Content::Text(text), by_me, stamp }
    }
}

impl Clone for Message {
    fn clone(&self) -> (res: Self)
        ensures
            res == *self,
    {
        Message { content: self.content.clone(), by_me: self.by_me, stamp: self.stamp }
    }
}

impl PartialEq for Message {
    fn eq(&self, other: &Message) -> (res: bool) {
        self.content == other.content && self.by_me == other.by_me && self.stamp == other.stamp
    }
}

impl Eq for Message {
}

impl vstd::std_specs::cmp::PartialEqSpecImpl for Message {
    open spec fn obeys_eq_spec() -> bool {
        true
    }

    open spec fn eq_spec(&self, other: &Message) -> bool {
        &&& self.content.text()@ == other.content.text()@
        &&& self.by_me == other.by_me
        &&& self.stamp == other.stamp
    }
}

} // verus!
