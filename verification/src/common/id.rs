//! Jabber identifiers: full JIDs as the `jid` crate normalizes them, and the
//! bare identifiers by which accounts and contacts are keyed.

use vstd::prelude::*;

verus! {

#[verifier::external_type_specification]
#[verifier::external_body]
pub struct ExJidError(xmpp_parsers::jid::Error);

/// What `jid::Jid::new` makes of a text when it accepts it: the normalized
/// form (`as_str`), the bare part (`to_bare().as_str()`) and the resource.
pub uninterp spec fn jid_parts(input: Seq<char>) -> Option<(Seq<char>, Seq<char>, Option<Seq<char>>)>;

/// The normalized text of the bare JID that `text` denotes, when `text` is a
/// JID without a resource: what `BareJid::new` accepts.
pub open spec fn bare_jid_of(text: Seq<char>) -> Option<Seq<char>> {
    match jid_parts(text) {
        Some(parts) => match parts.2 {
            None => Some(parts.0),
            Some(_) => None,
        },
        None => None,
    }
}

/// Calls `xmpp_parsers::jid::Jid::new` (the `jid` crate) on `text`. The
/// contract claims only that the outcome is the named `jid_parts` of the text:
/// stringprep and the length limits are not restated here.
#[verifier::external_body]
fn jid_new(text: &str) -> (res: Result<(String, String, Option<String>), xmpp_parsers::jid::Error>)
    ensures
        match res {
            Ok(parts) => jid_parts(text@) == Some((parts.0@, parts.1@, parts.2.deep_view())),
            Err(_) => jid_parts(text@) is None,
        },
{
    match xmpp_parsers::jid::Jid::new(text) {
        Ok(jid) => {
            let resource = match jid.resource() {
                Some(r) => Some(r.to_string()),
                None => None,
            };
            Ok((jid.as_str().to_string(), jid.to_bare().as_str().to_string(), resource))
        },
        Err(e) => Err(e),
    }
}

/// Why a text is not accepted as a JID.
#[derive(Debug, Clone, Copy, PartialEq, Eq, Structural)]
pub enum JidError {
    /// The `jid` crate refused the text.
    Invalid,
    /// A bare JID was asked for, but the text names a resource.
    ResourceInBareJid,
}

/// The abstract value of a [`Jid`].
pub struct JidView {
    pub full: Seq<char>,
    pub bare: Seq<char>,
    pub resource: Option<Seq<char>>,
}

/// A JID as accepted by the `jid` crate: `node@domain/resource`, where node
/// and resource may be missing.
#[derive(Debug)]
pub struct Jid {
    full: String,
    bare: String,
    resource: Option<String>,
}

impl JidView {
    /// The parts in the order in which `jid_parts` gives them.
    pub open spec fn parts(self) -> (Seq<char>, Seq<char>, Option<Seq<char>>) {
        (self.full, self.bare, self.resource)
    }
}

impl View for Jid {
    type V = JidView;

    closed spec fn view(&self) -> JidView {
        JidView { full: self.full@, bare: self.bare@, resource: self.resource.deep_view() }
    }
}

impl Jid {
    /// Parses and normalizes `text`.
    pub fn parse(text: &str) -> (res: Result<Jid, JidError>)
        ensures
            match jid_parts(text@) {
                Some(parts) => res matches Ok(jid) && jid@.parts() == parts,
                None => res == Err::<Jid, JidError>(JidError::Invalid),
            },
    {
        let parts = match jid_new(text) {
            Ok(parts) => Some(parts),
            Err(_) => None,
        };
        Jid::from_parts(parts)
    }

    /// The JID made of the parts that the `jid` crate gave for an accepted
    /// text (normalized text, bare part, resource); `None` stands for a
    /// refused text.
    pub fn from_parts(parts: Option<(String, String, Option<String>)>) -> (res: Result<Jid, JidError>)
        ensures
            match parts {
                Some(p) => res matches Ok(jid) && jid@.parts() == (p.0@, p.1@, p.2.deep_view()),
                None => res == Err::<Jid, JidError>(JidError::Invalid),
            },
    {
        match parts {
            Some((full, bare, resource)) => Ok(Jid { full, bare, resource }),
            None => Err(JidError::Invalid),
        }
    }

    /// The JID that `id` is, with no resource (what `From<BareJid>` gives).
    pub closed spec fn bare_of(id: Id) -> Jid {
        Jid { full: id.bare, bare: id.bare, resource: None }
    }

    /// The JID that `id` is, with no resource.
    pub fn from_bare(id: &Id) -> (res: Jid)
        ensures
            res == Jid::bare_of(*id),
            res@ == (JidView { full: id@, bare: id@, resource: None }),
    {
        Jid { full: id.bare.clone(), bare: id.bare.clone(), resource: None }
    }

    /// The normalized text of the JID.
    pub fn as_str(&self) -> (res: &str)
        ensures
            res@ == self@.full,
    {
        self.full.as_str()
    }

    /// The resource, if the JID has one.
    pub fn resource(&self) -> (res: Option<String>)
        ensures
            res.deep_view() == self@.resource,
    {
        match &self.resource {
            Some(r) => Some(r.clone()),
            None => None,
        }
    }

    /// The bare part of the JID, as an identifier.
    pub closed spec fn bare_id(self) -> Id {
        Id { bare: self.bare }
    }

    /// The bare identifier of a JID has the JID's bare text.
    pub proof fn lemma_bare_id(self)
        ensures
            self.bare_id()@ == self@.bare,
    {
    }

    /// A bare identifier, made a JID and made bare again, is itself; the JID
    /// has no resource.
    pub proof fn lemma_bare_round_trip(id: Id)
        ensures
            Jid::bare_of(id).bare_id() == id,
            Jid::bare_of(id)@ == (JidView { full: id@, bare: id@, resource: None }),
    {
    }

    /// The JID without its resource.
    pub fn to_bare(&self) -> (res: Id)
        ensures
            res == self.bare_id(),
            res@ == self@.bare,
    {
        Id { bare: self.bare.clone() }
    }
}

impl Clone for Jid {
    fn clone(&self) -> (res: Self)
        ensures
            res == *self,
    {
        let resource = match &self.resource {
            Some(r) => Some(r.clone()),
            None => None,
        };
        Jid { full: self.full.clone(), bare: self.bare.clone(), resource }
    }
}

/// A bare JID (`node@domain`), the key of accounts and contacts.
#[derive(Debug, Hash)]
pub struct Id {
    bare: String,
}

impl View for Id {
    type V = Seq<char>;

    closed spec fn view(&self) -> Seq<char> {
        self.bare@
    }
}

impl Id {
    /// Parses `text` as a bare JID, as `BareJid::new` does: the text must be a
    /// JID and must not name a resource.
    pub fn parse(text: &str) -> (res: Result<Id, JidError>)
        ensures
            match jid_parts(text@) {
                Some(parts) => match parts.2 {
                    None => res matches Ok(id) && id@ == parts.0,
                    Some(_) => res == Err::<Id, JidError>(JidError::ResourceInBareJid),
                },
                None => res == Err::<Id, JidError>(JidError::Invalid),
            },
    {
        let parts = match jid_new(text) {
            Ok(parts) => Some(parts),
            Err(_) => None,
        };
        Id::from_parts(parts)
    }

    /// The bare identifier made of the parts that the `jid` crate gave for an
    /// accepted text (normalized text, bare part, resource): the normalized
    /// text, unless a resource is named; `None` stands for a refused text.
    pub fn from_parts(parts: Option<(String, String, Option<String>)>) -> (res: Result<Id, JidError>)
        ensures
            match parts {
                Some(p) => match p.2 {
                    None => res matches Ok(id) && id@ == p.0@,
                    Some(_) => res == Err::<Id, JidError>(JidError::ResourceInBareJid),
                },
                None => res == Err::<Id, JidError>(JidError::Invalid),
            },
    {
        match parts {
            Some((full, _bare, resource)) => match resource {
                None => Ok(Id { bare: full }),
                Some(_) => Err(JidError::ResourceInBareJid),
            },
            None => Err(JidError::Invalid),
        }
    }

    /// The bare part of `jid`.
    pub fn new(jid: Jid) -> (res: Id)
        ensures
            res == jid.bare_id(),
            res@ == jid@.bare,
    {
        Id { bare: jid.bare }
    }

    /// The bare part of `jid`, leaving `jid` in place.
    pub fn from_jid(jid: &Jid) -> (res: Id)
        ensures
            res == jid.bare_id(),
            res@ == jid@.bare,
    {
        jid.to_bare()
    }

    /// The text of the bare JID.
    pub fn as_str(&self) -> (res: &str)
        ensures
            res@ == self@,
    {
        self.bare.as_str()
    }

    /// The text of the bare JID, as an owned string.
    pub fn to_string(&self) -> (res: String)
        ensures
            res@ == self@,
    {
        self.bare.clone()
    }

    /// Whether both name the same bare JID.
    pub fn same(&self, other: &Id) -> (res: bool)
        ensures
            res == (self@ == other@),
    {
        self.bare == other.bare
    }
}

impl Clone for Id {
    fn clone(&self) -> (res: Self)
        ensures
            res == *self,
    {
        Id { bare: self.bare.clone() }
    }
}

impl PartialEq for Id {
    fn eq(&self, other: &Id) -> (res: bool) {
        self.bare == other.bare
    }
}

impl Eq for Id {
}

impl vstd::std_specs::cmp::PartialEqSpecImpl for Id {
    open spec fn obeys_eq_spec() -> bool {
        true
    }

    open spec fn eq_spec(&self, other: &Id) -> bool {
        self@ == other@
    }
}

} // verus!
