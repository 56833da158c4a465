//! The user's own accounts.

use vstd::prelude::*;
use super::id::{Id, Jid};
use super::Status;

verus! {

/// The bare JID that names an account.
pub type AccountId = Id;

/// The abstract value of an [`Account`].
pub struct AccountView {
    pub id: Seq<char>,
    pub resource: Option<Seq<char>>,
    pub status: Status,
}

/// An account of the user: its bare JID, the resource it is bound to, and
/// its presence.
#[derive(Debug)]
pub struct Account {
    id: AccountId,
    resource: Option<String>,
    status: Status,
}

impl View for Account {
    type V = AccountView;

    closed spec fn view(&self) -> AccountView {
        AccountView { id: self.id@, resource: self.resource.deep_view(), status: self.status }
    }
}

impl Account {
    /// The account of `jid`: keyed by its bare part, bound to its resource.
    pub fn new(jid: Jid, status: Status) -> (res: Self)
        ensures
            res@ == (AccountView { id: jid@.bare, resource: jid@.resource, status }),
    {
        let resource = jid.resource();
        let id = Id::new(jid);
        Self { id, resource, status }
    }

    pub fn id(&self) -> (res: &Id)
        ensures
            res@ == self@.id,
    {
        &self.id
    }

    pub fn status(&self) -> (res: &Status)
        ensures
            *res == self@.status,
    {
        &self.status
    }

    pub fn resource(&self) -> (res: &Option<String>)
        ensures
            res.deep_view() == self@.resource,
    {
        &self.resource
    }

    pub fn set_jid_resource(&mut self, resource: String)
        ensures
            final(self)@ == (AccountView { resource: Some(resource@), ..old(self)@ }),
    {
        self.resource = Some(resource);
    }

    pub fn set_status(&mut self, status: Status)
        ensures
            final(self)@ == (AccountView { status, ..old(self)@ }),
    {
        self.status = status
    }
}

impl Clone for Account {
    fn clone(&self) -> (res: Self)
        ensures
            res@ == self@,
    {
        let resource = match &self.resource {
            Some(r) => Some(r.clone()),
            None => None,
        };
        Account { id: self.id.clone(), resource, status: self.status.clone() }
    }
}

} // verus!
