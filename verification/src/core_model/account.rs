//! An account that keeps the full JID it is bound to.

use vstd::prelude::*;
use crate::common::id::{Id, Jid, JidView};
use super::Status;

verus! {

/// The bare JID that names an account.
pub type AccountId = Id;

/// An account of the user: the JID it is bound to and its presence.
#[derive(Debug)]
pub struct Account {
    jid: Jid,
    status: Status,
}

/// The abstract value of an [`Account`].
pub struct AccountView {
    pub jid: JidView,
    pub status: Status,
}

impl View for Account {
    type V = AccountView;

    closed spec fn view(&self) -> AccountView {
        AccountView { jid: self.jid@, status: self.status }
    }
}

impl Account {
    /// The JID of the account.
    pub closed spec fn spec_jid(&self) -> Jid {
        self.jid
    }

    /// The presence of the account.
    pub closed spec fn spec_status(&self) -> Status {
        self.status
    }

    pub fn new(jid: Jid, status: Status) -> (res: Self)
        ensures
            res.spec_jid() == jid,
            res.spec_status() == status,
            res@ == (AccountView { jid: jid@, status }),
    {
        Self { jid, status }
    }

    pub fn set_jid(&mut self, jid: Jid)
        ensures
            final(self).spec_jid() == jid,
            final(self).spec_status() == old(self).spec_status(),
            final(self)@ == (AccountView { jid: jid@, ..old(self)@ }),
    {
        self.jid = jid;
    }

    pub fn jid(&self) -> (res: &Jid)
        ensures
            *res == self.spec_jid(),
    {
        &self.jid
    }

    pub fn status(&self) -> (res: &Status)
        ensures
            *res == self.spec_status(),
    {
        &self.status
    }

    pub fn set_status(&mut self, status: Status)
        ensures
            final(self).spec_status() == status,
            final(self).spec_jid() == old(self).spec_jid(),
            final(self)@ == (AccountView { status, ..old(self)@ }),
    {
        self.status = status
    }
}

impl Clone for Account {
    fn clone(&self) -> (res: Self)
        ensures
            res == *self,
    {
        Account { jid: self.jid.clone(), status: self.status }
    }
}

} // verus!
