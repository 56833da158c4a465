//! What the backend makes of the rows of its database.

use vstd::prelude::*;
use crate::common::{AccountId, ContactId, Password};
use crate::common::id::{bare_jid_of, Id};
use crate::common::message::Stamp;

verus! {

/// All rows hold a JID that is a bare JID.
pub open spec fn rows_are_accounts(rows: Seq<(Option<String>, String)>) -> bool {
    forall|i: int| 0 <= i < rows.len() ==> ((#[trigger] rows[i]).0 matches Some(j) && bare_jid_of(j@) is Some)
}

/// The accounts of the `account` table, from its rows (jid, password); `None`
/// if a row holds no JID or one that is not a bare JID.
pub fn get_accounts(rows: &Vec<(Option<String>, String)>) -> (res: Option<Vec<(AccountId, Password)>>)
    ensures
        match res {
            Some(accounts) => rows_are_accounts(rows@) && accounts@.len() == rows@.len()
                && forall|i: int| 0 <= i < rows@.len() ==> {
                    &&& Some((#[trigger] accounts@[i]).0@) == bare_jid_of(rows@[i].0->Some_0@)
                    &&& accounts@[i].1 == rows@[i].1
                },
            None => !rows_are_accounts(rows@),
        },
{
    let n = rows.len();
    let mut res: Vec<(AccountId, Password)> = Vec::new();
    let mut i: usize = 0;
    while i < n
        invariant
            n == rows@.len(),
            i <= n,
            res@.len() == i,
            forall|j: int| 0 <= j < i ==> ((#[trigger] rows@[j]).0 matches Some(t) && bare_jid_of(t@) is Some),
            forall|j: int| 0 <= j < i ==> {
                &&& Some((#[trigger] res@[j]).0@) == bare_jid_of(rows@[j].0->Some_0@)
                &&& res@[j].1 == rows@[j].1
            },
        decreases n - i,
    {
        let id = match &rows[i].0 {
            Some(text) => match Id::parse(text.as_str()) {
                Ok(id) => id,
                Err(_) => return None,
            },
            None => return None,
        };
        res.push((id, rows[i].1.clone()));
        i = i + 1;
    }
    Some(res)
}

/// The contacts of the `contact` table, from its `contact_jid` column; `None`
/// if one is not a bare JID.
pub fn get_contacts(rows: &Vec<String>) -> (res: Option<Vec<ContactId>>)
    ensures
        match res {
            Some(contacts) => contacts@.len() == rows@.len() && forall|i: int| 0 <= i < rows@.len() ==>
                Some((#[trigger] contacts@[i])@) == bare_jid_of(rows@[i]@),
            None => exists|i: int| 0 <= i < rows@.len() && bare_jid_of((#[trigger] rows@[i])@) is None,
        },
{
    let n = rows.len();
    let mut res: Vec<ContactId> = Vec::new();
    let mut i: usize = 0;
    while i < n
        invariant
            n == rows@.len(),
            i <= n,
            res@.len() == i,
            forall|j: int| 0 <= j < i ==> Some((#[trigger] res@[j])@) == bare_jid_of(rows@[j]@),
        decreases n - i,
    {
        match Id::parse(rows[i].as_str()) {
            Ok(id) => res.push(id),
            Err(_) => {
                assert(bare_jid_of(rows@[i as int]@) is None);
                return None;
            },
        }
        i = i + 1;
    }
    Some(res)
}

/// What `account` reads back of a row (from, content, timestamp) of the
/// `message` table: whether the message is the user's own (it is from
/// `account`), its content and its timestamp.
pub open spec fn read_back(account: Seq<char>, row: (String, String, Stamp)) -> (bool, String, Stamp) {
    (account == row.0@, row.1, row.2)
}

/// The messages between `account` and a contact, from the rows (from,
/// content, timestamp) of the `message` table: each is the user's own when
/// it is from `account`.
pub fn get_messages(account: &AccountId, rows: &Vec<(String, String, Stamp)>) -> (res: Vec<(bool, String, Stamp)>)
    ensures
        res@.len() == rows@.len(),
        forall|i: int| 0 <= i < rows@.len() ==> #[trigger] res@[i] == read_back(account@, rows@[i]),
{
    let key = account.to_string();
    let n = rows.len();
    let mut res: Vec<(bool, String, Stamp)> = Vec::new();
    let mut i: usize = 0;
    while i < n
        invariant
            n == rows@.len(),
            key@ == account@,
            i <= n,
            res@.len() == i,
            forall|j: int| 0 <= j < i ==> #[trigger] res@[j] == read_back(account@, rows@[j]),
        decreases n - i,
    {
        let by_me = key == rows[i].0;
        res.push((by_me, rows[i].1.clone(), rows[i].2));
        i = i + 1;
    }
    res
}

} // verus!
