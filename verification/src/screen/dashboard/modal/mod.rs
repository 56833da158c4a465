//! The modal dialogs of the dashboard.

pub mod add_account;
pub mod add_contact;
