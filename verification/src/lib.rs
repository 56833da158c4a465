//! Akama: the data model and the decision logic of an XMPP chat client.
//!
//! The network client, the database and the window toolkit stay outside this
//! crate; what they produce or consume is handed over as plain values.

pub mod common;
pub mod id_map;
pub mod screen;
pub mod backend;
pub mod core_model;
pub mod laws;
pub mod ui;
