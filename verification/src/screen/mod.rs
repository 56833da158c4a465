//! The screens of the user interface: their state and how messages change it.

pub mod dashboard;
