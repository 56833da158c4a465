//! The screens of the first form of the user interface.

pub mod dashboard;
