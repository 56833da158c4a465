//! The first form of the user interface, built on the types of
//! [`crate::core_model`].

pub mod screen;
