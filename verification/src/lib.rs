//! Decision logic of a small chat bot: colour roles, a swatch preview, an
//! "enlarge" command and a keyword trigger.
//!
//! Every handler is a function from plain values to a list of [`action::Action`]s
//! that the surrounding program performs.

pub mod action;
pub mod big;
pub mod color;
pub mod events;
pub mod hex;
pub mod member;
pub mod outside;
pub mod roles;
pub mod swatch;
pub mod text;
pub mod validate;
