//! Four small greeting contracts, each in a module of its own.
//!
//! Three of them hold one text in storage and differ in how the text gets
//! in and out; the fourth is a stateless entry point. None of them knows of
//! the others. Every holder is modelled by the text it stores, a
//! `Seq<char>`, and every contract is stated over that model.

pub mod entry;
pub mod greeter;
pub mod message_box;
pub mod payable;
