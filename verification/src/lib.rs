//! A small store of named text values, with the rules that govern it:
//! which names are well-formed, where the store lives, what each
//! operation does to its contents, and what a command line front end
//! has to do at each step.

pub mod command;
pub mod error;
pub mod laws;
pub mod location;
pub mod store;
pub mod table;
pub mod validate;
