//! A user directory: user records keyed by a unique username, the five
//! operations on them, and the HTTP surface that exposes those operations.
//!
//! The directory asks a document store one question per operation and reads
//! the answer. What is asked and how each answer is read is decided here;
//! the round trip itself belongs to the program around the library.
//!
//! - `user`: the record and the patch.
//! - `collection`: what the store holds and what each operation does to it.
//! - `memory`: a store in memory that behaves so.
//! - `document`, `options`: the BSON documents and the options that a
//!   MongoDB store is asked with.
//! - `fault`: what a store reports when it fails.
//! - `config`: where the store is found.
//! - `service`: the five operations and their errors.
//! - `route`, `response`: from method and path to an operation, from its
//!   result to status and body.
//! - `laws`: what holds of the operations taken together.

pub mod collection;
pub mod config;
pub mod document;
pub mod fault;
pub mod laws;
pub mod memory;
pub mod options;
pub mod outcome;
pub mod response;
pub mod route;
pub mod service;
pub mod user;
