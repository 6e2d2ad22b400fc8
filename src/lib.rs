//! An in-memory store of todo records and the request handlers around it.
//!
//! `todo` holds the record and request types, `ids` the identifier source,
//! `store` the collection with its operations, `laws` what holds across
//! several operations, and `handlers` turns each operation into a status code
//! and a reply body.

pub mod todo;
pub mod ids;
pub mod store;
pub mod laws;
pub mod handlers;
