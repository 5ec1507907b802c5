//! Storage of access-control rules in a document collection: the records,
//! and the criteria that loads and deletions send to the store.
pub mod document;
pub mod models;
pub mod queries;
pub mod laws;
