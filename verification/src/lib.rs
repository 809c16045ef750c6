//! Wishlists: named collections of product-variant references owned by a user.
//!
//! The crate holds the decisions of a wishlist service: who may touch a
//! wishlist, which foreign references a write may carry, how a partial update
//! changes a record, and how a listing is cut into pages. Storage itself is
//! outside: every operation is a small state machine that asks for one store
//! request at a time and is resumed with the store's answer.
//!
//! - `authorization`: identities, roles and who is let through.
//! - `validation`: the check of foreign references.
//! - `wishlist`: the record, the requests to make and change one, and what a
//!   change does.
//! - `order`, `connection`: the order of a listing and the page envelope.
//! - `store`: the requests and answers at the boundary to the store, and
//!   what a faithful store answers.
//! - `operation`, `mutation`, `query`: the operations, step by step.
//! - `memory_store`: a store in memory that answers as a faithful store does.
//! - `laws`: where each operation ends against a faithful store.
//! - `id`, `datetime`, `error`, `foreign_types`: the values the rest is made of.

pub mod id;
pub mod datetime;
pub mod error;
pub mod foreign_types;
pub mod authorization;
pub mod wishlist;
pub mod order;
pub mod validation;
pub mod connection;
pub mod store;
pub mod operation;
pub mod query;
pub mod mutation;
pub mod memory_store;
pub mod laws;
