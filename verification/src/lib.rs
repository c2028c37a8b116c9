//! A record authorization service for a key-addressed ledger.
//!
//! The library models the account lifecycle of a small todo-list program: a
//! `Profile` record per owner identity and any number of `Todo` records under
//! it, each stored at a deterministically derived [`state::Address`].  The
//! host runtime that fetches records, verifies signatures and allocates
//! storage is a collaborator outside this crate; the library receives
//! already-authenticated identities and pre-resolved addresses, applies the
//! authorization and validation rules, and says exactly which mutation or
//! which [`error::AppError`] each request produces.
//!
//! [`service`] holds the per-record operations, [`ledger::Ledger`] the record
//! store with its invariant, [`model`] the mathematical transitions that the
//! executable code is proved against, [`laws`] the properties that relate
//! several operations, and [`codec`] the record layouts with their storage
//! accounting.

pub mod codec;
pub mod error;
pub mod laws;
pub mod ledger;
pub mod model;
pub mod requests;
pub mod service;
pub mod state;
