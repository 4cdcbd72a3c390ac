//! Authentication and session core of a small message board: credential
//! hashing, session issuance and validation, and the ordered message log.
//!
//! Users register, log in, post short messages and read the shared log.
//! [`requests`] holds the operations that a server offers; [`authority`]
//! holds the steps they are made of; [`store`] says what the three tables
//! are and what a storage backend does to them, with [`memory`] and
//! [`sqlite`] as the two backends; [`laws`] proves what holds across
//! several operations.

pub mod text;
pub mod types;
pub mod clock;
pub mod hasher;
pub mod token;
pub mod store;
pub mod memory;
pub mod sqlite;
pub mod authority;
pub mod requests;
pub mod wire;
pub mod laws;
