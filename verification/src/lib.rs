//! Verified core of a listing catalog with nearest-neighbour similarity search.
//!
//! The catalog lives in a relational store with an attached vector index. This
//! crate holds everything that is decided from plain values: which statements
//! are put to the store (`statement`), what is made of the rows that come back
//! (`session`, `listing`, `search`), the byte layout of stored embeddings
//! (`embedding`), and what is sent to clients (`handler`). Running a statement
//! is left to the caller, who hands the reply back; `db` starts each operation,
//! and `laws` states what holds of an operation from its first step to its end.
//!
//! Floating point values are carried by their bit patterns (`value`) and never
//! computed with.

pub mod error;
pub mod value;
pub mod embedding;
pub mod listing;
pub mod search;
pub mod statement;
pub mod session;
pub mod db;
pub mod laws;
pub mod handler;
