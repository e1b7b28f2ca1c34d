//! View materialization for a blogging API: per-caller relation flags,
//! article query filters, and the response shapes built from store records.

pub mod entity;
pub mod relation;
pub mod filter;
pub mod dto;
pub mod error;
pub mod auth;
pub mod edit;
