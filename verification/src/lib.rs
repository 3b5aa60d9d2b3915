//! Authentication and role-based authorization core of a multi-user service.
//!
//! The crate holds the decisions of the credential and token lifecycle: input
//! validation, password hashing, session tokens, the register and login flows,
//! the authorization steps that guard protected operations, and the mapping of
//! every failure to a status and a message. Transport, storage and the clock
//! stay with the caller, who hands in plain values and performs the actions
//! that the flows ask for.

pub mod auth;
pub mod dtos;
pub mod error;
pub mod handler;
pub mod models;
pub mod outside;
pub mod password;
pub mod text;
pub mod token;
pub mod validation;
