//! Core of a link-shortening service: the in-memory mapping cache, the
//! write-path protocol that keeps it behind the durable store, and the
//! token-based authorization of the admin surface.

pub mod admin;
pub mod cache;
pub mod error;
pub mod password;
pub mod redirect_handler;
pub mod state;
pub mod text_set;
pub mod users;
