//! A deterministic-key record store for a small blogging application.
//!
//! Records (blogs, comments and author profiles) live at addresses derived
//! from a kind tag, the owner's identity and a caller-chosen id. Each string
//! field has a declared maximum length in bytes, and every mutation is
//! all-or-nothing: a failed operation leaves the store exactly as it was.
pub mod identity;
pub mod address;
pub mod record;
pub mod store;
pub mod blog;
pub mod comment;
pub mod author_info;
pub mod encoding;
pub mod counter;
pub mod laws;
