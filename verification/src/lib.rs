//! A single stored message with provenance: who set it last, and who owns it.
//!
//! The record lives in a [`state::Store`]. Three operations act on it:
//! [`contract::instantiate`] creates it, [`contract::execute`] rewrites the
//! message under an optional owner-only rule, and [`contract::query`] reads it
//! back. Every operation carries a contract over the store's view.

pub mod contract;
pub mod error;
pub mod history;
pub mod msg;
pub mod response;
pub mod state;
