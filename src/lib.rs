//! A signature-authenticated key-value store: request and record model,
//! event classification, signature checks, identifier derivation and the
//! decisions of the GET and PUT handlers.

pub mod events;
pub mod identifier;
pub mod models;
pub mod utils;
