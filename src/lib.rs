//! Client library for the Backpack Exchange API: canonical signing of
//! requests, resolution of endpoint instructions, key handling and the
//! decisions around dispatch and streaming subscriptions.

pub mod capital;
pub mod client;
pub mod error;
pub mod fill;
pub mod history;
pub mod instruction;
pub mod keys;
pub mod markets;
pub mod order;
pub mod payloads;
pub mod query;
pub mod routes;
pub mod signee;
pub mod stream;
pub mod text;
pub mod timestamp;
pub mod types;
