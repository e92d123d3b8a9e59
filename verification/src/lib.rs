//! Token-issuance and message-relay core of a notification relay service.
//!
//! A user registers once with the bot and receives an opaque secret token;
//! an external HTTP caller can then send that user a message by presenting
//! the token. This crate holds the verified core: the user/token store with
//! its uniqueness invariants, the token generator, the registration state
//! machine and the relay flow. Network transports, the relational storage
//! engine and process bootstrap live outside the library and talk to it
//! through plain values.

pub mod config;
pub mod registration;
pub mod relay;
pub mod store;
pub mod token;
pub mod user;
