//! Shared runtime layer for backend services that publish domain events
//! reliably to a message broker and consume events from it.
//!
//! The heart of the crate is the transactional outbox ([`outbox`]): events are
//! written to a durable store in the same transaction as the business change
//! that produced them, and a background publisher later moves every `Pending`
//! row to the broker and marks it `Processed`.  The [`consumers`] module gives
//! the decision logic of the supervised queue-consumer loop, and
//! [`supervisor`] the generic restart-after-delay state machine both loops
//! share.  Configuration data, error classification and the cookie parsing
//! used by the authorization middleware live in [`config`], [`app_error`],
//! [`jwt_authentication`] and [`middleware`].

pub mod app_error;
pub mod config;
pub mod consumers;
pub mod jwt_authentication;
pub mod middleware;
pub mod outbox;
pub mod supervisor;
