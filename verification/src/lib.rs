//! Request-forwarding engine of an HTTP gateway that sits in front of a
//! retrieval and answer-generation service.
//!
//! The crate holds the decisions of the gateway: the API-key guard, the
//! retry protocol with exponential backoff, the responses that upstream
//! outcomes are turned into, and the structured events that are
//! logged for every request. Network I/O, clocks and serialisation are left
//! to the caller, which hands their results in as plain values.

pub mod auth;
pub mod config;
pub mod events;
pub mod forward;
pub mod handlers;
pub mod metadata;
pub mod model;
