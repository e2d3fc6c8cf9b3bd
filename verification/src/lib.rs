//! A client library for a remote host-intelligence search service.
//!
//! The library builds request URLs against a fixed origin, attaches the
//! caller's credential, sends each request through an injected transport
//! capability, and normalizes every reply into a success/failure outcome
//! carrying the raw response body.

pub mod client;
pub mod outcome;
pub mod transport;
