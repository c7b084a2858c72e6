//! Client-side control protocol for on-demand GPU trace collection.
//!
//! The library builds the JSON request bodies that a profiling daemon
//! understands, and interprets the daemon's reply to a trigger request:
//! which processes were matched, and which output files the trace will be
//! written to. All request construction is pure text assembly with exact
//! contracts; sending and receiving bytes over a connection is left to the
//! caller.

pub mod laws;
pub mod numfmt;
pub mod request;
pub mod response;
pub mod strtext;
