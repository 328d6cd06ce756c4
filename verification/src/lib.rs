//! Decisions of a client that hands a long-running job to one of several
//! worker servers and follows it to completion by polling.
//!
//! The library holds every rule of the protocol: which server is asked, how a
//! response is judged, when a submission is repeated, and how the polled state
//! of a job ends the exchange. Sending a request and sleeping are left to the
//! caller, who performs what a step asks for and hands the outcome back.

pub mod config;
pub mod json;
pub mod response;
pub mod text;
pub mod polling;
pub mod submit;
pub mod trace;
