//! A small client library for a time-tracking status service.
//!
//! The library covers the computational core of the client: reading the
//! API credential and base URL out of an INI-style configuration text,
//! building the endpoint URL for the "today" status resource, and
//! classifying the transport outcome of the status request.
//! File, environment and network access stay outside the library; callers
//! hand in plain values and get plain values back.

pub mod config;
pub mod endpoint;
pub mod fetch;
