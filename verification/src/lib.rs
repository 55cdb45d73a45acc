//! Signing a user in to a cloud identity provider, as a library without side effects.
//!
//! A login attempt has two halves. The first takes the user's name and password to the
//! provider and returns the provider's verdict; the second closes the negotiation and
//! returns the user's profile. Each half is a flow ([`flow`]): it hands out one request at
//! a time and decides, on the reply, what comes next. Sending is left to the caller.
//!
//! The settings of the application ([`config`]) and the reading of its command line
//! ([`cli`]) are here too, as plain data and decisions.

pub mod cli;
pub mod config;
pub mod credentials;
pub mod decimal;
pub mod error;
pub mod flow;
pub mod http;
pub mod json;
pub mod laws;
pub mod reading;
pub mod records;
pub mod steps;
pub mod text;
