//! Client-side protocol logic for the AstrBot management service: request
//! construction, response-envelope decoding, error classification and the
//! live-log stream consumer, with every rule stated as a contract.

pub mod api;
pub mod cli;
pub mod config;
pub mod digest;
pub mod envelope;
pub mod history;
pub mod json;
pub mod live_log;
pub mod login;
pub mod plugin;
pub mod request;
pub mod stat;
pub mod text;
pub mod utils;
pub mod verbose;
