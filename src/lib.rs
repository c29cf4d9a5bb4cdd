//! Client library for a job-management service: configuration lookup and
//! decoding, the jobs request URL, response decoding, and table rendering.
pub mod json;
pub mod text;
pub mod config;
pub mod job;
pub mod table;
pub mod client;
