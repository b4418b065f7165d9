//! Searching YouTube: request parameters, reply processing and search planning.
pub mod types;
pub mod yt;
pub mod search;
pub mod auth;
