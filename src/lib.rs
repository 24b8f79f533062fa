//! Request construction, configuration resolution and the response state
//! machine of a small command-line HTTP client.
pub mod text;
pub mod config;
pub mod request;
pub mod engine;
