//! A WebTransport connection.

pub mod admission;
pub mod authentication;
pub mod conduct;
pub mod connection;
pub mod error;
pub mod laws;
pub mod streams;
