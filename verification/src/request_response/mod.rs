//! The connection handler of the request-response protocol.

pub mod calls;
pub mod clock;
pub mod conduct;
pub mod handler;
pub mod laws;
pub mod message;
pub mod outcomes;
pub mod script;
pub mod text;
pub mod worker;
