//! The server side of a connection.

pub mod controlchan;
pub mod session;

pub use session::Session;
