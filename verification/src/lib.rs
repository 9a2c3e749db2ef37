//! The control-channel core of an FTP server: the identity of a logged-in
//! user, the per-connection session, the reply model with its wire encoding,
//! and the contract by which a command handler turns a command into a reply.

pub mod auth;
pub mod server;
