//! The control channel: replies, and all that turns a command into one.

pub mod commands;
pub mod control_loop;
pub mod error;
pub mod handler;
pub mod reply;

pub use error::{ControlChanError, ControlChanErrorKind};
pub use handler::{CommandContext, CommandHandler};
pub use reply::{Reply, ReplyCode};
