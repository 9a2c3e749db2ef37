//! The commands of the protocol, one module for each.

use vstd::prelude::*;

pub mod pwd;

pub use pwd::{Pwd, PwdHandler};

verus! {

/// A parsed command. The dispatch reads nothing in it: what a command
/// carries is for its handler alone.
pub trait Command: Send + Sync {

}

} // verus!
