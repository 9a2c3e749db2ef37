//! Who is logged in: the capability set of a security subject and two
//! ready-made subjects.

pub mod user;

pub use user::{DefaultUser, UserDetail, UserWithCreds};
