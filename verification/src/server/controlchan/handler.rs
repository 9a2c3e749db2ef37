use crate::auth::UserDetail;
use crate::server::controlchan::commands::Command;
use crate::server::controlchan::error::ControlChanError;
use crate::server::controlchan::reply::Reply;
use crate::server::session::Session;
use vstd::prelude::*;

verus! {

/// What a handler is given besides the command: the session of the
/// connection, the storage backend and the user who is logged in. One is put
/// together for each command and dropped when the handler returns.
pub struct CommandContext<'a, Storage, User: UserDetail> {
    /// The session, for as long as its lock is held.
    pub session: &'a Session,
    /// The storage backend.
    pub storage: &'a Storage,
    /// The user who is logged in.
    pub user: &'a User,
}

/// The handler of one verb of the protocol: given the command and its
/// context, it returns the reply or says what failed. A new verb comes as a
/// new implementation of this trait.
pub trait CommandHandler<Storage, User: UserDetail>: Send + Sync + core::fmt::Debug {
    /// Whether the handler may return `result` in the given context. A
    /// handler that says nothing of its results leaves this as it is: any
    /// result may come.
    open spec fn answers(
        &self,
        args: CommandContext<'_, Storage, User>,
        result: Result<Reply, ControlChanError>,
    ) -> bool {
        true
    }

    /// Handles the command.
    fn handle(&self, command: Box<dyn Command>, args: CommandContext<'_, Storage, User>) -> (result:
        Result<Reply, ControlChanError>)
        ensures
            self.answers(args, result),
    ;
}

} // verus!
