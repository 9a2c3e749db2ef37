//! Print working directory (`PWD`): the reply names the current working
//! directory of the session.

use crate::auth::UserDetail;
use crate::server::controlchan::commands::Command;
use crate::server::controlchan::error::ControlChanError;
use crate::server::controlchan::handler::{CommandContext, CommandHandler};
use crate::server::controlchan::reply::{
    lemma_escape_without_quotes, quote, quoted, Reply, ReplyCode,
};
use vstd::prelude::*;

verus! {

/// The command. It carries no argument.
#[derive(Debug)]
pub struct Pwd;

/// Its handler.
#[derive(Debug)]
pub struct PwdHandler;

impl Command for Pwd {

}

impl<Storage, User: UserDetail> CommandHandler<Storage, User> for PwdHandler {
    /// The one answer: success with code 257 and the working directory as a
    /// quoted string.
    open spec fn answers(
        &self,
        args: CommandContext<'_, Storage, User>,
        result: Result<Reply, ControlChanError>,
    ) -> bool {
        &&& result is Ok
        &&& result->Ok_0.code == ReplyCode::DirCreated
        &&& result->Ok_0.msg@ == quoted(args.session.cwd@)
    }

    /// Replies with the working directory of the session as a quoted
    /// string. The code is the one that the protocol gives to a reply that
    /// carries a path name, be the path just made or, as here, only asked
    /// for. The handler reads the session and nothing else, and never fails.
    fn handle(&self, _command: Box<dyn Command>, args: CommandContext<'_, Storage, User>) -> (result:
        Result<Reply, ControlChanError>)
        ensures
            result is Ok,
            result->Ok_0.code == ReplyCode::DirCreated,
            result->Ok_0.msg@ == quoted(args.session.cwd@),
    {
        Ok(Reply::new_with_string(ReplyCode::DirCreated, quote(args.session.cwd.as_str())))
    }
}

/// Where the working directory holds no double quote, the handler's reply is
/// code 257 with the directory between two double quotes, nothing added and
/// nothing changed.
pub proof fn lemma_pwd_plain_directory<Storage, User: UserDetail>(
    args: CommandContext<'_, Storage, User>,
    result: Result<Reply, ControlChanError>,
)
    requires
        PwdHandler.answers(args, result),
        !args.session.cwd@.contains('"'),
    ensures
        result is Ok,
        result->Ok_0.code == ReplyCode::DirCreated,
        result->Ok_0.code.number_spec() == 257,
        result->Ok_0.msg@ == seq!['"'] + args.session.cwd@ + seq!['"'],
{
    lemma_escape_without_quotes(args.session.cwd@);
}

} // verus!
