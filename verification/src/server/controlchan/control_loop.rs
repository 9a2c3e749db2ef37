//! The step of the control loop that stands between a handler and the wire:
//! it calls the handler and decides what the client gets to see.

use crate::auth::UserDetail;
use crate::server::controlchan::commands::Command;
use crate::server::controlchan::error::{ControlChanError, ControlChanErrorKind};
use crate::server::controlchan::handler::{CommandContext, CommandHandler};
use crate::server::controlchan::reply::{Reply, ReplyCode};
use vstd::prelude::*;

verus! {

/// What the control loop does once a command has been handled.
#[derive(Debug)]
pub enum Outcome {
    /// Send the reply and read the next command.
    Send(Reply),
    /// Close the connection.
    Close,
}

/// The code and the message by which a failure of the given kind is
/// reported to the client: a fixed pair for each kind that the connection
/// outlives, and none for a fatal one.
pub open spec fn error_report(kind: ControlChanErrorKind) -> Option<(ReplyCode, Seq<char>)> {
    match kind {
        ControlChanErrorKind::MalformedCommand => Some(
            (ReplyCode::CommandSyntaxError, "Syntax error, command unrecognized"@),
        ),
        ControlChanErrorKind::UnsupportedVerb => Some(
            (ReplyCode::CommandNotImplemented, "Command not implemented"@),
        ),
        ControlChanErrorKind::PermissionDenied => Some(
            (ReplyCode::FileError, "Permission denied"@),
        ),
        ControlChanErrorKind::TransientBackendFailure => Some(
            (ReplyCode::TransientFileError, "Requested action not taken, try again later"@),
        ),
        ControlChanErrorKind::PermanentBackendFailure => Some(
            (ReplyCode::FileError, "Requested action not taken"@),
        ),
        ControlChanErrorKind::TransportFailure => None,
        ControlChanErrorKind::ProtocolViolation => None,
    }
}

/// Whether `reply` has the given code and message.
pub open spec fn reply_is(reply: Reply, report: (ReplyCode, Seq<char>)) -> bool {
    reply.code == report.0 && reply.msg@ == report.1
}

/// Whether `outcome` is what follows from `result`: a reply goes out as it
/// is; a failure that the connection outlives goes out as the report of its
/// kind; a fatal one closes the connection.
pub open spec fn follows(result: Result<Reply, ControlChanError>, outcome: Outcome) -> bool {
    match result {
        Ok(reply) => outcome == Outcome::Send(reply),
        Err(error) => match error_report(error.kind_spec()) {
            Some(report) => outcome is Send && reply_is(outcome->Send_0, report),
            None => outcome is Close,
        },
    }
}

/// The kinds that are reported by no reply are the fatal ones.
pub proof fn lemma_fatal_has_no_report(kind: ControlChanErrorKind)
    ensures
        error_report(kind) is None <==> kind.is_fatal(),
{
}

/// The reply that reports a failure of the given kind, where the connection
/// outlives it.
pub fn error_reply(kind: ControlChanErrorKind) -> (reply: Option<Reply>)
    ensures
        match error_report(kind) {
            Some(report) => reply is Some && reply_is(reply->Some_0, report),
            None => reply is None,
        },
{
    match kind {
        ControlChanErrorKind::MalformedCommand => Some(
            Reply::new(ReplyCode::CommandSyntaxError, "Syntax error, command unrecognized"),
        ),
        ControlChanErrorKind::UnsupportedVerb => Some(
            Reply::new(ReplyCode::CommandNotImplemented, "Command not implemented"),
        ),
        ControlChanErrorKind::PermissionDenied => Some(
            Reply::new(ReplyCode::FileError, "Permission denied"),
        ),
        ControlChanErrorKind::TransientBackendFailure => Some(
            Reply::new(
                ReplyCode::TransientFileError,
                "Requested action not taken, try again later",
            ),
        ),
        ControlChanErrorKind::PermanentBackendFailure => Some(
            Reply::new(ReplyCode::FileError, "Requested action not taken"),
        ),
        ControlChanErrorKind::TransportFailure => None,
        ControlChanErrorKind::ProtocolViolation => None,
    }
}

/// Decides what the client gets to see of a handler's result.
pub fn conclude(result: Result<Reply, ControlChanError>) -> (outcome: Outcome)
    ensures
        follows(result, outcome),
{
    match result {
        Ok(reply) => Outcome::Send(reply),
        Err(error) => match error_reply(error.kind()) {
            Some(reply) => Outcome::Send(reply),
            None => Outcome::Close,
        },
    }
}

/// Hands the command to its handler and decides what the client gets to see:
/// the outcome follows from a result that the handler may return in this
/// context.
pub fn dispatch<Storage, User: UserDetail, Handler: CommandHandler<Storage, User>>(
    handler: &Handler,
    command: Box<dyn Command>,
    args: CommandContext<'_, Storage, User>,
) -> (outcome: Outcome)
    ensures
        exists|result: Result<Reply, ControlChanError>| #[trigger]
            handler.answers(args, result) && follows(result, outcome),
{
    let result = handler.handle(command, args);
    let outcome = conclude(result);
    assert(handler.answers(args, result) && follows(result, outcome));
    outcome
}

} // verus!
