use ftp_controlchan::auth::DefaultUser;
use ftp_controlchan::server::controlchan::commands::{Command, Pwd};
use ftp_controlchan::server::controlchan::control_loop::{conclude, dispatch, error_reply, Outcome};
use ftp_controlchan::server::controlchan::{
    CommandContext, CommandHandler, ControlChanError, ControlChanErrorKind, Reply, ReplyCode,
};
use ftp_controlchan::server::Session;

fn sent(outcome: Outcome) -> Reply {
    match outcome {
        Outcome::Send(reply) => reply,
        Outcome::Close => panic!("the connection stays open"),
    }
}

#[test]
fn an_error_keeps_its_kind() {
    let error = ControlChanError::new(ControlChanErrorKind::PermissionDenied);
    assert_eq!(error.kind(), ControlChanErrorKind::PermissionDenied);
    assert_ne!(error.kind(), ControlChanErrorKind::UnsupportedVerb);
    let fatal = ControlChanError::new(ControlChanErrorKind::TransportFailure);
    assert_eq!(fatal.kind(), ControlChanErrorKind::TransportFailure);
}

#[test]
fn a_reply_goes_out_as_it_is() {
    let reply = sent(conclude(Ok(Reply::new(ReplyCode::CommandOkay, "fine"))));
    assert_eq!(reply.code, ReplyCode::CommandOkay);
    assert_eq!(reply.msg, "fine");
}

#[test]
fn a_malformed_command_is_a_syntax_error() {
    let reply = sent(conclude(Err(ControlChanError::new(ControlChanErrorKind::MalformedCommand))));
    assert_eq!(reply.code, ReplyCode::CommandSyntaxError);
    assert_eq!(reply.msg, "Syntax error, command unrecognized");
    assert_eq!(reply.encode(), "500 Syntax error, command unrecognized\r\n");
}

#[test]
fn an_unsupported_verb_is_not_implemented() {
    let reply = sent(conclude(Err(ControlChanError::new(ControlChanErrorKind::UnsupportedVerb))));
    assert_eq!(reply.code, ReplyCode::CommandNotImplemented);
    assert_eq!(reply.msg, "Command not implemented");
    assert_eq!(reply.encode(), "502 Command not implemented\r\n");
}

#[test]
fn a_refusal_is_permission_denied() {
    let reply = sent(conclude(Err(ControlChanError::new(ControlChanErrorKind::PermissionDenied))));
    assert_eq!(reply.code, ReplyCode::FileError);
    assert_eq!(reply.msg, "Permission denied");
    assert_eq!(reply.encode(), "550 Permission denied\r\n");
}

#[test]
fn a_passing_backend_failure_is_transient() {
    let reply =
        sent(conclude(Err(ControlChanError::new(ControlChanErrorKind::TransientBackendFailure))));
    assert_eq!(reply.code, ReplyCode::TransientFileError);
    assert_eq!(reply.msg, "Requested action not taken, try again later");
    assert_eq!(reply.encode(), "450 Requested action not taken, try again later\r\n");
}

#[test]
fn a_lasting_backend_failure_is_permanent() {
    let reply =
        sent(conclude(Err(ControlChanError::new(ControlChanErrorKind::PermanentBackendFailure))));
    assert_eq!(reply.code, ReplyCode::FileError);
    assert_eq!(reply.msg, "Requested action not taken");
    assert_eq!(reply.encode(), "550 Requested action not taken\r\n");
}

#[test]
fn a_fatal_error_closes_the_connection() {
    assert!(matches!(
        conclude(Err(ControlChanError::new(ControlChanErrorKind::TransportFailure))),
        Outcome::Close
    ));
    assert!(matches!(
        conclude(Err(ControlChanError::new(ControlChanErrorKind::ProtocolViolation))),
        Outcome::Close
    ));
}

#[test]
fn only_fatal_kinds_have_no_reply() {
    assert!(error_reply(ControlChanErrorKind::MalformedCommand).is_some());
    assert!(error_reply(ControlChanErrorKind::UnsupportedVerb).is_some());
    assert!(error_reply(ControlChanErrorKind::PermissionDenied).is_some());
    assert!(error_reply(ControlChanErrorKind::TransientBackendFailure).is_some());
    assert!(error_reply(ControlChanErrorKind::PermanentBackendFailure).is_some());
    assert!(error_reply(ControlChanErrorKind::TransportFailure).is_none());
    assert!(error_reply(ControlChanErrorKind::ProtocolViolation).is_none());
}

#[derive(Debug)]
struct Failing(ControlChanErrorKind);

impl<Storage, User: ftp_controlchan::auth::UserDetail> CommandHandler<Storage, User> for Failing {
    fn handle(
        &self,
        _command: Box<dyn Command>,
        _args: CommandContext<'_, Storage, User>,
    ) -> Result<Reply, ControlChanError> {
        Err(ControlChanError::new(self.0))
    }
}

#[test]
fn dispatch_reports_what_a_handler_failed_with() {
    let session = Session::new(String::from("/"));
    let storage = ();
    let args = CommandContext { session: &session, storage: &storage, user: &DefaultUser };
    let handler = Failing(ControlChanErrorKind::PermissionDenied);
    let reply = sent(dispatch(&handler, Box::new(Pwd), args));
    assert_eq!(reply.code, ReplyCode::FileError);
    assert_eq!(reply.msg, "Permission denied");
}

#[test]
fn dispatch_closes_on_a_fatal_failure() {
    let session = Session::new(String::from("/"));
    let storage = ();
    let args = CommandContext { session: &session, storage: &storage, user: &DefaultUser };
    let handler = Failing(ControlChanErrorKind::ProtocolViolation);
    assert!(matches!(dispatch(&handler, Box::new(Pwd), args), Outcome::Close));
}
