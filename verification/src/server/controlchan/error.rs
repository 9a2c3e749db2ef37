use vstd::prelude::*;

verus! {

/// The ways in which handling a command can fail.
#[derive(Debug, Clone, Copy, PartialEq, Eq, Structural)]
pub enum ControlChanErrorKind {
    /// The command line could not be understood.
    MalformedCommand,
    /// No handler exists for the verb.
    UnsupportedVerb,
    /// The action is not permitted to this user, or not in this state of the session.
    PermissionDenied,
    /// The storage backend failed in a way that may pass.
    TransientBackendFailure,
    /// The storage backend failed for good.
    PermanentBackendFailure,
    /// The connection to the client failed.
    TransportFailure,
    /// The peer or the server broke a rule of the protocol that the
    /// connection cannot outlive.
    ProtocolViolation,
}

impl ControlChanErrorKind {
    /// Whether an error of this kind ends the connection.
    pub open spec fn is_fatal(self) -> bool {
        self == ControlChanErrorKind::TransportFailure || self
            == ControlChanErrorKind::ProtocolViolation
    }
}

/// The error that a command handler returns in place of a reply. It says
/// what kind of failure it was and carries nothing of the failure's detail,
/// so none can reach the wire.
#[derive(Debug, Clone, Copy, PartialEq, Eq, Structural)]
pub struct ControlChanError {
    kind: ControlChanErrorKind,
}

impl ControlChanError {
    /// The kind of failure.
    pub closed spec fn kind_spec(self) -> ControlChanErrorKind {
        self.kind
    }

    /// An error of the given kind.
    pub fn new(kind: ControlChanErrorKind) -> (error: ControlChanError)
        ensures
            error.kind_spec() == kind,
    {
        ControlChanError { kind }
    }

    /// The kind of failure.
    pub fn kind(&self) -> (kind: ControlChanErrorKind)
        ensures
            kind == self.kind_spec(),
    {
        self.kind
    }
}

} // verus!
