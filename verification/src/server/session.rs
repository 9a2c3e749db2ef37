use vstd::prelude::*;

verus! {

/// What the server keeps for one connection from command to command.
///
/// A session is made when the connection is accepted. Whoever shares it
/// between the command path and a running transfer puts it behind a lock and
/// hands a handler the session only while the lock is held.
#[derive(Debug)]
pub struct Session {
    /// The current working directory.
    pub cwd: String,
}

impl Session {
    /// A session that starts in the given working directory. The path is
    /// taken as it stands: whether it exists is for the storage backend to
    /// say when it is used.
    pub fn new(cwd: String) -> (session: Session)
        ensures
            session.cwd == cwd,
    {
        Session { cwd }
    }
}

} // verus!
