use vstd::prelude::*;
use vstd::std_specs::cmp::PartialEqSpecImpl;

verus! {

/// What the server asks of a security subject: whether the account is enabled,
/// the credentials if the subject keeps them, and a rendering for logs.
///
/// The three accessors come with defaults (enabled, no password, no username),
/// so an implementation that keeps nothing only has to say how it is rendered.
/// The rendering is for logs and error messages, never for a security decision.
pub trait UserDetail: Send + Sync + core::fmt::Debug {
    /// Tells if this subject's account is enabled. Unless overridden it is.
    fn account_enabled(&self) -> (enabled: bool)
        default_ensures
            enabled,
    {
        true
    }

    /// The password, where the subject keeps one. Unless overridden there is none.
    fn password(&self) -> (password: Option<String>)
        default_ensures
            password is None,
    {
        None
    }

    /// The username, where the subject keeps one. Unless overridden there is none.
    fn username(&self) -> (username: Option<String>)
        default_ensures
            username is None,
    {
        None
    }

    /// The human-readable rendering of the subject.
    fn display(&self) -> (rendering: String);
}

/// The characters of an optional string, or none.
pub open spec fn opt_chars(s: Option<String>) -> Option<Seq<char>> {
    match s {
        Some(s) => Some(s@),
        None => None,
    }
}

/// A subject that keeps its credentials.
#[derive(Debug)]
pub struct UserWithCreds {
    /// Password string
    pub password: Option<String>,
    /// Username string
    pub username: Option<String>,
}

impl UserWithCreds {
    /// The prefix of every rendering: `User` and a space.
    pub open spec fn display_prefix() -> Seq<char> {
        seq!['U', 's', 'e', 'r', ' ']
    }

    /// The rendering: the prefix, then the username if there is one.
    /// The password has no part in it.
    pub open spec fn display_spec(&self) -> Seq<char> {
        match self.username {
            Some(name) => Self::display_prefix() + name@,
            None => Self::display_prefix(),
        }
    }
}

impl UserDetail for UserWithCreds {
    fn password(&self) -> (password: Option<String>)
        ensures
            password == self.password,
    {
        match &self.password {
            Some(p) => Some(p.clone()),
            None => None,
        }
    }

    fn username(&self) -> (username: Option<String>)
        ensures
            username == self.username,
    {
        match &self.username {
            Some(n) => Some(n.clone()),
            None => None,
        }
    }

    fn display(&self) -> (rendering: String)
        ensures
            rendering@ == self.display_spec(),
    {
        proof {
            reveal_strlit("User ");
        }
        let mut rendering = String::from_str("User ");
        assert(rendering@ =~= Self::display_prefix());
        match &self.username {
            Some(name) => {
                rendering.append(name.as_str());
            },
            None => {},
        }
        rendering
    }
}

impl Clone for UserWithCreds {
    fn clone(&self) -> (copy: Self)
        ensures
            copy == *self,
    {
        UserWithCreds { password: self.password(), username: self.username() }
    }
}

impl PartialEq for UserWithCreds {
    fn eq(&self, other: &Self) -> (equal: bool) {
        let same_password = match (&self.password, &other.password) {
            (Some(a), Some(b)) => *a == *b,
            (None, None) => true,
            _ => false,
        };
        let same_username = match (&self.username, &other.username) {
            (Some(a), Some(b)) => *a == *b,
            (None, None) => true,
            _ => false,
        };
        same_password && same_username
    }
}

impl PartialEqSpecImpl for UserWithCreds {
    open spec fn obeys_eq_spec() -> bool {
        true
    }

    open spec fn eq_spec(&self, other: &Self) -> bool {
        opt_chars(self.password) == opt_chars(other.password) && opt_chars(self.username)
            == opt_chars(other.username)
    }
}

/// The rendering of a subject that keeps its credentials is settled by its
/// username: two subjects of one username are rendered alike, whatever their
/// passwords. No password reaches a log by way of the rendering.
pub proof fn lemma_display_ignores_password(a: UserWithCreds, b: UserWithCreds)
    requires
        a.username == b.username,
    ensures
        a.display_spec() == b.display_spec(),
{
}

/// A subject that holds no information and is always enabled. With it a server
/// can be put together before any subject type of its own exists.
#[derive(Debug, PartialEq, Eq, Structural)]
pub struct DefaultUser;

impl DefaultUser {
    /// The rendering of the default subject: its name.
    pub open spec fn display_spec() -> Seq<char> {
        seq!['D', 'e', 'f', 'a', 'u', 'l', 't', 'U', 's', 'e', 'r']
    }
}

impl UserDetail for DefaultUser {
    fn display(&self) -> (rendering: String)
        ensures
            rendering@ == Self::display_spec(),
    {
        proof {
            reveal_strlit("DefaultUser");
        }
        let rendering = String::from_str("DefaultUser");
        assert(rendering@ =~= Self::display_spec());
        rendering
    }
}

} // verus!
