use vstd::prelude::*;

verus! {

/// The reply codes of the protocol, by what they mean.
#[derive(Debug, Clone, Copy, PartialEq, Eq, Structural)]
pub enum ReplyCode {
    /// Restart marker reply.
    RestartMarker,
    /// Service ready in some minutes.
    InNMinutes,
    /// Data connection already open; transfer starting.
    ConnectionAlreadyOpen,
    /// File status okay; about to open data connection.
    FileStatusOkay,
    /// Command okay.
    CommandOkay,
    /// Command not implemented, superfluous at this site.
    CommandOkayNotImplemented,
    /// System status, or system help reply.
    SystemStatus,
    /// Directory status.
    DirectoryStatus,
    /// File status.
    FileStatus,
    /// Help message.
    HelpMessage,
    /// The name of the system type.
    SystemType,
    /// Service ready for new user.
    ServiceReady,
    /// Service closing control connection.
    ClosingControlConnection,
    /// Data connection open; no transfer in progress.
    DataConnectionOpen,
    /// Closing data connection; the file action was successful.
    ClosingDataConnection,
    /// Entering passive mode.
    EnteringPassiveMode,
    /// Entering extended passive mode.
    EnteringExtendedPassiveMode,
    /// User logged in, proceed.
    UserLoggedIn,
    /// Security mechanism accepted; no security data needed.
    AuthOkayNoDataNeeded,
    /// Requested file action okay, completed.
    FileActionOkay,
    /// A path name follows, quoted: of the directory just made, or of the
    /// working directory that was asked for.
    DirCreated,
    /// User name okay, need password.
    NeedPassword,
    /// Need account for login.
    NeedAccount,
    /// Requested file action pending further information.
    FileActionPending,
    /// Service not available, closing control connection.
    ServiceNotAvailable,
    /// Cannot open data connection.
    CantOpenDataConnection,
    /// Connection closed; transfer aborted.
    ConnectionClosed,
    /// Requested file action not taken; the file is unavailable for now.
    TransientFileError,
    /// Requested action aborted: local error in processing.
    LocalError,
    /// Requested action not taken: insufficient storage space.
    OutOfSpace,
    /// Syntax error, command unrecognized.
    CommandSyntaxError,
    /// Syntax error in parameters or arguments.
    ParameterSyntaxError,
    /// Command not implemented.
    CommandNotImplemented,
    /// Bad sequence of commands.
    BadCommandSequence,
    /// Command not implemented for that parameter.
    CommandNotImplementedForParameter,
    /// Not logged in.
    NotLoggedIn,
    /// Need account for storing files.
    NeedAccountToStore,
    /// The request is refused for reasons of policy: a secured connection is required.
    FtpsRequired,
    /// Requested action not taken: file unavailable, not found or no access.
    FileError,
    /// Requested action aborted: page type unknown.
    PageTypeUnknown,
    /// Requested file action aborted: storage allocation exceeded.
    ExceededStorageAllocation,
    /// Requested action not taken: file name not allowed.
    BadFileName,
}

impl ReplyCode {
    /// The number that stands for the code on the wire.
    pub open spec fn number_spec(self) -> nat {
        match self {
            ReplyCode::RestartMarker => 110,
            ReplyCode::InNMinutes => 120,
            ReplyCode::ConnectionAlreadyOpen => 125,
            ReplyCode::FileStatusOkay => 150,
            ReplyCode::CommandOkay => 200,
            ReplyCode::CommandOkayNotImplemented => 202,
            ReplyCode::SystemStatus => 211,
            ReplyCode::DirectoryStatus => 212,
            ReplyCode::FileStatus => 213,
            ReplyCode::HelpMessage => 214,
            ReplyCode::SystemType => 215,
            ReplyCode::ServiceReady => 220,
            ReplyCode::ClosingControlConnection => 221,
            ReplyCode::DataConnectionOpen => 225,
            ReplyCode::ClosingDataConnection => 226,
            ReplyCode::EnteringPassiveMode => 227,
            ReplyCode::EnteringExtendedPassiveMode => 229,
            ReplyCode::UserLoggedIn => 230,
            ReplyCode::AuthOkayNoDataNeeded => 234,
            ReplyCode::FileActionOkay => 250,
            ReplyCode::DirCreated => 257,
            ReplyCode::NeedPassword => 331,
            ReplyCode::NeedAccount => 332,
            ReplyCode::FileActionPending => 350,
            ReplyCode::ServiceNotAvailable => 421,
            ReplyCode::CantOpenDataConnection => 425,
            ReplyCode::ConnectionClosed => 426,
            ReplyCode::TransientFileError => 450,
            ReplyCode::LocalError => 451,
            ReplyCode::OutOfSpace => 452,
            ReplyCode::CommandSyntaxError => 500,
            ReplyCode::ParameterSyntaxError => 501,
            ReplyCode::CommandNotImplemented => 502,
            ReplyCode::BadCommandSequence => 503,
            ReplyCode::CommandNotImplementedForParameter => 504,
            ReplyCode::NotLoggedIn => 530,
            ReplyCode::NeedAccountToStore => 532,
            ReplyCode::FtpsRequired => 534,
            ReplyCode::FileError => 550,
            ReplyCode::PageTypeUnknown => 551,
            ReplyCode::ExceededStorageAllocation => 552,
            ReplyCode::BadFileName => 553,
        }
    }

    /// The number that stands for the code on the wire. It has three digits.
    pub fn number(self) -> (n: u16)
        ensures
            n == self.number_spec(),
            100 <= n <= 599,
    {
        match self {
            ReplyCode::RestartMarker => 110,
            ReplyCode::InNMinutes => 120,
            ReplyCode::ConnectionAlreadyOpen => 125,
            ReplyCode::FileStatusOkay => 150,
            ReplyCode::CommandOkay => 200,
            ReplyCode::CommandOkayNotImplemented => 202,
            ReplyCode::SystemStatus => 211,
            ReplyCode::DirectoryStatus => 212,
            ReplyCode::FileStatus => 213,
            ReplyCode::HelpMessage => 214,
            ReplyCode::SystemType => 215,
            ReplyCode::ServiceReady => 220,
            ReplyCode::ClosingControlConnection => 221,
            ReplyCode::DataConnectionOpen => 225,
            ReplyCode::ClosingDataConnection => 226,
            ReplyCode::EnteringPassiveMode => 227,
            ReplyCode::EnteringExtendedPassiveMode => 229,
            ReplyCode::UserLoggedIn => 230,
            ReplyCode::AuthOkayNoDataNeeded => 234,
            ReplyCode::FileActionOkay => 250,
            ReplyCode::DirCreated => 257,
            ReplyCode::NeedPassword => 331,
            ReplyCode::NeedAccount => 332,
            ReplyCode::FileActionPending => 350,
            ReplyCode::ServiceNotAvailable => 421,
            ReplyCode::CantOpenDataConnection => 425,
            ReplyCode::ConnectionClosed => 426,
            ReplyCode::TransientFileError => 450,
            ReplyCode::LocalError => 451,
            ReplyCode::OutOfSpace => 452,
            ReplyCode::CommandSyntaxError => 500,
            ReplyCode::ParameterSyntaxError => 501,
            ReplyCode::CommandNotImplemented => 502,
            ReplyCode::BadCommandSequence => 503,
            ReplyCode::CommandNotImplementedForParameter => 504,
            ReplyCode::NotLoggedIn => 530,
            ReplyCode::NeedAccountToStore => 532,
            ReplyCode::FtpsRequired => 534,
            ReplyCode::FileError => 550,
            ReplyCode::PageTypeUnknown => 551,
            ReplyCode::ExceededStorageAllocation => 552,
            ReplyCode::BadFileName => 553,
        }
    }

    /// No two codes share a number: the number on the wire tells which code
    /// was meant.
    pub proof fn lemma_number_injective(a: ReplyCode, b: ReplyCode)
        requires
            a.number_spec() == b.number_spec(),
        ensures
            a == b,
    {
    }
}

/// The decimal digit for a number below ten.
pub open spec fn digit_char(d: nat) -> char
    recommends
        d < 10,
{
    seq!['0', '1', '2', '3', '4', '5', '6', '7', '8', '9'][d as int]
}

/// The three decimal digits of a number below a thousand, leading zeros kept.
pub open spec fn three_digits(n: nat) -> Seq<char>
    recommends
        n < 1000,
{
    seq![digit_char(n / 100), digit_char(n / 10 % 10), digit_char(n % 10)]
}

/// The decimal digit for a number below ten.
fn digit(d: u16) -> (c: char)
    requires
        d < 10,
    ensures
        c == digit_char(d as nat),
{
    match d {
        0 => '0',
        1 => '1',
        2 => '2',
        3 => '3',
        4 => '4',
        5 => '5',
        6 => '6',
        7 => '7',
        8 => '8',
        _ => '9',
    }
}

/// The text with each double quote in it written twice.
pub open spec fn escape_quotes(text: Seq<char>) -> Seq<char>
    decreases text.len(),
{
    if text.len() == 0 {
        Seq::empty()
    } else if text.last() == '"' {
        escape_quotes(text.drop_last()).push('"').push('"')
    } else {
        escape_quotes(text.drop_last()).push(text.last())
    }
}

/// The text as a quoted string: between double quotes, with each double quote
/// of its own written twice.
pub open spec fn quoted(text: Seq<char>) -> Seq<char> {
    seq!['"'] + escape_quotes(text) + seq!['"']
}

/// A text without a double quote is its own escaped form.
pub proof fn lemma_escape_without_quotes(text: Seq<char>)
    requires
        !text.contains('"'),
    ensures
        escape_quotes(text) == text,
        quoted(text) == seq!['"'] + text + seq!['"'],
    decreases text.len(),
{
    if text.len() > 0 {
        let front = text.drop_last();
        assert(!front.contains('"')) by {
            if front.contains('"') {
                let i = choose|i: int| 0 <= i < front.len() && front[i] == '"';
                assert(text[i] == '"');
            }
        }
        lemma_escape_without_quotes(front);
        assert(text.last() != '"') by {
            assert(text[text.len() - 1] == text.last());
        }
        assert(front.push(text.last()) =~= text);
    } else {
        assert(text =~= Seq::empty());
    }
}

/// The escaped form ends as the text ends, and is empty only for the empty text.
proof fn lemma_escape_last(text: Seq<char>)
    ensures
        text.len() == 0 <==> escape_quotes(text).len() == 0,
        text.len() > 0 ==> escape_quotes(text).last() == text.last(),
{
}

/// Two texts with the same escaped form are the same text: what stands
/// between the quotes of a quoted string can be read back in one way only.
pub proof fn lemma_escape_injective(a: Seq<char>, b: Seq<char>)
    requires
        escape_quotes(a) == escape_quotes(b),
    ensures
        a == b,
    decreases a.len(),
{
    lemma_escape_last(a);
    lemma_escape_last(b);
    if a.len() == 0 {
        assert(a =~= b);
    } else {
        let a_front = escape_quotes(a.drop_last());
        let b_front = escape_quotes(b.drop_last());
        if a.last() == '"' {
            assert(a_front =~= a_front.push('"').push('"').drop_last().drop_last());
            assert(b_front =~= b_front.push('"').push('"').drop_last().drop_last());
        } else {
            assert(a_front =~= a_front.push(a.last()).drop_last());
            assert(b_front =~= b_front.push(b.last()).drop_last());
        }
        lemma_escape_injective(a.drop_last(), b.drop_last());
        assert(a =~= a.drop_last().push(a.last()));
        assert(b =~= b.drop_last().push(b.last()));
    }
}

/// `String::push` of std: the string afterwards is the string before with the
/// character added at its end.
pub assume_specification[ String::push ](text: &mut String, c: char)
    ensures
        final(text)@ == old(text)@.push(c),
;

/// Writes the text as a quoted string.
pub fn quote(text: &str) -> (out: String)
    ensures
        out@ == quoted(text@),
{
    let mut out = String::from_str("\"");
    proof {
        reveal_strlit("\"");
        assert(out@ =~= seq!['"']);
    }
    for c in it: text.chars()
        invariant
            it.seq() == text@,
            out@ == seq!['"'] + escape_quotes(text@.take(it.index())),
    {
        proof {
            let done = text@.take(it.index());
            let next = text@.take(it.index() + 1);
            assert(next.drop_last() =~= done);
            assert(next.last() == c);
        }
        if c == '"' {
            out.push('"');
            out.push('"');
        } else {
            out.push(c);
        }
    }
    proof {
        assert(text@.take(text@.len() as int) =~= text@);
    }
    out.push('"');
    out
}

/// A reply on the control channel: a code and a message.
#[derive(Debug)]
pub struct Reply {
    /// What the reply means.
    pub code: ReplyCode,
    /// The text that follows the code on the line.
    pub msg: String,
}

impl Reply {
    /// The line that carries the reply: the three digits of the code, a space,
    /// the message as it stands, and the end of the line.
    pub open spec fn wire_spec(&self) -> Seq<char> {
        three_digits(self.code.number_spec()) + seq![' '] + self.msg@ + seq!['\r', '\n']
    }

    /// A reply with the given code and a message copied from `message`.
    pub fn new(code: ReplyCode, message: &str) -> (reply: Reply)
        ensures
            reply.code == code,
            reply.msg@ == message@,
    {
        Reply { code, msg: String::from_str(message) }
    }

    /// A reply with the given code and message. The message is taken as it
    /// stands: whoever builds it does the quoting.
    pub fn new_with_string(code: ReplyCode, msg: String) -> (reply: Reply)
        ensures
            reply.code == code,
            reply.msg == msg,
    {
        Reply { code, msg }
    }

    /// The line that carries the reply on the wire.
    pub fn encode(&self) -> (line: String)
        ensures
            line@ == self.wire_spec(),
    {
        let n = self.code.number();
        let mut line = String::new();
        line.push(digit(n / 100));
        line.push(digit(n / 10 % 10));
        line.push(digit(n % 10));
        line.push(' ');
        line.append(self.msg.as_str());
        line.push('\r');
        line.push('\n');
        assert(line@ =~= self.wire_spec());
        line
    }
}

/// Two replies that go out as the same line are the same reply: the same
/// code and the same message.
pub proof fn lemma_wire_injective(a: Reply, b: Reply)
    requires
        a.wire_spec() == b.wire_spec(),
    ensures
        a.code == b.code,
        a.msg@ == b.msg@,
{
    let la = a.wire_spec();
    let lb = b.wire_spec();
    let na = a.code.number_spec();
    let nb = b.code.number_spec();
    assert(la.len() == a.msg@.len() + 6);
    assert(lb.len() == b.msg@.len() + 6);
    assert(digit_char(na / 100) == la[0]);
    assert(digit_char(na / 10 % 10) == la[1]);
    assert(digit_char(na % 10) == la[2]);
    assert(digit_char(nb / 100) == lb[0]);
    assert(digit_char(nb / 10 % 10) == lb[1]);
    assert(digit_char(nb % 10) == lb[2]);
    assert(na == nb);
    ReplyCode::lemma_number_injective(a.code, b.code);
    assert forall|i: int| 0 <= i < a.msg@.len() implies a.msg@[i] == b.msg@[i] by {
        assert(la[i + 4] == a.msg@[i]);
        assert(lb[i + 4] == b.msg@[i]);
    }
    assert(a.msg@ =~= b.msg@);
}

} // verus!
