//! The conversation with `polkit-agent-helper-1`, the privileged process that checks passwords.
//!
//! There are two ways to reach it. Where its socket exists, the agent connects to it and writes
//! the user name and the cookie, one line each. Otherwise the agent starts the setuid binary
//! with the user name as its argument and writes the cookie. From then on the helper sends
//! lines, each a command and an optional argument, and the agent answers prompts with lines.
use crate::protocol::frame_line;
use crate::text::{join2, join3, str_eq, to_chars};
use vstd::prelude::*;

verus! {

/// Where systemd offers the helper's socket.
pub const SOCKET_PATH: &'static str = "/run/polkit/agent-helper.socket";

/// The setuid helper, for systems without the socket.
pub const HELPER_BIN: &'static str = "/usr/lib/polkit-1/polkit-agent-helper-1";

/// One message of the helper.
#[derive(Debug)]
pub enum PamMessage {
    /// Asks for input that is not echoed, a password.
    PromptEchoOff(String),
    /// Asks for input that is echoed.
    PromptEchoOn(String),
    /// An error to show to the user.
    Error(String),
    /// Information to show to the user.
    Info(String),
    /// The password was accepted.
    Success,
    /// The password was refused.
    Failure,
}

/// The kind and the text of a `PamMessage`.
#[verifier::ext_equal]
pub enum PamMessageView {
    PromptEchoOff(Seq<char>),
    PromptEchoOn(Seq<char>),
    Error(Seq<char>),
    Info(Seq<char>),
    Success,
    Failure,
}

impl View for PamMessage {
    type V = PamMessageView;

    open spec fn view(&self) -> PamMessageView {
        match self {
            PamMessage::PromptEchoOff(t) => PamMessageView::PromptEchoOff(t@),
            PamMessage::PromptEchoOn(t) => PamMessageView::PromptEchoOn(t@),
            PamMessage::Error(t) => PamMessageView::Error(t@),
            PamMessage::Info(t) => PamMessageView::Info(t@),
            PamMessage::Success => PamMessageView::Success,
            PamMessage::Failure => PamMessageView::Failure,
        }
    }
}

/// Whether `c` belongs to a line ending.
pub open spec fn is_line_end(c: char) -> bool {
    c == '\n' || c == '\r'
}

/// `line` without the line feeds and carriage returns at its end.
pub open spec fn trim_line_end(line: Seq<char>) -> Seq<char>
    decreases line.len(),
{
    if line.len() > 0 && is_line_end(line.last()) {
        trim_line_end(line.drop_last())
    } else {
        line
    }
}

/// Where the command at the beginning of `line` ends: at the first space, or with the line.
pub open spec fn command_end(line: Seq<char>) -> int {
    if line.contains(' ') {
        line.index_of_first(' ')->Some_0
    } else {
        line.len() as int
    }
}

/// The command at the beginning of `line`.
pub open spec fn command(line: Seq<char>) -> Seq<char> {
    line.take(command_end(line))
}

/// What follows the first space of `line`; empty without one.
pub open spec fn argument(line: Seq<char>) -> Seq<char> {
    if line.contains(' ') {
        line.skip(command_end(line) + 1)
    } else {
        Seq::empty()
    }
}

/// What a line of the helper means. A command that is not known is shown as information.
pub open spec fn parse_line(raw: Seq<char>) -> PamMessageView {
    let line = trim_line_end(raw);
    let cmd = command(line);
    let arg = argument(line);
    if cmd == "PAM_PROMPT_ECHO_OFF"@ {
        PamMessageView::PromptEchoOff(arg)
    } else if cmd == "PAM_PROMPT_ECHO_ON"@ {
        PamMessageView::PromptEchoOn(arg)
    } else if cmd == "PAM_ERROR_MSG"@ {
        PamMessageView::Error(arg)
    } else if cmd == "PAM_TEXT_INFO"@ {
        PamMessageView::Info(arg)
    } else if cmd == "SUCCESS"@ {
        PamMessageView::Success
    } else if cmd == "FAILURE"@ {
        PamMessageView::Failure
    } else {
        PamMessageView::Info(line)
    }
}

/// The two ways to reach the helper.
#[derive(Debug, Clone, Copy, PartialEq, Eq, Structural)]
pub enum Transport {
    /// The helper's socket.
    Socket,
    /// A child process with pipes.
    Binary,
}

/// How far a session has come.
#[derive(Debug, Clone, Copy, PartialEq, Eq, Structural)]
pub enum Stage {
    /// The connection is being made.
    Opening,
    /// The user name is being written.
    SendingUser,
    /// The cookie is being written.
    SendingCookie,
    /// The handshake is over.
    Ready,
    /// The handshake went wrong.
    Broken,
}

/// What the caller has to do next to set a session up.
#[derive(Debug)]
pub enum HelperAction {
    /// Connect to the socket at this path.
    OpenSocket(String),
    /// Start this program with this one argument and with pipes.
    Spawn { program: String, argument: String },
    /// Write this text, which holds its line ending.
    Write(String),
    /// Nothing more: the session can be used.
    Ready,
    /// Give up, with this description of the error.
    Fail(String),
}

/// The kind and the texts of a `HelperAction`.
#[verifier::ext_equal]
pub enum HelperActionView {
    OpenSocket(Seq<char>),
    Spawn { program: Seq<char>, argument: Seq<char> },
    Write(Seq<char>),
    Ready,
    Fail(Seq<char>),
}

impl View for HelperAction {
    type V = HelperActionView;

    open spec fn view(&self) -> HelperActionView {
        match self {
            HelperAction::OpenSocket(p) => HelperActionView::OpenSocket(p@),
            HelperAction::Spawn { program, argument } => HelperActionView::Spawn {
                program: program@,
                argument: argument@,
            },
            HelperAction::Write(t) => HelperActionView::Write(t@),
            HelperAction::Ready => HelperActionView::Ready,
            HelperAction::Fail(e) => HelperActionView::Fail(e@),
        }
    }
}

/// How the last `HelperAction` went.
#[derive(Debug)]
pub enum HelperReply {
    /// It was done.
    Done,
    /// The system reported this error.
    Failed(String),
    /// The child process was started without a standard input.
    NoStdin,
    /// The child process was started without a standard output.
    NoStdout,
}

/// The kind and the text of a `HelperReply`.
#[verifier::ext_equal]
pub enum HelperReplyView {
    Done,
    Failed(Seq<char>),
    NoStdin,
    NoStdout,
}

impl View for HelperReply {
    type V = HelperReplyView;

    open spec fn view(&self) -> HelperReplyView {
        match self {
            HelperReply::Done => HelperReplyView::Done,
            HelperReply::Failed(e) => HelperReplyView::Failed(e@),
            HelperReply::NoStdin => HelperReplyView::NoStdin,
            HelperReply::NoStdout => HelperReplyView::NoStdout,
        }
    }
}

/// A session with the helper, apart from the streams themselves.
#[derive(Debug)]
pub struct HelperSession {
    transport: Transport,
    stage: Stage,
    username: String,
    cookie: String,
}

/// What a `HelperSession` knows.
#[verifier::ext_equal]
pub struct HelperSessionView {
    pub transport: Transport,
    pub stage: Stage,
    pub username: Seq<char>,
    pub cookie: Seq<char>,
}

impl View for HelperSession {
    type V = HelperSessionView;

    closed spec fn view(&self) -> HelperSessionView {
        HelperSessionView {
            transport: self.transport,
            stage: self.stage,
            username: self.username@,
            cookie: self.cookie@,
        }
    }
}

/// The error text for a write that failed.
pub open spec fn write_error_text(error: Seq<char>) -> Seq<char> {
    "failed to write to helper: "@ + error
}

/// The first state and the first action of a session: the socket where it exists, otherwise
/// the binary.
pub open spec fn session_start(
    socket_exists: bool,
    username: Seq<char>,
    cookie: Seq<char>,
) -> (HelperSessionView, HelperActionView) {
    let transport = if socket_exists {
        Transport::Socket
    } else {
        Transport::Binary
    };
    (
        HelperSessionView { transport, stage: Stage::Opening, username, cookie },
        match transport {
            Transport::Socket => HelperActionView::OpenSocket(SOCKET_PATH@),
            Transport::Binary => HelperActionView::Spawn {
                program: HELPER_BIN@,
                argument: username,
            },
        },
    )
}

/// The error text that a reply other than `Done` leads to.
pub open spec fn reply_error(s: HelperSessionView, reply: HelperReplyView) -> Seq<char> {
    match reply {
        HelperReplyView::Failed(e) => if s.stage != Stage::Opening {
            write_error_text(e)
        } else if s.transport == Transport::Socket {
            "failed to connect to "@ + SOCKET_PATH@ + ": "@ + e
        } else {
            "failed to spawn "@ + HELPER_BIN@ + ": "@ + e
        },
        HelperReplyView::NoStdin => "helper stdin unavailable"@,
        HelperReplyView::NoStdout => "helper stdout unavailable"@,
        HelperReplyView::Done => Seq::empty(),
    }
}

/// One step of the handshake: over the socket the user name is written before the cookie, to
/// the binary only the cookie.
pub open spec fn session_step(s: HelperSessionView, reply: HelperReplyView) -> (
    HelperSessionView,
    HelperActionView,
) {
    if reply != HelperReplyView::Done {
        (
            HelperSessionView { stage: Stage::Broken, ..s },
            HelperActionView::Fail(reply_error(s, reply)),
        )
    } else if s.stage == Stage::Opening && s.transport == Transport::Socket {
        (
            HelperSessionView { stage: Stage::SendingUser, ..s },
            HelperActionView::Write(s.username.push('\n')),
        )
    } else if s.stage == Stage::Opening || s.stage == Stage::SendingUser {
        (
            HelperSessionView { stage: Stage::SendingCookie, ..s },
            HelperActionView::Write(s.cookie.push('\n')),
        )
    } else {
        (HelperSessionView { stage: Stage::Ready, ..s }, HelperActionView::Ready)
    }
}

impl HelperSession {
    /// Begins a session for `username` and `cookie`, and says what to do first.
    pub fn connect(socket_exists: bool, username: &str, cookie: &str) -> (r: (
        HelperSession,
        HelperAction,
    ))
        ensures
            (r.0@, r.1@) == session_start(socket_exists, username@, cookie@),
    {
        let transport = if socket_exists {
            Transport::Socket
        } else {
            Transport::Binary
        };
        let session = HelperSession {
            transport,
            stage: Stage::Opening,
            username: username.to_owned(),
            cookie: cookie.to_owned(),
        };
        let action = match transport {
            Transport::Socket => HelperAction::OpenSocket(SOCKET_PATH.to_owned()),
            Transport::Binary => HelperAction::Spawn {
                program: HELPER_BIN.to_owned(),
                argument: username.to_owned(),
            },
        };
        (session, action)
    }

    /// How far this session has come.
    pub fn stage(&self) -> (stage: Stage)
        ensures
            stage == self@.stage,
    {
        self.stage
    }

    /// Takes how the last action went and says what to do next.
    pub fn advance(&mut self, reply: HelperReply) -> (action: HelperAction)
        requires
            old(self)@.stage != Stage::Ready && old(self)@.stage != Stage::Broken,
        ensures
            (final(self)@, action@) == session_step(old(self)@, reply@),
    {
        match reply {
            HelperReply::Failed(e) => {
                let text = if self.stage != Stage::Opening {
                    write_error(e.as_str())
                } else {
                    match self.transport {
                        Transport::Socket => join3("failed to connect to ", SOCKET_PATH, ": ").concat(
                            e.as_str(),
                        ),
                        Transport::Binary => join3("failed to spawn ", HELPER_BIN, ": ").concat(
                            e.as_str(),
                        ),
                    }
                };
                self.stage = Stage::Broken;
                HelperAction::Fail(text)
            },
            HelperReply::NoStdin => {
                self.stage = Stage::Broken;
                HelperAction::Fail("helper stdin unavailable".to_owned())
            },
            HelperReply::NoStdout => {
                self.stage = Stage::Broken;
                HelperAction::Fail("helper stdout unavailable".to_owned())
            },
            HelperReply::Done => {
                if self.stage == Stage::Opening && self.transport == Transport::Socket {
                    self.stage = Stage::SendingUser;
                    HelperAction::Write(frame_line(self.username.as_str()))
                } else if self.stage == Stage::Opening || self.stage == Stage::SendingUser {
                    self.stage = Stage::SendingCookie;
                    HelperAction::Write(frame_line(self.cookie.as_str()))
                } else {
                    self.stage = Stage::Ready;
                    HelperAction::Ready
                }
            },
        }
    }

    /// The line that answers a prompt with `text`.
    pub fn respond(&self, text: &str) -> (line: String)
        ensures
            line@ == text@.push('\n'),
    {
        frame_line(text)
    }

    /// The message that a line read from the helper holds. Nothing was read at the end of the
    /// stream, so the empty line is no message.
    pub fn next_message(&self, line: &str) -> (message: Option<PamMessage>)
        ensures
            message is None <==> line@.len() == 0,
            message matches Some(m) ==> m@ == parse_line(line@),
    {
        if line.is_empty() {
            None
        } else {
            Some(parse(line))
        }
    }
}

/// The text for a write to the helper that failed with `error`.
pub fn write_error(error: &str) -> (text: String)
    ensures
        text@ == write_error_text(error@),
{
    join2("failed to write to helper: ", error)
}

/// The text for a read from the helper that failed with `error`.
pub fn read_error(error: &str) -> (text: String)
    ensures
        text@ == "failed to read from helper: "@ + error@,
{
    join2("failed to read from helper: ", error)
}

/// `raw` without the line ending.
fn trim_end(raw: &str) -> (line: &str)
    ensures
        line@ == trim_line_end(raw@),
{
    let chars = to_chars(raw);
    let mut end: usize = chars.len();
    assert(raw@.take(end as int) =~= raw@);
    while end > 0 && (chars[end - 1] == '\n' || chars[end - 1] == '\r')
        invariant
            end <= chars@.len(),
            chars@ == raw@,
            trim_line_end(raw@) == trim_line_end(raw@.take(end as int)),
        decreases end,
    {
        assert(raw@.take(end as int).drop_last() =~= raw@.take(end - 1));
        end = end - 1;
    }
    assert(raw@.subrange(0, end as int) =~= raw@.take(end as int));
    raw.substring_char(0, end)
}

/// What the line `raw` means.
fn parse(raw: &str) -> (message: PamMessage)
    ensures
        message@ == parse_line(raw@),
{
    let line = trim_end(raw);
    let chars = to_chars(line);
    let n = chars.len();
    let mut end: usize = 0;
    while end < n && chars[end] != ' '
        invariant
            n == chars@.len(),
            end <= n,
            forall|k: int| 0 <= k < end ==> chars@[k] != ' ',
        decreases n - end,
    {
        end = end + 1;
    }
    let cmd = line.substring_char(0, end);
    let arg = if end < n {
        line.substring_char(end + 1, n)
    } else {
        ""
    };
    proof {
        reveal_strlit("");
        if end < n {
            assert(line@[end as int] == ' ');
            line@.index_of_first_ensures(' ');
            assert(command_end(line@) == end);
        } else {
            assert(!line@.contains(' '));
        }
        assert(cmd@ =~= command(line@));
        assert(arg@ =~= argument(line@));
    }
    if str_eq(cmd, "PAM_PROMPT_ECHO_OFF") {
        PamMessage::PromptEchoOff(arg.to_owned())
    } else if str_eq(cmd, "PAM_PROMPT_ECHO_ON") {
        PamMessage::PromptEchoOn(arg.to_owned())
    } else if str_eq(cmd, "PAM_ERROR_MSG") {
        PamMessage::Error(arg.to_owned())
    } else if str_eq(cmd, "PAM_TEXT_INFO") {
        PamMessage::Info(arg.to_owned())
    } else if str_eq(cmd, "SUCCESS") {
        PamMessage::Success
    } else if str_eq(cmd, "FAILURE") {
        PamMessage::Failure
    } else {
        PamMessage::Info(line.to_owned())
    }
}

/// What a session writes when everything it asks for is done, from the state `s` on.
pub open spec fn handshake_writes(s: HelperSessionView) -> Seq<Seq<char>>
    decreases
            (if s.stage == Stage::Opening {
                3int
            } else if s.stage == Stage::SendingUser {
                2
            } else {
                1
            }),
{
    let (next, action) = session_step(s, HelperReplyView::Done);
    match action {
        HelperActionView::Write(t) => if s.stage == Stage::Opening || s.stage
            == Stage::SendingUser {
            seq![t] + handshake_writes(next)
        } else {
            seq![t]
        },
        _ => Seq::empty(),
    }
}

/// Over the socket the helper is sent the user name and then the cookie, one line each; the
/// binary has the user name as its argument and is sent the cookie alone.
pub proof fn law_handshake(username: Seq<char>, cookie: Seq<char>)
    ensures
        handshake_writes(session_start(true, username, cookie).0) == seq![
            username.push('\n'),
            cookie.push('\n'),
        ],
        handshake_writes(session_start(false, username, cookie).0) == seq![cookie.push('\n')],
        session_start(false, username, cookie).1 == (HelperActionView::Spawn {
            program: HELPER_BIN@,
            argument: username,
        }),
{
    reveal_with_fuel(handshake_writes, 4);
    assert(handshake_writes(session_start(true, username, cookie).0) =~= seq![
        username.push('\n'),
        cookie.push('\n'),
    ]);
    assert(handshake_writes(session_start(false, username, cookie).0) =~= seq![cookie.push('\n')]);
}

/// The line ending decides nothing: a line means the same with a line feed, with a carriage
/// return and a line feed, and without an ending.
pub proof fn law_line_ending_is_ignored(line: Seq<char>)
    ensures
        parse_line(line.push('\n')) == parse_line(line),
        parse_line(line.push('\r').push('\n')) == parse_line(line),
{
    reveal_with_fuel(trim_line_end, 3);
    assert(line.push('\n').drop_last() =~= line);
    assert(line.push('\r').drop_last() =~= line);
    assert(line.push('\r').push('\n').drop_last() =~= line.push('\r'));
}

/// A line of the helper with a command and a text means what the command says, with the text as it
/// is, spaces and all; without a text, with none.
pub proof fn law_commands_of_the_helper(text: Seq<char>)
    requires
        text.len() == 0 || (text.last() != '\n' && text.last() != '\r'),
    ensures
        parse_line("PAM_PROMPT_ECHO_OFF"@ + seq![' '] + text) == PamMessageView::PromptEchoOff(text),
        parse_line("PAM_PROMPT_ECHO_ON"@ + seq![' '] + text) == PamMessageView::PromptEchoOn(text),
        parse_line("PAM_ERROR_MSG"@ + seq![' '] + text) == PamMessageView::Error(text),
        parse_line("PAM_TEXT_INFO"@ + seq![' '] + text) == PamMessageView::Info(text),
        parse_line("SUCCESS"@ + seq![' '] + text) == PamMessageView::Success,
        parse_line("FAILURE"@ + seq![' '] + text) == PamMessageView::Failure,
        parse_line("PAM_PROMPT_ECHO_OFF"@) == PamMessageView::PromptEchoOff(Seq::empty()),
        parse_line("PAM_PROMPT_ECHO_ON"@) == PamMessageView::PromptEchoOn(Seq::empty()),
        parse_line("PAM_ERROR_MSG"@) == PamMessageView::Error(Seq::empty()),
        parse_line("PAM_TEXT_INFO"@) == PamMessageView::Info(Seq::empty()),
        parse_line("SUCCESS"@) == PamMessageView::Success,
        parse_line("FAILURE"@) == PamMessageView::Failure,
{
    reveal_strlit("PAM_PROMPT_ECHO_OFF");
    reveal_strlit("PAM_PROMPT_ECHO_ON");
    reveal_strlit("PAM_ERROR_MSG");
    reveal_strlit("PAM_TEXT_INFO");
    reveal_strlit("SUCCESS");
    reveal_strlit("FAILURE");
    lemma_command_and_text("PAM_PROMPT_ECHO_OFF"@, text);
    lemma_command_and_text("PAM_PROMPT_ECHO_ON"@, text);
    lemma_command_and_text("PAM_ERROR_MSG"@, text);
    lemma_command_and_text("PAM_TEXT_INFO"@, text);
    lemma_command_and_text("SUCCESS"@, text);
    lemma_command_and_text("FAILURE"@, text);
    assert("PAM_PROMPT_ECHO_OFF"@.len() == 19 && "PAM_PROMPT_ECHO_ON"@.len() == 18
        && "PAM_ERROR_MSG"@.len() == 13 && "PAM_TEXT_INFO"@.len() == 13 && "SUCCESS"@.len() == 7
        && "FAILURE"@.len() == 7);
    assert("PAM_ERROR_MSG"@[4] == 'E' && "PAM_TEXT_INFO"@[4] == 'T');
    assert("SUCCESS"@[0] == 'S' && "FAILURE"@[0] == 'F');
}

/// A command without spaces, and what follows it.
proof fn lemma_command_and_text(cmd: Seq<char>, text: Seq<char>)
    requires
        forall|i: int| 0 <= i < cmd.len() ==> (#[trigger] cmd[i]) != ' ' && !is_line_end(cmd[i]),
        cmd.len() > 0,
        text.len() == 0 || !is_line_end(text.last()),
    ensures
        ({
            let line = cmd + seq![' '] + text;
            &&& trim_line_end(line) == line
            &&& command(line) == cmd
            &&& argument(line) == text
            &&& trim_line_end(cmd) == cmd
            &&& command(cmd) == cmd
            &&& argument(cmd) == Seq::<char>::empty()
        }),
{
    let line = cmd + seq![' '] + text;
    assert(line[cmd.len() as int] == ' ');
    assert(line.contains(' '));
    line.index_of_first_ensures(' ');
    let end = line.index_of_first(' ')->Some_0;
    if end < cmd.len() {
        assert(cmd[end] == ' ');
    }
    assert(end == cmd.len());
    assert(line.take(end) =~= cmd);
    assert(line.skip(end + 1) =~= text);
    if text.len() == 0 {
        assert(line.last() == ' ');
    } else {
        assert(line.last() == text.last());
    }
    assert(!cmd.contains(' '));
    assert(cmd[cmd.len() - 1] == cmd.last());
    assert(cmd.take(cmd.len() as int) =~= cmd);
}

/// A line whose first word is no command is shown as it is, without its ending.
pub proof fn law_other_lines_are_shown(cmd: Seq<char>, text: Seq<char>)
    requires
        cmd.len() > 0,
        forall|i: int|
            0 <= i < cmd.len() ==> (#[trigger] cmd[i]) != ' ' && cmd[i] != '\n' && cmd[i] != '\r',
        text.len() == 0 || (text.last() != '\n' && text.last() != '\r'),
        cmd != "PAM_PROMPT_ECHO_OFF"@,
        cmd != "PAM_PROMPT_ECHO_ON"@,
        cmd != "PAM_ERROR_MSG"@,
        cmd != "PAM_TEXT_INFO"@,
        cmd != "SUCCESS"@,
        cmd != "FAILURE"@,
    ensures
        parse_line(cmd + seq![' '] + text) == PamMessageView::Info(cmd + seq![' '] + text),
        parse_line(cmd) == PamMessageView::Info(cmd),
        parse_line(Seq::empty()) == PamMessageView::Info(Seq::empty()),
        parse_line(cmd + seq![' '] + text + seq!['\n']) == PamMessageView::Info(
            cmd + seq![' '] + text,
        ),
{
    reveal_strlit("PAM_PROMPT_ECHO_OFF");
    reveal_strlit("PAM_PROMPT_ECHO_ON");
    reveal_strlit("PAM_ERROR_MSG");
    reveal_strlit("PAM_TEXT_INFO");
    reveal_strlit("SUCCESS");
    reveal_strlit("FAILURE");
    assert(command(Seq::<char>::empty()).len() == 0);
    lemma_command_and_text(cmd, text);
    let line = cmd + seq![' '] + text;
    law_line_ending_is_ignored(line);
    assert(line + seq!['\n'] =~= line.push('\n'));
}

/// A handshake goes on only when what was asked for is done, and fails with a text that says what
/// went wrong otherwise; it never forgets whom it is for.
pub proof fn law_failed_handshakes(s: HelperSessionView, e: Seq<char>, reply: HelperReplyView)
    ensures
        session_step(s, reply).1 is Fail <==> reply != HelperReplyView::Done,
        reply != HelperReplyView::Done ==> session_step(s, reply).0.stage == Stage::Broken,
        session_step(s, reply).0.username == s.username,
        session_step(s, reply).0.cookie == s.cookie,
        session_step(s, reply).0.transport == s.transport,
        s.stage != Stage::Opening ==> session_step(s, HelperReplyView::Failed(e)).1
            == HelperActionView::Fail("failed to write to helper: "@ + e),
        s.stage == Stage::Opening && s.transport == Transport::Socket ==> session_step(
            s,
            HelperReplyView::Failed(e),
        ).1 == HelperActionView::Fail("failed to connect to "@ + SOCKET_PATH@ + ": "@ + e),
        s.stage == Stage::Opening && s.transport == Transport::Binary ==> session_step(
            s,
            HelperReplyView::Failed(e),
        ).1 == HelperActionView::Fail("failed to spawn "@ + HELPER_BIN@ + ": "@ + e),
        session_step(s, HelperReplyView::NoStdin).1 == HelperActionView::Fail(
            "helper stdin unavailable"@,
        ),
        session_step(s, HelperReplyView::NoStdout).1 == HelperActionView::Fail(
            "helper stdout unavailable"@,
        ),
{
}

/// The socket is preferred where it exists, and only where it does not is the binary started. When
/// everything is done, and not before, the session can be used.
pub proof fn law_how_the_helper_is_reached(
    exists_socket: bool,
    username: Seq<char>,
    cookie: Seq<char>,
)
    ensures
        ({
            let (s, first) = session_start(exists_socket, username, cookie);
            let (a, second) = session_step(s, HelperReplyView::Done);
            let (b, third) = session_step(a, HelperReplyView::Done);
            let fourth = session_step(b, HelperReplyView::Done).1;
            &&& exists_socket ==> first == HelperActionView::OpenSocket(
                "/run/polkit/agent-helper.socket"@,
            ) && second == HelperActionView::Write(username.push('\n')) && third
                == HelperActionView::Write(cookie.push('\n')) && fourth == HelperActionView::Ready
            &&& !exists_socket ==> first == (HelperActionView::Spawn {
                program: "/usr/lib/polkit-1/polkit-agent-helper-1"@,
                argument: username,
            }) && second == HelperActionView::Write(cookie.push('\n')) && third
                == HelperActionView::Ready
        }),
{
}

/// Nothing of a message or an action is lost in its view.
pub proof fn law_views_hold_everything(t: String, u: String)
    ensures
        PamMessage::PromptEchoOff(t)@ == PamMessageView::PromptEchoOff(t@),
        PamMessage::PromptEchoOn(t)@ == PamMessageView::PromptEchoOn(t@),
        PamMessage::Error(t)@ == PamMessageView::Error(t@),
        PamMessage::Info(t)@ == PamMessageView::Info(t@),
        PamMessage::Success@ == PamMessageView::Success,
        PamMessage::Failure@ == PamMessageView::Failure,
        HelperAction::OpenSocket(t)@ == HelperActionView::OpenSocket(t@),
        (HelperAction::Spawn { program: t, argument: u })@ == (HelperActionView::Spawn {
            program: t@,
            argument: u@,
        }),
        HelperAction::Write(t)@ == HelperActionView::Write(t@),
        HelperAction::Fail(t)@ == HelperActionView::Fail(t@),
        HelperAction::Ready@ == HelperActionView::Ready,
        HelperReply::Failed(t)@ == HelperReplyView::Failed(t@),
        HelperReply::Done@ == HelperReplyView::Done,
        HelperReply::NoStdin@ == HelperReplyView::NoStdin,
        HelperReply::NoStdout@ == HelperReplyView::NoStdout,
{
}

/// What the calls of a session give and change.
pub proof fn law_calls_of_a_session()
    ensures
        forall|
            exists_socket: bool,
            user: &str,
            cookie: &str,
            r: (HelperSession, HelperAction),
        | #[trigger]
            call_ensures(HelperSession::connect, (exists_socket, user, cookie), r) ==> (r.0@, r.1@)
                == session_start(exists_socket, user@, cookie@),
        forall|m: &mut HelperSession, reply: HelperReply, action: HelperAction| #[trigger]
            call_ensures(HelperSession::advance, (m, reply), action) ==> (final(m)@, action@)
                == session_step((*m)@, reply@),
        forall|s: &HelperSession, text: &str, line: String| #[trigger]
            call_ensures(HelperSession::respond, (s, text), line) ==> line@ == text@.push('\n'),
        forall|s: &HelperSession, line: &str, m: Option<PamMessage>| #[trigger]
            call_ensures(HelperSession::next_message, (s, line), m) ==> {
                &&& m is None <==> line@.len() == 0
                &&& m is Some ==> m->Some_0@ == parse_line(line@)
            },
        forall|e: &str, t: String| #[trigger]
            call_ensures(write_error, (e,), t) ==> t@ == "failed to write to helper: "@ + e@,
        forall|e: &str, t: String| #[trigger]
            call_ensures(read_error, (e,), t) ==> t@ == "failed to read from helper: "@ + e@,
{
}

/// A session that was told that everything is done can be used.
pub proof fn law_when_a_session_is_ready(s: HelperSessionView)
    ensures
        session_step(s, HelperReplyView::Done).1 == HelperActionView::Ready <==> session_step(
            s,
            HelperReplyView::Done,
        ).0.stage == Stage::Ready,
        session_step(s, HelperReplyView::Done).0.stage == Stage::SendingUser <==> s.stage
            == Stage::Opening && s.transport == Transport::Socket,
        session_step(s, HelperReplyView::Done).0.stage == Stage::SendingCookie <==> (s.stage
            == Stage::Opening && s.transport == Transport::Binary) || s.stage == Stage::SendingUser,
{
}

} // verus!
