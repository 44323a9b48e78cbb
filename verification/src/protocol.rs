//! Messages of the line protocol between daemon, controller and popup.
//!
//! Every message is one line. The daemon sends `ServerMsg` to the controller, the controller
//! answers with `ClientMsg`, and the popup process reads one `AuthRequest` and then
//! `ServerMsg::Cancel` lines. A password is part of none of them.
use crate::text::join2;
use vstd::prelude::*;

verus! {

/// Everything that one authentication request carries: the polkit cookie and what to show.
#[derive(Debug)]
pub struct AuthRequest {
    pub cookie: String,
    pub user: String,
    pub action: String,
    pub message: String,
}

/// The texts of an `AuthRequest`.
#[verifier::ext_equal]
pub struct AuthRequestView {
    pub cookie: Seq<char>,
    pub user: Seq<char>,
    pub action: Seq<char>,
    pub message: Seq<char>,
}

impl View for AuthRequest {
    type V = AuthRequestView;

    open spec fn view(&self) -> AuthRequestView {
        AuthRequestView {
            cookie: self.cookie@,
            user: self.user@,
            action: self.action@,
            message: self.message@,
        }
    }
}

impl Clone for AuthRequest {
    fn clone(&self) -> (copy: Self)
        ensures
            copy@ == self@,
    {
        AuthRequest {
            cookie: self.cookie.clone(),
            user: self.user.clone(),
            action: self.action.clone(),
            message: self.message.clone(),
        }
    }
}

/// How an authentication ended.
#[derive(Debug, Clone, Copy, PartialEq, Eq, Structural)]
pub enum AuthResult {
    /// The password was accepted; the privileged helper has already told polkit.
    Success,
    /// The user, or polkit, gave the authentication up.
    Cancel,
    /// Anything else.
    Failed,
}

/// Exit code of the popup process after a success.
pub const EXIT_OK: i32 = 0;

/// Exit code of the popup process after the user waited too long.
pub const EXIT_FAILED: i32 = 1;

/// Exit code of the popup process after a cancellation.
pub const EXIT_CANCEL: i32 = 2;

impl AuthResult {
    /// What an exit code of the popup process means; a process that left none has failed.
    pub open spec fn spec_from_exit_code(code: Option<i32>) -> AuthResult {
        if code == Some(EXIT_OK) {
            AuthResult::Success
        } else if code == Some(EXIT_CANCEL) {
            AuthResult::Cancel
        } else {
            AuthResult::Failed
        }
    }

    /// Maps the exit code of the popup process to the result to report.
    pub fn from_exit_code(code: Option<i32>) -> (result: AuthResult)
        ensures
            result == Self::spec_from_exit_code(code),
    {
        match code {
            Some(c) => {
                if c == EXIT_OK {
                    AuthResult::Success
                } else if c == EXIT_CANCEL {
                    AuthResult::Cancel
                } else {
                    AuthResult::Failed
                }
            },
            None => AuthResult::Failed,
        }
    }
}

/// Daemon to controller.
#[derive(Debug)]
pub enum ServerMsg {
    /// Start an authentication; `id` is the number that the response has to carry.
    Request { id: u64, req: AuthRequest },
    /// Close the popup of the authentication with this cookie.
    Cancel { cookie: String },
}

/// The texts and numbers of a `ServerMsg`.
#[verifier::ext_equal]
pub enum ServerMsgView {
    Request { id: u64, req: AuthRequestView },
    Cancel { cookie: Seq<char> },
}

impl View for ServerMsg {
    type V = ServerMsgView;

    open spec fn view(&self) -> ServerMsgView {
        match self {
            ServerMsg::Request { id, req } => ServerMsgView::Request { id: *id, req: req@ },
            ServerMsg::Cancel { cookie } => ServerMsgView::Cancel { cookie: cookie@ },
        }
    }
}

/// Controller to daemon.
#[derive(Debug, Clone, Copy, PartialEq, Eq, Structural)]
pub enum ClientMsg {
    /// How the request with this number ended.
    Response { id: u64, result: AuthResult },
}

/// One line as it goes over a stream: the text and a line feed.
pub fn frame_line(text: &str) -> (line: String)
    ensures
        line@ == text@.push('\n'),
{
    let line = join2(text, "\n");
    proof {
        reveal_strlit("\n");
        assert(line@ =~= text@.push('\n'));
    }
    line
}

/// The exit code 0 means success, 2 means that the authentication was given up, and everything
/// else, no exit code as well, means that it failed.
pub proof fn law_meaning_of_exit_codes(code: Option<i32>)
    ensures
        AuthResult::spec_from_exit_code(code) == AuthResult::Success <==> code == Some(0i32),
        AuthResult::spec_from_exit_code(code) == AuthResult::Cancel <==> code == Some(2i32),
        AuthResult::spec_from_exit_code(code) == AuthResult::Failed <==> code != Some(0i32) && code
            != Some(2i32),
{
}

/// Nothing of a request is lost in its view, and nothing of a message.
pub proof fn law_views_hold_everything(req: AuthRequest, id: u64, cookie: String)
    ensures
        req@.cookie == req.cookie@,
        req@.user == req.user@,
        req@.action == req.action@,
        req@.message == req.message@,
        (ServerMsg::Request { id, req })@ == (ServerMsgView::Request { id, req: req@ }),
        (ServerMsg::Cancel { cookie })@ == (ServerMsgView::Cancel { cookie: cookie@ }),
{
}

/// What the calls about messages give.
pub proof fn law_calls_about_messages()
    ensures
        forall|code: Option<i32>, r: AuthResult| #[trigger]
            call_ensures(AuthResult::from_exit_code, (code,), r) ==> r
                == AuthResult::spec_from_exit_code(code),
        forall|text: &str, line: String| #[trigger]
            call_ensures(frame_line, (text,), line) ==> line@ == text@ + seq!['\n'],
        forall|req: &AuthRequest, copy: AuthRequest| #[trigger]
            call_ensures(AuthRequest::clone, (req,), copy) ==> copy@ == req@,
        EXIT_OK == 0,
        EXIT_FAILED == 1,
        EXIT_CANCEL == 2,
{
    assert(forall|s: Seq<char>| #[trigger] s.push('\n') =~= s + seq!['\n']);
}

} // verus!
