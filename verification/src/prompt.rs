//! The process in a popup: one request, one dialog, as many attempts as it takes.
//!
//! `PromptRun` decides what keys, the outcomes of attempts, the controller's messages and the time
//! lead to; in the end it gives the exit code that the controller reads. `Attempt` is one
//! conversation with the helper. It runs beside the dialog, so that the dialog can be cancelled
//! while a password is being checked.
use crate::helper::{PamMessage, PamMessageView};
use crate::idle::{expired, is_expired};
use crate::inline::{
    ConnectOutcome, ConnectOutcomeView, Received, ReceivedView, TEXT_ERROR, TEXT_RETRY,
    TEXT_TIMEOUT,
};
use crate::protocol::{
    AuthRequest, AuthRequestView, AuthResult, ServerMsg, ServerMsgView, EXIT_CANCEL, EXIT_FAILED,
    EXIT_OK,
};
use crate::text::join2;
use crate::ui::{
    law_typed_password_is_submitted, law_typing_inserts, press, typed, Action, ActionView,
    ActivePromptView, App, AppView, KeyCode, KeyEvent, PromptState,
};
use vstd::prelude::*;

verus! {

/// How many seconds to wait for a connection to the controller.
pub const CONTROLLER_TIMEOUT_SECS: u64 = 5;

/// What the dialog says after the helper could not be reached in time.
pub const TEXT_CONNECT_TIMEOUT: &'static str = "连接超时，请重试";

/// Why the dialog could not be opened.
#[derive(Debug)]
pub enum StartError {
    /// The path of the socket is not set.
    NoSocket,
    /// The controller did not take the connection in time.
    ConnectTimedOut,
    /// Connecting failed, with this description.
    Connect(String),
    /// Reading the request failed, with this description.
    Read(String),
    /// What was read is no request, with this description.
    Parse(String),
    /// There is no terminal.
    NoTerminal,
}

impl StartError {
    /// The text of this error.
    pub open spec fn spec_text(self) -> Seq<char> {
        match self {
            StartError::NoSocket => "POLKIT_SOCK not set"@,
            StartError::ConnectTimedOut => "connect POLKIT_SOCK timeout"@,
            StartError::Connect(e) => "connect POLKIT_SOCK: "@ + e@,
            StartError::Read(e) => "read AuthRequest: "@ + e@,
            StartError::Parse(e) => "parse AuthRequest: "@ + e@,
            StartError::NoTerminal =>
                "polkit-tui-agent: --prompt needs a controlling terminal (should run inside a tmux popup)"@,
        }
    }

    /// The text of this error.
    pub fn text(&self) -> (text: String)
        ensures
            text@ == self.spec_text(),
    {
        match self {
            StartError::NoSocket => "POLKIT_SOCK not set".to_owned(),
            StartError::ConnectTimedOut => "connect POLKIT_SOCK timeout".to_owned(),
            StartError::Connect(e) => join2("connect POLKIT_SOCK: ", e.as_str()),
            StartError::Read(e) => join2("read AuthRequest: ", e.as_str()),
            StartError::Parse(e) => join2("parse AuthRequest: ", e.as_str()),
            StartError::NoTerminal =>
                "polkit-tui-agent: --prompt needs a controlling terminal (should run inside a tmux popup)".to_owned(),
        }
    }
}

/// How an attempt ended.
#[derive(Debug)]
pub enum Outcome {
    /// The helper accepted the password.
    Success,
    /// The helper refused it, or gave up.
    Failure,
    /// The helper could not be asked, with this description.
    Error(String),
}

/// The kind and the text of an `Outcome`.
#[verifier::ext_equal]
pub enum OutcomeView {
    Success,
    Failure,
    Error(Seq<char>),
}

impl View for Outcome {
    type V = OutcomeView;

    open spec fn view(&self) -> OutcomeView {
        match self {
            Outcome::Success => OutcomeView::Success,
            Outcome::Failure => OutcomeView::Failure,
            Outcome::Error(e) => OutcomeView::Error(e@),
        }
    }
}

/// What an attempt waits for.
#[derive(Debug, Clone, Copy, PartialEq, Eq, Structural)]
pub enum AttemptStage {
    /// For the connection to the helper.
    Connecting,
    /// For a message of the helper.
    Talking,
    /// For the password to be written.
    SendingPassword,
    /// For the empty answer to be written.
    SendingNothing,
    /// For nothing: it is over.
    Over,
}

/// What can happen to an attempt.
#[derive(Debug)]
pub enum AttemptEvent {
    /// Connecting is over.
    Connect(ConnectOutcome),
    /// Waiting for a message is over.
    Received(Received),
    /// An answer was written.
    Responded,
    /// Writing an answer failed, with this description.
    RespondFailed(String),
}

/// The kind and the contents of an `AttemptEvent`.
#[verifier::ext_equal]
pub enum AttemptEventView {
    Connect(ConnectOutcomeView),
    Received(ReceivedView),
    Responded,
    RespondFailed(Seq<char>),
}

impl View for AttemptEvent {
    type V = AttemptEventView;

    open spec fn view(&self) -> AttemptEventView {
        match self {
            AttemptEvent::Connect(c) => AttemptEventView::Connect(c@),
            AttemptEvent::Received(r) => AttemptEventView::Received(r@),
            AttemptEvent::Responded => AttemptEventView::Responded,
            AttemptEvent::RespondFailed(e) => AttemptEventView::RespondFailed(e@),
        }
    }
}

/// What to do for an attempt.
#[derive(Debug)]
pub enum AttemptAction {
    /// Go on waiting.
    Wait,
    /// Wait for the next message of the helper.
    Read,
    /// Answer the helper with this text.
    Respond(String),
    /// The attempt is over.
    Finish(Outcome),
}

/// The kind and the contents of an `AttemptAction`.
#[verifier::ext_equal]
pub enum AttemptActionView {
    Wait,
    Read,
    Respond(Seq<char>),
    Finish(OutcomeView),
}

impl View for AttemptAction {
    type V = AttemptActionView;

    open spec fn view(&self) -> AttemptActionView {
        match self {
            AttemptAction::Wait => AttemptActionView::Wait,
            AttemptAction::Read => AttemptActionView::Read,
            AttemptAction::Respond(t) => AttemptActionView::Respond(t@),
            AttemptAction::Finish(o) => AttemptActionView::Finish(o@),
        }
    }
}

/// One conversation with the helper about one password.
#[derive(Debug)]
pub struct Attempt {
    password: String,
    stage: AttemptStage,
}

/// What an `Attempt` knows.
#[verifier::ext_equal]
pub struct AttemptView {
    pub password: Seq<char>,
    pub stage: AttemptStage,
}

impl View for Attempt {
    type V = AttemptView;

    closed spec fn view(&self) -> AttemptView {
        AttemptView { password: self.password@, stage: self.stage }
    }
}

/// The end of an attempt.
pub open spec fn attempt_over(s: AttemptView, outcome: OutcomeView) -> (
    AttemptView,
    AttemptActionView,
) {
    (AttemptView { stage: AttemptStage::Over, ..s }, AttemptActionView::Finish(outcome))
}

/// One step of an attempt. The helper's request for a password is answered with it, any other
/// question with an empty line; everything that is neither a question nor a success ends the
/// attempt. An event that the stage does not wait for changes nothing.
pub open spec fn attempt_step(s: AttemptView, ev: AttemptEventView) -> (
    AttemptView,
    AttemptActionView,
) {
    let reading = (AttemptView { stage: AttemptStage::Talking, ..s }, AttemptActionView::Read);
    let ignored = (s, AttemptActionView::Wait);
    match s.stage {
        AttemptStage::Connecting => match ev {
            AttemptEventView::Connect(ConnectOutcomeView::Connected) => reading,
            AttemptEventView::Connect(ConnectOutcomeView::Failed(e)) => attempt_over(
                s,
                OutcomeView::Error(e),
            ),
            AttemptEventView::Connect(ConnectOutcomeView::TimedOut) => attempt_over(
                s,
                OutcomeView::Error(TEXT_CONNECT_TIMEOUT@),
            ),
            _ => ignored,
        },
        AttemptStage::Talking => match ev {
            AttemptEventView::Received(ReceivedView::Message(PamMessageView::PromptEchoOff(_))) => (
                AttemptView { stage: AttemptStage::SendingPassword, ..s },
                AttemptActionView::Respond(s.password),
            ),
            AttemptEventView::Received(ReceivedView::Message(PamMessageView::PromptEchoOn(_))) => (
                AttemptView { stage: AttemptStage::SendingNothing, ..s },
                AttemptActionView::Respond(Seq::empty()),
            ),
            AttemptEventView::Received(ReceivedView::Message(PamMessageView::Success)) =>
                attempt_over(s, OutcomeView::Success),
            AttemptEventView::Received(ReceivedView::TimedOut) => attempt_over(
                s,
                OutcomeView::Error(TEXT_TIMEOUT@),
            ),
            AttemptEventView::Received(_) => attempt_over(s, OutcomeView::Failure),
            _ => ignored,
        },
        AttemptStage::SendingPassword => match ev {
            AttemptEventView::Responded => reading,
            AttemptEventView::RespondFailed(e) => attempt_over(s, OutcomeView::Error(e)),
            _ => ignored,
        },
        AttemptStage::SendingNothing => match ev {
            AttemptEventView::Responded => reading,
            AttemptEventView::RespondFailed(_) => reading,
            _ => ignored,
        },
        AttemptStage::Over => ignored,
    }
}

impl Attempt {
    /// Begins an attempt; the first thing to do is to connect to the helper.
    pub fn new(password: String) -> (attempt: Attempt)
        ensures
            attempt@ == (AttemptView { password: password@, stage: AttemptStage::Connecting }),
    {
        Attempt { password, stage: AttemptStage::Connecting }
    }

    /// What this attempt waits for.
    pub fn stage(&self) -> (stage: AttemptStage)
        ensures
            stage == self@.stage,
    {
        self.stage
    }

    fn read(&mut self) -> (action: AttemptAction)
        ensures
            final(self)@ == (AttemptView { stage: AttemptStage::Talking, ..old(self)@ }),
            action@ == AttemptActionView::Read,
    {
        self.stage = AttemptStage::Talking;
        AttemptAction::Read
    }

    fn finish(&mut self, outcome: Outcome) -> (action: AttemptAction)
        ensures
            (final(self)@, action@) == attempt_over(old(self)@, outcome@),
    {
        self.stage = AttemptStage::Over;
        AttemptAction::Finish(outcome)
    }

    /// Takes an event and says what to do.
    pub fn step(&mut self, ev: AttemptEvent) -> (action: AttemptAction)
        ensures
            (final(self)@, action@) == attempt_step(old(self)@, ev@),
    {
        match self.stage {
            AttemptStage::Connecting => match ev {
                AttemptEvent::Connect(ConnectOutcome::Connected) => self.read(),
                AttemptEvent::Connect(ConnectOutcome::Failed(e)) => self.finish(Outcome::Error(e)),
                AttemptEvent::Connect(ConnectOutcome::TimedOut) => self.finish(
                    Outcome::Error(TEXT_CONNECT_TIMEOUT.to_owned()),
                ),
                _ => AttemptAction::Wait,
            },
            AttemptStage::Talking => match ev {
                AttemptEvent::Received(Received::Message(PamMessage::PromptEchoOff(_))) => {
                    self.stage = AttemptStage::SendingPassword;
                    AttemptAction::Respond(self.password.clone())
                },
                AttemptEvent::Received(Received::Message(PamMessage::PromptEchoOn(_))) => {
                    self.stage = AttemptStage::SendingNothing;
                    AttemptAction::Respond(String::new())
                },
                AttemptEvent::Received(Received::Message(PamMessage::Success)) => self.finish(
                    Outcome::Success,
                ),
                AttemptEvent::Received(Received::TimedOut) => self.finish(
                    Outcome::Error(TEXT_TIMEOUT.to_owned()),
                ),
                AttemptEvent::Received(_) => self.finish(Outcome::Failure),
                _ => AttemptAction::Wait,
            },
            AttemptStage::SendingPassword => match ev {
                AttemptEvent::Responded => self.read(),
                AttemptEvent::RespondFailed(e) => self.finish(Outcome::Error(e)),
                _ => AttemptAction::Wait,
            },
            AttemptStage::SendingNothing => match ev {
                AttemptEvent::Responded => self.read(),
                AttemptEvent::RespondFailed(_) => self.read(),
                _ => AttemptAction::Wait,
            },
            AttemptStage::Over => AttemptAction::Wait,
        }
    }
}

/// What can happen to the popup. Moments are given where they count.
#[derive(Debug)]
pub enum PromptEvent {
    /// A key was pressed.
    Key { key: KeyEvent, at: u128 },
    /// An attempt is over.
    Outcome { outcome: Outcome, at: u128 },
    /// No attempt can report any more.
    OutcomesGone,
    /// A line of the controller; `None` if it holds no message.
    Line(Option<ServerMsg>),
    /// The controller sends nothing any more.
    LinesGone,
    /// It is this moment now.
    Tick { now: u128 },
}

/// The kind and the contents of a `PromptEvent`.
#[verifier::ext_equal]
pub enum PromptEventView {
    Key { key: KeyEvent, at: u128 },
    Outcome { outcome: OutcomeView, at: u128 },
    OutcomesGone,
    Line(Option<ServerMsgView>),
    LinesGone,
    Tick { now: u128 },
}

impl View for PromptEvent {
    type V = PromptEventView;

    open spec fn view(&self) -> PromptEventView {
        match self {
            PromptEvent::Key { key, at } => PromptEventView::Key { key: *key, at: *at },
            PromptEvent::Outcome { outcome, at } => PromptEventView::Outcome {
                outcome: outcome@,
                at: *at,
            },
            PromptEvent::OutcomesGone => PromptEventView::OutcomesGone,
            PromptEvent::Line(Some(m)) => PromptEventView::Line(Some(m@)),
            PromptEvent::Line(None) => PromptEventView::Line(None),
            PromptEvent::LinesGone => PromptEventView::LinesGone,
            PromptEvent::Tick { now } => PromptEventView::Tick { now: *now },
        }
    }
}

/// What to do for the popup.
#[derive(Debug)]
pub enum PromptVerdict {
    /// Draw the dialog and go on waiting.
    Continue,
    /// Begin an attempt with this password.
    Authenticate { user: String, cookie: String, password: String },
    /// End the process with this exit code.
    Exit(i32),
}

/// The kind and the contents of a `PromptVerdict`.
#[verifier::ext_equal]
pub enum PromptVerdictView {
    Continue,
    Authenticate { user: Seq<char>, cookie: Seq<char>, password: Seq<char> },
    Exit(i32),
}

impl View for PromptVerdict {
    type V = PromptVerdictView;

    open spec fn view(&self) -> PromptVerdictView {
        match self {
            PromptVerdict::Continue => PromptVerdictView::Continue,
            PromptVerdict::Authenticate { user, cookie, password } => {
                PromptVerdictView::Authenticate {
                    user: user@,
                    cookie: cookie@,
                    password: password@,
                }
            },
            PromptVerdict::Exit(code) => PromptVerdictView::Exit(*code),
        }
    }
}

/// The dialog of a popup.
#[derive(Debug)]
pub struct PromptRun {
    app: App,
    cookie: String,
    last_activity: u128,
    timeout_secs: u64,
    listening: bool,
}

/// What a `PromptRun` knows.
#[verifier::ext_equal]
pub struct PromptView {
    pub app: AppView,
    /// The authentication that this popup is for.
    pub cookie: Seq<char>,
    pub last_activity: u128,
    pub timeout_secs: u64,
    /// The controller can still send a cancellation.
    pub listening: bool,
}

impl View for PromptRun {
    type V = PromptView;

    closed spec fn view(&self) -> PromptView {
        PromptView {
            app: self.app@,
            cookie: self.cookie@,
            last_activity: self.last_activity,
            timeout_secs: self.timeout_secs,
            listening: self.listening,
        }
    }
}

/// The dialog for the request `req`, opened at the moment `now`.
pub open spec fn opened(req: AuthRequestView, timeout_secs: u64, now: u128) -> PromptView {
    PromptView {
        app: AppView {
            active: Some(
                ActivePromptView {
                    cookie: req.cookie,
                    username: req.user,
                    message: req.message,
                    action_id: req.action,
                    status: Seq::empty(),
                    state: PromptState::Editing,
                    reply: None,
                },
            ),
            input: Seq::empty(),
            cursor: 0,
        },
        cookie: req.cookie,
        last_activity: now,
        timeout_secs,
        listening: true,
    }
}

/// The dialog after an attempt that did not succeed: empty, editable, and saying why.
pub open spec fn reopened(s: PromptView, status: Seq<char>, at: u128) -> PromptView {
    PromptView {
        app: s.app.reopened(
            match s.app.active {
                Some(a) => Some(ActivePromptView { state: PromptState::Editing, status, ..a }),
                None => None,
            },
        ),
        last_activity: at,
        ..s
    }
}

/// What a key leads to. Every key counts as activity; Esc and Ctrl-C end the process, whether the
/// password is being edited or checked.
pub open spec fn on_key(s: PromptView, key: KeyEvent, at: u128) -> (PromptView, PromptVerdictView) {
    let (app, action) = press(s.app, key);
    let after = PromptView { app, last_activity: at, ..s };
    match action {
        None => (after, PromptVerdictView::Continue),
        Some(ActionView::Cancel) => (after, PromptVerdictView::Exit(EXIT_CANCEL)),
        Some(ActionView::Submit(password)) => (
            after,
            PromptVerdictView::Authenticate {
                user: app.active->Some_0.username,
                cookie: app.active->Some_0.cookie,
                password,
            },
        ),
    }
}

/// One step of the popup.
pub open spec fn step(s: PromptView, ev: PromptEventView) -> (PromptView, PromptVerdictView) {
    match ev {
        PromptEventView::Key { key, at } => on_key(s, key, at),
        PromptEventView::Outcome { outcome, at } => match outcome {
            OutcomeView::Success => (s, PromptVerdictView::Exit(EXIT_OK)),
            OutcomeView::Failure => (
                reopened(s, TEXT_RETRY@, at),
                PromptVerdictView::Continue,
            ),
            OutcomeView::Error(e) => (
                reopened(s, TEXT_ERROR@ + e, at),
                PromptVerdictView::Continue,
            ),
        },
        PromptEventView::OutcomesGone => (s, PromptVerdictView::Exit(EXIT_CANCEL)),
        PromptEventView::Line(msg) => if s.listening && msg == Some(
            ServerMsgView::Cancel { cookie: s.cookie },
        ) {
            (s, PromptVerdictView::Exit(EXIT_CANCEL))
        } else {
            (s, PromptVerdictView::Continue)
        },
        PromptEventView::LinesGone => (
            PromptView { listening: false, ..s },
            PromptVerdictView::Continue,
        ),
        PromptEventView::Tick { now } => if s.app.editing() && expired(
            s.last_activity,
            now,
            s.timeout_secs,
        ) {
            (s, PromptVerdictView::Exit(EXIT_FAILED))
        } else {
            (s, PromptVerdictView::Continue)
        },
    }
}

impl PromptRun {
    /// Opens the dialog for the request `req` at the moment `now`.
    pub fn new(req: AuthRequest, timeout_secs: u64, now: u128) -> (run: PromptRun)
        ensures
            run@ == opened(req@, timeout_secs, now),
            run@.app.wf(),
    {
        let mut app = App::new();
        let cookie = req.cookie.clone();
        app.open_prompt(req.cookie, req.action, req.message, req.user);
        PromptRun { app, cookie, last_activity: now, timeout_secs, listening: true }
    }

    /// The dialog.
    pub fn app(&self) -> (app: &App)
        ensures
            app@ == self@.app,
    {
        &self.app
    }

    /// Whether the controller's lines are still worth reading.
    pub fn is_listening(&self) -> (r: bool)
        ensures
            r == self@.listening,
    {
        self.listening
    }

    fn press(&mut self, key: KeyEvent, at: u128) -> (verdict: PromptVerdict)
        requires
            old(self)@.app.wf(),
        ensures
            (final(self)@, verdict@) == on_key(old(self)@, key, at),
            final(self)@.app.wf(),
    {
        self.last_activity = at;
        match self.app.handle_key(key) {
            None => PromptVerdict::Continue,
            Some(Action::Cancel) => PromptVerdict::Exit(EXIT_CANCEL),
            Some(Action::Submit(password)) => match self.app.prompt() {
                Some(a) => PromptVerdict::Authenticate {
                    user: a.username.clone(),
                    cookie: a.cookie.clone(),
                    password,
                },
                None => PromptVerdict::Exit(EXIT_CANCEL),
            },
        }
    }

    fn reopen(&mut self, status: String, at: u128) -> (verdict: PromptVerdict)
        ensures
            final(self)@ == reopened(old(self)@, status@, at),
            verdict@ == PromptVerdictView::Continue,
            final(self)@.app.wf(),
    {
        self.app.retry(status);
        self.last_activity = at;
        PromptVerdict::Continue
    }

    /// Takes an event and says what to do.
    pub fn step(&mut self, ev: PromptEvent) -> (verdict: PromptVerdict)
        requires
            old(self)@.app.wf(),
        ensures
            (final(self)@, verdict@) == step(old(self)@, ev@),
            final(self)@.app.wf(),
    {
        match ev {
            PromptEvent::Key { key, at } => self.press(key, at),
            PromptEvent::Outcome { outcome, at } => match outcome {
                Outcome::Success => PromptVerdict::Exit(EXIT_OK),
                Outcome::Failure => self.reopen(TEXT_RETRY.to_owned(), at),
                Outcome::Error(e) => self.reopen(join2(TEXT_ERROR, e.as_str()), at),
            },
            PromptEvent::OutcomesGone => PromptVerdict::Exit(EXIT_CANCEL),
            PromptEvent::Line(Some(ServerMsg::Cancel { cookie })) => {
                if self.listening && cookie == self.cookie {
                    PromptVerdict::Exit(EXIT_CANCEL)
                } else {
                    PromptVerdict::Continue
                }
            },
            PromptEvent::Line(_) => PromptVerdict::Continue,
            PromptEvent::LinesGone => {
                self.listening = false;
                PromptVerdict::Continue
            },
            PromptEvent::Tick { now } => {
                let editing = match self.app.prompt() {
                    Some(a) => a.state == PromptState::Editing,
                    None => false,
                };
                if editing && is_expired(self.last_activity, now, self.timeout_secs) {
                    PromptVerdict::Exit(EXIT_FAILED)
                } else {
                    PromptVerdict::Continue
                }
            },
        }
    }
}

/// The password goes to the helper and nowhere else: two attempts with different passwords do the
/// same, except for the answer to the helper's request for the password.
pub proof fn law_password_goes_to_the_helper_only(
    a: AttemptView,
    b: AttemptView,
    ev: AttemptEventView,
)
    requires
        a.stage == b.stage,
    ensures
        attempt_step(a, ev).0.stage == attempt_step(b, ev).0.stage,
        attempt_step(a, ev).0.password == a.password,
        attempt_step(a, ev).0.stage != AttemptStage::SendingPassword || a.stage
            == AttemptStage::SendingPassword ==> attempt_step(a, ev).1 == attempt_step(b, ev).1,
        attempt_step(a, ev).0.stage == AttemptStage::SendingPassword && a.stage
            != AttemptStage::SendingPassword ==> attempt_step(a, ev).1
            == AttemptActionView::Respond(a.password),
{
}

/// An attempt succeeds when the helper says so, and then only.
pub proof fn law_success_comes_from_the_helper(s: AttemptView, ev: AttemptEventView)
    ensures
        attempt_step(s, ev).1 == AttemptActionView::Finish(OutcomeView::Success) <==> s.stage
            == AttemptStage::Talking && ev == AttemptEventView::Received(
            ReceivedView::Message(PamMessageView::Success),
        ),
{
}

/// An attempt has one outcome: it gives one when it ends, and nothing after that.
pub proof fn law_one_outcome(s: AttemptView, ev: AttemptEventView)
    ensures
        attempt_step(s, ev).1 is Finish <==> s.stage != AttemptStage::Over && attempt_step(
            s,
            ev,
        ).0.stage == AttemptStage::Over,
        s.stage == AttemptStage::Over ==> attempt_step(s, ev) == (s, AttemptActionView::Wait),
{
}

/// The process ends with the exit code of a success when an attempt succeeded, with that of a
/// failure when the dialog was idle for too long, and with that of a cancellation when the user
/// or the controller gave up, and in no other case.
pub proof fn law_exit_codes(s: PromptView, ev: PromptEventView)
    requires
        s.app.active is Some,
    ensures
        step(s, ev).1 == PromptVerdictView::Exit(EXIT_OK) <==> (ev matches PromptEventView::Outcome {
            outcome,
            ..
        } && outcome == OutcomeView::Success),
        step(s, ev).1 == PromptVerdictView::Exit(EXIT_FAILED) <==> (ev matches PromptEventView::Tick {
            now,
        } && s.app.editing() && expired(s.last_activity, now, s.timeout_secs)),
        step(s, ev).1 == PromptVerdictView::Exit(EXIT_CANCEL) <==> {
            ||| (ev matches PromptEventView::Key { key, .. } && (key.code == KeyCode::Esc
                || key.spec_is_interrupt()))
            ||| (s.listening && ev == PromptEventView::Line(
                Some(ServerMsgView::Cancel { cookie: s.cookie }),
            ))
            ||| ev is OutcomesGone
        },
        step(s, ev).1 matches PromptVerdictView::Exit(code) ==> code == EXIT_OK || code
            == EXIT_FAILED || code == EXIT_CANCEL,
{
}

/// The controller reads from the exit code what happened in the popup.
pub proof fn law_exit_codes_are_understood(s: PromptView, ev: PromptEventView)
    ensures
        step(s, ev).1 matches PromptVerdictView::Exit(code) ==> {
            let result = AuthResult::spec_from_exit_code(Some(code));
            &&& result == AuthResult::Success <==> ev is Outcome
            &&& result == AuthResult::Failed <==> ev is Tick
            &&& result == AuthResult::Cancel <==> !(ev is Outcome || ev is Tick)
        },
{
}

/// The dialog stays open until the process ends, and it stays the dialog of its request.
pub proof fn law_dialog_stays_open(s: PromptView, ev: PromptEventView)
    requires
        s.app.active is Some,
        s.app.wf(),
    ensures
        step(s, ev).0.app.active is Some,
        step(s, ev).0.app.wf(),
        step(s, ev).0.app.active->Some_0.cookie == s.app.active->Some_0.cookie,
        step(s, ev).0.app.active->Some_0.username == s.app.active->Some_0.username,
        step(s, ev).0.cookie == s.cookie,
        step(s, ev).0.timeout_secs == s.timeout_secs,
{
}

/// A password that is typed into the dialog and confirmed goes, exactly as it was typed, to the
/// helper when it asks for it, for the user and the cookie of the request.
pub proof fn law_typed_password_reaches_the_helper(
    req: AuthRequestView,
    timeout_secs: u64,
    s: PromptView,
    password: Seq<char>,
    at: u128,
    question: Seq<char>,
)
    requires
        s.app == typed(opened(req, timeout_secs, s.last_activity).app, password),
        password.len() > 0,
    ensures
        step(
            s,
            PromptEventView::Key { key: KeyEvent { code: KeyCode::Enter, control: false }, at },
        ).1 == (PromptVerdictView::Authenticate { user: req.user, cookie: req.cookie, password }),
        attempt_step(
            AttemptView { password, stage: AttemptStage::Talking },
            AttemptEventView::Received(
                ReceivedView::Message(PamMessageView::PromptEchoOff(question)),
            ),
        ).1 == AttemptActionView::Respond(password),
{
    let start = opened(req, timeout_secs, s.last_activity).app;
    law_typing_inserts(start, password);
    law_typed_password_is_submitted(start, password);
}

/// How many attempts are under way after `events`: those that were begun and have not reported.
pub open spec fn under_way(s: PromptView, events: Seq<PromptEventView>) -> int
    decreases events.len(),
{
    if events.len() == 0 {
        0
    } else {
        let before = run(s, events.drop_last());
        under_way(s, events.drop_last()) + (if step(before, events.last()).1 is Authenticate {
            1int
        } else {
            0
        }) - (if events.last() is Outcome {
            1int
        } else {
            0
        })
    }
}

/// The dialog after `events`.
pub open spec fn run(s: PromptView, events: Seq<PromptEventView>) -> PromptView
    decreases events.len(),
{
    if events.len() == 0 {
        s
    } else {
        step(run(s, events.drop_last()), events.last()).0
    }
}

/// Only attempts that are under way report, and the process goes on after all of `events`.
pub open spec fn plausible(s: PromptView, events: Seq<PromptEventView>) -> bool
    decreases events.len(),
{
    events.len() == 0 || {
        &&& plausible(s, events.drop_last())
        &&& events.last() is Outcome ==> under_way(s, events.drop_last()) > 0
        &&& !(step(run(s, events.drop_last()), events.last()).1 is Exit)
    }
}

/// At most one attempt is under way at any time, and the dialog says that the password is being
/// checked exactly as long as there is one.
pub proof fn law_one_attempt_at_a_time(
    req: AuthRequestView,
    timeout_secs: u64,
    now: u128,
    events: Seq<PromptEventView>,
)
    requires
        plausible(opened(req, timeout_secs, now), events),
    ensures
        ({
            let s = opened(req, timeout_secs, now);
            &&& under_way(s, events) == (if run(s, events).app.verifying() {
                1int
            } else {
                0
            })
            &&& run(s, events).app.active is Some
        }),
    decreases events.len(),
{
    if events.len() > 0 {
        law_one_attempt_at_a_time(req, timeout_secs, now, events.drop_last());
    }
}

/// An attempt that did not succeed gives the user the full time again, with an empty input and a
/// text that says what happened.
pub proof fn law_failure_restarts_the_wait(
    s: PromptView,
    outcome: OutcomeView,
    at: u128,
    now: u128,
)
    requires
        s.app.active is Some,
        outcome != OutcomeView::Success,
        !expired(at, now, s.timeout_secs),
    ensures
        ({
            let after = step(s, PromptEventView::Outcome { outcome, at }).0;
            &&& after.app.editing()
            &&& after.app.input.len() == 0
            &&& after.app.active->Some_0.status == match outcome {
                OutcomeView::Error(e) => TEXT_ERROR@ + e,
                _ => TEXT_RETRY@,
            }
            &&& step(after, PromptEventView::Tick { now }).1 == PromptVerdictView::Continue
        }),
{
}

/// While a password is being checked the dialog does not time out.
pub proof fn law_checking_does_not_time_out(s: PromptView, now: u128)
    requires
        s.app.verifying(),
    ensures
        step(s, PromptEventView::Tick { now }) == (s, PromptVerdictView::Continue),
{
}

/// A controller that goes away does not end the dialog; it only cannot cancel it any more.
pub proof fn law_lost_controller(s: PromptView, msg: Option<ServerMsgView>)
    ensures
        ({
            let (after, verdict) = step(s, PromptEventView::LinesGone);
            &&& verdict == PromptVerdictView::Continue
            &&& after.app == s.app
            &&& step(after, PromptEventView::Line(msg)) == (after, PromptVerdictView::Continue)
        }),
{
}

/// A cancellation of another authentication changes nothing.
pub proof fn law_other_cancellations_change_nothing(s: PromptView, cookie: Seq<char>)
    requires
        cookie != s.cookie,
    ensures
        step(s, PromptEventView::Line(Some(ServerMsgView::Cancel { cookie }))) == (
            s,
            PromptVerdictView::Continue,
        ),
{
}

/// Every key is activity, whatever it does: afterwards the dialog times out only when nobody has
/// touched it for the whole timeout since then.
pub proof fn law_keys_are_activity(s: PromptView, key: KeyEvent, at: u128, now: u128)
    ensures
        ({
            let t = step(s, PromptEventView::Key { key, at }).0;
            &&& t.last_activity == at
            &&& !expired(at, now, s.timeout_secs) ==> step(t, PromptEventView::Tick { now }).1
                == PromptVerdictView::Continue
            &&& t.app == press(s.app, key).0
            &&& t.cookie == s.cookie
            &&& t.timeout_secs == s.timeout_secs
            &&& t.listening == s.listening
        }),
{
}

/// A key that submits a password begins an attempt with it, for the user and the cookie of the
/// dialog; nothing else begins one.
pub proof fn law_when_attempts_begin(s: PromptView, ev: PromptEventView)
    requires
        s.app.active is Some,
    ensures
        (ev matches PromptEventView::Key { key, at } && (press(s.app, key).1 matches Some(
            ActionView::Submit(p),
        ))) ==> step(s, ev).1 == (PromptVerdictView::Authenticate {
            user: s.app.active->Some_0.username,
            cookie: s.app.active->Some_0.cookie,
            password: press(s.app, ev->key).1->Some_0->Submit_0,
        }),
        step(s, ev).1 is Authenticate ==> (ev matches PromptEventView::Key { key, at } && (press(
            s.app,
            key,
        ).1 matches Some(ActionView::Submit(_)))),
{
}

/// What is no key and no failure leaves the dialog alone, and the end of the controller's lines is
/// noted and nothing else.
pub proof fn law_what_leaves_the_dialog_alone(s: PromptView, ev: PromptEventView)
    ensures
        ev is Tick || ev is Line || ev is OutcomesGone ==> step(s, ev).0 == s,
        ev == PromptEventView::LinesGone ==> step(s, ev) == (
            PromptView { listening: false, ..s },
            PromptVerdictView::Continue,
        ),
        (ev matches PromptEventView::Outcome { outcome, at } && outcome == OutcomeView::Success)
            ==> step(s, ev).0 == s,
{
}

/// The dialog times out exactly when it can be edited and nobody has touched it for the timeout.
pub proof fn law_timing_out(s: PromptView, now: u128)
    ensures
        step(s, PromptEventView::Tick { now }).1 == (if s.app.active is Some
            && s.app.active->Some_0.state == PromptState::Editing && expired(
            s.last_activity,
            now,
            s.timeout_secs,
        ) {
            PromptVerdictView::Exit(1)
        } else {
            PromptVerdictView::Continue
        }),
{
}

/// After an attempt that did not succeed the same dialog can be edited again: it is empty, says
/// what went wrong, and has its full time.
pub proof fn law_the_dialog_after_a_failure(s: PromptView, at: u128, e: Seq<char>)
    requires
        s.app.active is Some,
    ensures
        ({
            let a = s.app.active->Some_0;
            let refused = step(s, PromptEventView::Outcome { outcome: OutcomeView::Failure, at }).0;
            let broken = step(s, PromptEventView::Outcome { outcome: OutcomeView::Error(e), at }).0;
            &&& refused == (PromptView {
                app: AppView {
                    active: Some(
                        ActivePromptView {
                            state: PromptState::Editing,
                            status: "认证失败，请重试"@,
                            ..a
                        },
                    ),
                    input: Seq::empty(),
                    cursor: 0,
                },
                last_activity: at,
                ..s
            })
            &&& broken == (PromptView {
                app: AppView {
                    active: Some(
                        ActivePromptView {
                            state: PromptState::Editing,
                            status: "认证失败："@ + e,
                            ..a
                        },
                    ),
                    input: Seq::empty(),
                    cursor: 0,
                },
                last_activity: at,
                ..s
            })
        }),
{
}

/// The dialog of a popup is that of its request, empty and untouched, and listens to the
/// controller.
pub proof fn law_opening(req: AuthRequestView, timeout_secs: u64, now: u128)
    ensures
        ({
            let s = opened(req, timeout_secs, now);
            &&& s.app.active is Some
            &&& s.app.active->Some_0.cookie == req.cookie
            &&& s.app.active->Some_0.username == req.user
            &&& s.app.active->Some_0.message == req.message
            &&& s.app.active->Some_0.action_id == req.action
            &&& s.app.active->Some_0.state == PromptState::Editing
            &&& s.app.active->Some_0.status.len() == 0
            &&& s.app.input.len() == 0 && s.app.cursor == 0
            &&& s.cookie == req.cookie
            &&& s.last_activity == now
            &&& s.timeout_secs == timeout_secs
            &&& s.listening
        }),
        CONTROLLER_TIMEOUT_SECS == 5,
{
}

/// The password of an attempt, whole and as it is, is what the helper gets whenever it asks for it;
/// any other question gets an empty answer, and the conversation goes on after each.
pub proof fn law_the_conversation_of_an_attempt(s: AttemptView, t: Seq<char>, e: Seq<char>)
    ensures
        s.stage == AttemptStage::Connecting ==> attempt_step(
            s,
            AttemptEventView::Connect(ConnectOutcomeView::Connected),
        ) == (AttemptView { stage: AttemptStage::Talking, ..s }, AttemptActionView::Read),
        s.stage == AttemptStage::Talking ==> attempt_step(
            s,
            AttemptEventView::Received(ReceivedView::Message(PamMessageView::PromptEchoOff(t))),
        ) == (
            AttemptView { stage: AttemptStage::SendingPassword, ..s },
            AttemptActionView::Respond(s.password),
        ),
        s.stage == AttemptStage::Talking ==> attempt_step(
            s,
            AttemptEventView::Received(ReceivedView::Message(PamMessageView::PromptEchoOn(t))),
        ) == (
            AttemptView { stage: AttemptStage::SendingNothing, ..s },
            AttemptActionView::Respond(Seq::empty()),
        ),
        s.stage == AttemptStage::SendingPassword || s.stage == AttemptStage::SendingNothing
            ==> attempt_step(s, AttemptEventView::Responded) == (
            AttemptView { stage: AttemptStage::Talking, ..s },
            AttemptActionView::Read,
        ),
        s.stage == AttemptStage::SendingNothing ==> attempt_step(
            s,
            AttemptEventView::RespondFailed(e),
        ) == (AttemptView { stage: AttemptStage::Talking, ..s }, AttemptActionView::Read),
{
}

/// How an attempt ends: with the helper's word, or with what went wrong where the helper could not
/// be asked, and as refused where it says anything else or leaves. What is not waited for changes
/// nothing.
pub proof fn law_how_attempts_end(s: AttemptView, e: Seq<char>, ev: AttemptEventView)
    ensures
        s.stage == AttemptStage::Connecting ==> attempt_step(
            s,
            AttemptEventView::Connect(ConnectOutcomeView::Failed(e)),
        ).1 == AttemptActionView::Finish(OutcomeView::Error(e)),
        s.stage == AttemptStage::Connecting ==> attempt_step(
            s,
            AttemptEventView::Connect(ConnectOutcomeView::TimedOut),
        ).1 == AttemptActionView::Finish(OutcomeView::Error("连接超时，请重试"@)),
        s.stage == AttemptStage::Talking ==> attempt_step(
            s,
            AttemptEventView::Received(ReceivedView::TimedOut),
        ).1 == AttemptActionView::Finish(OutcomeView::Error("认证超时，请重试"@)),
        s.stage == AttemptStage::SendingPassword ==> attempt_step(
            s,
            AttemptEventView::RespondFailed(e),
        ).1 == AttemptActionView::Finish(OutcomeView::Error(e)),
        s.stage == AttemptStage::Talking && (ev == AttemptEventView::Received(ReceivedView::Eof) || ev
            == AttemptEventView::Received(ReceivedView::ReadFailed) || ev
            == AttemptEventView::Received(ReceivedView::Message(PamMessageView::Failure)) || ev
            == AttemptEventView::Received(ReceivedView::Message(PamMessageView::Error(e))) || ev
            == AttemptEventView::Received(ReceivedView::Message(PamMessageView::Info(e))))
            ==> attempt_step(s, ev).1 == AttemptActionView::Finish(OutcomeView::Failure),
        attempt_step(s, ev).0.password == s.password,
        (s.stage == AttemptStage::Connecting && !(ev is Connect)) || (s.stage == AttemptStage::Talking
            && !(ev is Received)) || ((s.stage == AttemptStage::SendingPassword || s.stage
            == AttemptStage::SendingNothing) && !(ev is Responded || ev is RespondFailed))
            ==> attempt_step(s, ev) == (s, AttemptActionView::Wait),
{
}

/// What is said where the dialog cannot be opened.
pub proof fn law_why_the_dialog_is_not_opened(e: String)
    ensures
        StartError::NoSocket.spec_text() == "POLKIT_SOCK not set"@,
        StartError::ConnectTimedOut.spec_text() == "connect POLKIT_SOCK timeout"@,
        StartError::Connect(e).spec_text() == "connect POLKIT_SOCK: "@ + e@,
        StartError::Read(e).spec_text() == "read AuthRequest: "@ + e@,
        StartError::Parse(e).spec_text() == "parse AuthRequest: "@ + e@,
        StartError::NoTerminal.spec_text()
            == "polkit-tui-agent: --prompt needs a controlling terminal (should run inside a tmux popup)"@,
{
}

/// Nothing of an event, an action, an outcome or a verdict is lost in its view.
pub proof fn law_views_hold_everything(
    t: String,
    u: String,
    p: String,
    o: Outcome,
    m: ServerMsg,
    key: KeyEvent,
    at: u128,
    code: i32,
    c: ConnectOutcome,
    r: Received,
)
    ensures
        Outcome::Success@ == OutcomeView::Success,
        Outcome::Failure@ == OutcomeView::Failure,
        Outcome::Error(t)@ == OutcomeView::Error(t@),
        AttemptAction::Wait@ == AttemptActionView::Wait,
        AttemptAction::Read@ == AttemptActionView::Read,
        AttemptAction::Respond(t)@ == AttemptActionView::Respond(t@),
        AttemptAction::Finish(o)@ == AttemptActionView::Finish(o@),
        AttemptEvent::Connect(c)@ == AttemptEventView::Connect(c@),
        AttemptEvent::Received(r)@ == AttemptEventView::Received(r@),
        AttemptEvent::Responded@ == AttemptEventView::Responded,
        AttemptEvent::RespondFailed(t)@ == AttemptEventView::RespondFailed(t@),
        (PromptEvent::Key { key, at })@ == (PromptEventView::Key { key, at }),
        (PromptEvent::Outcome { outcome: o, at })@ == (PromptEventView::Outcome { outcome: o@, at }),
        PromptEvent::OutcomesGone@ == PromptEventView::OutcomesGone,
        PromptEvent::Line(Some(m))@ == PromptEventView::Line(Some(m@)),
        PromptEvent::Line(None)@ == PromptEventView::Line(None),
        PromptEvent::LinesGone@ == PromptEventView::LinesGone,
        (PromptEvent::Tick { now: at })@ == (PromptEventView::Tick { now: at }),
        PromptVerdict::Continue@ == PromptVerdictView::Continue,
        (PromptVerdict::Authenticate { user: t, cookie: u, password: p })@ == (
        PromptVerdictView::Authenticate { user: t@, cookie: u@, password: p@ }),
        PromptVerdict::Exit(code)@ == PromptVerdictView::Exit(code),
{
}

/// What the calls of a popup's dialog and of an attempt give and change.
pub proof fn law_calls_of_a_popup()
    ensures
        forall|req: AuthRequest, secs: u64, now: u128, run: PromptRun| #[trigger]
            call_ensures(PromptRun::new, (req, secs, now), run) ==> run@ == opened(req@, secs, now),
        forall|m: &mut PromptRun, ev: PromptEvent, verdict: PromptVerdict| #[trigger]
            call_ensures(PromptRun::step, (m, ev), verdict) ==> (final(m)@, verdict@) == step(
                (*m)@,
                ev@,
            ),
        forall|run: &PromptRun, app: &App| #[trigger]
            call_ensures(PromptRun::app, (run,), app) ==> app@ == run@.app,
        forall|run: &PromptRun, r: bool| #[trigger]
            call_ensures(PromptRun::is_listening, (run,), r) ==> r == run@.listening,
        forall|password: String, attempt: Attempt| #[trigger]
            call_ensures(Attempt::new, (password,), attempt) ==> attempt@.password == password@
                && attempt@.stage == AttemptStage::Connecting,
        forall|m: &mut Attempt, ev: AttemptEvent, action: AttemptAction| #[trigger]
            call_ensures(Attempt::step, (m, ev), action) ==> (final(m)@, action@) == attempt_step(
                (*m)@,
                ev@,
            ),
        forall|e: &StartError, text: String| #[trigger]
            call_ensures(StartError::text, (e,), text) ==> text@ == e.spec_text(),
{
}

} // verus!
