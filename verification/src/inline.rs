//! One authentication in the agent's own terminal.
//!
//! Round after round the dialog is asked for a password and the helper is asked about it, until
//! the helper accepts one or the authentication is given up. `InlineAuth` decides; its caller
//! shows, waits, connects, reads and writes, and reports what came of it. The password goes to
//! the helper and nowhere else.
use crate::agent::PolkitError;
use crate::helper::{PamMessage, PamMessageView};
use crate::idle::{expired, is_expired, remaining, elapsed, NANOS_PER_SEC};
use crate::protocol::{AuthRequest, AuthRequestView};
use crate::text::join2;
use crate::ui::{PromptAnswer, PromptAnswerView, UiEvent, UiEventView};
use vstd::prelude::*;

verus! {

/// How many seconds to wait for a connection to the helper.
pub const CONNECT_TIMEOUT_SECS: u64 = 10;

/// How many seconds to wait for each message of the helper.
pub const MESSAGE_TIMEOUT_SECS: u64 = 30;

/// What the dialog says after a password that was refused.
pub const TEXT_RETRY: &'static str = "认证失败，请重试";

/// What the dialog says after the helper did not answer in time.
pub const TEXT_TIMEOUT: &'static str = "认证超时，请重试";

/// What the dialog says before the description of an error.
pub const TEXT_ERROR: &'static str = "认证失败：";

/// How connecting to the helper went.
#[derive(Debug)]
pub enum ConnectOutcome {
    Connected,
    /// It failed, with this description.
    Failed(String),
    /// It took longer than `CONNECT_TIMEOUT_SECS`.
    TimedOut,
}

/// The kind and the text of a `ConnectOutcome`.
#[verifier::ext_equal]
pub enum ConnectOutcomeView {
    Connected,
    Failed(Seq<char>),
    TimedOut,
}

impl View for ConnectOutcome {
    type V = ConnectOutcomeView;

    open spec fn view(&self) -> ConnectOutcomeView {
        match self {
            ConnectOutcome::Connected => ConnectOutcomeView::Connected,
            ConnectOutcome::Failed(e) => ConnectOutcomeView::Failed(e@),
            ConnectOutcome::TimedOut => ConnectOutcomeView::TimedOut,
        }
    }
}

/// What came when the next message of the helper was waited for.
#[derive(Debug)]
pub enum Received {
    Message(PamMessage),
    /// The helper closed the connection.
    Eof,
    /// Reading failed.
    ReadFailed,
    /// Nothing came within `MESSAGE_TIMEOUT_SECS`.
    TimedOut,
}

/// The kind and the text of what was received.
#[verifier::ext_equal]
pub enum ReceivedView {
    Message(PamMessageView),
    Eof,
    ReadFailed,
    TimedOut,
}

impl View for Received {
    type V = ReceivedView;

    open spec fn view(&self) -> ReceivedView {
        match self {
            Received::Message(m) => ReceivedView::Message(m@),
            Received::Eof => ReceivedView::Eof,
            Received::ReadFailed => ReceivedView::ReadFailed,
            Received::TimedOut => ReceivedView::TimedOut,
        }
    }
}

/// What can happen to an authentication.
#[derive(Debug)]
pub enum InlineEvent {
    /// The dialog was asked for a password, at this moment.
    Prompted { at: u128 },
    /// The dialog is gone for good.
    UiGone,
    /// Polkit gave the authentication up.
    Cancelled,
    /// The dialog answered.
    Answer(PromptAnswer),
    /// The dialog was closed without an answer.
    AnswerLost,
    /// A key was pressed, at this moment.
    Activity { at: u128 },
    /// It is this moment now.
    Tick { now: u128 },
    /// Connecting to the helper is over.
    Connect(ConnectOutcome),
    /// Waiting for a message of the helper is over.
    Received(Received),
    /// An answer was written to the helper.
    Responded,
    /// Writing an answer to the helper failed, with this description.
    RespondFailed(String),
}

/// The kind and the contents of an `InlineEvent`.
#[verifier::ext_equal]
pub enum InlineEventView {
    Prompted { at: u128 },
    UiGone,
    Cancelled,
    Answer(PromptAnswerView),
    AnswerLost,
    Activity { at: u128 },
    Tick { now: u128 },
    Connect(ConnectOutcomeView),
    Received(ReceivedView),
    Responded,
    RespondFailed(Seq<char>),
}

impl View for InlineEvent {
    type V = InlineEventView;

    open spec fn view(&self) -> InlineEventView {
        match self {
            InlineEvent::Prompted { at } => InlineEventView::Prompted { at: *at },
            InlineEvent::UiGone => InlineEventView::UiGone,
            InlineEvent::Cancelled => InlineEventView::Cancelled,
            InlineEvent::Answer(a) => InlineEventView::Answer(a@),
            InlineEvent::AnswerLost => InlineEventView::AnswerLost,
            InlineEvent::Activity { at } => InlineEventView::Activity { at: *at },
            InlineEvent::Tick { now } => InlineEventView::Tick { now: *now },
            InlineEvent::Connect(c) => InlineEventView::Connect(c@),
            InlineEvent::Received(r) => InlineEventView::Received(r@),
            InlineEvent::Responded => InlineEventView::Responded,
            InlineEvent::RespondFailed(e) => InlineEventView::RespondFailed(e@),
        }
    }
}

/// What the caller has to do, in the order given.
#[derive(Debug)]
pub enum InlineAction {
    /// Ask the dialog for a password, with `InlineAuth::prompt_event`.
    Prompt,
    /// Show this text in the dialog, with `InlineAuth::status_event`.
    Status(String),
    /// Close the dialog, with `InlineAuth::dismiss_event`.
    Dismiss,
    /// Connect to the helper, for the user and the cookie of the request.
    Connect { user: String, cookie: String },
    /// Answer the helper with this text.
    Respond(String),
    /// Wait for the next message of the helper.
    Read,
    /// The authentication is over: return this to polkit.
    Finish(Result<(), PolkitError>),
}

/// The kind and the contents of an `InlineAction`.
#[verifier::ext_equal]
pub enum InlineActionView {
    Prompt,
    Status(Seq<char>),
    Dismiss,
    Connect { user: Seq<char>, cookie: Seq<char> },
    Respond(Seq<char>),
    Read,
    Finish(Result<(), PolkitError>),
}

impl View for InlineAction {
    type V = InlineActionView;

    open spec fn view(&self) -> InlineActionView {
        match self {
            InlineAction::Prompt => InlineActionView::Prompt,
            InlineAction::Status(t) => InlineActionView::Status(t@),
            InlineAction::Dismiss => InlineActionView::Dismiss,
            InlineAction::Connect { user, cookie } => InlineActionView::Connect {
                user: user@,
                cookie: cookie@,
            },
            InlineAction::Respond(t) => InlineActionView::Respond(t@),
            InlineAction::Read => InlineActionView::Read,
            InlineAction::Finish(r) => InlineActionView::Finish(*r),
        }
    }
}

/// The views of a list of actions.
pub open spec fn action_views(actions: Seq<InlineAction>) -> Seq<InlineActionView> {
    Seq::new(actions.len(), |i: int| actions[i]@)
}

/// What an authentication waits for.
#[derive(Debug, Clone, Copy, PartialEq, Eq, Structural)]
pub enum Phase {
    /// For the dialog to take the request for a password.
    Asking,
    /// For an answer of the dialog.
    Waiting,
    /// For the connection to the helper.
    Connecting,
    /// For a message of the helper.
    Talking,
    /// For the password to be written to the helper.
    SendingPassword,
    /// For the empty answer to be written to the helper.
    SendingNothing,
    /// For nothing: it is over.
    Done,
}

/// One authentication.
#[derive(Debug)]
pub struct InlineAuth {
    req: AuthRequest,
    status: String,
    password: String,
    timeout_secs: u64,
    last_activity: u128,
    cancelled: bool,
    phase: Phase,
}

/// What an `InlineAuth` knows.
#[verifier::ext_equal]
pub struct InlineView {
    pub req: AuthRequestView,
    /// What the dialog says in the next round.
    pub status: Seq<char>,
    /// The password of this round, empty outside of one.
    pub password: Seq<char>,
    pub timeout_secs: u64,
    pub last_activity: u128,
    /// Polkit gave the authentication up while no password was waited for.
    pub cancelled: bool,
    pub phase: Phase,
}

impl View for InlineAuth {
    type V = InlineView;

    closed spec fn view(&self) -> InlineView {
        InlineView {
            req: self.req@,
            status: self.status@,
            password: self.password@,
            timeout_secs: self.timeout_secs,
            last_activity: self.last_activity,
            cancelled: self.cancelled,
            phase: self.phase,
        }
    }
}

/// An authentication that has just begun.
pub open spec fn initial(req: AuthRequestView, timeout_secs: u64) -> InlineView {
    InlineView {
        req,
        status: Seq::empty(),
        password: Seq::empty(),
        timeout_secs,
        last_activity: 0,
        cancelled: false,
        phase: Phase::Asking,
    }
}

/// The end of the authentication, with the dialog left alone.
pub open spec fn ended(s: InlineView, result: Result<(), PolkitError>) -> (
    InlineView,
    Seq<InlineActionView>,
) {
    (
        InlineView { phase: Phase::Done, password: Seq::empty(), ..s },
        seq![InlineActionView::Finish(result)],
    )
}

/// The end of the authentication, with the dialog closed.
pub open spec fn closed_with(s: InlineView, result: Result<(), PolkitError>) -> (
    InlineView,
    Seq<InlineActionView>,
) {
    (
        InlineView { phase: Phase::Done, password: Seq::empty(), ..s },
        seq![InlineActionView::Dismiss, InlineActionView::Finish(result)],
    )
}

/// The next round: the dialog says `status` and is asked again.
pub open spec fn retried(s: InlineView, status: Seq<char>) -> (
    InlineView,
    Seq<InlineActionView>,
) {
    (
        InlineView { phase: Phase::Asking, password: Seq::empty(), status, ..s },
        seq![InlineActionView::Prompt],
    )
}

/// The conversation with the helper goes on.
pub open spec fn reading(s: InlineView) -> (InlineView, Seq<InlineActionView>) {
    (InlineView { phase: Phase::Talking, ..s }, seq![InlineActionView::Read])
}

/// What a message of the helper leads to.
pub open spec fn on_message(s: InlineView, m: PamMessageView) -> (
    InlineView,
    Seq<InlineActionView>,
) {
    match m {
        PamMessageView::PromptEchoOff(t) => (
            InlineView { phase: Phase::SendingPassword, ..s },
            (if t.len() > 0 {
                seq![InlineActionView::Status(t)]
            } else {
                Seq::empty()
            }) + seq![InlineActionView::Respond(s.password)],
        ),
        PamMessageView::PromptEchoOn(t) => (
            InlineView { phase: Phase::SendingNothing, ..s },
            seq![InlineActionView::Status(t), InlineActionView::Respond(Seq::empty())],
        ),
        PamMessageView::Error(t) => (
            InlineView { status: t, ..s },
            seq![InlineActionView::Status(t), InlineActionView::Read],
        ),
        PamMessageView::Info(t) => (
            InlineView { status: if s.status.len() == 0 { t } else { s.status }, ..s },
            seq![InlineActionView::Status(t), InlineActionView::Read],
        ),
        PamMessageView::Success => closed_with(s, Ok(())),
        PamMessageView::Failure => refused(s),
    }
}

/// A round that ended without success: what the helper said is shown, or else a standard text.
pub open spec fn refused(s: InlineView) -> (InlineView, Seq<InlineActionView>) {
    retried(s, if s.status.len() == 0 { TEXT_RETRY@ } else { s.status })
}

/// One step of an authentication. A cancellation that comes while no password is waited for
/// takes effect as soon as one is; any other event that the phase does not wait for changes
/// nothing.
pub open spec fn step(s: InlineView, ev: InlineEventView) -> (InlineView, Seq<InlineActionView>) {
    let ignored = (s, Seq::<InlineActionView>::empty());
    let noted = (InlineView { cancelled: true, ..s }, Seq::<InlineActionView>::empty());
    match s.phase {
        Phase::Asking => match ev {
            InlineEventView::Prompted { at } => if s.cancelled {
                closed_with(
                    InlineView { last_activity: at, ..s },
                    Err(PolkitError::Cancelled),
                )
            } else {
                (InlineView { phase: Phase::Waiting, last_activity: at, ..s }, Seq::empty())
            },
            InlineEventView::UiGone => ended(s, Err(PolkitError::Failed)),
            InlineEventView::Cancelled => noted,
            _ => ignored,
        },
        Phase::Waiting => match ev {
            InlineEventView::Cancelled => closed_with(s, Err(PolkitError::Cancelled)),
            InlineEventView::Answer(PromptAnswerView::Submit(p)) => (
                InlineView { phase: Phase::Connecting, password: p, ..s },
                seq![InlineActionView::Connect { user: s.req.user, cookie: s.req.cookie }],
            ),
            InlineEventView::Answer(PromptAnswerView::Cancel) => closed_with(
                s,
                Err(PolkitError::Cancelled),
            ),
            InlineEventView::AnswerLost => ended(s, Err(PolkitError::Failed)),
            InlineEventView::Tick { now } => if expired(s.last_activity, now, s.timeout_secs) {
                closed_with(s, Err(PolkitError::Failed))
            } else {
                ignored
            },
            InlineEventView::Activity { at } => (
                InlineView { last_activity: at, ..s },
                Seq::empty(),
            ),
            _ => ignored,
        },
        Phase::Connecting => match ev {
            InlineEventView::Connect(ConnectOutcomeView::Connected) => reading(s),
            InlineEventView::Connect(ConnectOutcomeView::Failed(e)) => retried(s, TEXT_ERROR@ + e),
            InlineEventView::Connect(ConnectOutcomeView::TimedOut) => retried(s, TEXT_TIMEOUT@),
            InlineEventView::Cancelled => noted,
            _ => ignored,
        },
        Phase::Talking => match ev {
            InlineEventView::Received(ReceivedView::Message(m)) => on_message(s, m),
            InlineEventView::Received(ReceivedView::TimedOut) => retried(s, TEXT_TIMEOUT@),
            InlineEventView::Received(ReceivedView::Eof) => refused(s),
            InlineEventView::Received(ReceivedView::ReadFailed) => refused(s),
            InlineEventView::Cancelled => noted,
            _ => ignored,
        },
        Phase::SendingPassword => match ev {
            InlineEventView::Responded => reading(s),
            InlineEventView::RespondFailed(e) => retried(s, TEXT_ERROR@ + e),
            InlineEventView::Cancelled => noted,
            _ => ignored,
        },
        Phase::SendingNothing => match ev {
            InlineEventView::Responded => reading(s),
            InlineEventView::RespondFailed(_) => reading(s),
            InlineEventView::Cancelled => noted,
            _ => ignored,
        },
        Phase::Done => ignored,
    }
}

impl InlineAuth {
    /// Begins the authentication `req`; the first thing to do is to ask for a password.
    pub fn new(req: AuthRequest, timeout_secs: u64) -> (auth: InlineAuth)
        ensures
            auth@ == initial(req@, timeout_secs),
    {
        InlineAuth {
            req,
            status: String::new(),
            password: String::new(),
            timeout_secs,
            last_activity: 0,
            cancelled: false,
            phase: Phase::Asking,
        }
    }

    /// What this authentication waits for.
    pub fn phase(&self) -> (phase: Phase)
        ensures
            phase == self@.phase,
    {
        self.phase
    }

    /// The request that asks the dialog for a password; the answer goes to the channel `reply`.
    pub fn prompt_event(&self, reply: u64) -> (ev: UiEvent)
        ensures
            ev@ == (UiEventView::Prompt {
                cookie: self@.req.cookie,
                action_id: self@.req.action,
                message: self@.req.message,
                username: self@.req.user,
                status: self@.status,
                reply,
            }),
    {
        UiEvent::Prompt {
            cookie: self.req.cookie.clone(),
            action_id: self.req.action.clone(),
            message: self.req.message.clone(),
            username: self.req.user.clone(),
            status: self.status.clone(),
            reply,
        }
    }

    /// The event that shows `text` in the dialog of this authentication.
    pub fn status_event(&self, text: String) -> (ev: UiEvent)
        ensures
            ev@ == (UiEventView::Status { cookie: self@.req.cookie, text: text@ }),
    {
        UiEvent::Status { cookie: self.req.cookie.clone(), text }
    }

    /// The event that closes the dialog of this authentication.
    pub fn dismiss_event(&self) -> (ev: UiEvent)
        ensures
            ev@ == (UiEventView::Dismiss { cookie: self@.req.cookie }),
    {
        UiEvent::Dismiss { cookie: self.req.cookie.clone() }
    }

    /// How many nanoseconds after `now` the dialog has been idle for too long.
    pub fn idle_remaining(&self, now: u128) -> (nanos: u128)
        ensures
            nanos == if expired(self@.last_activity, now, self@.timeout_secs) {
                0
            } else {
                self@.timeout_secs * NANOS_PER_SEC - elapsed(self@.last_activity, now)
            },
    {
        remaining(self.last_activity, now, self.timeout_secs)
    }

    fn end(&mut self, result: Result<(), PolkitError>) -> (actions: Vec<InlineAction>)
        ensures
            (final(self)@, action_views(actions@)) == ended(old(self)@, result),
    {
        self.phase = Phase::Done;
        self.password = String::new();
        let actions = vec![InlineAction::Finish(result)];
        assert(action_views(actions@) =~= ended(old(self)@, result).1);
        actions
    }

    fn close(&mut self, result: Result<(), PolkitError>) -> (actions: Vec<InlineAction>)
        ensures
            (final(self)@, action_views(actions@)) == closed_with(old(self)@, result),
    {
        self.phase = Phase::Done;
        self.password = String::new();
        let actions = vec![InlineAction::Dismiss, InlineAction::Finish(result)];
        assert(action_views(actions@) =~= closed_with(old(self)@, result).1);
        actions
    }

    fn retry(&mut self, status: String) -> (actions: Vec<InlineAction>)
        ensures
            (final(self)@, action_views(actions@)) == retried(old(self)@, status@),
    {
        self.phase = Phase::Asking;
        self.password = String::new();
        self.status = status;
        let actions = vec![InlineAction::Prompt];
        assert(action_views(actions@) =~= retried(old(self)@, status@).1);
        actions
    }

    fn read(&mut self) -> (actions: Vec<InlineAction>)
        ensures
            (final(self)@, action_views(actions@)) == reading(old(self)@),
    {
        self.phase = Phase::Talking;
        let actions = vec![InlineAction::Read];
        assert(action_views(actions@) =~= reading(old(self)@).1);
        actions
    }

    fn refuse(&mut self) -> (actions: Vec<InlineAction>)
        ensures
            (final(self)@, action_views(actions@)) == refused(old(self)@),
    {
        let status = if self.status.as_str().is_empty() {
            TEXT_RETRY.to_owned()
        } else {
            self.status.clone()
        };
        self.retry(status)
    }

    fn hear(&mut self, m: PamMessage) -> (actions: Vec<InlineAction>)
        requires
            old(self)@.phase == Phase::Talking,
        ensures
            (final(self)@, action_views(actions@)) == on_message(old(self)@, m@),
    {
        let ghost before = self@;
        match m {
            PamMessage::PromptEchoOff(t) => {
                let mut actions: Vec<InlineAction> = Vec::new();
                self.phase = Phase::SendingPassword;
                if !t.as_str().is_empty() {
                    actions.push(InlineAction::Status(t));
                }
                actions.push(InlineAction::Respond(self.password.clone()));
                assert(action_views(actions@) =~= on_message(before, m@).1);
                actions
            },
            PamMessage::PromptEchoOn(t) => {
                self.phase = Phase::SendingNothing;
                let actions = vec![InlineAction::Status(t), InlineAction::Respond(String::new())];
                assert(action_views(actions@) =~= on_message(before, m@).1);
                actions
            },
            PamMessage::Error(t) => {
                self.status = t.clone();
                let actions = vec![InlineAction::Status(t), InlineAction::Read];
                assert(action_views(actions@) =~= on_message(before, m@).1);
                actions
            },
            PamMessage::Info(t) => {
                if self.status.as_str().is_empty() {
                    self.status = t.clone();
                }
                let actions = vec![InlineAction::Status(t), InlineAction::Read];
                assert(action_views(actions@) =~= on_message(before, m@).1);
                actions
            },
            PamMessage::Success => self.close(Ok(())),
            PamMessage::Failure => self.refuse(),
        }
    }

    /// Takes an event and says what to do.
    pub fn step(&mut self, ev: InlineEvent) -> (actions: Vec<InlineAction>)
        ensures
            (final(self)@, action_views(actions@)) == step(old(self)@, ev@),
    {
        let none: Vec<InlineAction> = Vec::new();
        assert(action_views(none@) =~= Seq::empty());
        match self.phase {
            Phase::Asking => match ev {
                InlineEvent::Prompted { at } => {
                    self.last_activity = at;
                    if self.cancelled {
                        self.close(Err(PolkitError::Cancelled))
                    } else {
                        self.phase = Phase::Waiting;
                        none
                    }
                },
                InlineEvent::UiGone => self.end(Err(PolkitError::Failed)),
                InlineEvent::Cancelled => {
                    self.cancelled = true;
                    none
                },
                _ => none,
            },
            Phase::Waiting => match ev {
                InlineEvent::Cancelled => self.close(Err(PolkitError::Cancelled)),
                InlineEvent::Answer(PromptAnswer::Submit(p)) => {
                    self.phase = Phase::Connecting;
                    self.password = p;
                    let (user, cookie) = (self.req.user.clone(), self.req.cookie.clone());
                    let actions = vec![InlineAction::Connect { user, cookie }];
                    assert(action_views(actions@) =~= step(old(self)@, ev@).1);
                    actions
                },
                InlineEvent::Answer(PromptAnswer::Cancel) => self.close(
                    Err(PolkitError::Cancelled),
                ),
                InlineEvent::AnswerLost => self.end(Err(PolkitError::Failed)),
                InlineEvent::Tick { now } => {
                    if is_expired(self.last_activity, now, self.timeout_secs) {
                        self.close(Err(PolkitError::Failed))
                    } else {
                        none
                    }
                },
                InlineEvent::Activity { at } => {
                    self.last_activity = at;
                    none
                },
                _ => none,
            },
            Phase::Connecting => match ev {
                InlineEvent::Connect(ConnectOutcome::Connected) => self.read(),
                InlineEvent::Connect(ConnectOutcome::Failed(e)) => self.retry(
                    join2(TEXT_ERROR, e.as_str()),
                ),
                InlineEvent::Connect(ConnectOutcome::TimedOut) => self.retry(
                    TEXT_TIMEOUT.to_owned(),
                ),
                InlineEvent::Cancelled => {
                    self.cancelled = true;
                    none
                },
                _ => none,
            },
            Phase::Talking => match ev {
                InlineEvent::Received(Received::Message(m)) => self.hear(m),
                InlineEvent::Received(Received::TimedOut) => self.retry(TEXT_TIMEOUT.to_owned()),
                InlineEvent::Received(Received::Eof) => self.refuse(),
                InlineEvent::Received(Received::ReadFailed) => self.refuse(),
                InlineEvent::Cancelled => {
                    self.cancelled = true;
                    none
                },
                _ => none,
            },
            Phase::SendingPassword => match ev {
                InlineEvent::Responded => self.read(),
                InlineEvent::RespondFailed(e) => self.retry(join2(TEXT_ERROR, e.as_str())),
                InlineEvent::Cancelled => {
                    self.cancelled = true;
                    none
                },
                _ => none,
            },
            Phase::SendingNothing => match ev {
                InlineEvent::Responded => self.read(),
                InlineEvent::RespondFailed(_) => self.read(),
                InlineEvent::Cancelled => {
                    self.cancelled = true;
                    none
                },
                _ => none,
            },
            Phase::Done => none,
        }
    }
}

/// The state with another password.
pub open spec fn with_password(s: InlineView, password: Seq<char>) -> InlineView {
    InlineView { password, ..s }
}

/// The action with the text of an answer to the helper left out.
pub open spec fn without_answer(a: InlineActionView) -> InlineActionView {
    match a {
        InlineActionView::Respond(_) => InlineActionView::Respond(Seq::empty()),
        _ => a,
    }
}

/// The actions with the texts of answers to the helper left out.
pub open spec fn without_answers(actions: Seq<InlineActionView>) -> Seq<InlineActionView> {
    Seq::new(actions.len(), |i: int| without_answer(actions[i]))
}

/// The password reaches the helper and nothing else: of two authentications that differ in the
/// password alone, every event makes the same of both, apart from the answers to the helper, and
/// they still differ in the password alone.
pub proof fn law_password_goes_to_the_helper_only(
    s: InlineView,
    p: Seq<char>,
    q: Seq<char>,
    ev: InlineEventView,
)
    ensures
        without_answers(step(with_password(s, p), ev).1) == without_answers(
            step(with_password(s, q), ev).1,
        ),
        with_password(step(with_password(s, p), ev).0, Seq::empty()) == with_password(
            step(with_password(s, q), ev).0,
            Seq::empty(),
        ),
{
    let (a, b) = (step(with_password(s, p), ev), step(with_password(s, q), ev));
    assert(without_answers(a.1) =~= without_answers(b.1));
}

/// Whatever password is submitted, the dialog and polkit see the same.
pub proof fn law_submitted_password_is_not_seen(s: InlineView, p: Seq<char>, q: Seq<char>)
    ensures
        step(s, InlineEventView::Answer(PromptAnswerView::Submit(p))).1 == step(
            s,
            InlineEventView::Answer(PromptAnswerView::Submit(q)),
        ).1,
        with_password(
            step(s, InlineEventView::Answer(PromptAnswerView::Submit(p))).0,
            Seq::empty(),
        ) == with_password(
            step(s, InlineEventView::Answer(PromptAnswerView::Submit(q))).0,
            Seq::empty(),
        ),
{
}

/// What the helper is answered is the password or nothing, and only while it is talked to.
pub proof fn law_answers_to_the_helper(s: InlineView, ev: InlineEventView, i: int)
    requires
        0 <= i < step(s, ev).1.len(),
        step(s, ev).1[i] is Respond,
    ensures
        s.phase == Phase::Talking,
        match ev {
            InlineEventView::Received(
                ReceivedView::Message(PamMessageView::PromptEchoOff(_)),
            ) => step(s, ev).1[i] == InlineActionView::Respond(s.password),
            _ => step(s, ev).1[i] == InlineActionView::Respond(Seq::empty()),
        },
{
}

/// The result that ends the authentication in a list of actions.
pub open spec fn finishes_with(actions: Seq<InlineActionView>, result: Result<(), PolkitError>) -> bool {
    actions.len() > 0 && actions.last() == InlineActionView::Finish(result)
}

/// An authentication succeeds when the helper says so, and then only.
pub proof fn law_success_comes_from_the_helper(s: InlineView, ev: InlineEventView)
    ensures
        finishes_with(step(s, ev).1, Ok(())) <==> s.phase == Phase::Talking && ev
            == InlineEventView::Received(ReceivedView::Message(PamMessageView::Success)),
{
}

/// An authentication is cancelled when polkit or the user gives it up while a password is
/// waited for, or when polkit gave it up before, and then only; the dialog is closed first.
pub proof fn law_cancellation(s: InlineView, ev: InlineEventView)
    ensures
        finishes_with(step(s, ev).1, Err(PolkitError::Cancelled)) <==> {
            ||| s.phase == Phase::Waiting && ev == InlineEventView::Cancelled
            ||| s.phase == Phase::Waiting && ev == InlineEventView::Answer(PromptAnswerView::Cancel)
            ||| s.phase == Phase::Asking && s.cancelled && ev is Prompted
        },
        finishes_with(step(s, ev).1, Err(PolkitError::Cancelled)) ==> step(s, ev).1 == seq![
            InlineActionView::Dismiss,
            InlineActionView::Finish(Err(PolkitError::Cancelled)),
        ],
{
}

/// A cancellation is never lost: it ends the authentication at once, or it is remembered until
/// the authentication ends or the dialog is asked again, and then ends it.
pub proof fn law_cancellation_is_not_lost(s: InlineView, ev: InlineEventView, at: u128)
    requires
        s.phase != Phase::Done,
    ensures
        ({
            let after = step(s, InlineEventView::Cancelled).0;
            after.phase == Phase::Done || after.cancelled
        }),
        s.cancelled ==> step(s, ev).0.cancelled,
        s.cancelled && s.phase == Phase::Asking ==> finishes_with(
            step(s, InlineEventView::Prompted { at }).1,
            Err(PolkitError::Cancelled),
        ),
{
}

/// An authentication fails when the dialog is gone, was closed, or was idle for too long, and
/// then only: a wrong password or a helper that is broken or silent never ends it.
pub proof fn law_failure(s: InlineView, ev: InlineEventView)
    ensures
        finishes_with(step(s, ev).1, Err(PolkitError::Failed)) <==> {
            ||| s.phase == Phase::Asking && ev == InlineEventView::UiGone
            ||| s.phase == Phase::Waiting && ev == InlineEventView::AnswerLost
            ||| s.phase == Phase::Waiting && (ev matches InlineEventView::Tick { now } && expired(
                s.last_activity,
                now,
                s.timeout_secs,
            ))
        },
{
}

/// Whether the phase is one of a round, in which the helper is asked about a password.
pub open spec fn in_round(phase: Phase) -> bool {
    phase == Phase::Connecting || phase == Phase::Talking || phase == Phase::SendingPassword
        || phase == Phase::SendingNothing
}

/// A round that ends without success leads to the next one, in which the dialog says why.
pub proof fn law_failed_rounds_are_retried(s: InlineView, ev: InlineEventView)
    requires
        in_round(s.phase),
        !in_round(step(s, ev).0.phase),
        !finishes_with(step(s, ev).1, Ok(())),
    ensures
        step(s, ev).0.phase == Phase::Asking,
        step(s, ev).1 == seq![InlineActionView::Prompt],
        step(s, ev).0.status.len() > 0,
        step(s, ev).0.password.len() == 0,
{
    reveal_strlit("认证失败，请重试");
    reveal_strlit("认证超时，请重试");
    reveal_strlit("认证失败：");
}

/// The first dialog says nothing about a failure.
pub proof fn law_first_prompt_has_no_status(req: AuthRequestView, timeout_secs: u64)
    ensures
        initial(req, timeout_secs).status.len() == 0,
        initial(req, timeout_secs).phase == Phase::Asking,
{
}

/// A key that is pressed, a new prompt, and nothing else restart the idle timeout.
pub proof fn law_activity(s: InlineView, ev: InlineEventView)
    ensures
        step(s, ev).0.last_activity == (match ev {
            InlineEventView::Prompted { at } if s.phase == Phase::Asking => at,
            InlineEventView::Activity { at } if s.phase == Phase::Waiting => at,
            _ => s.last_activity,
        }),
{
}

/// The state and all the actions after some events.
pub open spec fn run(s: InlineView, events: Seq<InlineEventView>) -> (
    InlineView,
    Seq<InlineActionView>,
)
    decreases events.len(),
{
    if events.len() == 0 {
        (s, Seq::empty())
    } else {
        let (before, actions) = run(s, events.drop_last());
        let (after, more) = step(before, events.last());
        (after, actions + more)
    }
}

/// Whatever happens, polkit is given one result at most: it is there exactly when the
/// authentication is over, and it is the last thing that is done.
pub proof fn law_one_result(req: AuthRequestView, timeout_secs: u64, events: Seq<InlineEventView>)
    ensures
        ({
            let (s, actions) = run(initial(req, timeout_secs), events);
            &&& forall|i: int| 0 <= i < actions.len() - 1 ==> !((#[trigger] actions[i]) is Finish)
            &&& s.phase == Phase::Done <==> actions.len() > 0 && actions.last() is Finish
        }),
    decreases events.len(),
{
    if events.len() > 0 {
        law_one_result(req, timeout_secs, events.drop_last());
        let (before, actions) = run(initial(req, timeout_secs), events.drop_last());
        let (after, more) = step(before, events.last());
        assert(before.phase == Phase::Done ==> more.len() == 0);
        assert(forall|i: int| 0 <= i < more.len() - 1 ==> !((#[trigger] more[i]) is Finish));
        if more.len() == 0 {
            assert(actions + more =~= actions);
        } else {
            assert((actions + more).last() == more.last());
        }
    }
}

/// A round, from the submission of a password until the dialog is asked again or the authentication
/// is over.
pub open spec fn round_lasts(phase: Phase) -> bool {
    phase != Phase::Asking && phase != Phase::Waiting && phase != Phase::Done
}

/// The password that was submitted, whole and as it is, is what the helper gets, however often it
/// asks and whatever it says and whatever else happens in between: for as long as the round lasts
/// it is kept, and each request for a password is answered with it.
pub proof fn law_submitted_password_is_the_answer(
    s: InlineView,
    password: Seq<char>,
    events: Seq<InlineEventView>,
    question: Seq<char>,
)
    requires
        s.phase == Phase::Waiting,
        events.len() > 0,
        events[0] == InlineEventView::Answer(PromptAnswerView::Submit(password)),
        forall|k: int|
            1 <= k <= events.len() ==> round_lasts(run(s, #[trigger] events.take(k)).0.phase),
    ensures
        ({
            let t = run(s, events).0;
            let asked = step(
                t,
                InlineEventView::Received(
                    ReceivedView::Message(PamMessageView::PromptEchoOff(question)),
                ),
            ).1;
            &&& t.password == password
            &&& t.phase == Phase::Talking ==> asked.len() > 0 && asked.last()
                == InlineActionView::Respond(password)
        }),
    decreases events.len(),
{
    assert(events.take(events.len() as int) =~= events);
    let before = events.drop_last();
    if events.len() == 1 {
        assert(before.len() == 0);
        assert(run(s, before).0 == s);
        assert(events.last() == events[0]);
    } else {
        assert forall|k: int| 1 <= k <= before.len() implies round_lasts(
            run(s, #[trigger] before.take(k)).0.phase,
        ) by {
            assert(before.take(k) =~= events.take(k));
        }
        law_submitted_password_is_the_answer(s, password, before, question);
        assert(before =~= events.take(events.len() - 1));
        assert(round_lasts(run(s, before).0.phase));
    }
}

/// A password that is submitted leads to a connection for the user and the cookie of the request,
/// and nothing else leads to one.
pub proof fn law_connecting(s: InlineView, ev: InlineEventView, i: int)
    ensures
        s.phase == Phase::Waiting && (ev matches InlineEventView::Answer(
            PromptAnswerView::Submit(_),
        )) ==> step(s, ev).0 == (InlineView {
            phase: Phase::Connecting,
            password: ev->Answer_0->Submit_0,
            ..s
        }) && step(s, ev).1 == seq![
            InlineActionView::Connect { user: s.req.user, cookie: s.req.cookie },
        ],
        0 <= i < step(s, ev).1.len() && step(s, ev).1[i] is Connect ==> s.phase == Phase::Waiting && (
        ev matches InlineEventView::Answer(PromptAnswerView::Submit(_))),
{
}

/// The conversation goes on after the connection was made and after each answer; it does so as well
/// where an answer that says nothing could not be written.
pub proof fn law_the_conversation_goes_on(s: InlineView, e: Seq<char>)
    ensures
        s.phase == Phase::Connecting ==> step(
            s,
            InlineEventView::Connect(ConnectOutcomeView::Connected),
        ) == (InlineView { phase: Phase::Talking, ..s }, seq![InlineActionView::Read]),
        s.phase == Phase::SendingPassword || s.phase == Phase::SendingNothing ==> step(
            s,
            InlineEventView::Responded,
        ) == (InlineView { phase: Phase::Talking, ..s }, seq![InlineActionView::Read]),
        s.phase == Phase::SendingNothing ==> step(s, InlineEventView::RespondFailed(e)) == (
            InlineView { phase: Phase::Talking, ..s },
            seq![InlineActionView::Read],
        ),
{
}

/// What the helper says is shown, questions are answered, and only an error, or information where
/// nothing was said yet, is kept for the next round.
pub proof fn law_what_the_helper_says(s: InlineView, text: Seq<char>)
    requires
        s.phase == Phase::Talking,
    ensures
        ({
            let heard = |m: PamMessageView|
                step(s, InlineEventView::Received(ReceivedView::Message(m)));
            let off = heard(PamMessageView::PromptEchoOff(text));
            let on = heard(PamMessageView::PromptEchoOn(text));
            let error = heard(PamMessageView::Error(text));
            let info = heard(PamMessageView::Info(text));
            &&& off.0 == (InlineView { phase: Phase::SendingPassword, ..s })
            &&& text.len() > 0 ==> off.1 == seq![
                InlineActionView::Status(text),
                InlineActionView::Respond(s.password),
            ]
            &&& text.len() == 0 ==> off.1 == seq![InlineActionView::Respond(s.password)]
            &&& on.0 == (InlineView { phase: Phase::SendingNothing, ..s })
            &&& on.1 == seq![
                InlineActionView::Status(text),
                InlineActionView::Respond(Seq::<char>::empty()),
            ]
            &&& error.0 == (InlineView { status: text, ..s })
            &&& error.1 == seq![InlineActionView::Status(text), InlineActionView::Read]
            &&& s.status.len() == 0 ==> info.0 == (InlineView { status: text, ..s })
            &&& s.status.len() > 0 ==> info.0 == s
            &&& info.1 == seq![InlineActionView::Status(text), InlineActionView::Read]
        }),
{
    let off = step(
        s,
        InlineEventView::Received(ReceivedView::Message(PamMessageView::PromptEchoOff(text))),
    ).1;
    if text.len() > 0 {
        assert(off =~= seq![InlineActionView::Status(text), InlineActionView::Respond(s.password)]);
    } else {
        assert(off =~= seq![InlineActionView::Respond(s.password)]);
    }
}

/// What the next dialog says after a round that failed: what went wrong where the helper could not
/// be asked, what the helper said where it refused, and else that the password was refused.
pub proof fn law_what_a_failed_round_says(s: InlineView, e: Seq<char>, received: ReceivedView)
    requires
        received == ReceivedView::Eof || received == ReceivedView::ReadFailed || received
            == ReceivedView::Message(PamMessageView::Failure),
    ensures
        ({
            let failed = step(s, InlineEventView::Connect(ConnectOutcomeView::Failed(e))).0;
            let late = step(s, InlineEventView::Connect(ConnectOutcomeView::TimedOut)).0;
            s.phase == Phase::Connecting ==> failed.phase == Phase::Asking && failed.status
                == "认证失败："@ + e && late.phase == Phase::Asking && late.status
                == "认证超时，请重试"@
        }),
        ({
            let unwritten = step(s, InlineEventView::RespondFailed(e)).0;
            s.phase == Phase::SendingPassword ==> unwritten.phase == Phase::Asking && unwritten.status
                == "认证失败："@ + e
        }),
        ({
            let silent = step(s, InlineEventView::Received(ReceivedView::TimedOut)).0;
            let refused = step(s, InlineEventView::Received(received)).0;
            s.phase == Phase::Talking ==> {
                &&& silent.phase == Phase::Asking && silent.status == "认证超时，请重试"@
                &&& refused.phase == Phase::Asking
                &&& s.status.len() == 0 ==> refused.status == "认证失败，请重试"@
                &&& s.status.len() > 0 ==> refused.status == s.status
            }
        }),
{
}

/// How an authentication ends: the dialog is closed, unless it is gone or closed already, and polkit
/// is told.
pub proof fn law_how_it_ends(s: InlineView, now: u128)
    ensures
        s.phase == Phase::Talking ==> step(
            s,
            InlineEventView::Received(ReceivedView::Message(PamMessageView::Success)),
        ).1 == seq![InlineActionView::Dismiss, InlineActionView::Finish(Ok(()))],
        s.phase == Phase::Asking ==> step(s, InlineEventView::UiGone).1 == seq![
            InlineActionView::Finish(Err(PolkitError::Failed)),
        ],
        s.phase == Phase::Waiting ==> step(s, InlineEventView::AnswerLost).1 == seq![
            InlineActionView::Finish(Err(PolkitError::Failed)),
        ],
        s.phase == Phase::Waiting && expired(s.last_activity, now, s.timeout_secs) ==> step(
            s,
            InlineEventView::Tick { now },
        ).1 == seq![InlineActionView::Dismiss, InlineActionView::Finish(Err(PolkitError::Failed))],
        s.phase == Phase::Waiting && !expired(s.last_activity, now, s.timeout_secs) ==> step(
            s,
            InlineEventView::Tick { now },
        ) == (s, Seq::<InlineActionView>::empty()),
{
}

/// The dialog waits for an answer from the moment that it was asked, and a key starts its time
/// anew, so that only a dialog that nobody touches times out.
pub proof fn law_waiting_for_an_answer(s: InlineView, at: u128, now: u128)
    ensures
        s.phase == Phase::Asking && !s.cancelled ==> step(s, InlineEventView::Prompted { at }) == (
            InlineView { phase: Phase::Waiting, last_activity: at, ..s },
            Seq::<InlineActionView>::empty(),
        ),
        s.phase == Phase::Waiting ==> step(s, InlineEventView::Activity { at }) == (
            InlineView { last_activity: at, ..s },
            Seq::<InlineActionView>::empty(),
        ),
        s.phase == Phase::Waiting && !expired(at, now, s.timeout_secs) ==> step(
            step(s, InlineEventView::Activity { at }).0,
            InlineEventView::Tick { now },
        ).1.len() == 0,
{
}

/// An authentication keeps to its request and its timeout, and polkit's cancellation, once noted,
/// is never taken back. What nobody waits for changes nothing.
pub proof fn law_what_never_changes(s: InlineView, ev: InlineEventView)
    ensures
        step(s, ev).0.req == s.req,
        step(s, ev).0.timeout_secs == s.timeout_secs,
        s.cancelled ==> step(s, ev).0.cancelled,
        step(s, ev).0.cancelled && !s.cancelled ==> ev == InlineEventView::Cancelled,
        s.phase == Phase::Done ==> step(s, ev) == (s, Seq::<InlineActionView>::empty()),
        s.phase == Phase::Asking && !(ev is Prompted || ev is UiGone || ev is Cancelled) ==> step(s, ev)
            == (s, Seq::<InlineActionView>::empty()),
        s.phase == Phase::Waiting && !(ev is Cancelled || ev is Answer || ev is AnswerLost || ev is Tick
            || ev is Activity) ==> step(s, ev) == (s, Seq::<InlineActionView>::empty()),
        s.phase == Phase::Connecting && !(ev is Connect || ev is Cancelled) ==> step(s, ev) == (
            s,
            Seq::<InlineActionView>::empty(),
        ),
        s.phase == Phase::Talking && !(ev is Received || ev is Cancelled) ==> step(s, ev) == (
            s,
            Seq::<InlineActionView>::empty(),
        ),
        (s.phase == Phase::SendingPassword || s.phase == Phase::SendingNothing) && !(ev is Responded
            || ev is RespondFailed || ev is Cancelled) ==> step(s, ev) == (
            s,
            Seq::<InlineActionView>::empty(),
        ),
        s.phase != Phase::Waiting && s.phase != Phase::Done && ev is Cancelled ==> step(s, ev) == (
            InlineView { cancelled: true, ..s },
            Seq::<InlineActionView>::empty(),
        ),
{
}

/// An authentication begins by asking, for its request, with nothing kept.
pub proof fn law_beginning(req: AuthRequestView, timeout_secs: u64)
    ensures
        initial(req, timeout_secs).req == req,
        initial(req, timeout_secs).timeout_secs == timeout_secs,
        initial(req, timeout_secs).phase == Phase::Asking,
        initial(req, timeout_secs).password.len() == 0,
        initial(req, timeout_secs).status.len() == 0,
        !initial(req, timeout_secs).cancelled,
        CONNECT_TIMEOUT_SECS == 10,
        MESSAGE_TIMEOUT_SECS == 30,
{
}

/// Nothing of an event or an action is lost in its view.
pub proof fn law_views_hold_everything(
    t: String,
    u: String,
    m: PamMessage,
    a: PromptAnswer,
    at: u128,
    r: Result<(), PolkitError>,
    c: ConnectOutcome,
    received: Received,
)
    ensures
        InlineAction::Prompt@ == InlineActionView::Prompt,
        InlineAction::Status(t)@ == InlineActionView::Status(t@),
        InlineAction::Dismiss@ == InlineActionView::Dismiss,
        (InlineAction::Connect { user: t, cookie: u })@ == (InlineActionView::Connect {
            user: t@,
            cookie: u@,
        }),
        InlineAction::Respond(t)@ == InlineActionView::Respond(t@),
        InlineAction::Read@ == InlineActionView::Read,
        InlineAction::Finish(r)@ == InlineActionView::Finish(r),
        (InlineEvent::Prompted { at })@ == (InlineEventView::Prompted { at }),
        InlineEvent::UiGone@ == InlineEventView::UiGone,
        InlineEvent::Cancelled@ == InlineEventView::Cancelled,
        InlineEvent::Answer(a)@ == InlineEventView::Answer(a@),
        InlineEvent::AnswerLost@ == InlineEventView::AnswerLost,
        (InlineEvent::Activity { at })@ == (InlineEventView::Activity { at }),
        (InlineEvent::Tick { now: at })@ == (InlineEventView::Tick { now: at }),
        InlineEvent::Connect(c)@ == InlineEventView::Connect(c@),
        InlineEvent::Received(received)@ == InlineEventView::Received(received@),
        InlineEvent::Responded@ == InlineEventView::Responded,
        InlineEvent::RespondFailed(t)@ == InlineEventView::RespondFailed(t@),
        Received::Message(m)@ == ReceivedView::Message(m@),
        Received::Eof@ == ReceivedView::Eof,
        Received::ReadFailed@ == ReceivedView::ReadFailed,
        Received::TimedOut@ == ReceivedView::TimedOut,
        ConnectOutcome::Connected@ == ConnectOutcomeView::Connected,
        ConnectOutcome::Failed(t)@ == ConnectOutcomeView::Failed(t@),
        ConnectOutcome::TimedOut@ == ConnectOutcomeView::TimedOut,
{
}

/// A list of actions has the actions, in order, in its view.
pub proof fn law_lists_hold_every_action(actions: Seq<InlineAction>, i: int)
    ensures
        action_views(actions).len() == actions.len(),
        0 <= i < actions.len() ==> action_views(actions)[i] == actions[i]@,
{
}

/// What the calls of an authentication give and change.
pub proof fn law_calls_of_an_authentication()
    ensures
        forall|req: AuthRequest, secs: u64, auth: InlineAuth| #[trigger]
            call_ensures(InlineAuth::new, (req, secs), auth) ==> auth@ == initial(req@, secs),
        forall|m: &mut InlineAuth, ev: InlineEvent, actions: Vec<InlineAction>| #[trigger]
            call_ensures(InlineAuth::step, (m, ev), actions) ==> (final(m)@, action_views(actions@))
                == step((*m)@, ev@),
        forall|auth: &InlineAuth, reply: u64, ev: UiEvent| #[trigger]
            call_ensures(InlineAuth::prompt_event, (auth, reply), ev) ==> ev@ == (UiEventView::Prompt {
                cookie: auth@.req.cookie,
                action_id: auth@.req.action,
                message: auth@.req.message,
                username: auth@.req.user,
                status: auth@.status,
                reply,
            }),
        forall|auth: &InlineAuth, text: String, ev: UiEvent| #[trigger]
            call_ensures(InlineAuth::status_event, (auth, text), ev) ==> ev@ == (UiEventView::Status {
                cookie: auth@.req.cookie,
                text: text@,
            }),
        forall|auth: &InlineAuth, ev: UiEvent| #[trigger]
            call_ensures(InlineAuth::dismiss_event, (auth,), ev) ==> ev@ == (UiEventView::Dismiss {
                cookie: auth@.req.cookie,
            }),
        forall|auth: &InlineAuth, phase: Phase| #[trigger]
            call_ensures(InlineAuth::phase, (auth,), phase) ==> phase == auth@.phase,
        forall|auth: &InlineAuth, now: u128, nanos: u128| #[trigger]
            call_ensures(InlineAuth::idle_remaining, (auth, now), nanos) ==> {
                &&& expired(auth@.last_activity, now, auth@.timeout_secs) ==> nanos == 0
                &&& !expired(auth@.last_activity, now, auth@.timeout_secs) ==> nanos + elapsed(
                    auth@.last_activity,
                    now,
                ) == auth@.timeout_secs * 1_000_000_000
            },
{
}

/// What the next dialog is to say is changed by what the helper says and by a round that fails, and
/// by nothing else; and a password is forgotten with its round.
pub proof fn law_what_is_kept_and_forgotten(s: InlineView, ev: InlineEventView)
    ensures
        step(s, ev).0.status != s.status ==> round_lasts(s.phase) && (step(s, ev).0.phase
            == Phase::Asking || (ev matches InlineEventView::Received(
            ReceivedView::Message(PamMessageView::Error(_)),
        )) || (ev matches InlineEventView::Received(
            ReceivedView::Message(PamMessageView::Info(_)),
        ))),
        step(s, ev).0.phase != s.phase && !round_lasts(step(s, ev).0.phase) && step(s, ev).0.phase
            != Phase::Waiting ==> step(s, ev).0.password.len() == 0,
        step(s, ev).0.phase == Phase::Done && s.phase != Phase::Done <==> step(s, ev).1.len() > 0
            && step(s, ev).1.last() is Finish,
        step(s, ev).0.phase == Phase::Asking && s.phase != Phase::Asking ==> step(s, ev).1 == seq![
            InlineActionView::Prompt,
        ],
{
}

} // verus!
