//! Running one popup: a socket, a `tmux display-popup` with the prompt in it, and its exit code.
//!
//! The request goes over the socket to the process in the popup, after it was made sure that the
//! process belongs to the same user. Whatever goes wrong, the process is stopped and the socket
//! is removed.
use crate::cookie::fnv1a_hex;
use crate::protocol::{AuthRequest, AuthRequestView, AuthResult};
use crate::text::{join2, join3};
use crate::user::{current_user, runs_this_process, same_user};
use vstd::prelude::*;

verus! {

/// How many seconds the popup has to connect.
pub const POPUP_CONNECT_SECS: u64 = 10;

/// The program to run where the path of this one is not known.
pub const DEFAULT_EXE: &'static str = "polkit-tui-agent";

/// Where the socket of the popup for `cookie` stands in the directory `dir`.
pub open spec fn socket_path_of(dir: Seq<char>, cookie: Seq<char>) -> Seq<char> {
    dir + "/polkit-tui-popup-"@ + crate::cookie::hash_text(cookie)
}

/// Where the socket of the popup for `cookie` stands in the directory `dir`. A cookie may hold
/// any character, so its hash is taken.
pub fn popup_socket_path(dir: &str, cookie: &str) -> (path: String)
    ensures
        path@ == socket_path_of(dir@, cookie@),
{
    let hash = fnv1a_hex(cookie);
    join3(dir, "/polkit-tui-popup-", hash.as_str())
}

/// The arguments of tmux that open a popup with the prompt of the program `exe` in it.
pub open spec fn tmux_args(sock_path: Seq<char>, exe: Seq<char>) -> Seq<Seq<char>> {
    seq![
        "display-popup"@,
        "-E"@,
        "-T"@,
        "polkit 认证"@,
        "-w"@,
        "70%"@,
        "-h"@,
        "50%"@,
        "-e"@,
        "POLKIT_SOCK="@ + sock_path,
        "\""@ + exe + "\" --prompt"@,
    ]
}

/// The texts of a list.
pub open spec fn texts(list: Seq<String>) -> Seq<Seq<char>> {
    Seq::new(list.len(), |i: int| list[i]@)
}

/// The arguments of tmux that open a popup with the prompt of the program `exe` in it.
pub fn popup_args(sock_path: &str, exe: &str) -> (args: Vec<String>)
    ensures
        texts(args@) == tmux_args(sock_path@, exe@),
{
    let args = vec![
        "display-popup".to_owned(),
        "-E".to_owned(),
        "-T".to_owned(),
        "polkit 认证".to_owned(),
        "-w".to_owned(),
        "70%".to_owned(),
        "-h".to_owned(),
        "50%".to_owned(),
        "-e".to_owned(),
        join2("POLKIT_SOCK=", sock_path),
        join3("\"", exe, "\" --prompt"),
    ];
    assert(texts(args@) =~= tmux_args(sock_path@, exe@));
    args
}

/// What happened to a popup.
#[derive(Debug)]
pub enum PopupEvent {
    /// What was to be done is done.
    Done,
    /// It failed, with this description.
    Failed(String),
    /// It took longer than `POPUP_CONNECT_SECS`.
    TimedOut,
    /// The process that connected belongs to the user `uid`, where that is known, and this one to
    /// the user `current`.
    Peer { uid: Option<u32>, current: u32 },
    /// The request could not be written.
    WriteFailed,
    /// The process is over, with this exit code.
    Exited(Option<i32>),
}

/// The kind and the contents of a `PopupEvent`.
#[verifier::ext_equal]
pub enum PopupEventView {
    Done,
    Failed(Seq<char>),
    TimedOut,
    Peer { uid: Option<u32>, current: u32 },
    WriteFailed,
    Exited(Option<i32>),
}

impl View for PopupEvent {
    type V = PopupEventView;

    open spec fn view(&self) -> PopupEventView {
        match self {
            PopupEvent::Done => PopupEventView::Done,
            PopupEvent::Failed(e) => PopupEventView::Failed(e@),
            PopupEvent::TimedOut => PopupEventView::TimedOut,
            PopupEvent::Peer { uid, current } => PopupEventView::Peer {
                uid: *uid,
                current: *current,
            },
            PopupEvent::WriteFailed => PopupEventView::WriteFailed,
            PopupEvent::Exited(code) => PopupEventView::Exited(*code),
        }
    }
}

/// What to do about a popup, in the order given.
#[derive(Debug)]
pub enum PopupAction {
    /// Listen on the socket at this path.
    Bind(String),
    /// Run tmux with these arguments.
    Spawn(Vec<String>),
    /// Wait for the popup to connect.
    Accept,
    /// Find out who connected.
    CheckPeer,
    /// Write this request to the popup.
    SendRequest(AuthRequest),
    /// From now on the popup for this cookie can be told about a cancellation.
    Attach(String),
    /// Wait for the process to end.
    Wait,
    /// The popup cannot be told about a cancellation any more.
    Detach,
    /// Stop the process.
    Kill,
    /// Remove the socket at this path.
    RemoveSocket(String),
    /// Report this error.
    LogError(String),
    /// The popup is over, with this result.
    Finish(AuthResult),
}

/// The kind and the contents of a `PopupAction`.
#[verifier::ext_equal]
pub enum PopupActionView {
    Bind(Seq<char>),
    Spawn(Seq<Seq<char>>),
    Accept,
    CheckPeer,
    SendRequest(AuthRequestView),
    Attach(Seq<char>),
    Wait,
    Detach,
    Kill,
    RemoveSocket(Seq<char>),
    LogError(Seq<char>),
    Finish(AuthResult),
}

impl View for PopupAction {
    type V = PopupActionView;

    open spec fn view(&self) -> PopupActionView {
        match self {
            PopupAction::Bind(p) => PopupActionView::Bind(p@),
            PopupAction::Spawn(args) => PopupActionView::Spawn(texts(args@)),
            PopupAction::Accept => PopupActionView::Accept,
            PopupAction::CheckPeer => PopupActionView::CheckPeer,
            PopupAction::SendRequest(req) => PopupActionView::SendRequest(req@),
            PopupAction::Attach(cookie) => PopupActionView::Attach(cookie@),
            PopupAction::Wait => PopupActionView::Wait,
            PopupAction::Detach => PopupActionView::Detach,
            PopupAction::Kill => PopupActionView::Kill,
            PopupAction::RemoveSocket(p) => PopupActionView::RemoveSocket(p@),
            PopupAction::LogError(t) => PopupActionView::LogError(t@),
            PopupAction::Finish(r) => PopupActionView::Finish(*r),
        }
    }
}

/// The views of a list of actions.
pub open spec fn action_views(actions: Seq<PopupAction>) -> Seq<PopupActionView> {
    Seq::new(actions.len(), |i: int| actions[i]@)
}

/// What a popup waits for.
#[derive(Debug, Clone, Copy, PartialEq, Eq, Structural)]
pub enum PopupStage {
    /// For the socket.
    Binding,
    /// For tmux to be started.
    Spawning,
    /// For the popup to connect.
    Accepting,
    /// To know who connected.
    Checking,
    /// For the request to be written.
    Sending,
    /// For the process to end.
    Waiting,
    /// For nothing: it is over.
    Over,
}

/// One popup.
#[derive(Debug)]
pub struct PopupRun {
    req: AuthRequest,
    sock_path: String,
    exe: String,
    stage: PopupStage,
}

/// What a `PopupRun` knows.
#[verifier::ext_equal]
pub struct PopupView {
    pub req: AuthRequestView,
    pub sock_path: Seq<char>,
    pub exe: Seq<char>,
    pub stage: PopupStage,
}

impl View for PopupRun {
    type V = PopupView;

    closed spec fn view(&self) -> PopupView {
        PopupView {
            req: self.req@,
            sock_path: self.sock_path@,
            exe: self.exe@,
            stage: self.stage,
        }
    }
}

/// What has to be undone when a popup fails at this stage: from the moment that tmux was to be
/// started the socket is removed, and from the moment that it was started it is stopped first.
pub open spec fn undo(s: PopupView) -> Seq<PopupActionView> {
    match s.stage {
        PopupStage::Binding => Seq::empty(),
        PopupStage::Spawning => seq![PopupActionView::RemoveSocket(s.sock_path)],
        _ => seq![PopupActionView::Kill, PopupActionView::RemoveSocket(s.sock_path)],
    }
}

/// The error to report when something failed at this stage with the description `error`.
pub open spec fn failure_text(s: PopupView, error: Seq<char>) -> Seq<char> {
    match s.stage {
        PopupStage::Binding => "polkit-tui-agent: bind popup socket "@ + s.sock_path + ": "@ + error,
        PopupStage::Spawning => "polkit-tui-agent: spawn tmux display-popup: "@ + error,
        PopupStage::Accepting => "polkit-tui-agent: accept popup socket: "@ + error,
        _ => "polkit-tui-agent: serialize popup request: "@ + error,
    }
}

/// The end of a popup that failed: what was begun is undone.
pub open spec fn failed(s: PopupView, report: Seq<PopupActionView>) -> (
    PopupView,
    Seq<PopupActionView>,
) {
    (
        PopupView { stage: PopupStage::Over, ..s },
        report + undo(s) + seq![PopupActionView::Finish(AuthResult::Failed)],
    )
}

/// One step of a popup. An event that the stage does not wait for changes nothing.
pub open spec fn step(s: PopupView, ev: PopupEventView) -> (PopupView, Seq<PopupActionView>) {
    let ignored = (s, Seq::<PopupActionView>::empty());
    match s.stage {
        PopupStage::Binding => match ev {
            PopupEventView::Done => (
                PopupView { stage: PopupStage::Spawning, ..s },
                seq![PopupActionView::Spawn(tmux_args(s.sock_path, s.exe))],
            ),
            PopupEventView::Failed(e) => failed(
                s,
                seq![PopupActionView::LogError(failure_text(s, e))],
            ),
            _ => ignored,
        },
        PopupStage::Spawning => match ev {
            PopupEventView::Done => (
                PopupView { stage: PopupStage::Accepting, ..s },
                seq![PopupActionView::Accept],
            ),
            PopupEventView::Failed(e) => failed(
                s,
                seq![PopupActionView::LogError(failure_text(s, e))],
            ),
            _ => ignored,
        },
        PopupStage::Accepting => match ev {
            PopupEventView::Done => (
                PopupView { stage: PopupStage::Checking, ..s },
                seq![PopupActionView::CheckPeer],
            ),
            PopupEventView::Failed(e) => failed(
                s,
                seq![PopupActionView::LogError(failure_text(s, e))],
            ),
            PopupEventView::TimedOut => failed(
                s,
                seq![
                    PopupActionView::LogError(
                        "polkit-tui-agent: popup did not connect within 10s"@,
                    ),
                ],
            ),
            _ => ignored,
        },
        PopupStage::Checking => match ev {
            PopupEventView::Peer { uid, current } => if uid == Some(current) {
                (
                    PopupView { stage: PopupStage::Sending, ..s },
                    seq![PopupActionView::SendRequest(s.req)],
                )
            } else {
                failed(
                    s,
                    seq![
                        PopupActionView::LogError(
                            "polkit-tui-agent: popup connection rejected: uid mismatch"@,
                        ),
                    ],
                )
            },
            _ => ignored,
        },
        PopupStage::Sending => match ev {
            PopupEventView::Done => (
                PopupView { stage: PopupStage::Waiting, ..s },
                seq![PopupActionView::Attach(s.req.cookie), PopupActionView::Wait],
            ),
            PopupEventView::Failed(e) => failed(
                s,
                seq![PopupActionView::LogError(failure_text(s, e))],
            ),
            PopupEventView::WriteFailed => failed(s, Seq::empty()),
            _ => ignored,
        },
        PopupStage::Waiting => match ev {
            PopupEventView::Exited(code) => (
                PopupView { stage: PopupStage::Over, ..s },
                seq![
                    PopupActionView::Detach,
                    PopupActionView::RemoveSocket(s.sock_path),
                    PopupActionView::Finish(AuthResult::spec_from_exit_code(code)),
                ],
            ),
            _ => ignored,
        },
        PopupStage::Over => ignored,
    }
}

impl PopupRun {
    /// Begins a popup for the request `req` with its socket in `dir`, running `exe`; the first
    /// thing to do is to listen on the socket.
    pub fn new(dir: &str, req: AuthRequest, exe: Option<&str>) -> (r: (PopupRun, PopupAction))
        ensures
            r.0@ == (PopupView {
                req: req@,
                sock_path: socket_path_of(dir@, req@.cookie),
                exe: match exe {
                    Some(e) => e@,
                    None => DEFAULT_EXE@,
                },
                stage: PopupStage::Binding,
            }),
            r.1@ == PopupActionView::Bind(r.0@.sock_path),
    {
        let sock_path = popup_socket_path(dir, req.cookie.as_str());
        let bind = PopupAction::Bind(sock_path.clone());
        let exe = match exe {
            Some(e) => e.to_owned(),
            None => DEFAULT_EXE.to_owned(),
        };
        (PopupRun { req, sock_path, exe, stage: PopupStage::Binding }, bind)
    }

    /// What this popup waits for.
    pub fn stage(&self) -> (stage: PopupStage)
        ensures
            stage == self@.stage,
    {
        self.stage
    }

    /// Goes on to `stage`.
    fn proceed(&mut self, stage: PopupStage, action: PopupAction) -> (actions: Vec<PopupAction>)
        ensures
            final(self)@ == (PopupView { stage, ..old(self)@ }),
            action_views(actions@) == seq![action@],
    {
        self.stage = stage;
        let actions = vec![action];
        assert(action_views(actions@) =~= seq![action@]);
        actions
    }

    /// Ends the popup after a failure, which is reported where there is a text for it.
    fn fail(&mut self, report: Option<String>) -> (actions: Vec<PopupAction>)
        ensures
            (final(self)@, action_views(actions@)) == failed(
                old(self)@,
                match report {
                    Some(t) => seq![PopupActionView::LogError(t@)],
                    None => Seq::empty(),
                },
            ),
    {
        let ghost before = self@;
        let mut actions: Vec<PopupAction> = Vec::new();
        let ghost reported = match &report {
            Some(t) => seq![PopupActionView::LogError(t@)],
            None => Seq::<PopupActionView>::empty(),
        };
        match report {
            Some(t) => {
                actions.push(PopupAction::LogError(t));
            },
            None => {},
        }
        match self.stage {
            PopupStage::Binding => {},
            PopupStage::Spawning => {
                actions.push(PopupAction::RemoveSocket(self.sock_path.clone()));
            },
            _ => {
                actions.push(PopupAction::Kill);
                actions.push(PopupAction::RemoveSocket(self.sock_path.clone()));
            },
        }
        actions.push(PopupAction::Finish(AuthResult::Failed));
        self.stage = PopupStage::Over;
        assert(action_views(actions@) =~= failed(before, reported).1);
        actions
    }

    /// The error to report when something failed at this stage.
    fn failure(&self, error: &String) -> (text: String)
        ensures
            text@ == failure_text(self@, error@),
    {
        match self.stage {
            PopupStage::Binding => join3(
                "polkit-tui-agent: bind popup socket ",
                self.sock_path.as_str(),
                ": ",
            ).concat(error.as_str()),
            PopupStage::Spawning => join2(
                "polkit-tui-agent: spawn tmux display-popup: ",
                error.as_str(),
            ),
            PopupStage::Accepting => join2(
                "polkit-tui-agent: accept popup socket: ",
                error.as_str(),
            ),
            _ => join2("polkit-tui-agent: serialize popup request: ", error.as_str()),
        }
    }

    /// Takes an event and says what to do.
    pub fn step(&mut self, ev: PopupEvent) -> (actions: Vec<PopupAction>)
        ensures
            (final(self)@, action_views(actions@)) == step(old(self)@, ev@),
    {
        let ghost before = self@;
        let none: Vec<PopupAction> = Vec::new();
        assert(action_views(none@) =~= Seq::empty());
        match self.stage {
            PopupStage::Binding => match ev {
                PopupEvent::Done => {
                    let args = popup_args(self.sock_path.as_str(), self.exe.as_str());
                    self.proceed(PopupStage::Spawning, PopupAction::Spawn(args))
                },
                PopupEvent::Failed(e) => {
                    let text = self.failure(&e);
                    self.fail(Some(text))
                },
                _ => none,
            },
            PopupStage::Spawning => match ev {
                PopupEvent::Done => self.proceed(PopupStage::Accepting, PopupAction::Accept),
                PopupEvent::Failed(e) => {
                    let text = self.failure(&e);
                    self.fail(Some(text))
                },
                _ => none,
            },
            PopupStage::Accepting => match ev {
                PopupEvent::Done => self.proceed(PopupStage::Checking, PopupAction::CheckPeer),
                PopupEvent::Failed(e) => {
                    let text = self.failure(&e);
                    self.fail(Some(text))
                },
                PopupEvent::TimedOut => self.fail(
                    Some("polkit-tui-agent: popup did not connect within 10s".to_owned()),
                ),
                _ => none,
            },
            PopupStage::Checking => match ev {
                PopupEvent::Peer { uid, current } => {
                    if same_user(uid, current) {
                        let req = self.req.clone();
                        self.proceed(PopupStage::Sending, PopupAction::SendRequest(req))
                    } else {
                        self.fail(
                            Some(
                                "polkit-tui-agent: popup connection rejected: uid mismatch".to_owned(),
                            ),
                        )
                    }
                },
                _ => none,
            },
            PopupStage::Sending => match ev {
                PopupEvent::Done => {
                    self.stage = PopupStage::Waiting;
                    let actions = vec![
                        PopupAction::Attach(self.req.cookie.clone()),
                        PopupAction::Wait,
                    ];
                    assert(action_views(actions@) =~= step(before, ev@).1);
                    actions
                },
                PopupEvent::Failed(e) => {
                    let text = self.failure(&e);
                    self.fail(Some(text))
                },
                PopupEvent::WriteFailed => self.fail(None),
                _ => none,
            },
            PopupStage::Waiting => match ev {
                PopupEvent::Exited(code) => {
                    self.stage = PopupStage::Over;
                    let actions = vec![
                        PopupAction::Detach,
                        PopupAction::RemoveSocket(self.sock_path.clone()),
                        PopupAction::Finish(AuthResult::from_exit_code(code)),
                    ];
                    assert(action_views(actions@) =~= step(before, ev@).1);
                    actions
                },
                _ => none,
            },
            PopupStage::Over => none,
        }
    }
}

impl PopupRun {
    /// Goes on with what connected: a process of the user `uid`, where that is known. Who runs
    /// this process is up to the system; a peer that is not known is rejected in any case.
    pub fn check_peer(&mut self, uid: Option<u32>) -> (actions: Vec<PopupAction>)
        ensures
            exists|current: u32| #[trigger]
                runs_this_process(current) && (final(self)@, action_views(actions@)) == step(
                    old(self)@,
                    PopupEventView::Peer { uid, current },
                ),
    {
        let current = current_user();
        self.step(PopupEvent::Peer { uid, current })
    }
}

/// Whether the process of the popup runs at this stage.
pub open spec fn process_runs(stage: PopupStage) -> bool {
    stage == PopupStage::Accepting || stage == PopupStage::Checking || stage == PopupStage::Sending
}

/// Nothing is left behind: when a popup ends, its socket is removed if there was one, and its
/// process is stopped if it still runs, before the result is given.
pub proof fn law_cleans_up(s: PopupView, ev: PopupEventView)
    requires
        s.stage != PopupStage::Over,
        step(s, ev).0.stage == PopupStage::Over,
    ensures
        step(s, ev).1.len() > 0,
        step(s, ev).1.last() is Finish,
        s.stage != PopupStage::Binding ==> step(s, ev).1.contains(
            PopupActionView::RemoveSocket(s.sock_path),
        ),
        process_runs(s.stage) ==> step(s, ev).1.contains(PopupActionView::Kill),
{
    let a = step(s, ev).1;
    if s.stage != PopupStage::Binding {
        assert(a[a.len() - 2] == PopupActionView::RemoveSocket(s.sock_path));
    }
    if process_runs(s.stage) {
        assert(a[a.len() - 3] == PopupActionView::Kill);
    }
}

/// A popup has one result: it is given with the step that ends it, and after that nothing is done.
pub proof fn law_one_result(s: PopupView, ev: PopupEventView)
    ensures
        forall|i: int|
            0 <= i < step(s, ev).1.len() ==> ((#[trigger] step(s, ev).1[i]) is Finish <==> {
                &&& s.stage != PopupStage::Over
                &&& step(s, ev).0.stage == PopupStage::Over
                &&& i == step(s, ev).1.len() - 1
            }),
        s.stage == PopupStage::Over ==> step(s, ev) == (s, Seq::<PopupActionView>::empty()),
{
}

/// A popup succeeds when its process ends with the exit code of a success, and then only.
pub proof fn law_success_needs_exit_code(s: PopupView, ev: PopupEventView)
    requires
        step(s, ev).1.len() > 0,
        step(s, ev).1.last() == PopupActionView::Finish(AuthResult::Success),
    ensures
        s.stage == PopupStage::Waiting,
        ev == PopupEventView::Exited(Some(0)),
{
}

/// The request goes to a process of the same user and to nobody else.
pub proof fn law_request_goes_to_the_same_user(
    s: PopupView,
    ev: PopupEventView,
    written: AuthRequestView,
)
    requires
        step(s, ev).1.contains(PopupActionView::SendRequest(written)),
    ensures
        written == s.req,
        s.stage == PopupStage::Checking,
        ev matches PopupEventView::Peer { uid, current } && uid == Some(current),
{
}

/// The arguments of tmux, for a popup whose cookie has the hash `hash`.
pub open spec fn args_for_hash(dir: Seq<char>, exe: Seq<char>, hash: Seq<char>) -> Seq<Seq<char>> {
    tmux_args(dir + "/polkit-tui-popup-"@ + hash, exe)
}

/// Nothing of a request but the hash of its cookie gets into the arguments of tmux, and that into
/// one of them alone: two requests are opened with arguments that are equal but for the path of
/// the socket.
pub proof fn law_arguments_hold_the_hash_alone(a: PopupView, b: PopupView, dir: Seq<char>)
    requires
        a.sock_path == socket_path_of(dir, a.req.cookie),
        b.sock_path == socket_path_of(dir, b.req.cookie),
        a.exe == b.exe,
        a.stage == PopupStage::Binding,
    ensures
        step(a, PopupEventView::Done).1 == seq![
            PopupActionView::Spawn(
                args_for_hash(dir, a.exe, crate::cookie::hash_text(a.req.cookie)),
            ),
        ],
        forall|i: int|
            0 <= i < 11 && i != 9 ==> #[trigger] tmux_args(a.sock_path, a.exe)[i] == tmux_args(
                b.sock_path,
                b.exe,
            )[i],
{
}

/// A popup goes its way step by step: the socket, tmux, the connection, the user, the request, the
/// end of the process; each step is begun when the one before is done.
pub proof fn law_step_by_step(s: PopupView, user: u32)
    ensures
        s.stage == PopupStage::Binding ==> step(s, PopupEventView::Done) == (
            PopupView { stage: PopupStage::Spawning, ..s },
            seq![PopupActionView::Spawn(tmux_args(s.sock_path, s.exe))],
        ),
        s.stage == PopupStage::Spawning ==> step(s, PopupEventView::Done) == (
            PopupView { stage: PopupStage::Accepting, ..s },
            seq![PopupActionView::Accept],
        ),
        s.stage == PopupStage::Accepting ==> step(s, PopupEventView::Done) == (
            PopupView { stage: PopupStage::Checking, ..s },
            seq![PopupActionView::CheckPeer],
        ),
        s.stage == PopupStage::Checking ==> step(
            s,
            PopupEventView::Peer { uid: Some(user), current: user },
        ) == (
            PopupView { stage: PopupStage::Sending, ..s },
            seq![PopupActionView::SendRequest(s.req)],
        ),
        s.stage == PopupStage::Sending ==> step(s, PopupEventView::Done) == (
            PopupView { stage: PopupStage::Waiting, ..s },
            seq![PopupActionView::Attach(s.req.cookie), PopupActionView::Wait],
        ),
{
}

/// A popup that fails reports why, undoes what was begun, in this order, and has failed.
pub proof fn law_how_popups_fail(s: PopupView, e: Seq<char>, uid: Option<u32>, current: u32)
    ensures
        ({
            let f = step(s, PopupEventView::Failed(e)).1;
            let end = PopupActionView::Finish(AuthResult::Failed);
            let remove = PopupActionView::RemoveSocket(s.sock_path);
            &&& s.stage == PopupStage::Binding ==> f == seq![
                PopupActionView::LogError(
                    "polkit-tui-agent: bind popup socket "@ + s.sock_path + ": "@ + e,
                ),
                end,
            ]
            &&& s.stage == PopupStage::Spawning ==> f == seq![
                PopupActionView::LogError("polkit-tui-agent: spawn tmux display-popup: "@ + e),
                remove,
                end,
            ]
            &&& s.stage == PopupStage::Accepting ==> f == seq![
                PopupActionView::LogError("polkit-tui-agent: accept popup socket: "@ + e),
                PopupActionView::Kill,
                remove,
                end,
            ]
            &&& s.stage == PopupStage::Sending ==> f == seq![
                PopupActionView::LogError("polkit-tui-agent: serialize popup request: "@ + e),
                PopupActionView::Kill,
                remove,
                end,
            ]
            &&& s.stage == PopupStage::Accepting ==> step(s, PopupEventView::TimedOut).1 == seq![
                PopupActionView::LogError("polkit-tui-agent: popup did not connect within 10s"@),
                PopupActionView::Kill,
                remove,
                end,
            ]
            &&& s.stage == PopupStage::Checking && uid != Some(current) ==> step(
                s,
                PopupEventView::Peer { uid, current },
            ).1 == seq![
                PopupActionView::LogError(
                    "polkit-tui-agent: popup connection rejected: uid mismatch"@,
                ),
                PopupActionView::Kill,
                remove,
                end,
            ]
            &&& s.stage == PopupStage::Sending ==> step(s, PopupEventView::WriteFailed).1 == seq![
                PopupActionView::Kill,
                remove,
                end,
            ]
        }),
{
    let f = step(s, PopupEventView::Failed(e)).1;
    let end = PopupActionView::Finish(AuthResult::Failed);
    let remove = PopupActionView::RemoveSocket(s.sock_path);
    let report = PopupActionView::LogError(failure_text(s, e));
    if s.stage == PopupStage::Binding {
        assert(f =~= seq![report, end]);
    } else if s.stage == PopupStage::Spawning {
        assert(f =~= seq![report, remove, end]);
    } else if s.stage == PopupStage::Accepting {
        assert(f =~= seq![report, PopupActionView::Kill, remove, end]);
        assert(step(s, PopupEventView::TimedOut).1 =~= seq![
            PopupActionView::LogError("polkit-tui-agent: popup did not connect within 10s"@),
            PopupActionView::Kill,
            remove,
            end,
        ]);
    } else if s.stage == PopupStage::Sending {
        assert(f =~= seq![report, PopupActionView::Kill, remove, end]);
        assert(step(s, PopupEventView::WriteFailed).1 =~= seq![PopupActionView::Kill, remove, end]);
    } else if s.stage == PopupStage::Checking && uid != Some(current) {
        assert(step(s, PopupEventView::Peer { uid, current }).1 =~= seq![
            PopupActionView::LogError("polkit-tui-agent: popup connection rejected: uid mismatch"@),
            PopupActionView::Kill,
            remove,
            end,
        ]);
    }
}

/// A popup ends with what the exit code of its process says: 0 for a success, 2 for a cancellation,
/// and anything else for a failure; before that it is cut off, and its socket is removed.
pub proof fn law_how_popups_end(s: PopupView, code: Option<i32>)
    requires
        s.stage == PopupStage::Waiting,
    ensures
        step(s, PopupEventView::Exited(code)).1 == seq![
            PopupActionView::Detach,
            PopupActionView::RemoveSocket(s.sock_path),
            PopupActionView::Finish(
                if code == Some(0i32) {
                    AuthResult::Success
                } else if code == Some(2i32) {
                    AuthResult::Cancel
                } else {
                    AuthResult::Failed
                },
            ),
        ],
{
}

/// A popup keeps to its request, its socket and its program, and what it does not wait for changes
/// nothing.
pub proof fn law_what_never_changes(s: PopupView, ev: PopupEventView)
    ensures
        step(s, ev).0.req == s.req,
        step(s, ev).0.sock_path == s.sock_path,
        step(s, ev).0.exe == s.exe,
        ev is Exited && s.stage != PopupStage::Waiting ==> step(s, ev) == (
            s,
            Seq::<PopupActionView>::empty(),
        ),
        ev is Peer && s.stage != PopupStage::Checking ==> step(s, ev) == (
            s,
            Seq::<PopupActionView>::empty(),
        ),
        ev is TimedOut && s.stage != PopupStage::Accepting ==> step(s, ev) == (
            s,
            Seq::<PopupActionView>::empty(),
        ),
        ev is WriteFailed && s.stage != PopupStage::Sending ==> step(s, ev) == (
            s,
            Seq::<PopupActionView>::empty(),
        ),
        (ev is Done || ev is Failed) && (s.stage == PopupStage::Checking || s.stage
            == PopupStage::Waiting || s.stage == PopupStage::Over) ==> step(s, ev) == (
            s,
            Seq::<PopupActionView>::empty(),
        ),
{
}

/// Where the socket of a popup stands, and how tmux is asked for the popup: with a title, seven
/// tenths of the width and half of the height, the path of the socket and the program, quoted.
pub proof fn law_how_tmux_is_asked(dir: Seq<char>, cookie: Seq<char>, path: Seq<char>, exe: Seq<char>)
    ensures
        socket_path_of(dir, cookie) == dir + "/polkit-tui-popup-"@ + crate::cookie::hash_text(cookie),
        ({
            let args = tmux_args(path, exe);
            &&& args.len() == 11
            &&& args[0] == "display-popup"@ && args[1] == "-E"@
            &&& args[2] == "-T"@ && args[3] == "polkit 认证"@
            &&& args[4] == "-w"@ && args[5] == "70%"@
            &&& args[6] == "-h"@ && args[7] == "50%"@
            &&& args[8] == "-e"@ && args[9] == "POLKIT_SOCK="@ + path
            &&& args[10] == "\""@ + exe + "\" --prompt"@
        }),
        POPUP_CONNECT_SECS == 10,
        DEFAULT_EXE@ == "polkit-tui-agent"@,
{
}

/// Nothing of an event or an action is lost in its view.
pub proof fn law_views_hold_everything(
    t: String,
    v: Vec<String>,
    i: int,
    req: AuthRequest,
    r: AuthResult,
    uid: Option<u32>,
    current: u32,
    code: Option<i32>,
    actions: Seq<PopupAction>,
)
    ensures
        PopupAction::Bind(t)@ == PopupActionView::Bind(t@),
        PopupAction::Spawn(v)@ == PopupActionView::Spawn(texts(v@)),
        texts(v@).len() == v@.len(),
        0 <= i < v@.len() ==> texts(v@)[i] == v@[i]@,
        PopupAction::Accept@ == PopupActionView::Accept,
        PopupAction::CheckPeer@ == PopupActionView::CheckPeer,
        PopupAction::SendRequest(req)@ == PopupActionView::SendRequest(req@),
        PopupAction::Attach(t)@ == PopupActionView::Attach(t@),
        PopupAction::Wait@ == PopupActionView::Wait,
        PopupAction::Detach@ == PopupActionView::Detach,
        PopupAction::Kill@ == PopupActionView::Kill,
        PopupAction::RemoveSocket(t)@ == PopupActionView::RemoveSocket(t@),
        PopupAction::LogError(t)@ == PopupActionView::LogError(t@),
        PopupAction::Finish(r)@ == PopupActionView::Finish(r),
        PopupEvent::Done@ == PopupEventView::Done,
        PopupEvent::Failed(t)@ == PopupEventView::Failed(t@),
        PopupEvent::TimedOut@ == PopupEventView::TimedOut,
        (PopupEvent::Peer { uid, current })@ == (PopupEventView::Peer { uid, current }),
        PopupEvent::WriteFailed@ == PopupEventView::WriteFailed,
        PopupEvent::Exited(code)@ == PopupEventView::Exited(code),
        action_views(actions).len() == actions.len(),
        0 <= i < actions.len() ==> action_views(actions)[i] == actions[i]@,
{
}

/// What the calls of a popup give and change.
pub proof fn law_calls_of_a_popup()
    ensures
        forall|dir: &str, req: AuthRequest, exe: Option<&str>, r: (PopupRun, PopupAction)| #[trigger]
            call_ensures(PopupRun::new, (dir, req, exe), r) ==> {
                &&& r.0@.req == req@
                &&& r.0@.sock_path == socket_path_of(dir@, req.cookie@)
                &&& exe is Some ==> r.0@.exe == exe->Some_0@
                &&& exe is None ==> r.0@.exe == "polkit-tui-agent"@
                &&& r.0@.stage == PopupStage::Binding
                &&& r.1@ == PopupActionView::Bind(r.0@.sock_path)
            },
        forall|m: &mut PopupRun, ev: PopupEvent, actions: Vec<PopupAction>| #[trigger]
            call_ensures(PopupRun::step, (m, ev), actions) ==> (final(m)@, action_views(actions@))
                == step((*m)@, ev@),
        forall|m: &mut PopupRun, uid: Option<u32>, actions: Vec<PopupAction>| #[trigger]
            call_ensures(PopupRun::check_peer, (m, uid), actions) ==> exists|current: u32| #[trigger]
                runs_this_process(current) && (final(m)@, action_views(actions@)) == step(
                    (*m)@,
                    PopupEventView::Peer { uid, current },
                ),
        forall|dir: &str, cookie: &str, path: String| #[trigger]
            call_ensures(popup_socket_path, (dir, cookie), path) ==> path@ == socket_path_of(
                dir@,
                cookie@,
            ),
        forall|path: &str, exe: &str, args: Vec<String>| #[trigger]
            call_ensures(popup_args, (path, exe), args) ==> texts(args@) == tmux_args(path@, exe@),
        forall|run: &PopupRun, stage: PopupStage| #[trigger]
            call_ensures(PopupRun::stage, (run,), stage) ==> stage == run@.stage,
{
}

/// A popup is over exactly when its result was given: after a failure, and after its process ended.
pub proof fn law_when_popups_are_over(s: PopupView, ev: PopupEventView)
    requires
        s.stage != PopupStage::Over,
    ensures
        step(s, ev).0.stage == PopupStage::Over <==> {
            ||| s.stage == PopupStage::Waiting && ev is Exited
            ||| ev is Failed && (s.stage == PopupStage::Binding || s.stage == PopupStage::Spawning
                || s.stage == PopupStage::Accepting || s.stage == PopupStage::Sending)
            ||| s.stage == PopupStage::Accepting && ev is TimedOut
            ||| s.stage == PopupStage::Sending && ev is WriteFailed
            ||| s.stage == PopupStage::Checking && (ev matches PopupEventView::Peer { uid, current }
                && uid != Some(current))
        },
        step(s, ev).0.stage == PopupStage::Over <==> step(s, ev).1.len() > 0 && step(s, ev).1.last()
            is Finish,
{
}

} // verus!
