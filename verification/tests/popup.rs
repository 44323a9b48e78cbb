use polkit_tui_agent::controller::{Controller, ControllerAction};
use polkit_tui_agent::daemon::Daemon;
use polkit_tui_agent::helper::PamMessage;
use polkit_tui_agent::idle::NANOS_PER_SEC;
use polkit_tui_agent::inline::{ConnectOutcome, Received};
use polkit_tui_agent::popup::{
    popup_args, popup_socket_path, PopupAction, PopupEvent, PopupRun, PopupStage,
};
use polkit_tui_agent::prompt::{
    Attempt, AttemptAction, AttemptEvent, AttemptStage, Outcome, PromptEvent, PromptRun,
    PromptVerdict, StartError,
};
use polkit_tui_agent::protocol::{AuthRequest, AuthResult, ClientMsg, ServerMsg};
use polkit_tui_agent::ui::{KeyCode, KeyEvent, PromptState};

fn text(t: &str) -> String {
    t.to_string()
}

fn request(cookie: &str) -> AuthRequest {
    AuthRequest {
        cookie: text(cookie),
        user: text("alice"),
        action: text("org.example.run"),
        message: text("please"),
    }
}

fn ask(id: u64, cookie: &str) -> Option<ServerMsg> {
    Some(ServerMsg::Request { id, req: request(cookie) })
}

fn cancel(cookie: &str) -> Option<ServerMsg> {
    Some(ServerMsg::Cancel { cookie: text(cookie) })
}

fn names(actions: Vec<ControllerAction>) -> Vec<String> {
    actions
        .iter()
        .map(|a| match a {
            ControllerAction::Send(ClientMsg::Response { id, result }) => format!("send {id} {result:?}"),
            ControllerAction::OpenPopup { id, req } => format!("open {id} {}", req.cookie),
            ControllerAction::Signal { popup, msg: ServerMsg::Cancel { cookie } } => {
                format!("signal {popup} {cookie}")
            }
            ControllerAction::Signal { msg, .. } => panic!("{msg:?}"),
            ControllerAction::ClosePopup => text("close"),
        })
        .collect()
}

#[test]
fn requests_open_popups() {
    let mut c = Controller::new();
    assert!(c.on_message(None).is_empty());
    assert_eq!(names(c.on_message(ask(1, "a"))), ["open 1 a"]);
    assert!(c.popup_connected(1, "a").is_empty());
    c.popup_gone();
    let msg = c.popup_finished(1, &text("a"), AuthResult::Success);
    assert_eq!(format!("{msg:?}"), "Response { id: 1, result: Success }");
    assert!(names(c.on_message(cancel("a"))).is_empty());
}

#[test]
fn cancelled_before_requested() {
    let mut c = Controller::new();
    assert!(c.on_message(cancel("a")).is_empty());
    assert_eq!(names(c.on_message(ask(1, "b"))), ["open 1 b"]);
    assert_eq!(names(c.on_message(ask(2, "a"))), ["send 2 Cancel"]);
    assert_eq!(names(c.on_message(ask(3, "a"))), ["open 3 a"]);
}

#[test]
fn cancelled_before_connected() {
    let mut c = Controller::new();
    c.on_message(ask(1, "a"));
    assert_eq!(names(c.on_message(cancel("a"))), ["close"]);
    assert_eq!(names(c.popup_connected(1, "a")), ["signal 1 a"]);
}

#[test]
fn cancelled_while_open() {
    let mut c = Controller::new();
    c.on_message(ask(1, "a"));
    c.popup_connected(1, "a");
    assert_eq!(names(c.on_message(cancel("b"))), Vec::<String>::new());
    assert_eq!(names(c.on_message(cancel("a"))), ["signal 1 a", "close"]);
}

#[test]
fn newer_popups_are_kept() {
    let mut c = Controller::new();
    c.on_message(ask(1, "a"));
    c.on_message(ask(2, "b"));
    c.popup_finished(1, &text("a"), AuthResult::Failed);
    assert_eq!(names(c.on_message(cancel("b"))), ["close"]);
}

#[test]
fn sockets_of_popups() {
    assert_eq!(
        popup_socket_path("/run/user/1000", "foobar"),
        "/run/user/1000/polkit-tui-popup-85944171f73967e8"
    );
}

#[test]
fn arguments_hold_the_hash_alone() {
    let a = popup_args(&popup_socket_path("/d", "foobar"), "/bin/a");
    let b = popup_args(&popup_socket_path("/d", "a"), "/bin/a");
    for i in 0..11 {
        assert_eq!(a[i] == b[i], i != 9);
    }
    assert_eq!(a[9], "POLKIT_SOCK=/d/polkit-tui-popup-85944171f73967e8");
}

#[test]
fn arguments_of_tmux() {
    assert_eq!(
        popup_args("/s", "/usr/bin/agent"),
        [
            "display-popup", "-E", "-T", "polkit 认证", "-w", "70%", "-h", "50%", "-e",
            "POLKIT_SOCK=/s", "\"/usr/bin/agent\" --prompt",
        ]
    );
}

fn steps(actions: Vec<PopupAction>) -> Vec<String> {
    actions.iter().map(|a| format!("{a:?}")).collect()
}

fn bound() -> PopupRun {
    let (run, first) = PopupRun::new("/d", request("foobar"), Some("/bin/a"));
    assert!(matches!(first, PopupAction::Bind(p) if p == "/d/polkit-tui-popup-85944171f73967e8"));
    run
}

fn at(stage: PopupStage) -> PopupRun {
    let mut run = bound();
    for ev in [
        PopupEvent::Done,
        PopupEvent::Done,
        PopupEvent::Done,
        PopupEvent::Peer { uid: Some(5), current: 5 },
        PopupEvent::Done,
    ] {
        if run.stage() == stage {
            break;
        }
        run.step(ev);
    }
    assert_eq!(run.stage(), stage);
    run
}

#[test]
fn a_popup_from_beginning_to_end() {
    let mut run = bound();
    assert!(matches!(&run.step(PopupEvent::Done)[..], [PopupAction::Spawn(args)] if args[10] == "\"/bin/a\" --prompt"));
    assert_eq!(steps(run.step(PopupEvent::Done)), ["Accept"]);
    assert!(run.step(PopupEvent::Exited(Some(0))).is_empty());
    assert_eq!(steps(run.step(PopupEvent::Done)), ["CheckPeer"]);
    let sent = run.step(PopupEvent::Peer { uid: Some(5), current: 5 });
    assert!(matches!(&sent[..], [PopupAction::SendRequest(req)]
        if req.cookie == "foobar" && req.user == "alice" && req.action == "org.example.run"
            && req.message == "please"));
    assert_eq!(steps(run.step(PopupEvent::Done)), ["Attach(\"foobar\")", "Wait"]);
    assert_eq!(
        steps(run.step(PopupEvent::Exited(Some(0)))),
        ["Detach", "RemoveSocket(\"/d/polkit-tui-popup-85944171f73967e8\")", "Finish(Success)"]
    );
    assert!(run.step(PopupEvent::Exited(Some(0))).is_empty());
}

#[test]
fn exit_codes_of_popups() {
    for (code, end) in [
        (Some(1), "Finish(Failed)"),
        (Some(2), "Finish(Cancel)"),
        (Some(77), "Finish(Failed)"),
        (None, "Finish(Failed)"),
    ] {
        let actions = steps(at(PopupStage::Waiting).step(PopupEvent::Exited(code)));
        assert_eq!(actions[2], end);
    }
}

#[test]
fn failed_popups_clean_up() {
    let remove = "RemoveSocket(\"/d/polkit-tui-popup-85944171f73967e8\")";
    let failed = |e: &str| PopupEvent::Failed(text(e));
    assert_eq!(
        steps(at(PopupStage::Binding).step(failed("e"))),
        [
            "LogError(\"polkit-tui-agent: bind popup socket /d/polkit-tui-popup-85944171f73967e8: e\")",
            "Finish(Failed)"
        ]
    );
    assert_eq!(
        steps(at(PopupStage::Spawning).step(failed("e"))),
        ["LogError(\"polkit-tui-agent: spawn tmux display-popup: e\")", remove, "Finish(Failed)"]
    );
    assert_eq!(
        steps(at(PopupStage::Accepting).step(failed("e"))),
        ["LogError(\"polkit-tui-agent: accept popup socket: e\")", "Kill", remove, "Finish(Failed)"]
    );
    assert_eq!(
        steps(at(PopupStage::Accepting).step(PopupEvent::TimedOut)),
        ["LogError(\"polkit-tui-agent: popup did not connect within 10s\")", "Kill", remove, "Finish(Failed)"]
    );
    assert_eq!(
        steps(at(PopupStage::Checking).step(PopupEvent::Peer { uid: Some(6), current: 5 })),
        ["LogError(\"polkit-tui-agent: popup connection rejected: uid mismatch\")", "Kill", remove, "Finish(Failed)"]
    );
    assert_eq!(
        steps(at(PopupStage::Sending).step(failed("e"))),
        ["LogError(\"polkit-tui-agent: serialize popup request: e\")", "Kill", remove, "Finish(Failed)"]
    );
    assert_eq!(
        steps(at(PopupStage::Sending).step(PopupEvent::WriteFailed)),
        ["Kill", remove, "Finish(Failed)"]
    );
}

#[test]
fn popups_of_the_current_user() {
    let current = uzers::get_current_uid();
    let sent = at(PopupStage::Checking).check_peer(Some(current));
    assert!(matches!(&sent[..], [PopupAction::SendRequest(req)] if req.cookie == "foobar"));
    assert_eq!(at(PopupStage::Checking).check_peer(Some(current ^ 1)).len(), 4);
    assert_eq!(at(PopupStage::Checking).check_peer(None).len(), 4);
}

#[test]
fn a_popup_runs_the_default_program() {
    let (mut run, _) = PopupRun::new("/d", request("foobar"), None);
    let spawned = run.step(PopupEvent::Done);
    assert!(matches!(&spawned[..], [PopupAction::Spawn(args)] if args[10] == "\"polkit-tui-agent\" --prompt"));
}

fn press(code: KeyCode, at: u128) -> PromptEvent {
    PromptEvent::Key { key: KeyEvent { code, control: false }, at }
}

fn interrupt() -> PromptEvent {
    PromptEvent::Key { key: KeyEvent { code: KeyCode::Char('c'), control: true }, at: 0 }
}

fn verifying() -> PromptRun {
    let mut run = PromptRun::new(request("a"), 30, 0);
    run.step(press(KeyCode::Char('p'), 1));
    let verdict = run.step(press(KeyCode::Enter, 2));
    assert!(matches!(verdict, PromptVerdict::Authenticate { user, cookie, password }
        if user == "alice" && cookie == "a" && password == "p"));
    run
}

fn code(verdict: PromptVerdict) -> Option<i32> {
    match verdict {
        PromptVerdict::Exit(c) => Some(c),
        _ => None,
    }
}

#[test]
fn the_popup_succeeds() {
    let mut run = verifying();
    assert_eq!(run.app().prompt().unwrap().state, PromptState::Verifying);
    assert_eq!(code(run.step(press(KeyCode::Enter, 3))), None);
    assert_eq!(code(run.step(PromptEvent::Outcome { outcome: Outcome::Success, at: 4 })), Some(0));
}

#[test]
fn the_popup_asks_again() {
    let mut run = verifying();
    assert_eq!(code(run.step(PromptEvent::Outcome { outcome: Outcome::Failure, at: 4 })), None);
    assert_eq!(run.app().prompt().unwrap().status, "认证失败，请重试");
    assert_eq!(run.app().prompt().unwrap().state, PromptState::Editing);
    let mut run = verifying();
    run.step(PromptEvent::Outcome { outcome: Outcome::Error(text("boom")), at: 4 });
    assert_eq!(run.app().prompt().unwrap().status, "认证失败：boom");
}

#[test]
fn the_popup_is_cancelled() {
    for run in [|| PromptRun::new(request("a"), 30, 0), verifying] {
        assert_eq!(code(run().step(press(KeyCode::Esc, 1))), Some(2));
        assert_eq!(code(run().step(interrupt())), Some(2));
        assert_eq!(code(run().step(PromptEvent::Line(cancel("a")))), Some(2));
        assert_eq!(code(run().step(PromptEvent::Line(cancel("b")))), None);
        assert_eq!(code(run().step(PromptEvent::Line(ask(1, "a")))), None);
        assert_eq!(code(run().step(PromptEvent::Line(None))), None);
        assert_eq!(code(run().step(PromptEvent::OutcomesGone)), Some(2));
    }
}

#[test]
fn the_popup_outlives_its_controller() {
    let mut run = PromptRun::new(request("a"), 30, 0);
    assert!(run.is_listening());
    assert_eq!(code(run.step(PromptEvent::LinesGone)), None);
    assert!(!run.is_listening());
    assert_eq!(code(run.step(PromptEvent::Line(cancel("a")))), None);
}

#[test]
fn the_popup_times_out() {
    let sec = NANOS_PER_SEC;
    let mut run = PromptRun::new(request("a"), 30, 0);
    assert_eq!(code(run.step(PromptEvent::Tick { now: 30 * sec - 1 })), None);
    run.step(press(KeyCode::Left, 20 * sec));
    assert_eq!(code(run.step(PromptEvent::Tick { now: 30 * sec })), None);
    assert_eq!(code(run.step(PromptEvent::Tick { now: 50 * sec })), Some(1));
    let mut run = verifying();
    assert_eq!(code(run.step(PromptEvent::Tick { now: 500 * sec })), None);
    run.step(PromptEvent::Outcome { outcome: Outcome::Failure, at: 500 * sec });
    assert_eq!(code(run.step(PromptEvent::Tick { now: 529 * sec })), None);
    assert_eq!(code(run.step(PromptEvent::Tick { now: 530 * sec })), Some(1));
}

fn said(action: AttemptAction) -> String {
    format!("{action:?}")
}

fn connected(password: &str) -> Attempt {
    let mut attempt = Attempt::new(text(password));
    assert_eq!(said(attempt.step(AttemptEvent::Connect(ConnectOutcome::Connected))), "Read");
    attempt
}

fn heard(m: PamMessage) -> AttemptEvent {
    AttemptEvent::Received(Received::Message(m))
}

#[test]
fn attempts_that_succeed() {
    let mut attempt = connected("geheim");
    assert_eq!(said(attempt.step(heard(PamMessage::PromptEchoOn(text("?"))))), "Respond(\"\")");
    assert_eq!(said(attempt.step(AttemptEvent::RespondFailed(text("x")))), "Read");
    assert_eq!(said(attempt.step(heard(PamMessage::PromptEchoOff(text("?"))))), "Respond(\"geheim\")");
    assert_eq!(said(attempt.step(heard(PamMessage::Success))), "Wait");
    assert_eq!(said(attempt.step(AttemptEvent::Responded)), "Read");
    assert_eq!(said(attempt.step(heard(PamMessage::Success))), "Finish(Success)");
    assert_eq!(attempt.stage(), AttemptStage::Over);
    assert_eq!(said(attempt.step(heard(PamMessage::Success))), "Wait");
}

#[test]
fn attempts_that_fail() {
    for ev in [
        heard(PamMessage::Failure),
        heard(PamMessage::Error(text("e"))),
        heard(PamMessage::Info(text("i"))),
        AttemptEvent::Received(Received::Eof),
        AttemptEvent::Received(Received::ReadFailed),
    ] {
        assert_eq!(said(connected("x").step(ev)), "Finish(Failure)");
    }
}

#[test]
fn attempts_that_go_wrong() {
    let timeout = AttemptEvent::Received(Received::TimedOut);
    assert_eq!(said(connected("x").step(timeout)), "Finish(Error(\"认证超时，请重试\"))");
    let mut attempt = Attempt::new(text("x"));
    let failed = AttemptEvent::Connect(ConnectOutcome::Failed(text("no")));
    assert_eq!(said(attempt.step(failed)), "Finish(Error(\"no\"))");
    let mut attempt = Attempt::new(text("x"));
    let late = AttemptEvent::Connect(ConnectOutcome::TimedOut);
    assert_eq!(said(attempt.step(late)), "Finish(Error(\"连接超时，请重试\"))");
    let mut attempt = connected("x");
    attempt.step(heard(PamMessage::PromptEchoOff(text("?"))));
    assert_eq!(said(attempt.step(AttemptEvent::RespondFailed(text("no")))), "Finish(Error(\"no\"))");
}

#[test]
fn errors_before_the_dialog() {
    assert_eq!(StartError::NoSocket.text(), "POLKIT_SOCK not set");
    assert_eq!(StartError::ConnectTimedOut.text(), "connect POLKIT_SOCK timeout");
    assert_eq!(StartError::Connect(text("e")).text(), "connect POLKIT_SOCK: e");
    assert_eq!(StartError::Read(text("e")).text(), "read AuthRequest: e");
    assert_eq!(StartError::Parse(text("e")).text(), "parse AuthRequest: e");
    assert_eq!(
        StartError::NoTerminal.text(),
        "polkit-tui-agent: --prompt needs a controlling terminal (should run inside a tmux popup)"
    );
}

#[test]
fn typed_passwords_reach_the_helper() {
    let mut run = PromptRun::new(request("a"), 30, 0);
    for c in "ge heim•".chars() {
        run.step(press(KeyCode::Char(c), 1));
    }
    let PromptVerdict::Authenticate { user, cookie, password } = run.step(press(KeyCode::Enter, 2)) else {
        panic!("no attempt");
    };
    assert_eq!((user.as_str(), cookie.as_str()), ("alice", "a"));
    let mut attempt = Attempt::new(password);
    attempt.step(AttemptEvent::Connect(ConnectOutcome::Connected));
    let answer = attempt.step(heard(PamMessage::PromptEchoOff(text("Password: "))));
    assert_eq!(said(answer), "Respond(\"ge heim•\")");
}

#[test]
fn cancellations_go_all_the_way() {
    let mut daemon = Daemon::start("/s", Ok(())).unwrap();
    daemon.accept(Some(5), 5).unwrap();
    let (id, out) = daemon.request(request("a")).unwrap();
    let mut controller = Controller::new();
    assert_eq!(names(controller.on_message(Some(out.msg))), ["open 1 a"]);
    controller.popup_connected(id, "a");
    let out = daemon.cancel("a").unwrap();
    assert_eq!(names(controller.on_message(Some(out.msg))), ["signal 1 a", "close"]);
    let mut run = PromptRun::new(request("a"), 30, 0);
    let end = code(run.step(PromptEvent::Line(cancel("a"))));
    let result = AuthResult::from_exit_code(end);
    let msg = controller.popup_finished(id, &text("a"), result);
    assert_eq!(daemon.on_message(Some(msg)), Some((id, AuthResult::Cancel)));
}
