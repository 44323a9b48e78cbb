use polkit_tui_agent::cli::{
    default_socket_path, parse_args_from, require_tmux, select_mode, start, wants_full_cookie,
    with_hint, Mode, Options, Parsed, Start, Surroundings, HELP,
};
use polkit_tui_agent::session::{
    registration_line, session_subject, subject_session_id, SessionQuery, SessionSearch,
    SessionStep, Subject, SubjectValue, OBJECT_PATH, TEXT_NO_SESSION,
};
use polkit_tui_agent::tui::{Tui, TuiAction, TuiEvent, TuiStage};

fn args(list: &[&str]) -> Vec<String> {
    list.iter().map(|a| a.to_string()).collect()
}

fn options(list: &[&str], lang: Option<&str>) -> Options {
    match parse_args_from(&args(list), lang) {
        Ok(Parsed::Options(o)) => o,
        other => panic!("{other:?}"),
    }
}

fn around() -> Surroundings {
    Surroundings {
        lang: Some("de_DE.UTF-8".to_string()),
        runtime_dir: Some("/run/user/1".to_string()),
        in_tmux: true,
        has_tty: true,
    }
}

fn refusal(list: &[&str], around: &Surroundings) -> String {
    match start(&args(list), around) {
        Start::Refused(e) => e,
        other => panic!("{other:?}"),
    }
}

#[test]
fn locales() {
    assert_eq!(options(&[], None).locale, "en_US.UTF-8");
    assert_eq!(options(&[], Some("fr")).locale, "fr");
    assert_eq!(options(&["--locale", "de"], Some("fr")).locale, "de");
    assert_eq!(options(&["--locale=de"], Some("fr")).locale, "de");
    assert_eq!(options(&["--locale="], Some("fr")).locale, "");
    assert_eq!(options(&["--locale=de", "--locale", "it"], None).locale, "it");
    assert_eq!(options(&["--locale", "--uid-session"], None).locale, "--uid-session");
    assert!(!options(&["--locale", "--uid-session"], None).uid_session);
}

#[test]
fn flags() {
    let o = options(&["--tmux", "--uid-session", "--full-cookie-log", "--daemon", "--controller", "--prompt"], None);
    assert!(o.uid_session);
    assert_eq!(o.locale, "en_US.UTF-8");
    assert!(!options(&["--tmux"], None).uid_session);
}

#[test]
fn arguments_that_are_wrong() {
    let error = |list: &[&str]| parse_args_from(&args(list), None).err().unwrap();
    assert_eq!(error(&["--locale"]), "--locale requires a value");
    assert_eq!(error(&["--nope"]), "unknown argument: --nope");
    assert_eq!(error(&["--uid-session", "", "--x"]), "unknown argument: ");
    assert!(matches!(parse_args_from(&args(&["-h", "--nope"]), None), Ok(Parsed::Help)));
    assert!(matches!(parse_args_from(&args(&["--help"]), None), Ok(Parsed::Help)));
    assert_eq!(error(&["--nope", "-h"]), "unknown argument: --nope");
    assert_eq!(with_hint("x"), "x\nTry --help");
}

#[test]
fn modes() {
    assert_eq!(select_mode(&args(&[])), Mode::Inline);
    assert_eq!(select_mode(&args(&["--uid-session"])), Mode::Inline);
    assert_eq!(select_mode(&args(&["--tmux"])), Mode::Tmux);
    assert_eq!(select_mode(&args(&["--tmux", "--daemon"])), Mode::Daemon);
    assert_eq!(select_mode(&args(&["--daemon", "--controller"])), Mode::Controller);
    assert_eq!(select_mode(&args(&["--controller", "--prompt"])), Mode::Prompt);
    assert_eq!(select_mode(&args(&["--prompt", "--help"])), Mode::Help);
    assert_eq!(select_mode(&args(&["--nope", "-h"])), Mode::Help);
    assert!(wants_full_cookie(&args(&["--tmux", "--full-cookie-log"])));
    assert!(!wants_full_cookie(&args(&["--tmux"])));
}

#[test]
fn the_help() {
    let lines: Vec<&str> = HELP.lines().collect();
    assert_eq!(
        lines[0],
        "polkit-tui-agent - terminal polkit authentication agent (inline TUI / tmux popup)"
    );
    assert_eq!(lines[3], "    polkit-tui-agent [OPTIONS]            inline TUI mode (default)");
    assert_eq!(lines.last(), Some(&"       tmux window"));
    assert!(HELP.ends_with("tmux window\n"));
}

#[test]
fn places_of_the_socket() {
    assert_eq!(default_socket_path(Some("/run/user/1")), Ok("/run/user/1/polkit-tui-agent.sock".to_string()));
    assert_eq!(
        default_socket_path(None),
        Err("XDG_RUNTIME_DIR is not set; cannot place the socket securely (run inside a systemd user session or set XDG_RUNTIME_DIR)".to_string())
    );
}

#[test]
fn tmux_is_needed() {
    assert_eq!(require_tmux(true, "--tmux"), Ok(()));
    assert_eq!(
        require_tmux(false, "--tmux"),
        Err("polkit-tui-agent: --tmux must run inside a tmux session".to_string())
    );
}

#[test]
fn starting() {
    let a = around();
    assert!(matches!(start(&args(&[]), &a), Start::Inline { opts } if opts.locale == "de_DE.UTF-8"));
    assert!(matches!(start(&args(&["--prompt", "--nope"]), &a), Start::Prompt));
    assert!(matches!(start(&args(&["--nope", "--help"]), &a), Start::Help));
    let socket = "/run/user/1/polkit-tui-agent.sock";
    assert!(matches!(start(&args(&["--controller", "--nope"]), &a), Start::Controller { socket: s } if s == socket));
    assert!(matches!(start(&args(&["--daemon", "--uid-session"]), &a),
        Start::Daemon { opts, socket: s } if s == socket && opts.uid_session));
    assert!(matches!(start(&args(&["--tmux", "--locale=x"]), &a),
        Start::Tmux { opts, socket: s } if s == socket && opts.locale == "x"));
}

#[test]
fn refusing_to_start() {
    let mut a = around();
    assert_eq!(refusal(&["--nope"], &a), "unknown argument: --nope\nTry --help");
    assert_eq!(refusal(&["--daemon", "--locale"], &a), "--locale requires a value\nTry --help");
    a.has_tty = false;
    assert_eq!(refusal(&[], &a), "no controlling terminal (/dev/tty); run inside a real tty (e.g. tmux/ssh)");
    a.in_tmux = false;
    assert_eq!(refusal(&["--tmux", "--nope"], &a), "polkit-tui-agent: --tmux must run inside a tmux session");
    assert_eq!(refusal(&["--controller"], &a), "polkit-tui-agent: --controller must run inside a tmux session");
    a.runtime_dir = None;
    assert!(refusal(&["--controller"], &a).starts_with("XDG_RUNTIME_DIR is not set"));
    assert!(refusal(&["--daemon"], &a).starts_with("XDG_RUNTIME_DIR is not set"));
    a.in_tmux = true;
    assert!(refusal(&["--tmux"], &a).starts_with("XDG_RUNTIME_DIR is not set"));
}

fn search(uid_session: bool, own: &str, display: &str, environment: &str) -> (Option<String>, usize) {
    let (mut search, mut query) = SessionSearch::new(uid_session);
    for asked in 1.. {
        let answer = match query {
            SessionQuery::OwnSession => own,
            SessionQuery::DisplaySession => display,
            SessionQuery::Environment => environment,
        };
        let answer = if answer == "-" { None } else { Some(answer.to_string()) };
        match search.answer(answer) {
            SessionStep::Ask(q) => query = q,
            SessionStep::Found(id) => return (Some(id), asked),
            SessionStep::NotFound => return (None, asked),
        }
    }
    unreachable!()
}

#[test]
fn sessions_are_found() {
    let found = |id: &str, asked: usize| (Some(id.to_string()), asked);
    assert_eq!(search(false, "1", "2", "3"), found("1", 1));
    assert_eq!(search(false, "-", "2", "3"), found("2", 2));
    assert_eq!(search(false, "", "", "3"), found("3", 3));
    assert_eq!(search(false, "-", "-", ""), (None, 3));
    assert_eq!(search(true, "1", "2", "3"), found("2", 1));
    assert_eq!(search(true, "1", "-", "3"), (None, 1));
    assert_eq!(
        TEXT_NO_SESSION,
        "cannot determine current logind session; run inside a logind session or set XDG_SESSION_ID"
    );
}

#[test]
fn subjects_have_a_session() {
    let subject = session_subject("c2");
    assert_eq!(subject.subject_kind, "unix-session");
    assert_eq!(subject_session_id(&subject), "c2");
    let other = |details: Vec<(String, SubjectValue)>| {
        subject_session_id(&Subject { subject_kind: "x".to_string(), subject_details: details })
    };
    assert_eq!(other(vec![]), "");
    assert_eq!(other(vec![("pid".to_string(), SubjectValue::Str("1".to_string()))]), "");
    assert_eq!(other(vec![
        ("pid".to_string(), SubjectValue::Str("1".to_string())),
        ("session-id".to_string(), SubjectValue::Other("U32(7)".to_string())),
    ]), "U32(7)");
}

#[test]
fn registrations_are_logged() {
    assert_eq!(OBJECT_PATH, "/org/EMeow/PolicyKit1/AuthenticationAgent");
    assert_eq!(
        registration_line(&session_subject("c2"), "de"),
        "polkit-tui-agent: registered on /org/EMeow/PolicyKit1/AuthenticationAgent (subject=unix-session, session=c2, locale=de)"
    );
}

fn shown(actions: &[TuiAction]) -> Vec<String> {
    actions.iter().map(|a| format!("{a:?}")).collect()
}

fn opened_to(stage: TuiStage) -> Tui {
    let (mut tui, first) = Tui::open();
    assert!(matches!(first, TuiAction::OpenTty));
    while tui.stage() != stage {
        assert!(!tui.advance(TuiEvent::Done).is_empty());
    }
    tui
}

#[test]
fn the_terminal_is_taken_over() {
    let (mut tui, _) = Tui::open();
    let mut all: Vec<String> = Vec::new();
    while tui.stage() != TuiStage::Open {
        all.extend(shown(&tui.advance(TuiEvent::Done)));
    }
    assert_eq!(
        all,
        [
            "EnableRawMode", "EnterAlternateScreen", "SetTuiActive(true)", "InstallPanicHook",
            "Duplicate", "KeepForPanic", "Duplicate", "BuildTerminal", "Opened",
        ]
    );
    assert!(tui.advance(TuiEvent::Failed("x".to_string())).is_empty());
    assert_eq!(
        shown(&tui.close()),
        ["DisableRawMode", "LeaveAlternateScreen", "SetTuiActive(false)", "ForgetForPanic"]
    );
    assert!(tui.close().is_empty());
    assert!(tui.advance(TuiEvent::Done).is_empty());
}

#[test]
fn the_terminal_is_given_back() {
    let fail = |stage: TuiStage| {
        let mut tui = opened_to(stage);
        let actions = shown(&tui.advance(TuiEvent::Failed("e".to_string())));
        assert_eq!(tui.stage(), TuiStage::Closed);
        actions
    };
    assert_eq!(fail(TuiStage::OpeningTty), ["Fail(\"cannot open /dev/tty: e\")"]);
    assert_eq!(fail(TuiStage::EnablingRawMode), ["Fail(\"e\")"]);
    assert_eq!(
        fail(TuiStage::EnteringScreen),
        ["DisableRawMode", "Fail(\"enter alternate screen failed: e\")"]
    );
    for (stage, reason) in [
        (TuiStage::DuplicatingForPanic, "Fail(\"duplicate /dev/tty failed: e\")"),
        (TuiStage::DuplicatingForTerminal, "Fail(\"duplicate /dev/tty failed: e\")"),
        (TuiStage::BuildingTerminal, "Fail(\"terminal init failed: e\")"),
    ] {
        assert_eq!(
            fail(stage),
            ["SetTuiActive(false)", "ForgetForPanic", "LeaveAlternateScreen", "DisableRawMode", reason]
        );
    }
}
