use polkit_tui_agent::cookie::{fnv1a_hex, log_cookie, CookieLog};
use polkit_tui_agent::helper::{
    read_error, write_error, HelperAction, HelperReply, HelperSession, PamMessage, Stage,
    HELPER_BIN, SOCKET_PATH,
};
use polkit_tui_agent::idle::{input_timeout, is_expired, parse_number, remaining, NANOS_PER_SEC};
use polkit_tui_agent::logging::{log_line, set_tui_active, truncate, LogOutput, LogSink};
use polkit_tui_agent::protocol::{frame_line, AuthResult, EXIT_CANCEL, EXIT_FAILED, EXIT_OK};
use polkit_tui_agent::table::Table;
use polkit_tui_agent::text::{contains, from_chars, join2, join3, lines, str_eq, strip_prefix, to_chars};

fn line_of(out: LogOutput) -> String {
    match out {
        LogOutput::Line(t) => t,
        LogOutput::Corner(t) => panic!("in the corner: {t}"),
    }
}

fn corner_of(out: LogOutput) -> String {
    match out {
        LogOutput::Corner(t) => t,
        LogOutput::Line(t) => panic!("as a line: {t}"),
    }
}

#[test]
fn exit_codes() {
    assert_eq!(AuthResult::from_exit_code(Some(0)), AuthResult::Success);
    assert_eq!(AuthResult::from_exit_code(Some(1)), AuthResult::Failed);
    assert_eq!(AuthResult::from_exit_code(Some(2)), AuthResult::Cancel);
    assert_eq!(AuthResult::from_exit_code(Some(-1)), AuthResult::Failed);
    assert_eq!(AuthResult::from_exit_code(Some(3)), AuthResult::Failed);
    assert_eq!(AuthResult::from_exit_code(None), AuthResult::Failed);
    assert_eq!((EXIT_OK, EXIT_FAILED, EXIT_CANCEL), (0, 1, 2));
}

#[test]
fn frames_are_lines() {
    assert_eq!(frame_line("{}"), "{}\n");
    assert_eq!(frame_line(""), "\n");
}

#[test]
fn characters_go_back_and_forth() {
    let text = "a密•é\u{1f511}";
    let chars = to_chars(text);
    assert_eq!(chars.len(), 5);
    assert_eq!(from_chars(&chars), text);
    assert_eq!(from_chars(&[]), "");
}

#[test]
fn texts_are_compared_and_joined() {
    assert!(str_eq("abc", "abc"));
    assert!(!str_eq("abc", "abC"));
    assert!(str_eq("", ""));
    assert_eq!(join2("a", "b"), "ab");
    assert_eq!(join3("a", "", "c"), "ac");
}

#[test]
fn texts_are_searched() {
    assert!(contains("认证失败：x", "失败"));
    assert!(!contains("认证超时", "失败"));
    assert!(contains("abc", ""));
    assert!(contains("aab", "ab"));
    assert!(!contains("a", "ab"));
}

#[test]
fn prefixes_are_taken_off() {
    assert_eq!(strip_prefix("--locale=de", "--locale="), Some("de".to_string()));
    assert_eq!(strip_prefix("--locale=", "--locale="), Some(String::new()));
    assert_eq!(strip_prefix("--locale", "--locale="), None);
    assert_eq!(strip_prefix("x--locale=", "--locale="), None);
}

#[test]
fn lines_are_split_as_std_does() {
    for text in ["", "a", "a\n", "a\nb", "a\r\nb\r\n", "\n", "\n\n", "a\rb", "a\r", "密\n码", "\r\n"] {
        let expected: Vec<&str> = text.lines().collect();
        assert_eq!(lines(text), expected, "{text:?}");
    }
}

#[test]
fn table_keeps_one_value_per_text() {
    let mut t: Table<u32> = Table::new();
    assert!(t.get("a").is_none());
    t.insert("a".to_string(), 1);
    t.insert("b".to_string(), 2);
    t.insert("a".to_string(), 3);
    assert_eq!(t.get("a"), Some(&3));
    assert_eq!(t.get("b"), Some(&2));
    assert_eq!(t.remove("a"), Some(3));
    assert_eq!(t.remove("a"), None);
    assert_eq!(t.get("b"), Some(&2));
}

#[test]
fn hashes_are_fnv1a() {
    assert_eq!(fnv1a_hex(""), "cbf29ce484222325");
    assert_eq!(fnv1a_hex("a"), "af63dc4c8601ec8c");
    assert_eq!(fnv1a_hex("foobar"), "85944171f73967e8");
    assert_eq!(fnv1a_hex("认证"), "c1e3c3a0117484e3");
}

#[test]
fn hashes_have_sixteen_digits() {
    let hash = fnv1a_hex("c0");
    assert_eq!(hash, "08a27e07b54a66a6");
    assert_eq!(hash.len(), 16);
}

#[test]
fn cookies_are_hashed_in_logs() {
    let mut log = CookieLog::new(false);
    assert_eq!(log_cookie(&mut log, "foobar"), "85944171f73967e8");
    assert_eq!(log_cookie(&mut log, "foobar"), "85944171f73967e8");
    assert_eq!(log_cookie(&mut log, "a"), "af63dc4c8601ec8c");
}

#[test]
fn cookies_are_whole_on_request() {
    let mut log = CookieLog::new(true);
    assert_eq!(log_cookie(&mut log, "foobar"), "foobar");
}

#[test]
fn numbers_are_parsed_as_std_does() {
    for text in [
        "", "0", "30", "+5", "-5", "+", "-", " 5", "5 ", "007", "18446744073709551615",
        "18446744073709551616", "99999999999999999999999", "1e3", "٣", "1_000",
    ] {
        assert_eq!(parse_number(text), text.parse::<u64>().ok(), "{text:?}");
    }
}

#[test]
fn timeout_comes_from_the_environment() {
    assert_eq!(input_timeout(None), 30);
    assert_eq!(input_timeout(Some("")), 30);
    assert_eq!(input_timeout(Some("abc")), 30);
    assert_eq!(input_timeout(Some("5")), 5);
    assert_eq!(input_timeout(Some("0")), 0);
}

#[test]
fn activity_restarts_the_wait() {
    let sec = NANOS_PER_SEC;
    assert!(!is_expired(0, 30 * sec - 1, 30));
    assert!(is_expired(0, 30 * sec, 30));
    assert!(!is_expired(29 * sec, 30 * sec, 30));
    assert!(is_expired(5, 5, 0));
    assert_eq!(remaining(0, 10 * sec, 30), 20 * sec);
    assert_eq!(remaining(0, 31 * sec, 30), 0);
    assert_eq!(remaining(10, 5, 1), sec);
    assert!(!is_expired(0, u128::MAX / 2_000_000_000_000_000_000_000_000_000_000, u64::MAX));
}

#[test]
fn log_lines_go_to_the_output() {
    let sink = LogSink::new();
    assert_eq!(line_of(log_line(&sink, true, Some(3), "hello")), "hello");
    assert_eq!(line_of(log_line(&sink, false, None, "hello")), "hello");
}

#[test]
fn log_lines_keep_out_of_the_dialog() {
    let mut sink = LogSink::new();
    set_tui_active(&mut sink, true);
    assert_eq!(corner_of(log_line(&sink, true, Some(4), "hello")), "hel");
    assert_eq!(corner_of(log_line(&sink, true, Some(0), "hello")), "");
    assert_eq!(corner_of(log_line(&sink, true, None, &"x".repeat(100))), "x".repeat(79));
    assert_eq!(line_of(log_line(&sink, false, Some(4), "hello")), "hello");
    set_tui_active(&mut sink, false);
    assert_eq!(line_of(log_line(&sink, true, Some(4), "hello")), "hello");
}

#[test]
fn wide_characters_take_two_columns() {
    assert_eq!(truncate("密码ab", 3), "密");
    assert_eq!(truncate("密码ab", 4), "密码");
    assert_eq!(truncate("密码ab", 5), "密码a");
    assert_eq!(truncate("密码ab", 6), "密码ab");
    assert_eq!(truncate("密", 1), "");
    assert_eq!(truncate("e\u{301}x", 1), "e\u{301}");
    assert_eq!(truncate("\u{7}\u{1b}a", 1), "\u{7}\u{1b}a");
}

#[test]
fn helper_over_the_socket() {
    let (mut session, first) = HelperSession::connect(true, "alice", "cookie");
    assert!(matches!(first, HelperAction::OpenSocket(p) if p == SOCKET_PATH));
    assert!(matches!(session.advance(HelperReply::Done), HelperAction::Write(t) if t == "alice\n"));
    assert!(matches!(session.advance(HelperReply::Done), HelperAction::Write(t) if t == "cookie\n"));
    assert!(matches!(session.advance(HelperReply::Done), HelperAction::Ready));
    assert_eq!(session.stage(), Stage::Ready);
    assert_eq!(session.respond("secret"), "secret\n");
}

#[test]
fn helper_as_a_process() {
    let (mut session, first) = HelperSession::connect(false, "alice", "cookie");
    assert!(matches!(first, HelperAction::Spawn { program, argument }
        if program == HELPER_BIN && argument == "alice"));
    assert!(matches!(session.advance(HelperReply::Done), HelperAction::Write(t) if t == "cookie\n"));
    assert!(matches!(session.advance(HelperReply::Done), HelperAction::Ready));
}

#[test]
fn helper_that_cannot_be_reached() {
    let fail = |socket: bool, reply: HelperReply| {
        let (mut session, _) = HelperSession::connect(socket, "alice", "cookie");
        let action = session.advance(reply);
        assert_eq!(session.stage(), Stage::Broken);
        match action {
            HelperAction::Fail(e) => e,
            other => panic!("{other:?}"),
        }
    };
    assert_eq!(
        fail(true, HelperReply::Failed("no".to_string())),
        "failed to connect to /run/polkit/agent-helper.socket: no"
    );
    assert_eq!(
        fail(false, HelperReply::Failed("no".to_string())),
        "failed to spawn /usr/lib/polkit-1/polkit-agent-helper-1: no"
    );
    assert_eq!(fail(false, HelperReply::NoStdin), "helper stdin unavailable");
    assert_eq!(fail(false, HelperReply::NoStdout), "helper stdout unavailable");
    let (mut session, _) = HelperSession::connect(true, "alice", "cookie");
    session.advance(HelperReply::Done);
    assert!(matches!(session.advance(HelperReply::Failed("no".to_string())),
        HelperAction::Fail(e) if e == "failed to write to helper: no"));
    assert_eq!(write_error("x"), "failed to write to helper: x");
    assert_eq!(read_error("x"), "failed to read from helper: x");
}

#[test]
fn helper_lines() {
    let (session, _) = HelperSession::connect(true, "alice", "cookie");
    let read = |line: &str| format!("{:?}", session.next_message(line));
    let shown = |m: PamMessage| format!("{:?}", Some(m));
    let text = |t: &str| t.to_string();
    assert_eq!(read("PAM_PROMPT_ECHO_OFF Password: \n"), shown(PamMessage::PromptEchoOff(text("Password: "))));
    assert_eq!(read("PAM_PROMPT_ECHO_ON Code:\n"), shown(PamMessage::PromptEchoOn(text("Code:"))));
    assert_eq!(read("PAM_ERROR_MSG bad\r\n"), shown(PamMessage::Error(text("bad"))));
    assert_eq!(read("PAM_TEXT_INFO hi  there\n"), shown(PamMessage::Info(text("hi  there"))));
    assert_eq!(read("SUCCESS\n"), shown(PamMessage::Success));
    assert_eq!(read("FAILURE"), shown(PamMessage::Failure));
    assert_eq!(read("PAM_PROMPT_ECHO_OFF\n"), shown(PamMessage::PromptEchoOff(text(""))));
    assert_eq!(read("SOMETHING else\n"), shown(PamMessage::Info(text("SOMETHING else"))));
    assert_eq!(read("\n"), shown(PamMessage::Info(text(""))));
    assert_eq!(read(""), "None");
}
