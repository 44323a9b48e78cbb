use polkit_tui_agent::dialog::{
    centered_rect, mask, password_row, render, render_full, rows_for_columns, wrapped_line_count,
    Color, Cursor,
    Dialog, Rect, PASSWORD_LABEL, PASSWORD_LABEL_W,
};
use polkit_tui_agent::screen::{Screen, ScreenVerdict};
use polkit_tui_agent::ui::{
    send_answer, Action, App, KeyCode, KeyEvent, PromptAnswer, PromptState, UiEvent,
};

fn key(code: KeyCode) -> KeyEvent {
    KeyEvent { code, control: false }
}

fn ctrl(c: char) -> KeyEvent {
    KeyEvent { code: KeyCode::Char(c), control: true }
}

fn prompt(cookie: &str, status: &str, reply: u64) -> UiEvent {
    UiEvent::Prompt {
        cookie: cookie.to_string(),
        action_id: "org.example.run".to_string(),
        message: "Authentication is required".to_string(),
        username: "alice".to_string(),
        status: status.to_string(),
        reply,
    }
}

fn opened() -> App {
    let mut app = App::new();
    app.on_event(prompt("c1", "", 7));
    app
}

fn type_text(app: &mut App, text: &str) {
    for c in text.chars() {
        assert!(app.handle_key(key(KeyCode::Char(c))).is_none());
    }
}

fn typed(app: &App) -> String {
    app.input().iter().collect()
}

fn texts(dialog: &Dialog) -> Vec<String> {
    dialog.lines.iter().map(|l| l.iter().map(|s| s.text.as_str()).collect::<String>()).collect()
}

fn rect(x: u16, y: u16, width: u16, height: u16) -> Rect {
    Rect { x, y, width, height }
}

#[test]
fn keys_edit_the_password() {
    let mut app = opened();
    type_text(&mut app, "密码x");
    assert_eq!((typed(&app).as_str(), app.cursor()), ("密码x", 3));
    app.handle_key(key(KeyCode::Left));
    app.handle_key(key(KeyCode::Backspace));
    assert_eq!((typed(&app).as_str(), app.cursor()), ("密x", 1));
    app.handle_key(key(KeyCode::Home));
    app.handle_key(key(KeyCode::Backspace));
    app.handle_key(key(KeyCode::Left));
    assert_eq!((typed(&app).as_str(), app.cursor()), ("密x", 0));
    type_text(&mut app, "a");
    assert_eq!((typed(&app).as_str(), app.cursor()), ("a密x", 1));
    app.handle_key(key(KeyCode::End));
    app.handle_key(key(KeyCode::Right));
    assert_eq!(app.cursor(), 3);
    app.handle_key(key(KeyCode::Other));
    app.handle_key(ctrl('a'));
    assert_eq!((typed(&app).as_str(), app.cursor()), ("a密x", 3));
}

#[test]
fn backspace_undoes_typing() {
    let mut app = opened();
    type_text(&mut app, "ab");
    app.handle_key(key(KeyCode::Left));
    type_text(&mut app, "z");
    app.handle_key(key(KeyCode::Backspace));
    assert_eq!((typed(&app).as_str(), app.cursor()), ("ab", 1));
}

#[test]
fn enter_submits_what_was_typed() {
    let mut app = opened();
    assert!(app.handle_key(key(KeyCode::Enter)).is_none());
    type_text(&mut app, "geheim•密");
    let action = app.handle_key(key(KeyCode::Enter));
    assert!(matches!(&action, Some(Action::Submit(p)) if p == "geheim•密"));
    assert_eq!(app.prompt().unwrap().state, PromptState::Verifying);
    assert_eq!((typed(&app).as_str(), app.cursor()), ("", 0));
    let sent = send_answer(&mut app, action.unwrap());
    assert!(matches!(sent, Some((7, PromptAnswer::Submit(p))) if p == "geheim•密"));
}

#[test]
fn verifying_locks_the_input() {
    let mut app = opened();
    type_text(&mut app, "a");
    let action = app.handle_key(key(KeyCode::Enter)).unwrap();
    send_answer(&mut app, action);
    type_text(&mut app, "b");
    assert_eq!(typed(&app), "");
    assert!(app.handle_key(key(KeyCode::Enter)).is_none());
    assert!(matches!(app.handle_key(key(KeyCode::Esc)), Some(Action::Cancel)));
    assert!(matches!(app.handle_key(ctrl('c')), Some(Action::Cancel)));
    assert!(send_answer(&mut app, Action::Cancel).is_none());
}

#[test]
fn escape_and_interrupt_cancel() {
    let mut app = opened();
    assert!(matches!(app.handle_key(key(KeyCode::Esc)), Some(Action::Cancel)));
    assert!(matches!(app.handle_key(ctrl('c')), Some(Action::Cancel)));
    let mut empty = App::new();
    assert!(empty.handle_key(key(KeyCode::Esc)).is_none());
    assert!(empty.handle_key(key(KeyCode::Char('x'))).is_none());
    assert!(matches!(empty.handle_key(ctrl('c')), Some(Action::Cancel)));
    assert!(send_answer(&mut empty, Action::Cancel).is_none());
}

#[test]
fn events_for_others_change_nothing() {
    let mut app = opened();
    type_text(&mut app, "ab");
    app.on_event(UiEvent::Cancel { cookie: "c2".to_string() });
    app.on_event(UiEvent::Dismiss { cookie: "c2".to_string() });
    app.on_event(UiEvent::Status { cookie: "c2".to_string(), text: "x".to_string() });
    assert_eq!(app.prompt().unwrap().status, "");
    assert_eq!(typed(&app), "ab");
    app.on_event(UiEvent::Status { cookie: "c1".to_string(), text: "x".to_string() });
    assert_eq!(app.prompt().unwrap().status, "x");
    app.on_event(UiEvent::Dismiss { cookie: "c1".to_string() });
    assert!(app.prompt().is_none());
    app.on_event(prompt("c1", "", 8));
    app.on_event(UiEvent::Cancel { cookie: "c1".to_string() });
    assert!(app.prompt().is_none());
}

#[test]
fn a_new_dialog_starts_empty() {
    let mut app = opened();
    type_text(&mut app, "ab");
    app.on_event(prompt("c2", "认证失败，请重试", 9));
    assert_eq!((typed(&app).as_str(), app.cursor()), ("", 0));
    let a = app.prompt().unwrap();
    assert_eq!((a.cookie.as_str(), a.status.as_str(), a.reply), ("c2", "认证失败，请重试", Some(9)));
    app.retry("again".to_string());
    assert_eq!(app.prompt().unwrap().status, "again");
}

#[test]
fn popups_have_no_channel() {
    let mut app = App::new();
    app.open_prompt("c".to_string(), "act".to_string(), "msg".to_string(), "bob".to_string());
    let a = app.prompt().unwrap();
    assert_eq!(a.reply, None);
    assert_eq!((a.action_id.as_str(), a.message.as_str(), a.username.as_str()), ("act", "msg", "bob"));
    assert!(send_answer(&mut app, Action::Cancel).is_none());
}

#[test]
fn passwords_are_masked() {
    assert_eq!(mask(&['a', '密', 'c']), "•••");
    assert_eq!(mask(&[]), "");
    let mut a = opened();
    type_text(&mut a, "secret");
    let mut b = opened();
    type_text(&mut b, "geheim");
    let screen = rect(0, 0, 100, 50);
    let shown = format!("{:?}", render(screen, &a));
    assert_eq!(shown, format!("{:?}", render(screen, &b)));
    assert!(!shown.contains("secret"));
    assert!(shown.contains("••••••"));
}

#[test]
fn rows_of_wrapped_text() {
    assert_eq!(wrapped_line_count("", 10), 1);
    assert_eq!(wrapped_line_count("abc", 0), 0);
    assert_eq!(wrapped_line_count("abcdefghij", 10), 1);
    assert_eq!(wrapped_line_count("abcdefghijk", 10), 2);
    assert_eq!(wrapped_line_count("密码密码密", 10), 1);
    assert_eq!(wrapped_line_count("密码密码密码", 10), 2);
    assert_eq!(wrapped_line_count("a\n\nb", 10), 2);
    assert_eq!(wrapped_line_count("abcdefghijk\nab", 10), 3);
}

#[test]
fn the_label_takes_six_columns() {
    assert_eq!(wrapped_line_count(PASSWORD_LABEL, PASSWORD_LABEL_W as usize), 1);
    assert_eq!(wrapped_line_count(PASSWORD_LABEL, PASSWORD_LABEL_W as usize - 1), 2);
}

#[test]
fn rows_of_a_line() {
    assert_eq!(rows_for_columns(0, 10), 0);
    assert_eq!(rows_for_columns(10, 10), 1);
    assert_eq!(rows_for_columns(11, 10), 2);
    assert_eq!(rows_for_columns(7, 1), 7);
    assert_eq!(rows_for_columns(usize::MAX, 2), usize::MAX / 2 + 1);
}

#[test]
fn the_log_row_stands_above_the_dialog() {
    let app = opened();
    for height in 2..=120 {
        assert!(render(rect(0, 0, 80, height), &app).unwrap().area.y >= 1, "{height}");
    }
    assert_eq!(render(rect(0, 0, 80, 1), &app).unwrap().area, rect(16, 0, 48, 1));
}

#[test]
fn password_stands_below_the_message() {
    assert_eq!(password_row(rect(1, 5, 10, 10), 2), 10);
}

#[test]
fn dialogs_are_centered() {
    assert_eq!(centered_rect(60, 40, rect(0, 0, 100, 50)), rect(20, 15, 60, 20));
    assert_eq!(centered_rect(60, 40, rect(10, 4, 50, 10)), rect(20, 7, 30, 4));
    assert_eq!(centered_rect(100, 100, rect(3, 4, 7, 9)), rect(3, 4, 7, 9));
    assert_eq!(centered_rect(60, 40, rect(0, 0, 0, 0)), rect(0, 0, 0, 0));
}

/// Whether `count` from `first` on is `percent` of `len` from `start` on, in the middle.
fn in_the_middle(percent: u16, start: u16, len: u16, first: u16, count: u16) -> bool {
    let (from, to) = (start as i64, start.saturating_add(len) as i64);
    let free = (100 - (percent as i64).min(100)) * (to - from);
    let nearest = |hundredths: i64| (hundredths + 50).div_euclid(100);
    let (first, last) = (first as i64, first as i64 + count as i64);
    nearest(100 * from + free / 2) <= first
        && first <= nearest(100 * from + (free + 1) / 2)
        && nearest(100 * to - (free + 1) / 2) <= last
        && last <= nearest(100 * to - free / 2)
}

fn centered_everywhere(percents: &[u16], starts: &[u16], lens: &[u16]) {
    for &p in percents {
        for &start in starts {
            for &len in lens {
                let r = centered_rect(p, p, rect(start, 3, len, 7));
                assert!(in_the_middle(p, start, len, r.x, r.width), "{p} {start} {len} {r:?}");
                assert!(in_the_middle(p, 3, 7, r.y, r.height), "{p} {r:?}");
                let r = centered_rect(p, p, rect(3, start, 7, len));
                assert!(in_the_middle(p, start, len, r.y, r.height), "{p} {start} {len} {r:?}");
            }
        }
    }
}

#[test]
fn every_percentage_is_centered() {
    let percents: Vec<u16> = (0..=102).chain([150, 1000, 40000, 65535]).collect();
    centered_everywhere(&percents, &[0, 7], &[0, 1, 2, 3, 13, 24, 25, 80, 131, 999, 65535]);
}

#[test]
fn every_screen_is_centered() {
    let lens: Vec<u16> = (0..=260).collect();
    centered_everywhere(&[40, 60], &[0], &lens);
    centered_everywhere(&[40, 60, 33], &[65530, 65535], &[0, 1, 4, 5, 6, 100, 65535]);
}

#[test]
fn the_dialog_while_editing() {
    let mut app = opened();
    type_text(&mut app, "abc");
    app.handle_key(key(KeyCode::Left));
    let d = render_full(rect(0, 0, 40, 12), &app).unwrap();
    assert_eq!(
        texts(&d),
        ["用户: alice", "", "Authentication is required", "", "密码: •••", "回车 确认   Esc 取消"]
    );
    let title: String = d.title.iter().map(|s| s.text.as_str()).collect();
    assert_eq!(title, "polkit  org.example.run");
    assert!(d.title[0].bold && d.title[0].color == Color::Cyan);
    assert_eq!(d.area, rect(0, 0, 40, 12));
    assert_eq!(d.inner, rect(1, 1, 38, 10));
    assert_eq!(d.cursor, Cursor::At { x: 9, y: 5 });
}

#[test]
fn the_dialog_while_verifying() {
    let mut app = opened();
    type_text(&mut app, "abc");
    app.handle_key(key(KeyCode::Enter));
    app.on_event(UiEvent::Status { cookie: "c1".to_string(), text: "Password:".to_string() });
    let d = render_full(rect(0, 0, 40, 12), &app).unwrap();
    assert_eq!(
        texts(&d),
        ["用户: alice", "", "Authentication is required", "", "正在验证…", "Password:"]
    );
    assert_eq!(d.lines[5][0].color, Color::Yellow);
    assert_eq!(d.cursor, Cursor::Hidden);
}

#[test]
fn failures_are_red() {
    for (status, color) in [
        ("认证失败，请重试", Color::Red),
        ("一个错误", Color::Red),
        ("认证超时，请重试", Color::Yellow),
    ] {
        let mut app = App::new();
        app.on_event(prompt("c1", status, 1));
        let d = render_full(rect(0, 0, 40, 12), &app).unwrap();
        assert_eq!(d.lines[5][0].text, status);
        assert_eq!(d.lines[5][0].color, color);
        assert_eq!(d.lines.len(), 7);
    }
}

#[test]
fn the_dialog_of_the_agent_is_in_the_middle() {
    let app = opened();
    let d = render(rect(0, 0, 100, 50), &app).unwrap();
    assert_eq!(d.area, rect(20, 15, 60, 20));
    assert_eq!(d.inner, rect(21, 16, 58, 18));
    assert_eq!(d.cursor, Cursor::At { x: 27, y: 20 });
    assert!(render(rect(0, 0, 100, 50), &App::new()).is_none());
    assert!(render_full(rect(0, 0, 100, 50), &App::new()).is_none());
}

#[test]
fn borders_of_small_dialogs() {
    let app = opened();
    assert_eq!(render_full(rect(5, 6, 0, 0), &app).unwrap().inner, rect(5, 6, 0, 0));
    assert_eq!(render_full(rect(5, 6, 1, 1), &app).unwrap().inner, rect(6, 7, 0, 0));
    assert_eq!(render_full(rect(5, 6, 2, 3), &app).unwrap().inner, rect(6, 7, 0, 1));
    let far = render_full(rect(65530, 0, 5, 10), &app).unwrap();
    assert_eq!(far.cursor, Cursor::OutOfRange);
}

#[test]
fn the_cursor_stays_in_the_dialog() {
    let mut app = opened();
    type_text(&mut app, &"x".repeat(100));
    let d = render_full(rect(0, 0, 40, 12), &app).unwrap();
    assert_eq!(d.cursor, Cursor::At { x: 38, y: 5 });
}

#[test]
fn quitting_needs_an_empty_screen() {
    let mut screen = Screen::new();
    assert!(matches!(screen.on_key(key(KeyCode::Char('x'))), ScreenVerdict::Continue));
    assert!(matches!(screen.on_key(key(KeyCode::Char('q'))), ScreenVerdict::Quit));
    assert!(matches!(screen.on_key(ctrl('c')), ScreenVerdict::Quit));
    screen.on_event(prompt("c1", "", 3));
    assert!(matches!(screen.on_key(key(KeyCode::Char('q'))), ScreenVerdict::Continue));
    assert_eq!(typed(screen.app()), "q");
    assert!(matches!(screen.on_key(ctrl('c')), ScreenVerdict::Answer(3, PromptAnswer::Cancel)));
    assert!(matches!(screen.on_key(ctrl('c')), ScreenVerdict::Continue));
}

#[test]
fn answers_go_to_their_channel_once() {
    let mut screen = Screen::new();
    screen.on_event(prompt("c1", "", 3));
    screen.on_key(key(KeyCode::Char('p')));
    let verdict = screen.on_key(key(KeyCode::Enter));
    assert!(matches!(verdict, ScreenVerdict::Answer(3, PromptAnswer::Submit(p)) if p == "p"));
    assert!(matches!(screen.on_key(key(KeyCode::Esc)), ScreenVerdict::Continue));
}

#[test]
fn new_dialogs_are_drawn_anew() {
    let mut screen = Screen::new();
    assert!(!screen.take_full_redraw());
    screen.on_event(prompt("c1", "", 3));
    screen.on_event(UiEvent::Status { cookie: "c1".to_string(), text: "x".to_string() });
    assert!(screen.take_full_redraw());
    assert!(!screen.take_full_redraw());
    screen.on_event(UiEvent::Dismiss { cookie: "c1".to_string() });
    assert!(!screen.take_full_redraw());
}
