use polkit_tui_agent::agent::{daemon_outcome, Agent, CancelNotice, Forwarded, PolkitError, Task, Turn};
use polkit_tui_agent::daemon::{conclude, start_plan, Daemon, Rejection, RequestEnd, SocketProbe};
use polkit_tui_agent::inline::{
    ConnectOutcome, InlineAction, InlineAuth, InlineEvent, Phase, Received,
};
use polkit_tui_agent::helper::PamMessage;
use polkit_tui_agent::idle::NANOS_PER_SEC;
use polkit_tui_agent::protocol::{AuthRequest, AuthResult, ClientMsg, ServerMsg};
use polkit_tui_agent::ui::{PromptAnswer, UiEvent};
use polkit_tui_agent::user::{
    choose_username, current_user, identity_uid, pick_username, same_user, username_of,
    DetailValue, Identity,
};

fn text(t: &str) -> String {
    t.to_string()
}

fn user(uid: u32) -> Identity {
    Identity { kind: text("unix-user"), details: vec![(text("uid"), DetailValue::U32(uid))] }
}

fn group(gid: u32) -> Identity {
    Identity { kind: text("unix-group"), details: vec![(text("gid"), DetailValue::U32(gid))] }
}

fn request(cookie: &str) -> AuthRequest {
    AuthRequest {
        cookie: text(cookie),
        user: text("alice"),
        action: text("org.example.run"),
        message: text("please"),
    }
}

fn begin(agent: &mut Agent, cookie: &str) -> u128 {
    agent.begin_as(text("act"), text("msg"), text(cookie), Some(text("alice"))).unwrap().ticket
}

#[test]
fn users_have_a_number() {
    assert_eq!(identity_uid(&user(1000)), Some(1000));
    assert_eq!(identity_uid(&group(1000)), None);
    let mut odd = user(1);
    odd.details = vec![(text("uid"), DetailValue::Other)];
    assert_eq!(identity_uid(&odd), None);
    odd.details = vec![(text("name"), DetailValue::U32(1))];
    assert_eq!(identity_uid(&odd), None);
    odd.details = vec![];
    assert_eq!(identity_uid(&odd), None);
}

#[test]
fn names_in_order_of_preference() {
    let pick = |ids: Vec<Identity>, mine: Option<&str>, root: Option<&str>, first: Option<&str>| {
        choose_username(&ids, 1000, mine.map(text), root.map(text), first.map(text))
    };
    let all = || vec![user(5), user(0), user(1000)];
    assert_eq!(pick(all(), Some("me"), Some("root"), Some("five")), Some(text("me")));
    assert_eq!(pick(all(), None, Some("root"), Some("five")), Some(text("root")));
    assert_eq!(pick(all(), None, None, Some("five")), Some(text("five")));
    assert_eq!(pick(all(), None, None, None), None);
    assert_eq!(pick(vec![user(5)], Some("me"), Some("root"), Some("five")), Some(text("five")));
    assert_eq!(pick(vec![], Some("me"), Some("root"), Some("five")), None);
}

#[test]
fn other_kinds_are_skipped() {
    let ids = vec![group(7), user(5)];
    assert_eq!(choose_username(&ids, 1000, None, None, Some(text("five"))), Some(text("five")));
    let ids = vec![group(7), group(8)];
    assert_eq!(choose_username(&ids, 7, Some(text("me")), None, Some(text("x"))), None);
    assert_eq!(pick_username(&ids), None);
}

#[test]
fn the_current_user_is_picked() {
    let current = uzers::get_current_uid();
    if let Some(me) = uzers::get_user_by_uid(current) {
        let name = me.name().to_string_lossy().into_owned();
        assert_eq!(pick_username(&vec![group(1), user(current)]), Some(name));
    }
    let nobody = vec![user(4_000_000_001)];
    let known = uzers::get_user_by_uid(4_000_000_001).map(|u| u.name().to_string_lossy().into_owned());
    assert_eq!(pick_username(&nobody), known);
}

#[test]
fn the_system_is_asked() {
    let current = uzers::get_current_uid();
    assert_eq!(current_user(), current);
    let name = |uid: u32| uzers::get_user_by_uid(uid).map(|u| u.name().to_string_lossy().into_owned());
    for uid in [0, current, 4_000_000_001] {
        assert_eq!(username_of(uid), name(uid));
    }
}

#[test]
fn turns_in_the_order_of_beginning() {
    let mut agent = Agent::daemon();
    let tickets: Vec<(u128, String)> =
        ["a", "b", "c", "d"].iter().map(|c| (begin(&mut agent, c), text(c))).collect();
    agent.cancel_authentication(text("c"));
    let mut served: Vec<String> = Vec::new();
    while served.len() < 3 {
        for (ticket, cookie) in tickets.iter().rev() {
            if agent.is_waiting(*ticket) && agent.poll(cookie, *ticket) == Turn::Granted {
                served.push(cookie.clone());
                for (other, name) in &tickets {
                    if agent.is_waiting(*other) {
                        assert_ne!(agent.poll(name, *other), Turn::Granted);
                    }
                }
                agent.finish(cookie);
            }
        }
    }
    assert_eq!(served, ["a", "b", "d"]);
}

#[test]
fn peers_are_compared() {
    assert!(same_user(Some(5), 5));
    assert!(!same_user(Some(6), 5));
    assert!(!same_user(None, 5));
}

#[test]
fn authentications_wait_for_their_turn() {
    let mut agent = Agent::inline();
    let first = agent.begin_as(text("act"), text("msg"), text("a"), Some(text("alice"))).unwrap();
    assert!(!first.queued);
    assert_eq!(
        (first.req.cookie.as_str(), first.req.user.as_str(), first.req.action.as_str()),
        ("a", "alice", "act")
    );
    let second = agent.begin_as(text("act"), text("msg"), text("b"), Some(text("alice"))).unwrap();
    assert!(second.queued);
    assert_eq!(agent.poll("b", second.ticket), Turn::Wait);
    assert_eq!(agent.poll("a", first.ticket), Turn::Granted);
    assert!(!agent.is_waiting(first.ticket));
    assert_eq!(agent.poll("b", second.ticket), Turn::Wait);
    agent.finish("a");
    assert_eq!(agent.poll("b", second.ticket), Turn::Granted);
}

#[test]
fn authentication_without_a_user_fails() {
    let mut agent = Agent::inline();
    let r = agent.begin_as(text("act"), text("msg"), text("a"), None);
    assert!(matches!(r, Err(PolkitError::Failed)));
    let r = agent.begin_authentication(text("act"), text("msg"), text("a"), &vec![group(3)]);
    assert!(matches!(r, Err(PolkitError::Failed)));
    let b = begin(&mut agent, "b");
    assert_eq!(agent.poll("b", b), Turn::Granted);
}

#[test]
fn requests_go_to_the_backend() {
    let task = Agent::inline().assign(request("a"));
    assert!(matches!(task, Task::Ask(req) if req.cookie == "a" && req.user == "alice"));
    let task = Agent::daemon().assign(request("a"));
    assert!(matches!(task, Task::Forward(req) if req.cookie == "a" && req.user == "alice"));
}

#[test]
fn authentication_of_a_candidate() {
    let current = uzers::get_current_uid();
    let known = uzers::get_user_by_uid(current).map(|u| u.name().to_string_lossy().into_owned());
    let mut agent = Agent::inline();
    let r = agent.begin_authentication(text("act"), text("msg"), text("a"), &vec![user(current)]);
    assert_eq!(r.ok().map(|b| b.req.user), known);
}

#[test]
fn tickets_are_free_again() {
    let mut agent = Agent::inline();
    let a = begin(&mut agent, "a");
    let b = begin(&mut agent, "b");
    assert_eq!((a, b), (0, 1));
    assert_eq!(agent.poll("a", a), Turn::Granted);
    assert_eq!(begin(&mut agent, "c"), 2);
    agent.finish("a");
    assert_eq!(begin(&mut agent, "d"), 0);
    assert_eq!(agent.poll("d", 0), Turn::Wait);
    assert_eq!(agent.poll("b", b), Turn::Granted);
}

#[test]
fn the_same_cookie_twice() {
    let mut agent = Agent::inline();
    let first = begin(&mut agent, "a");
    let second = begin(&mut agent, "a");
    assert!(agent.is_given_up("a", first) && !agent.is_given_up("a", second));
    assert_eq!(agent.poll("a", first), Turn::Cancelled);
}

#[test]
fn cancelled_while_waiting() {
    let mut agent = Agent::inline();
    let a = begin(&mut agent, "a");
    let b = begin(&mut agent, "b");
    let c = begin(&mut agent, "c");
    assert_eq!(agent.poll("a", a), Turn::Granted);
    let notice = agent.cancel_authentication(text("b"));
    assert!(matches!(notice, CancelNotice::Ui(UiEvent::Cancel { cookie }) if cookie == "b"));
    assert_eq!(agent.poll("b", b), Turn::Cancelled);
    assert!(!agent.is_waiting(b));
    assert!(!agent.is_given_up("a", a));
    agent.finish("a");
    assert_eq!(agent.poll("c", c), Turn::Granted);
}

#[test]
fn cancelled_at_the_front() {
    let mut agent = Agent::daemon();
    let a = begin(&mut agent, "a");
    let notice = agent.cancel_authentication(text("a"));
    assert!(matches!(notice, CancelNotice::Daemon(cookie) if cookie == "a"));
    assert_eq!(agent.poll("a", a), Turn::Cancelled);
    let again = begin(&mut agent, "a");
    assert_eq!(agent.poll("a", again), Turn::Granted);
    agent.cancel_authentication(text("a"));
    assert!(agent.is_given_up("a", again));
}

#[test]
fn cancelling_what_is_not_there() {
    let mut agent = Agent::daemon();
    let a = begin(&mut agent, "a");
    agent.cancel_authentication(text("x"));
    assert!(!agent.is_given_up("a", a));
    assert_eq!(agent.poll("a", a), Turn::Granted);
}

#[test]
fn outcomes_of_the_daemon() {
    let after = |reply: Result<AuthResult, String>| daemon_outcome(&Forwarded::Replied(reply));
    assert_eq!(after(Ok(AuthResult::Success)), Ok(()));
    assert_eq!(after(Ok(AuthResult::Cancel)), Err(PolkitError::Cancelled));
    assert_eq!(after(Ok(AuthResult::Failed)), Err(PolkitError::Failed));
    assert_eq!(after(Err(text("x"))), Err(PolkitError::Failed));
    assert_eq!(daemon_outcome(&Forwarded::GivenUp), Err(PolkitError::Cancelled));
}

#[test]
fn sockets_before_the_start() {
    assert_eq!(start_plan("/s", SocketProbe::Absent), Ok(false));
    assert_eq!(start_plan("/s", SocketProbe::Stale), Ok(true));
    assert_eq!(
        start_plan("/s", SocketProbe::Alive),
        Err(text("another daemon is already listening on /s"))
    );
    assert_eq!(
        Daemon::start("/s", Err(text("denied"))).err(),
        Some(text("failed to bind /s: denied"))
    );
}

#[test]
fn connections_of_others_are_rejected() {
    let mut d = Daemon::start("/s", Ok(())).unwrap();
    assert_eq!(d.accept(None, 5), Err(Rejection::NoPeer));
    assert_eq!(d.accept(Some(6), 5), Err(Rejection::OtherUser(6)));
    assert_eq!(d.request(request("a")).err(), Some(text("no controller connected")));
    assert_eq!(d.accept(Some(5), 5), Ok(0));
    assert_eq!(d.accept(Some(5), 5), Ok(1));
}

#[test]
fn connections_of_the_current_user() {
    let mut d = Daemon::start("/s", Ok(())).unwrap();
    let current = uzers::get_current_uid();
    assert_eq!(d.accept_peer(Some(current)), Ok(0));
    assert_eq!(d.accept_peer(Some(current ^ 1)), Err(Rejection::OtherUser(current ^ 1)));
    assert_eq!(d.accept_peer(None), Err(Rejection::NoPeer));
}

#[test]
fn requests_are_answered_once() {
    let mut d = Daemon::start("/s", Ok(())).unwrap();
    d.accept(Some(5), 5).unwrap();
    let (id, out) = d.request(request("a")).unwrap();
    assert_eq!((id, out.generation), (1, 0));
    assert!(matches!(out.msg, ServerMsg::Request { id: 1, req } if req.cookie == "a"));
    assert!(d.is_open(id));
    let answer = ClientMsg::Response { id, result: AuthResult::Success };
    assert_eq!(d.on_message(Some(answer)), Some((1, AuthResult::Success)));
    assert_eq!(d.on_message(Some(answer)), None);
    assert_eq!(d.on_message(None), None);
    assert!(!d.is_open(id));
    assert_eq!(d.request(request("b")).unwrap().0, 2);
}

#[test]
fn requests_that_take_too_long() {
    let mut d = Daemon::start("/s", Ok(())).unwrap();
    d.accept(Some(5), 5).unwrap();
    let (id, _) = d.request(request("a")).unwrap();
    let out = d.time_out(id, "a").unwrap();
    assert!(matches!(out.msg, ServerMsg::Cancel { cookie } if cookie == "a"));
    assert!(!d.is_open(id));
    let late = ClientMsg::Response { id, result: AuthResult::Success };
    assert_eq!(d.on_message(Some(late)), None);
    let (other, _) = d.request(request("b")).unwrap();
    d.abandon(other);
    assert!(!d.is_open(other));
}

#[test]
fn a_lost_controller_fails_everything() {
    let mut d = Daemon::start("/s", Ok(())).unwrap();
    let old = d.accept(Some(5), 5).unwrap();
    let new = d.accept(Some(5), 5).unwrap();
    let (a, out) = d.request(request("a")).unwrap();
    assert_eq!(out.generation, new);
    let (b, _) = d.request(request("b")).unwrap();
    assert_eq!(d.disconnect(old), Vec::<(u64, AuthResult)>::new());
    assert!(d.is_open(a));
    assert_eq!(d.disconnect(new), vec![(a, AuthResult::Failed), (b, AuthResult::Failed)]);
    assert!(!d.is_open(a) && !d.is_open(b));
    assert!(d.cancel("a").is_none());
    assert_eq!(d.request(request("c")).err(), Some(text("no controller connected")));
}

#[test]
fn results_of_requests() {
    assert_eq!(conclude(RequestEnd::Answered(AuthResult::Cancel)), Ok(AuthResult::Cancel));
    assert_eq!(conclude(RequestEnd::SendFailed), Err(text("controller gone")));
    assert_eq!(conclude(RequestEnd::Dropped), Err(text("controller dropped the response")));
    assert_eq!(conclude(RequestEnd::TimedOut), Err(text("authentication timed out")));
}

fn did(actions: Vec<InlineAction>) -> Vec<String> {
    actions.iter().map(|a| format!("{a:?}")).collect()
}

fn message(m: PamMessage) -> InlineEvent {
    InlineEvent::Received(Received::Message(m))
}

fn status_of(auth: &InlineAuth) -> String {
    match auth.prompt_event(4) {
        UiEvent::Prompt { cookie, username, status, reply, .. } => {
            assert_eq!((cookie.as_str(), username.as_str(), reply), ("a", "alice", 4));
            status
        }
        other => panic!("{other:?}"),
    }
}

fn submitted(password: &str) -> InlineAuth {
    let mut auth = InlineAuth::new(request("a"), 30);
    assert_eq!(status_of(&auth), "");
    assert!(auth.step(InlineEvent::Prompted { at: 0 }).is_empty());
    let actions = auth.step(InlineEvent::Answer(PromptAnswer::Submit(text(password))));
    assert_eq!(did(actions), ["Connect { user: \"alice\", cookie: \"a\" }"]);
    auth
}

fn talking(password: &str) -> InlineAuth {
    let mut auth = submitted(password);
    assert_eq!(did(auth.step(InlineEvent::Connect(ConnectOutcome::Connected))), ["Read"]);
    auth
}

#[test]
fn a_password_that_is_accepted() {
    let mut auth = talking("geheim");
    let asked = auth.step(message(PamMessage::PromptEchoOff(text("Password: "))));
    assert_eq!(did(asked), ["Status(\"Password: \")", "Respond(\"geheim\")"]);
    assert_eq!(did(auth.step(InlineEvent::Responded)), ["Read"]);
    assert_eq!(did(auth.step(message(PamMessage::Success))), ["Dismiss", "Finish(Ok(()))"]);
    assert_eq!(auth.phase(), Phase::Done);
    assert!(auth.step(InlineEvent::Cancelled).is_empty());
}

#[test]
fn other_questions_get_an_empty_answer() {
    let mut auth = talking("geheim");
    let asked = auth.step(message(PamMessage::PromptEchoOn(text("Code:"))));
    assert_eq!(did(asked), ["Status(\"Code:\")", "Respond(\"\")"]);
    assert_eq!(did(auth.step(InlineEvent::RespondFailed(text("x")))), ["Read"]);
    let asked = auth.step(message(PamMessage::PromptEchoOff(text(""))));
    assert_eq!(did(asked), ["Respond(\"geheim\")"]);
}

#[test]
fn a_password_that_is_refused() {
    for ev in [
        message(PamMessage::Failure),
        InlineEvent::Received(Received::Eof),
        InlineEvent::Received(Received::ReadFailed),
    ] {
        let mut auth = talking("x");
        assert_eq!(did(auth.step(ev)), ["Prompt"]);
        assert_eq!(status_of(&auth), "认证失败，请重试");
    }
}

#[test]
fn what_the_helper_says_is_shown() {
    let mut auth = talking("x");
    assert_eq!(did(auth.step(message(PamMessage::Info(text("i1"))))), ["Status(\"i1\")", "Read"]);
    assert_eq!(did(auth.step(message(PamMessage::Info(text("i2"))))), ["Status(\"i2\")", "Read"]);
    assert_eq!(did(auth.step(message(PamMessage::Failure))), ["Prompt"]);
    assert_eq!(status_of(&auth), "i1");
    let mut auth = talking("x");
    auth.step(message(PamMessage::Info(text("i1"))));
    assert_eq!(did(auth.step(message(PamMessage::Error(text("e"))))), ["Status(\"e\")", "Read"]);
    auth.step(message(PamMessage::Failure));
    assert_eq!(status_of(&auth), "e");
}

#[test]
fn a_helper_that_cannot_be_asked() {
    let mut auth = submitted("x");
    auth.step(InlineEvent::Connect(ConnectOutcome::Failed(text("boom"))));
    assert_eq!(status_of(&auth), "认证失败：boom");
    let mut auth = submitted("x");
    auth.step(InlineEvent::Connect(ConnectOutcome::TimedOut));
    assert_eq!(status_of(&auth), "认证超时，请重试");
    let mut auth = talking("x");
    auth.step(InlineEvent::Received(Received::TimedOut));
    assert_eq!(status_of(&auth), "认证超时，请重试");
    let mut auth = talking("x");
    auth.step(message(PamMessage::PromptEchoOff(text("P"))));
    assert_eq!(did(auth.step(InlineEvent::RespondFailed(text("gone")))), ["Prompt"]);
    assert_eq!(status_of(&auth), "认证失败：gone");
}

#[test]
fn events_carry_the_cookie() {
    let auth = talking("x");
    assert!(matches!(auth.status_event(text("hm")), UiEvent::Status { cookie, text }
        if cookie == "a" && text == "hm"));
    assert!(matches!(auth.dismiss_event(), UiEvent::Dismiss { cookie } if cookie == "a"));
}

#[test]
fn giving_up() {
    let waiting = || {
        let mut auth = InlineAuth::new(request("a"), 30);
        auth.step(InlineEvent::Prompted { at: 0 });
        auth
    };
    let cancelled = ["Dismiss", "Finish(Err(Cancelled))"];
    assert_eq!(did(waiting().step(InlineEvent::Answer(PromptAnswer::Cancel))), cancelled);
    assert_eq!(did(waiting().step(InlineEvent::Cancelled)), cancelled);
    assert_eq!(did(waiting().step(InlineEvent::AnswerLost)), ["Finish(Err(Failed))"]);
    let mut auth = InlineAuth::new(request("a"), 30);
    assert_eq!(did(auth.step(InlineEvent::UiGone)), ["Finish(Err(Failed))"]);
}

#[test]
fn giving_up_while_checking() {
    let mut auth = talking("x");
    assert!(auth.step(InlineEvent::Cancelled).is_empty());
    assert_eq!(did(auth.step(message(PamMessage::Failure))), ["Prompt"]);
    let asked_again = auth.step(InlineEvent::Prompted { at: 9 });
    assert_eq!(did(asked_again), ["Dismiss", "Finish(Err(Cancelled))"]);
}

#[test]
fn idle_dialogs_fail() {
    let sec = NANOS_PER_SEC;
    let mut auth = InlineAuth::new(request("a"), 30);
    auth.step(InlineEvent::Prompted { at: 0 });
    assert_eq!(auth.idle_remaining(10 * sec), 20 * sec);
    assert!(auth.step(InlineEvent::Tick { now: 30 * sec - 1 }).is_empty());
    assert!(auth.step(InlineEvent::Activity { at: 20 * sec }).is_empty());
    assert!(auth.step(InlineEvent::Tick { now: 30 * sec }).is_empty());
    let late = auth.step(InlineEvent::Tick { now: 50 * sec });
    assert_eq!(did(late), ["Dismiss", "Finish(Err(Failed))"]);
}
