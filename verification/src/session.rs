//! The login session that the agent registers for.
//!
//! Polkit matches the session of an agent against that of the process that needs an
//! authentication, so the session has to be found the way polkit finds it.
use crate::text::{join3, str_eq};
use vstd::prelude::*;

verus! {

/// Where the agent's object stands on the bus.
pub const OBJECT_PATH: &'static str = "/org/EMeow/PolicyKit1/AuthenticationAgent";

/// The error when no session was found.
pub const TEXT_NO_SESSION: &'static str =
    "cannot determine current logind session; run inside a logind session or set XDG_SESSION_ID";

/// A question about the session.
#[derive(Debug, Clone, Copy, PartialEq, Eq, Structural)]
pub enum SessionQuery {
    /// In which session does this process run, according to logind?
    OwnSession,
    /// What is the graphical session of this user, according to logind?
    DisplaySession,
    /// What does `XDG_SESSION_ID` say?
    Environment,
}

/// How the search goes on.
#[derive(Debug)]
pub enum SessionStep {
    Ask(SessionQuery),
    Found(String),
    /// There is no session; the error is `TEXT_NO_SESSION`.
    NotFound,
}

/// The kind and the contents of a `SessionStep`.
#[verifier::ext_equal]
pub enum SessionStepView {
    Ask(SessionQuery),
    Found(Seq<char>),
    NotFound,
}

impl View for SessionStep {
    type V = SessionStepView;

    open spec fn view(&self) -> SessionStepView {
        match self {
            SessionStep::Ask(q) => SessionStepView::Ask(*q),
            SessionStep::Found(id) => SessionStepView::Found(id@),
            SessionStep::NotFound => SessionStepView::NotFound,
        }
    }
}

/// The search for the session.
#[derive(Debug)]
pub struct SessionSearch {
    uid_session: bool,
    asked: SessionQuery,
}

/// What a `SessionSearch` knows.
#[verifier::ext_equal]
pub struct SearchView {
    /// Only the graphical session counts.
    pub uid_session: bool,
    /// The question that was asked last.
    pub asked: SessionQuery,
}

impl View for SessionSearch {
    type V = SearchView;

    closed spec fn view(&self) -> SearchView {
        SearchView { uid_session: self.uid_session, asked: self.asked }
    }
}

/// The question with which a search begins.
pub open spec fn first_query(uid_session: bool) -> SessionQuery {
    if uid_session {
        SessionQuery::DisplaySession
    } else {
        SessionQuery::OwnSession
    }
}

/// The text of an answer; one that is empty counts as none.
pub open spec fn useful(answer: Option<Seq<char>>) -> Option<Seq<char>> {
    match answer {
        Some(id) => if id.len() > 0 {
            Some(id)
        } else {
            None
        },
        None => None,
    }
}

/// What an answer to the last question leads to.
pub open spec fn answered(s: SearchView, answer: Option<Seq<char>>) -> (
    SearchView,
    SessionStepView,
) {
    match useful(answer) {
        Some(id) => (s, SessionStepView::Found(id)),
        None => if s.uid_session {
            (s, SessionStepView::NotFound)
        } else {
            match s.asked {
                SessionQuery::OwnSession => (
                    SearchView { asked: SessionQuery::DisplaySession, ..s },
                    SessionStepView::Ask(SessionQuery::DisplaySession),
                ),
                SessionQuery::DisplaySession => (
                    SearchView { asked: SessionQuery::Environment, ..s },
                    SessionStepView::Ask(SessionQuery::Environment),
                ),
                SessionQuery::Environment => (s, SessionStepView::NotFound),
            }
        },
    }
}

/// The view of an answer.
pub open spec fn answer_view(answer: Option<String>) -> Option<Seq<char>> {
    match answer {
        Some(id) => Some(id@),
        None => None,
    }
}

impl SessionSearch {
    /// Begins a search: for the graphical session of the user alone, or for the session of this
    /// process.
    pub fn new(uid_session: bool) -> (r: (SessionSearch, SessionQuery))
        ensures
            r.0@ == (SearchView { uid_session, asked: first_query(uid_session) }),
            r.1 == first_query(uid_session),
    {
        let asked = if uid_session {
            SessionQuery::DisplaySession
        } else {
            SessionQuery::OwnSession
        };
        (SessionSearch { uid_session, asked }, asked)
    }

    /// Takes the answer to the last question.
    pub fn answer(&mut self, answer: Option<String>) -> (step: SessionStep)
        ensures
            (final(self)@, step@) == answered(old(self)@, answer_view(answer)),
    {
        match answer {
            Some(id) => {
                if !id.as_str().is_empty() {
                    return SessionStep::Found(id);
                }
            },
            None => {},
        }
        if self.uid_session {
            return SessionStep::NotFound;
        }
        match self.asked {
            SessionQuery::OwnSession => {
                self.asked = SessionQuery::DisplaySession;
                SessionStep::Ask(SessionQuery::DisplaySession)
            },
            SessionQuery::DisplaySession => {
                self.asked = SessionQuery::Environment;
                SessionStep::Ask(SessionQuery::Environment)
            },
            SessionQuery::Environment => SessionStep::NotFound,
        }
    }
}

/// A value in the details of a subject.
#[derive(Debug)]
pub enum SubjectValue {
    Str(String),
    /// Another kind of value, as it is written in a log.
    Other(String),
}

/// The kind and the text of a `SubjectValue`.
#[verifier::ext_equal]
pub enum SubjectValueView {
    Str(Seq<char>),
    Other(Seq<char>),
}

impl View for SubjectValue {
    type V = SubjectValueView;

    open spec fn view(&self) -> SubjectValueView {
        match self {
            SubjectValue::Str(s) => SubjectValueView::Str(s@),
            SubjectValue::Other(s) => SubjectValueView::Other(s@),
        }
    }
}

/// What the agent registers for.
#[derive(Debug)]
pub struct Subject {
    pub subject_kind: String,
    /// Values by name. No name occurs twice.
    pub subject_details: Vec<(String, SubjectValue)>,
}

/// The texts of a `Subject`.
#[verifier::ext_equal]
pub struct SubjectView {
    pub subject_kind: Seq<char>,
    pub subject_details: Seq<(Seq<char>, SubjectValueView)>,
}

impl View for Subject {
    type V = SubjectView;

    open spec fn view(&self) -> SubjectView {
        SubjectView {
            subject_kind: self.subject_kind@,
            subject_details: Seq::new(
                self.subject_details@.len(),
                |i: int| (self.subject_details@[i].0@, self.subject_details@[i].1@),
            ),
        }
    }
}

impl SubjectView {
    /// No name occurs twice.
    pub open spec fn wf(self) -> bool {
        forall|i: int, j: int|
            0 <= i < self.subject_details.len() && 0 <= j < self.subject_details.len()
                && (#[trigger] self.subject_details[i]).0 == (
            #[trigger] self.subject_details[j]).0 ==> i == j
    }

    /// The value `value` stands under `name`.
    pub open spec fn holds(self, name: Seq<char>, value: SubjectValueView) -> bool {
        self.subject_details.contains((name, value))
    }

    /// The session of this subject is called `id`: that is the text of its detail `session-id`, or
    /// empty without one.
    pub open spec fn session_is(self, id: Seq<char>) -> bool {
        ||| self.holds("session-id"@, SubjectValueView::Str(id))
        ||| self.holds("session-id"@, SubjectValueView::Other(id))
        ||| {
            &&& id.len() == 0
            &&& forall|i: int|
                0 <= i < self.subject_details.len() ==> (#[trigger] self.subject_details[i]).0
                    != "session-id"@
        }
    }
}

/// The subject for the session `id`.
pub open spec fn subject_of(id: Seq<char>) -> SubjectView {
    SubjectView {
        subject_kind: "unix-session"@,
        subject_details: seq![("session-id"@, SubjectValueView::Str(id))],
    }
}

/// The subject for the session `session_id`.
pub fn session_subject(session_id: &str) -> (subject: Subject)
    ensures
        subject@ == subject_of(session_id@),
        subject@.wf(),
{
    let details = vec![("session-id".to_owned(), SubjectValue::Str(session_id.to_owned()))];
    let subject = Subject { subject_kind: "unix-session".to_owned(), subject_details: details };
    assert(subject@.subject_details =~= subject_of(session_id@).subject_details);
    subject
}

/// What the session of a subject is called.
pub fn subject_session_id(subject: &Subject) -> (id: String)
    requires
        subject@.wf(),
    ensures
        subject@.session_is(id@),
{
    let n = subject.subject_details.len();
    for i in 0..n
        invariant
            n == subject.subject_details@.len(),
            forall|j: int| 0 <= j < i ==> (#[trigger] subject@.subject_details[j]).0 != "session-id"@,
    {
        let (name, value) = &subject.subject_details[i];
        assert(subject@.subject_details[i as int] == (name@, value@));
        if str_eq(name.as_str(), "session-id") {
            return match value {
                SubjectValue::Str(s) => s.clone(),
                SubjectValue::Other(s) => s.clone(),
            };
        }
    }
    String::new()
}

/// What is logged when the agent was registered for the session `id`.
pub open spec fn registration_of(kind: Seq<char>, id: Seq<char>, locale: Seq<char>) -> Seq<char> {
    "polkit-tui-agent: registered on "@ + OBJECT_PATH@ + " (subject="@ + kind + ", session="@ + id
        + ", locale="@ + locale + ")"@
}

/// What is logged when the agent was registered.
pub fn registration_line(subject: &Subject, locale: &str) -> (line: String)
    requires
        subject@.wf(),
    ensures
        exists|id: Seq<char>| #[trigger]
            subject@.session_is(id) && line@ == registration_of(subject@.subject_kind, id, locale@),
{
    let id = subject_session_id(subject);
    let head = join3("polkit-tui-agent: registered on ", OBJECT_PATH, " (subject=");
    let line = head.concat(subject.subject_kind.as_str()).concat(", session=").concat(
        id.as_str(),
    ).concat(", locale=").concat(locale).concat(")");
    assert(subject@.session_is(id@));
    line
}

/// A subject has one session.
pub proof fn law_session_is_unique(subject: SubjectView, a: Seq<char>, b: Seq<char>)
    requires
        subject.wf(),
        subject.session_is(a),
        subject.session_is(b),
    ensures
        a == b,
{
    let d = subject.subject_details;
    assert(forall|i: int, j: int|
        0 <= i < d.len() && 0 <= j < d.len() && (#[trigger] d[i]).0 == (#[trigger] d[j]).0 ==> i
            == j);
    assert(a =~= b);
}

/// The session that a subject was made for is the one that is read from it.
pub proof fn law_session_of_the_subject(id: Seq<char>, read: Seq<char>)
    ensures
        subject_of(id).wf(),
        subject_of(id).session_is(read) <==> read == id,
{
    let subject = subject_of(id);
    assert(subject.subject_details[0] == ("session-id"@, SubjectValueView::Str(id)));
    assert(subject.session_is(id));
    if subject.session_is(read) {
        law_session_is_unique(subject, read, id);
    }
}

/// The session that is to be used, given all answers: that of this process, else the graphical one
/// of the user, else that of the environment; or the graphical one alone.
pub open spec fn session_among(
    uid_session: bool,
    own: Option<Seq<char>>,
    display: Option<Seq<char>>,
    environment: Option<Seq<char>>,
) -> Option<Seq<char>> {
    if uid_session {
        useful(display)
    } else if useful(own) is Some {
        useful(own)
    } else if useful(display) is Some {
        useful(display)
    } else {
        useful(environment)
    }
}

/// The answer to a question.
pub open spec fn answer_to(
    query: SessionQuery,
    own: Option<Seq<char>>,
    display: Option<Seq<char>>,
    environment: Option<Seq<char>>,
) -> Option<Seq<char>> {
    match query {
        SessionQuery::OwnSession => own,
        SessionQuery::DisplaySession => display,
        SessionQuery::Environment => environment,
    }
}

/// Where a search ends that goes on from `s`.
pub open spec fn outcome(
    s: SearchView,
    own: Option<Seq<char>>,
    display: Option<Seq<char>>,
    environment: Option<Seq<char>>,
) -> Option<Seq<char>>
    decreases
            match s.asked {
                SessionQuery::OwnSession => 2int,
                SessionQuery::DisplaySession => 1,
                SessionQuery::Environment => 0,
            },
{
    let (next, step) = answered(s, answer_to(s.asked, own, display, environment));
    match step {
        SessionStepView::Found(id) => Some(id),
        SessionStepView::NotFound => None,
        SessionStepView::Ask(_) => outcome(next, own, display, environment),
    }
}

/// A search finds the session that is to be used, and does without one where there is none.
pub proof fn law_search_finds_the_session(
    uid_session: bool,
    own: Option<Seq<char>>,
    display: Option<Seq<char>>,
    environment: Option<Seq<char>>,
)
    ensures
        outcome(
            SearchView { uid_session, asked: first_query(uid_session) },
            own,
            display,
            environment,
        ) == session_among(uid_session, own, display, environment),
{
    reveal_with_fuel(outcome, 3);
}

/// An answer counts where it says something. The session of this process comes first, then the
/// graphical one of the user, then that of the environment; where only the graphical one counts,
/// no other is asked for or taken.
pub proof fn law_order_of_the_search(
    id: Seq<char>,
    own: Option<Seq<char>>,
    display: Option<Seq<char>>,
    environment: Option<Seq<char>>,
)
    ensures
        id.len() > 0 ==> session_among(false, Some(id), display, environment) == Some(id),
        (own is None || own == Some(Seq::<char>::empty())) && id.len() > 0 ==> session_among(
            false,
            own,
            Some(id),
            environment,
        ) == Some(id),
        (own is None || own == Some(Seq::<char>::empty())) && (display is None || display == Some(
            Seq::<char>::empty(),
        )) && id.len() > 0 ==> session_among(false, own, display, Some(id)) == Some(id),
        (own is None || own == Some(Seq::<char>::empty())) && (display is None || display == Some(
            Seq::<char>::empty(),
        )) && (environment is None || environment == Some(Seq::<char>::empty())) ==> session_among(
            false,
            own,
            display,
            environment,
        ) is None,
        id.len() > 0 ==> session_among(true, own, Some(id), environment) == Some(id),
        (display is None || display == Some(Seq::<char>::empty())) ==> session_among(
            true,
            own,
            display,
            environment,
        ) is None,
{
    assert(forall|s: Seq<char>| s.len() == 0 ==> s =~= Seq::<char>::empty());
}

/// One question at a time: the next one is asked only where the one before found nothing, and a
/// search for the graphical session asks for nothing else.
pub proof fn law_questions_of_the_search(s: SearchView, id: Seq<char>, nothing: Option<Seq<char>>)
    requires
        id.len() > 0,
        nothing is None || nothing == Some(Seq::<char>::empty()),
    ensures
        answered(s, Some(id)).1 == SessionStepView::Found(id),
        s.uid_session ==> answered(s, nothing).1 == SessionStepView::NotFound,
        !s.uid_session && s.asked == SessionQuery::OwnSession ==> answered(s, nothing) == (
            SearchView { asked: SessionQuery::DisplaySession, ..s },
            SessionStepView::Ask(SessionQuery::DisplaySession),
        ),
        !s.uid_session && s.asked == SessionQuery::DisplaySession ==> answered(s, nothing) == (
            SearchView { asked: SessionQuery::Environment, ..s },
            SessionStepView::Ask(SessionQuery::Environment),
        ),
        !s.uid_session && s.asked == SessionQuery::Environment ==> answered(s, nothing).1
            == SessionStepView::NotFound,
        first_query(true) == SessionQuery::DisplaySession,
        first_query(false) == SessionQuery::OwnSession,
{
}

/// The subject of a session is a `unix-session` with the session as its only detail.
pub proof fn law_what_is_registered(id: Seq<char>, kind: Seq<char>, locale: Seq<char>)
    ensures
        subject_of(id).subject_kind == "unix-session"@,
        subject_of(id).subject_details == seq![("session-id"@, SubjectValueView::Str(id))],
        registration_of(kind, id, locale) == "polkit-tui-agent: registered on "@
            + "/org/EMeow/PolicyKit1/AuthenticationAgent"@ + " (subject="@ + kind + ", session="@ + id
            + ", locale="@ + locale + ")"@,
{
}

/// The session of a subject is what stands under `session-id`, as a text or as another value is
/// written, and nothing where nothing stands there.
pub proof fn law_session_of_a_subject(subject: SubjectView, i: int, id: Seq<char>)
    requires
        subject.wf(),
    ensures
        0 <= i < subject.subject_details.len() && (subject.subject_details[i] == (
            "session-id"@,
            SubjectValueView::Str(id),
        ) || subject.subject_details[i] == ("session-id"@, SubjectValueView::Other(id)))
            ==> subject.session_is(id),
        (forall|j: int|
            0 <= j < subject.subject_details.len() ==> (#[trigger] subject.subject_details[j]).0
                != "session-id"@) ==> (subject.session_is(id) <==> id.len() == 0),
{
    if 0 <= i < subject.subject_details.len() {
        assert(subject.subject_details.contains(subject.subject_details[i]));
    }
}

/// Nothing of a subject or a step is lost in its view.
pub proof fn law_views_hold_everything(t: String, q: SessionQuery, s: Subject, i: int)
    ensures
        SessionStep::Ask(q)@ == SessionStepView::Ask(q),
        SessionStep::Found(t)@ == SessionStepView::Found(t@),
        SessionStep::NotFound@ == SessionStepView::NotFound,
        SubjectValue::Str(t)@ == SubjectValueView::Str(t@),
        SubjectValue::Other(t)@ == SubjectValueView::Other(t@),
        s@.subject_kind == s.subject_kind@,
        s@.subject_details.len() == s.subject_details@.len(),
        0 <= i < s.subject_details@.len() ==> s@.subject_details[i] == (
            s.subject_details@[i].0@,
            s.subject_details@[i].1@,
        ),
        answer_view(Some(t)) == Some(t@),
        answer_view(None) is None,
{
}

/// What the calls about the session give and change.
pub proof fn law_calls_about_the_session()
    ensures
        forall|uid: bool, r: (SessionSearch, SessionQuery)| #[trigger]
            call_ensures(SessionSearch::new, (uid,), r) ==> r.0@.uid_session == uid && r.0@.asked
                == first_query(uid) && r.1 == first_query(uid),
        forall|m: &mut SessionSearch, answer: Option<String>, step: SessionStep| #[trigger]
            call_ensures(SessionSearch::answer, (m, answer), step) ==> (final(m)@, step@) == answered(
                (*m)@,
                answer_view(answer),
            ),
        forall|id: &str, subject: Subject| #[trigger]
            call_ensures(session_subject, (id,), subject) ==> subject@ == subject_of(id@),
        forall|subject: &Subject, id: String| #[trigger]
            call_ensures(subject_session_id, (subject,), id) ==> subject@.session_is(id@),
        forall|subject: &Subject, locale: &str, line: String| #[trigger]
            call_ensures(registration_line, (subject, locale), line) ==> exists|id: Seq<char>| #[trigger]
                subject@.session_is(id) && line@ == registration_of(
                    subject@.subject_kind,
                    id,
                    locale@,
                ),
{
}

} // verus!
