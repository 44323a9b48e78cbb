//! The terminal of the agent: keys and events, one dialog at a time, and when to draw it anew.
use crate::ui::{
    answer_of, press, receive, reply_taken, send_answer, waiting_reply, App, AppView, KeyCode,
    KeyEvent, PromptAnswer, PromptAnswerView, UiEvent, UiEventView,
};
use vstd::prelude::*;

verus! {

/// How many milliseconds lie between two drawings at most.
pub const TICK_MILLIS: u64 = 100;

/// What a key leads to.
#[derive(Debug)]
pub enum ScreenVerdict {
    /// Draw and go on.
    Continue,
    /// Send this answer to the channel with this number, draw and go on.
    Answer(u64, PromptAnswer),
    /// Leave the program.
    Quit,
}

/// The kind and the contents of a `ScreenVerdict`.
#[verifier::ext_equal]
pub enum ScreenVerdictView {
    Continue,
    Answer(u64, PromptAnswerView),
    Quit,
}

impl View for ScreenVerdict {
    type V = ScreenVerdictView;

    open spec fn view(&self) -> ScreenVerdictView {
        match self {
            ScreenVerdict::Continue => ScreenVerdictView::Continue,
            ScreenVerdict::Answer(reply, answer) => ScreenVerdictView::Answer(*reply, answer@),
            ScreenVerdict::Quit => ScreenVerdictView::Quit,
        }
    }
}

/// The dialog, and whether everything has to be drawn anew.
#[derive(Debug)]
pub struct Screen {
    app: App,
    full_redraw: bool,
}

/// What a `Screen` knows.
#[verifier::ext_equal]
pub struct ScreenView {
    pub app: AppView,
    pub full_redraw: bool,
}

impl View for Screen {
    type V = ScreenView;

    closed spec fn view(&self) -> ScreenView {
        ScreenView { app: self.app@, full_redraw: self.full_redraw }
    }
}

/// Whether a key leaves the program where no dialog is open.
pub open spec fn quits(key: KeyEvent) -> bool {
    key.code == KeyCode::Char('q') || key.spec_is_interrupt()
}

/// What a key leads to. Without a dialog `q` and Ctrl-C leave the program; with one the key goes
/// to the dialog, and what the user decides goes to the channel that waits for it.
pub open spec fn on_key(s: ScreenView, key: KeyEvent) -> (ScreenView, ScreenVerdictView) {
    if s.app.active is None && quits(key) {
        (s, ScreenVerdictView::Quit)
    } else {
        let (app, action) = press(s.app, key);
        match action {
            None => (ScreenView { app, ..s }, ScreenVerdictView::Continue),
            Some(decision) => (
                ScreenView { app: reply_taken(app), ..s },
                match waiting_reply(app) {
                    Some(reply) => ScreenVerdictView::Answer(reply, answer_of(decision)),
                    None => ScreenVerdictView::Continue,
                },
            ),
        }
    }
}

/// What an event of the agent leads to. A new dialog is drawn on an empty screen.
pub open spec fn on_event(s: ScreenView, ev: UiEventView) -> ScreenView {
    ScreenView { app: receive(s.app, ev), full_redraw: s.full_redraw || ev is Prompt }
}

impl Screen {
    /// No dialog.
    pub fn new() -> (screen: Screen)
        ensures
            screen@ == (ScreenView {
                app: AppView { active: None, input: Seq::empty(), cursor: 0 },
                full_redraw: false,
            }),
            screen@.app.wf(),
    {
        Screen { app: App::new(), full_redraw: false }
    }

    /// The dialog.
    pub fn app(&self) -> (app: &App)
        ensures
            app@ == self@.app,
    {
        &self.app
    }

    /// Handles a key.
    pub fn on_key(&mut self, key: KeyEvent) -> (verdict: ScreenVerdict)
        requires
            old(self)@.app.wf(),
        ensures
            (final(self)@, verdict@) == on_key(old(self)@, key),
            final(self)@.app.wf(),
    {
        if self.app.prompt().is_none() && (key.code == KeyCode::Char('q') || key.is_interrupt()) {
            return ScreenVerdict::Quit;
        }
        match self.app.handle_key(key) {
            Some(action) => match send_answer(&mut self.app, action) {
                Some((reply, answer)) => ScreenVerdict::Answer(reply, answer),
                None => ScreenVerdict::Continue,
            },
            None => ScreenVerdict::Continue,
        }
    }

    /// Takes an event of the agent.
    pub fn on_event(&mut self, ev: UiEvent)
        requires
            old(self)@.app.wf(),
        ensures
            final(self)@ == on_event(old(self)@, ev@),
            final(self)@.app.wf(),
    {
        let opens = match &ev {
            UiEvent::Prompt { .. } => true,
            _ => false,
        };
        self.app.on_event(ev);
        if opens {
            self.full_redraw = true;
        }
    }

    /// Whether an empty screen has to be drawn first; asked once for each drawing.
    pub fn take_full_redraw(&mut self) -> (full: bool)
        ensures
            full == old(self)@.full_redraw,
            final(self)@ == (ScreenView { full_redraw: false, ..old(self)@ }),
    {
        let full = self.full_redraw;
        self.full_redraw = false;
        full
    }
}

/// The program is never left while a dialog is open.
pub proof fn law_no_quit_with_a_dialog(s: ScreenView, key: KeyEvent)
    ensures
        on_key(s, key).1 == ScreenVerdictView::Quit <==> s.app.active is None && quits(key),
{
}

/// With a dialog open `q` is a character like any other.
pub proof fn law_q_can_be_typed(s: ScreenView)
    requires
        s.app.wf(),
        s.app.editing(),
    ensures
        on_key(s, KeyEvent { code: KeyCode::Char('q'), control: false }).0.app.input
            == s.app.input.insert(s.app.cursor, 'q'),
{
}

/// An answer goes to the channel of the dialog that is open, and a channel gets one answer at
/// most: afterwards no key finds one, until there is a new dialog.
pub proof fn law_one_answer_per_prompt(s: ScreenView, key: KeyEvent, later: KeyEvent)
    ensures
        on_key(s, key).1 matches ScreenVerdictView::Answer(reply, _) ==> {
            &&& waiting_reply(s.app) == Some(reply)
            &&& waiting_reply(on_key(s, key).0.app) is None
            &&& !(on_key(on_key(s, key).0, later).1 is Answer)
        },
{
}

/// Every new dialog, a repeated one as well, is drawn on an empty screen, and an event that opens
/// none does not ask for that.
pub proof fn law_new_dialogs_are_drawn_anew(s: ScreenView, ev: UiEventView)
    ensures
        ev is Prompt ==> on_event(s, ev).full_redraw,
        !(ev is Prompt) ==> on_event(s, ev).full_redraw == s.full_redraw,
{
}

/// A key goes to the dialog as it is, and what the user decides with it is the answer; where nobody
/// waits for one, and where nothing was decided, none is given. A key never asks for an empty
/// screen.
pub proof fn law_keys_and_answers(s: ScreenView, key: KeyEvent)
    requires
        !(s.app.active is None && (key.code == KeyCode::Char('q') || (key.code == KeyCode::Char('c')
            && key.control))),
    ensures
        ({
            let (t, verdict) = on_key(s, key);
            let (app, decision) = press(s.app, key);
            &&& t.full_redraw == s.full_redraw
            &&& decision is None ==> t.app == app && verdict == ScreenVerdictView::Continue
            &&& decision is Some ==> t.app == reply_taken(app)
            &&& decision is Some && app.active is Some && app.active->Some_0.reply is Some ==> verdict
                == ScreenVerdictView::Answer(
                app.active->Some_0.reply->Some_0,
                answer_of(decision->Some_0),
            )
            &&& decision is Some && (app.active is None || app.active->Some_0.reply is None)
                ==> verdict == ScreenVerdictView::Continue
        }),
{
}

/// Without a dialog `q`, with or without Control, and Ctrl-C leave the program and change nothing;
/// no other key leaves it.
pub proof fn law_leaving(s: ScreenView, key: KeyEvent)
    ensures
        on_key(s, key).1 == ScreenVerdictView::Quit <==> s.app.active is None && (key.code
            == KeyCode::Char('q') || (key.code == KeyCode::Char('c') && key.control)),
        on_key(s, key).1 == ScreenVerdictView::Quit ==> on_key(s, key).0 == s,
{
}

/// A password that is typed into an open dialog and confirmed is the answer to its prompt, whole
/// and as it was typed.
pub proof fn law_typed_password_is_the_answer(s: ScreenView, password: Seq<char>, reply: u64)
    requires
        s.app.active is Some,
        s.app.active->Some_0.state == crate::ui::PromptState::Editing,
        s.app.active->Some_0.reply == Some(reply),
        s.app.input.len() == 0,
        s.app.cursor == 0,
        password.len() > 0,
    ensures
        on_key(
            ScreenView { app: crate::ui::typed(s.app, password), ..s },
            KeyEvent { code: KeyCode::Enter, control: false },
        ).1 == ScreenVerdictView::Answer(reply, PromptAnswerView::Submit(password)),
{
    crate::ui::law_typing_inserts(s.app, password);
    crate::ui::law_typed_password_is_submitted(s.app, password);
}

/// An event of the agent goes to the dialog as it is.
pub proof fn law_events_reach_the_dialog(s: ScreenView, ev: UiEventView)
    ensures
        on_event(s, ev).app == receive(s.app, ev),
        TICK_MILLIS == 100,
{
}

/// Nothing of a verdict is lost in its view.
pub proof fn law_views_hold_everything(reply: u64, a: PromptAnswer)
    ensures
        ScreenVerdict::Continue@ == ScreenVerdictView::Continue,
        ScreenVerdict::Answer(reply, a)@ == ScreenVerdictView::Answer(reply, a@),
        ScreenVerdict::Quit@ == ScreenVerdictView::Quit,
{
}

/// What the calls of a screen give and change.
pub proof fn law_calls_of_a_screen()
    ensures
        forall|s: Screen| #[trigger]
            call_ensures(Screen::new, (), s) ==> s@.app.active is None && s@.app.input.len() == 0
                && s@.app.cursor == 0 && !s@.full_redraw,
        forall|m: &mut Screen, key: KeyEvent, verdict: ScreenVerdict| #[trigger]
            call_ensures(Screen::on_key, (m, key), verdict) ==> (final(m)@, verdict@) == on_key(
                (*m)@,
                key,
            ),
        forall|m: &mut Screen, ev: UiEvent| #[trigger]
            call_ensures(Screen::on_event, (m, ev), ()) ==> final(m)@ == on_event((*m)@, ev@),
        forall|m: &mut Screen, full: bool| #[trigger]
            call_ensures(Screen::take_full_redraw, (m,), full) ==> full == (*m)@.full_redraw
                && !final(m)@.full_redraw && final(m)@.app == (*m)@.app,
        forall|s: &Screen, app: &App| #[trigger]
            call_ensures(Screen::app, (s,), app) ==> app@ == s@.app,
{
}

} // verus!
