//! The password dialog: its state, and what keys and events do to it.
//!
//! The input is kept as characters, so that positions count characters and not bytes.
use crate::text::from_chars;
use vstd::prelude::*;

verus! {

/// The dialog's answer to one request for a password.
#[derive(Debug)]
pub enum PromptAnswer {
    /// The password that was entered; never empty.
    Submit(String),
    /// The user gave up.
    Cancel,
}

/// The kind and the text of a `PromptAnswer`.
#[verifier::ext_equal]
pub enum PromptAnswerView {
    Submit(Seq<char>),
    Cancel,
}

impl View for PromptAnswer {
    type V = PromptAnswerView;

    open spec fn view(&self) -> PromptAnswerView {
        match self {
            PromptAnswer::Submit(p) => PromptAnswerView::Submit(p@),
            PromptAnswer::Cancel => PromptAnswerView::Cancel,
        }
    }
}

/// What the agent tells the dialog. Every event names the authentication it belongs to.
#[derive(Debug)]
pub enum UiEvent {
    /// Ask for a password. `reply` numbers the channel that takes the answer, `status` is what
    /// went wrong in the round before, empty at first.
    Prompt {
        cookie: String,
        action_id: String,
        message: String,
        username: String,
        status: String,
        reply: u64,
    },
    /// Polkit gave the authentication up: close the dialog.
    Cancel { cookie: String },
    /// Show this text in the status line.
    Status { cookie: String, text: String },
    /// The authentication is over: close the dialog.
    Dismiss { cookie: String },
}

/// The texts and numbers of a `UiEvent`.
#[verifier::ext_equal]
pub enum UiEventView {
    Prompt {
        cookie: Seq<char>,
        action_id: Seq<char>,
        message: Seq<char>,
        username: Seq<char>,
        status: Seq<char>,
        reply: u64,
    },
    Cancel { cookie: Seq<char> },
    Status { cookie: Seq<char>, text: Seq<char> },
    Dismiss { cookie: Seq<char> },
}

impl View for UiEvent {
    type V = UiEventView;

    open spec fn view(&self) -> UiEventView {
        match self {
            UiEvent::Prompt { cookie, action_id, message, username, status, reply } => {
                UiEventView::Prompt {
                    cookie: cookie@,
                    action_id: action_id@,
                    message: message@,
                    username: username@,
                    status: status@,
                    reply: *reply,
                }
            },
            UiEvent::Cancel { cookie } => UiEventView::Cancel { cookie: cookie@ },
            UiEvent::Status { cookie, text } => UiEventView::Status {
                cookie: cookie@,
                text: text@,
            },
            UiEvent::Dismiss { cookie } => UiEventView::Dismiss { cookie: cookie@ },
        }
    }
}

/// A decision of the user about the dialog that is open.
#[derive(Debug)]
pub enum Action {
    Submit(String),
    Cancel,
}

/// The kind and the text of an `Action`.
#[verifier::ext_equal]
pub enum ActionView {
    Submit(Seq<char>),
    Cancel,
}

impl View for Action {
    type V = ActionView;

    open spec fn view(&self) -> ActionView {
        match self {
            Action::Submit(p) => ActionView::Submit(p@),
            Action::Cancel => ActionView::Cancel,
        }
    }
}

/// The two states of an open dialog.
#[derive(Debug, Clone, Copy, PartialEq, Eq, Structural)]
pub enum PromptState {
    /// The password can be edited.
    Editing,
    /// A password was submitted and is being checked.
    Verifying,
}

/// The keys that the dialog tells apart.
#[derive(Debug, Clone, Copy, PartialEq, Eq, Structural)]
pub enum KeyCode {
    Esc,
    Enter,
    Backspace,
    Left,
    Right,
    Home,
    End,
    Char(char),
    Other,
}

/// A key, and whether Control was held.
#[derive(Debug, Clone, Copy, PartialEq, Eq, Structural)]
pub struct KeyEvent {
    pub code: KeyCode,
    pub control: bool,
}

impl KeyEvent {
    /// Whether this is Ctrl-C.
    pub open spec fn spec_is_interrupt(self) -> bool {
        self.control && self.code == KeyCode::Char('c')
    }

    /// Whether this is Ctrl-C.
    pub fn is_interrupt(&self) -> (r: bool)
        ensures
            r == self.spec_is_interrupt(),
    {
        self.control && self.code == KeyCode::Char('c')
    }
}

/// Everything about the dialog that is open.
#[derive(Debug)]
pub struct ActivePrompt {
    pub cookie: String,
    pub username: String,
    pub message: String,
    pub action_id: String,
    pub status: String,
    pub state: PromptState,
    /// The channel that waits for an answer; it takes one answer, so it is gone afterwards.
    pub reply: Option<u64>,
}

/// The texts and numbers of an `ActivePrompt`.
#[verifier::ext_equal]
pub struct ActivePromptView {
    pub cookie: Seq<char>,
    pub username: Seq<char>,
    pub message: Seq<char>,
    pub action_id: Seq<char>,
    pub status: Seq<char>,
    pub state: PromptState,
    pub reply: Option<u64>,
}

impl View for ActivePrompt {
    type V = ActivePromptView;

    open spec fn view(&self) -> ActivePromptView {
        ActivePromptView {
            cookie: self.cookie@,
            username: self.username@,
            message: self.message@,
            action_id: self.action_id@,
            status: self.status@,
            state: self.state,
            reply: self.reply,
        }
    }
}

/// The dialog, the password typed so far, and where in it the cursor stands.
#[derive(Debug)]
pub struct App {
    pub active: Option<ActivePrompt>,
    input: Vec<char>,
    cursor: usize,
}

/// What an `App` holds.
#[verifier::ext_equal]
pub struct AppView {
    pub active: Option<ActivePromptView>,
    pub input: Seq<char>,
    pub cursor: int,
}

/// The view of a dialog that may be there.
pub open spec fn active_view(active: Option<ActivePrompt>) -> Option<ActivePromptView> {
    match active {
        Some(a) => Some(a@),
        None => None,
    }
}

/// The view of an action that may be there.
pub open spec fn action_view(action: Option<Action>) -> Option<ActionView> {
    match action {
        Some(a) => Some(a@),
        None => None,
    }
}

impl View for App {
    type V = AppView;

    closed spec fn view(&self) -> AppView {
        AppView {
            active: active_view(self.active),
            input: self.input@,
            cursor: self.cursor as int,
        }
    }
}

impl AppView {
    /// The cursor stands in the input or at its end.
    pub open spec fn wf(self) -> bool {
        0 <= self.cursor <= self.input.len()
    }

    /// A dialog is open and its password can be edited.
    pub open spec fn editing(self) -> bool {
        self.active matches Some(a) && a.state == PromptState::Editing
    }

    /// A dialog is open and its password is being checked.
    pub open spec fn verifying(self) -> bool {
        self.active matches Some(a) && a.state == PromptState::Verifying
    }

    /// The dialog of the authentication `cookie` is open.
    pub open spec fn shows(self, cookie: Seq<char>) -> bool {
        self.active matches Some(a) && a.cookie == cookie
    }

    /// The dialog `a` instead of this one, with nothing typed.
    pub open spec fn reopened(self, a: Option<ActivePromptView>) -> AppView {
        AppView { active: a, input: Seq::empty(), cursor: 0 }
    }
}

/// What a key that edits does to the input and the cursor.
pub open spec fn edit(s: AppView, key: KeyEvent) -> AppView {
    match key.code {
        KeyCode::Backspace => if s.cursor > 0 {
            AppView { input: s.input.remove(s.cursor - 1), cursor: s.cursor - 1, ..s }
        } else {
            s
        },
        KeyCode::Left => AppView { cursor: if s.cursor > 0 { s.cursor - 1 } else { 0 }, ..s },
        KeyCode::Right => AppView {
            cursor: if s.cursor < s.input.len() { s.cursor + 1 } else { s.input.len() as int },
            ..s
        },
        KeyCode::Home => AppView { cursor: 0, ..s },
        KeyCode::End => AppView { cursor: s.input.len() as int, ..s },
        KeyCode::Char(c) => if key.control {
            s
        } else {
            AppView { input: s.input.insert(s.cursor, c), cursor: s.cursor + 1, ..s }
        },
        _ => s,
    }
}

/// What a key does to the dialog, and what the user decided with it.
///
/// Ctrl-C always cancels, Esc cancels any dialog. While a password is being checked no other
/// key counts. Enter submits a password that is not empty.
pub open spec fn press(s: AppView, key: KeyEvent) -> (AppView, Option<ActionView>) {
    if key.spec_is_interrupt() {
        (s, Some(ActionView::Cancel))
    } else if s.active is None {
        (s, None)
    } else if key.code == KeyCode::Esc {
        (s, Some(ActionView::Cancel))
    } else if s.verifying() {
        (s, None)
    } else if key.code == KeyCode::Enter {
        if s.input.len() > 0 {
            (
                s.reopened(
                    Some(ActivePromptView { state: PromptState::Verifying, ..s.active->Some_0 }),
                ),
                Some(ActionView::Submit(s.input)),
            )
        } else {
            (s, None)
        }
    } else {
        (edit(s, key), None)
    }
}

/// What an event does to the dialog. Events for another authentication than the one shown
/// change nothing, except a new prompt, which replaces any dialog.
pub open spec fn receive(s: AppView, ev: UiEventView) -> AppView {
    match ev {
        UiEventView::Prompt { cookie, action_id, message, username, status, reply } => s.reopened(
            Some(
                ActivePromptView {
                    cookie,
                    username,
                    message,
                    action_id,
                    status,
                    state: PromptState::Editing,
                    reply: Some(reply),
                },
            ),
        ),
        UiEventView::Cancel { cookie } => if s.shows(cookie) {
            AppView { active: None, ..s }
        } else {
            s
        },
        UiEventView::Status { cookie, text } => if s.shows(cookie) {
            AppView {
                active: Some(ActivePromptView { status: text, ..s.active->Some_0 }),
                ..s
            }
        } else {
            s
        },
        UiEventView::Dismiss { cookie } => if s.shows(cookie) {
            AppView { active: None, ..s }
        } else {
            s
        },
    }
}

impl App {
    /// No dialog, nothing typed.
    pub fn new() -> (app: App)
        ensures
            app@ == (AppView { active: None, input: Seq::empty(), cursor: 0 }),
            app@.wf(),
    {
        App { active: None, input: Vec::new(), cursor: 0 }
    }

    /// The dialog that is open.
    pub fn prompt(&self) -> (prompt: Option<&ActivePrompt>)
        ensures
            match prompt {
                Some(a) => self@.active == Some(a@),
                None => self@.active is None,
            },
    {
        self.active.as_ref()
    }

    /// The characters typed so far.
    pub fn input(&self) -> (input: &Vec<char>)
        ensures
            input@ == self@.input,
    {
        &self.input
    }

    /// How many characters stand before the cursor.
    pub fn cursor(&self) -> (cursor: usize)
        ensures
            cursor == self@.cursor,
    {
        self.cursor
    }

    /// Handles a key; the result is what the user decided about the dialog, if anything.
    pub fn handle_key(&mut self, key: KeyEvent) -> (action: Option<Action>)
        requires
            old(self)@.wf(),
        ensures
            (final(self)@, action_view(action)) == press(old(self)@, key),
            final(self)@.wf(),
    {
        if key.is_interrupt() {
            return Some(Action::Cancel);
        }
        let state = match &self.active {
            Some(a) => a.state,
            None => {
                return None;
            },
        };
        if key.code == KeyCode::Esc {
            return Some(Action::Cancel);
        }
        if state == PromptState::Verifying {
            return None;
        }
        match key.code {
            KeyCode::Enter => {
                if self.input.len() == 0 {
                    return None;
                }
                let password = from_chars(self.input.as_slice());
                self.input = Vec::new();
                self.cursor = 0;
                if let Some(a) = &mut self.active {
                    a.state = PromptState::Verifying;
                }
                Some(Action::Submit(password))
            },
            KeyCode::Backspace => {
                if self.cursor > 0 {
                    self.input.remove(self.cursor - 1);
                    self.cursor = self.cursor - 1;
                }
                None
            },
            KeyCode::Left => {
                if self.cursor > 0 {
                    self.cursor = self.cursor - 1;
                }
                None
            },
            KeyCode::Right => {
                if self.cursor < self.input.len() {
                    self.cursor = self.cursor + 1;
                }
                None
            },
            KeyCode::Home => {
                self.cursor = 0;
                None
            },
            KeyCode::End => {
                self.cursor = self.input.len();
                None
            },
            KeyCode::Char(c) => {
                if !key.control {
                    self.input.insert(self.cursor, c);
                    let typed = self.input.len();
                    assert(self.cursor < typed);
                    self.cursor = self.cursor + 1;
                }
                None
            },
            _ => None,
        }
    }

    /// Opens a dialog whose answer goes to no channel, for the popup process.
    pub fn open_prompt(
        &mut self,
        cookie: String,
        action_id: String,
        message: String,
        username: String,
    )
        ensures
            final(self)@ == old(self)@.reopened(
                Some(
                    ActivePromptView {
                        cookie: cookie@,
                        username: username@,
                        message: message@,
                        action_id: action_id@,
                        status: Seq::empty(),
                        state: PromptState::Editing,
                        reply: None,
                    },
                ),
            ),
            final(self)@.wf(),
    {
        self.active = Some(
            ActivePrompt {
                cookie,
                username,
                message,
                action_id,
                status: String::new(),
                state: PromptState::Editing,
                reply: None,
            },
        );
        self.input = Vec::new();
        self.cursor = 0;
    }

    /// Makes the dialog editable again after a failure, empty and with `status` shown.
    pub fn retry(&mut self, status: String)
        ensures
            final(self)@ == old(self)@.reopened(
                match old(self)@.active {
                    Some(a) => Some(
                        ActivePromptView { state: PromptState::Editing, status: status@, ..a },
                    ),
                    None => None,
                },
            ),
            final(self)@.wf(),
    {
        if let Some(a) = &mut self.active {
            a.state = PromptState::Editing;
            a.status = status;
        }
        self.input = Vec::new();
        self.cursor = 0;
    }

    /// Whether the dialog of the authentication `cookie` is open.
    fn shows(&self, cookie: &String) -> (r: bool)
        ensures
            r == self@.shows(cookie@),
    {
        match &self.active {
            Some(a) => a.cookie == *cookie,
            None => false,
        }
    }

    /// Takes an event of the agent.
    pub fn on_event(&mut self, ev: UiEvent)
        requires
            old(self)@.wf(),
        ensures
            final(self)@ == receive(old(self)@, ev@),
            final(self)@.wf(),
    {
        match ev {
            UiEvent::Prompt { cookie, action_id, message, username, status, reply } => {
                self.active = Some(
                    ActivePrompt {
                        cookie,
                        username,
                        message,
                        action_id,
                        status,
                        state: PromptState::Editing,
                        reply: Some(reply),
                    },
                );
                self.input = Vec::new();
                self.cursor = 0;
            },
            UiEvent::Cancel { cookie } => {
                if self.shows(&cookie) {
                    self.active = None;
                }
            },
            UiEvent::Status { cookie, text } => {
                if self.shows(&cookie) {
                    if let Some(a) = &mut self.active {
                        a.status = text;
                    }
                }
            },
            UiEvent::Dismiss { cookie } => {
                if self.shows(&cookie) {
                    self.active = None;
                }
            },
        }
    }
}

/// The answer that a decision gives.
pub open spec fn answer_of(action: ActionView) -> PromptAnswerView {
    match action {
        ActionView::Submit(p) => PromptAnswerView::Submit(p),
        ActionView::Cancel => PromptAnswerView::Cancel,
    }
}

/// The channel that waits for an answer about the open dialog.
pub open spec fn waiting_reply(s: AppView) -> Option<u64> {
    match s.active {
        Some(a) => a.reply,
        None => None,
    }
}

/// The dialog after its channel was taken.
pub open spec fn reply_taken(s: AppView) -> AppView {
    AppView {
        active: match s.active {
            Some(a) => Some(ActivePromptView { reply: None, ..a }),
            None => None,
        },
        ..s
    }
}

/// Takes the channel of the open dialog, if it still waits, and gives the answer for it.
pub fn send_answer(app: &mut App, action: Action) -> (sent: Option<(u64, PromptAnswer)>)
    ensures
        match sent {
            Some(s) => waiting_reply(old(app)@) == Some(s.0) && s.1@ == answer_of(action@),
            None => waiting_reply(old(app)@) is None,
        },
        final(app)@ == reply_taken(old(app)@),
{
    let mut sent: Option<(u64, PromptAnswer)> = None;
    if let Some(a) = &mut app.active {
        if let Some(id) = a.reply {
            a.reply = None;
            let answer = match action {
                Action::Submit(p) => PromptAnswer::Submit(p),
                Action::Cancel => PromptAnswer::Cancel,
            };
            sent = Some((id, answer));
        }
    }
    sent
}

/// The key that types `c`.
pub open spec fn typing(c: char) -> KeyEvent {
    KeyEvent { code: KeyCode::Char(c), control: false }
}

/// The dialog after the characters of `text` were typed, one key each.
pub open spec fn typed(s: AppView, text: Seq<char>) -> AppView
    decreases text.len(),
{
    if text.len() == 0 {
        s
    } else {
        press(typed(s, text.drop_last()), typing(text.last())).0
    }
}

/// The cursor never leaves the input, whatever is pressed or received.
pub proof fn law_cursor_stays_in_input(s: AppView, key: KeyEvent, ev: UiEventView)
    requires
        s.wf(),
    ensures
        press(s, key).0.wf(),
        receive(s, ev).wf(),
{
}

/// Typed characters stand where the cursor was, in the order in which they were typed.
pub proof fn law_typing_inserts(s: AppView, text: Seq<char>)
    requires
        s.wf(),
        s.editing(),
    ensures
        typed(s, text) == (AppView {
            input: s.input.take(s.cursor) + text + s.input.skip(s.cursor),
            cursor: s.cursor + text.len(),
            ..s
        }),
    decreases text.len(),
{
    if text.len() == 0 {
        assert(s.input =~= s.input.take(s.cursor) + text + s.input.skip(s.cursor));
    } else {
        law_typing_inserts(s, text.drop_last());
        let t = typed(s, text.drop_last());
        assert(t.input.insert(t.cursor, text.last()) =~= s.input.take(s.cursor) + text
            + s.input.skip(s.cursor));
    }
}

/// A password typed into an empty dialog and confirmed with Enter is submitted exactly as it
/// was typed, and leaves nothing behind in the input.
pub proof fn law_typed_password_is_submitted(s: AppView, password: Seq<char>)
    requires
        s.editing(),
        s.input.len() == 0,
        s.cursor == 0,
        password.len() > 0,
    ensures
        press(typed(s, password), KeyEvent { code: KeyCode::Enter, control: false }).1 == Some(
            ActionView::Submit(password),
        ),
        press(typed(s, password), KeyEvent { code: KeyCode::Enter, control: false }).0.verifying(),
        press(typed(s, password), KeyEvent { code: KeyCode::Enter, control: false }).0.input.len()
            == 0,
{
    law_typing_inserts(s, password);
    assert(s.input.take(s.cursor) + password + s.input.skip(s.cursor) =~= password);
}

/// Backspace takes back the character that was typed last.
pub proof fn law_backspace_undoes_typing(s: AppView, c: char)
    requires
        s.wf(),
        s.editing(),
    ensures
        press(
            press(s, typing(c)).0,
            KeyEvent { code: KeyCode::Backspace, control: false },
        ).0 == s,
{
    assert(s.input.insert(s.cursor, c).remove(s.cursor) =~= s.input);
}

/// Only a password that is not empty is ever submitted, and only while it could be edited.
pub proof fn law_submits_only_typed_passwords(s: AppView, key: KeyEvent, password: Seq<char>)
    requires
        press(s, key).1 == Some(ActionView::Submit(password)),
    ensures
        s.editing(),
        password == s.input,
        password.len() > 0,
{
}

/// While a password is being checked, keys change nothing, and the only decision left to the
/// user is to cancel, with Esc or Ctrl-C.
pub proof fn law_verifying_locks_the_input(s: AppView, key: KeyEvent)
    requires
        s.verifying(),
    ensures
        press(s, key).0 == s,
        press(s, key).1 == (if key.code == KeyCode::Esc || key.spec_is_interrupt() {
            Some(ActionView::Cancel)
        } else {
            None
        }),
{
}

/// A dialog answers one request once: after a password was submitted and its answer sent, no
/// later decision about that dialog finds a channel.
pub proof fn law_one_answer_per_prompt(s: AppView, key: KeyEvent, later: KeyEvent)
    requires
        s.wf(),
    ensures
        waiting_reply(reply_taken(press(s, key).0)) is None,
        waiting_reply(press(reply_taken(press(s, key).0), later).0) is None,
{
}

/// An event for another authentication changes nothing in the dialog, unless it opens one.
pub proof fn law_other_authentications_change_nothing(s: AppView, cookie: Seq<char>, text: Seq<char>)
    requires
        !s.shows(cookie),
    ensures
        receive(s, UiEventView::Cancel { cookie }) == s,
        receive(s, UiEventView::Dismiss { cookie }) == s,
        receive(s, UiEventView::Status { cookie, text }) == s,
{
}

/// A new dialog never shows what was typed into the one before.
pub proof fn law_new_prompt_starts_empty(s: AppView, ev: UiEventView)
    requires
        ev is Prompt,
    ensures
        receive(s, ev).editing(),
        receive(s, ev).input.len() == 0,
        receive(s, ev).cursor == 0,
{
}

/// A dialog that can be edited: it is open, it is not being checked, and its cursor stands in it.
pub open spec fn is_open_for_editing(s: AppView) -> bool {
    &&& s.active is Some
    &&& s.active->Some_0.state == PromptState::Editing
    &&& 0 <= s.cursor <= s.input.len()
}

/// The arrow keys move the cursor by one character, as far as there are any, and undo each other;
/// Home and End move it to the beginning and to the end. They change nothing else.
pub proof fn law_moving_the_cursor(s: AppView, control: bool)
    requires
        is_open_for_editing(s),
    ensures
        ({
            let right = press(s, KeyEvent { code: KeyCode::Right, control }).0;
            let left = press(s, KeyEvent { code: KeyCode::Left, control }).0;
            &&& s.cursor < s.input.len() ==> right == (AppView { cursor: s.cursor + 1, ..s })
            &&& s.cursor == s.input.len() ==> right == s
            &&& s.cursor > 0 ==> left == (AppView { cursor: s.cursor - 1, ..s })
            &&& s.cursor == 0 ==> left == s
            &&& s.cursor < s.input.len() ==> press(
                right,
                KeyEvent { code: KeyCode::Left, control },
            ).0 == s
            &&& s.cursor > 0 ==> press(left, KeyEvent { code: KeyCode::Right, control }).0 == s
        }),
        press(s, KeyEvent { code: KeyCode::Home, control }).0 == (AppView { cursor: 0, ..s }),
        press(s, KeyEvent { code: KeyCode::End, control }).0 == (AppView {
            cursor: s.input.len() as int,
            ..s
        }),
        press(s, KeyEvent { code: KeyCode::Right, control }).1 is None,
        press(s, KeyEvent { code: KeyCode::Left, control }).1 is None,
        press(s, KeyEvent { code: KeyCode::Home, control }).1 is None,
        press(s, KeyEvent { code: KeyCode::End, control }).1 is None,
{
}

/// A character goes in where the cursor stands, and Backspace takes out the one before it; what
/// stands before and behind stays. A character with Control goes nowhere, nor does any other key.
pub proof fn law_editing(before: Seq<char>, c: char, behind: Seq<char>, s: AppView, control: bool)
    requires
        s.active is Some,
        s.active->Some_0.state == PromptState::Editing,
    ensures
        press(
            AppView { input: before + behind, cursor: before.len() as int, ..s },
            KeyEvent { code: KeyCode::Char(c), control: false },
        ) == (
            AppView { input: before + seq![c] + behind, cursor: before.len() as int + 1, ..s },
            None::<ActionView>,
        ),
        press(
            AppView { input: before + seq![c] + behind, cursor: before.len() as int + 1, ..s },
            KeyEvent { code: KeyCode::Backspace, control },
        ) == (
            AppView { input: before + behind, cursor: before.len() as int, ..s },
            None::<ActionView>,
        ),
        press(AppView { cursor: 0, ..s }, KeyEvent { code: KeyCode::Backspace, control }) == (
            AppView { cursor: 0, ..s },
            None::<ActionView>,
        ),
        c != 'c' ==> press(s, KeyEvent { code: KeyCode::Char(c), control: true }) == (
            s,
            None::<ActionView>,
        ),
        press(s, KeyEvent { code: KeyCode::Other, control }) == (s, None::<ActionView>),
{
    assert((before + behind).insert(before.len() as int, c) =~= before + seq![c] + behind);
    assert((before + seq![c] + behind).remove(before.len() as int) =~= before + behind);
}

/// Enter submits what stands in the dialog, all of it and as it is, and empties and locks it;
/// nothing happens where nothing was typed.
pub proof fn law_submitting(s: AppView, control: bool)
    requires
        is_open_for_editing(s),
    ensures
        ({
            let (t, action) = press(s, KeyEvent { code: KeyCode::Enter, control });
            &&& s.input.len() == 0 ==> t == s && action is None
            &&& s.input.len() > 0 ==> {
                &&& action == Some(ActionView::Submit(s.input))
                &&& t.input == Seq::<char>::empty()
                &&& t.cursor == 0
                &&& t.active == Some(
                    ActivePromptView { state: PromptState::Verifying, ..s.active->Some_0 },
                )
            }
        }),
{
}

/// Esc cancels an open dialog and Ctrl-C cancels always, whatever its state, and neither changes
/// it; no other key cancels. Without a dialog every other key does nothing, and while a password is
/// being checked as well.
pub proof fn law_cancelling(s: AppView, key: KeyEvent)
    ensures
        press(s, key).1 == Some(ActionView::Cancel) <==> (key.code == KeyCode::Char('c')
            && key.control) || (key.code == KeyCode::Esc && s.active is Some),
        press(s, key).1 == Some(ActionView::Cancel) ==> press(s, key).0 == s,
        s.active is None ==> press(s, key).0 == s,
        (s.active is Some && s.active->Some_0.state == PromptState::Verifying) ==> press(s, key).0
            == s && !(press(s, key).1 matches Some(ActionView::Submit(_))),
{
}

/// No key changes what a dialog is about: whom it asks, for which authentication, what it says, and
/// where its answer goes.
pub proof fn law_keys_do_not_change_the_subject(s: AppView, key: KeyEvent)
    ensures
        press(s, key).0.active is Some <==> s.active is Some,
        s.active is Some ==> ({
            let (a, b) = (s.active->Some_0, press(s, key).0.active->Some_0);
            &&& b.cookie == a.cookie
            &&& b.username == a.username
            &&& b.message == a.message
            &&& b.action_id == a.action_id
            &&& b.status == a.status
            &&& b.reply == a.reply
        }),
{
}

/// A prompt opens a dialog that says what the prompt says, about the authentication that it names,
/// whatever was there before.
pub proof fn law_opening(
    s: AppView,
    cookie: Seq<char>,
    action_id: Seq<char>,
    message: Seq<char>,
    username: Seq<char>,
    status: Seq<char>,
    reply: u64,
)
    ensures
        ({
            let t = receive(
                s,
                UiEventView::Prompt { cookie, action_id, message, username, status, reply },
            );
            &&& t.active is Some
            &&& t.active->Some_0.cookie == cookie
            &&& t.active->Some_0.username == username
            &&& t.active->Some_0.message == message
            &&& t.active->Some_0.action_id == action_id
            &&& t.active->Some_0.status == status
            &&& t.active->Some_0.reply == Some(reply)
            &&& t.active->Some_0.state == PromptState::Editing
            &&& t.input == Seq::<char>::empty()
            &&& t.cursor == 0
        }),
        s.reopened(None).active is None,
        forall|a: ActivePromptView| #[trigger]
            s.reopened(Some(a)) == (AppView { active: Some(a), input: Seq::empty(), cursor: 0 }),
{
}

/// A cancellation and the end of an authentication close its dialog, and a status replaces what its
/// dialog says and nothing else; the dialog of another authentication is left alone.
pub proof fn law_events_find_their_dialog(s: AppView, cookie: Seq<char>, text: Seq<char>)
    ensures
        ({
            let mine = s.active is Some && s.active->Some_0.cookie == cookie;
            let cancelled = receive(s, UiEventView::Cancel { cookie });
            let dismissed = receive(s, UiEventView::Dismiss { cookie });
            let told = receive(s, UiEventView::Status { cookie, text });
            &&& mine ==> cancelled == (AppView { active: None, ..s }) && dismissed == (AppView {
                active: None,
                ..s
            })
            &&& mine ==> told == (AppView {
                active: Some(ActivePromptView { status: text, ..s.active->Some_0 }),
                ..s
            })
            &&& !mine ==> cancelled == s && dismissed == s && told == s
        }),
{
}

/// The answer to a prompt is what the user decided, with the same password, and it goes to the
/// channel of the dialog, which takes no other; the dialog is not changed otherwise.
pub proof fn law_answering(s: AppView, password: Seq<char>)
    ensures
        answer_of(ActionView::Submit(password)) == PromptAnswerView::Submit(password),
        answer_of(ActionView::Cancel) == PromptAnswerView::Cancel,
        s.active is None ==> waiting_reply(s) is None && reply_taken(s) == s,
        s.active is Some ==> waiting_reply(s) == s.active->Some_0.reply && reply_taken(s) == (AppView {
            active: Some(ActivePromptView { reply: None, ..s.active->Some_0 }),
            ..s
        }),
{
}

/// Nothing of an event, a decision, an answer or a dialog is lost in its view.
pub proof fn law_views_hold_everything(t: String, a: ActivePrompt, ev: UiEvent)
    ensures
        Action::Submit(t)@ == ActionView::Submit(t@),
        Action::Cancel@ == ActionView::Cancel,
        PromptAnswer::Submit(t)@ == PromptAnswerView::Submit(t@),
        PromptAnswer::Cancel@ == PromptAnswerView::Cancel,
        a@.cookie == a.cookie@,
        a@.username == a.username@,
        a@.message == a.message@,
        a@.action_id == a.action_id@,
        a@.status == a.status@,
        a@.state == a.state,
        a@.reply == a.reply,
        active_view(Some(a)) == Some(a@),
        active_view(None) is None,
        action_view(None) is None,
        action_view(Some(Action::Submit(t))) == Some(ActionView::Submit(t@)),
        action_view(Some(Action::Cancel)) == Some(ActionView::Cancel),
        ev matches UiEvent::Prompt { cookie, action_id, message, username, status, reply } ==> ev@ == (
        UiEventView::Prompt {
            cookie: cookie@,
            action_id: action_id@,
            message: message@,
            username: username@,
            status: status@,
            reply,
        }),
        ev matches UiEvent::Cancel { cookie } ==> ev@ == (UiEventView::Cancel { cookie: cookie@ }),
        ev matches UiEvent::Dismiss { cookie } ==> ev@ == (UiEventView::Dismiss { cookie: cookie@ }),
        ev matches UiEvent::Status { cookie, text } ==> ev@ == (UiEventView::Status {
            cookie: cookie@,
            text: text@,
        }),
{
}

/// What the calls of a dialog give and change.
pub proof fn law_calls_of_a_dialog()
    ensures
        forall|app: App| #[trigger]
            call_ensures(App::new, (), app) ==> app@.active is None && app@.input.len() == 0
                && app@.cursor == 0,
        forall|m: &mut App, key: KeyEvent, action: Option<Action>| #[trigger]
            call_ensures(App::handle_key, (m, key), action) ==> (final(m)@, action_view(action))
                == press((*m)@, key),
        forall|m: &mut App, ev: UiEvent| #[trigger]
            call_ensures(App::on_event, (m, ev), ()) ==> final(m)@ == receive((*m)@, ev@),
        forall|m: &mut App, cookie: String, action: String, message: String, user: String| #[trigger]
            call_ensures(App::open_prompt, (m, cookie, action, message, user), ()) ==> final(m)@ == (
            AppView {
                active: Some(
                    ActivePromptView {
                        cookie: cookie@,
                        username: user@,
                        message: message@,
                        action_id: action@,
                        status: Seq::empty(),
                        state: PromptState::Editing,
                        reply: None,
                    },
                ),
                input: Seq::empty(),
                cursor: 0,
            }),
        forall|m: &mut App, status: String| #[trigger]
            call_ensures(App::retry, (m, status), ()) ==> {
                &&& final(m)@.input.len() == 0 && final(m)@.cursor == 0
                &&& (*m)@.active is None ==> final(m)@.active is None
                &&& (*m)@.active is Some ==> final(m)@.active == Some(
                    ActivePromptView {
                        state: PromptState::Editing,
                        status: status@,
                        ..(*m)@.active->Some_0
                    },
                )
            },
        forall|m: &mut App, action: Action, sent: Option<(u64, PromptAnswer)>| #[trigger]
            call_ensures(send_answer, (m, action), sent) ==> {
                &&& final(m)@ == reply_taken((*m)@)
                &&& sent is Some <==> waiting_reply((*m)@) is Some
                &&& sent is Some ==> Some(sent->Some_0.0) == waiting_reply((*m)@) && sent->Some_0.1@
                    == answer_of(action@)
            },
        forall|key: &KeyEvent, r: bool| #[trigger]
            call_ensures(KeyEvent::is_interrupt, (key,), r) ==> (r <==> key.code == KeyCode::Char('c')
                && key.control),
        forall|app: &App, p: Option<&ActivePrompt>| #[trigger]
            call_ensures(App::prompt, (app,), p) ==> {
                &&& p is Some <==> app@.active is Some
                &&& p is Some ==> p->Some_0@ == app@.active->Some_0
            },
        forall|app: &App, input: &Vec<char>| #[trigger]
            call_ensures(App::input, (app,), input) ==> input@ == app@.input,
        forall|app: &App, cursor: usize| #[trigger]
            call_ensures(App::cursor, (app,), cursor) ==> cursor == app@.cursor,
{
}

} // verus!
