//! Taking the terminal over, and giving it back.
//!
//! The dialog is drawn on `/dev/tty`, so that the standard streams stay free for logs and errors.
//! Whatever step fails, the steps before it are undone.
use crate::text::join2;
use vstd::prelude::*;

verus! {

/// The terminal that the dialog is drawn on.
pub const TTY_PATH: &'static str = "/dev/tty";

/// How a step went.
#[derive(Debug)]
pub enum TuiEvent {
    Done,
    /// It failed, with this description.
    Failed(String),
}

/// What to do with the terminal, in the order given.
#[derive(Debug)]
pub enum TuiAction {
    /// Open `TTY_PATH` for reading and writing.
    OpenTty,
    EnableRawMode,
    DisableRawMode,
    EnterAlternateScreen,
    LeaveAlternateScreen,
    /// Logs have to keep out of the dialog, or need not any more.
    SetTuiActive(bool),
    /// See to it that a panic gives the terminal back.
    InstallPanicHook,
    /// Duplicate the handle of the terminal.
    Duplicate,
    /// Keep the duplicate for the panic hook.
    KeepForPanic,
    /// Let go of the duplicate for the panic hook.
    ForgetForPanic,
    /// Build what draws the dialog, on the duplicate.
    BuildTerminal,
    /// The dialog can be drawn.
    Opened,
    /// It cannot, for this reason.
    Fail(String),
}

/// The kind and the contents of a `TuiAction`.
#[verifier::ext_equal]
pub enum TuiActionView {
    OpenTty,
    EnableRawMode,
    DisableRawMode,
    EnterAlternateScreen,
    LeaveAlternateScreen,
    SetTuiActive(bool),
    InstallPanicHook,
    Duplicate,
    KeepForPanic,
    ForgetForPanic,
    BuildTerminal,
    Opened,
    Fail(Seq<char>),
}

impl View for TuiAction {
    type V = TuiActionView;

    open spec fn view(&self) -> TuiActionView {
        match self {
            TuiAction::OpenTty => TuiActionView::OpenTty,
            TuiAction::EnableRawMode => TuiActionView::EnableRawMode,
            TuiAction::DisableRawMode => TuiActionView::DisableRawMode,
            TuiAction::EnterAlternateScreen => TuiActionView::EnterAlternateScreen,
            TuiAction::LeaveAlternateScreen => TuiActionView::LeaveAlternateScreen,
            TuiAction::SetTuiActive(on) => TuiActionView::SetTuiActive(*on),
            TuiAction::InstallPanicHook => TuiActionView::InstallPanicHook,
            TuiAction::Duplicate => TuiActionView::Duplicate,
            TuiAction::KeepForPanic => TuiActionView::KeepForPanic,
            TuiAction::ForgetForPanic => TuiActionView::ForgetForPanic,
            TuiAction::BuildTerminal => TuiActionView::BuildTerminal,
            TuiAction::Opened => TuiActionView::Opened,
            TuiAction::Fail(e) => TuiActionView::Fail(e@),
        }
    }
}

/// The views of a list of actions.
pub open spec fn action_views(actions: Seq<TuiAction>) -> Seq<TuiActionView> {
    Seq::new(actions.len(), |i: int| actions[i]@)
}

/// The step that is under way.
#[derive(Debug, Clone, Copy, PartialEq, Eq, Structural)]
pub enum TuiStage {
    OpeningTty,
    EnablingRawMode,
    EnteringScreen,
    DuplicatingForPanic,
    DuplicatingForTerminal,
    BuildingTerminal,
    /// None: the dialog can be drawn.
    Open,
    /// None: the terminal was given back.
    Closed,
}

/// The terminal, as far as it was taken over.
#[derive(Debug)]
pub struct Tui {
    stage: TuiStage,
}

impl View for Tui {
    type V = TuiStage;

    closed spec fn view(&self) -> TuiStage {
        self.stage
    }
}

/// What gives the terminal back after a step failed on the alternate screen.
pub open spec fn restoring() -> Seq<TuiActionView> {
    seq![
        TuiActionView::SetTuiActive(false),
        TuiActionView::ForgetForPanic,
        TuiActionView::LeaveAlternateScreen,
        TuiActionView::DisableRawMode,
    ]
}

/// What gives the terminal back when the dialog is not needed any more.
pub open spec fn closing() -> Seq<TuiActionView> {
    seq![
        TuiActionView::DisableRawMode,
        TuiActionView::LeaveAlternateScreen,
        TuiActionView::SetTuiActive(false),
        TuiActionView::ForgetForPanic,
    ]
}

/// What follows after the step under way is done.
pub open spec fn proceeded(stage: TuiStage) -> (TuiStage, Seq<TuiActionView>) {
    match stage {
        TuiStage::OpeningTty => (TuiStage::EnablingRawMode, seq![TuiActionView::EnableRawMode]),
        TuiStage::EnablingRawMode => (
            TuiStage::EnteringScreen,
            seq![TuiActionView::EnterAlternateScreen],
        ),
        TuiStage::EnteringScreen => (
            TuiStage::DuplicatingForPanic,
            seq![
                TuiActionView::SetTuiActive(true),
                TuiActionView::InstallPanicHook,
                TuiActionView::Duplicate,
            ],
        ),
        TuiStage::DuplicatingForPanic => (
            TuiStage::DuplicatingForTerminal,
            seq![TuiActionView::KeepForPanic, TuiActionView::Duplicate],
        ),
        TuiStage::DuplicatingForTerminal => (
            TuiStage::BuildingTerminal,
            seq![TuiActionView::BuildTerminal],
        ),
        TuiStage::BuildingTerminal => (TuiStage::Open, seq![TuiActionView::Opened]),
        TuiStage::Open => (stage, Seq::empty()),
        TuiStage::Closed => (stage, Seq::empty()),
    }
}

/// What has to be undone when the step under way failed.
pub open spec fn undoing(stage: TuiStage) -> Seq<TuiActionView> {
    match stage {
        TuiStage::OpeningTty => Seq::empty(),
        TuiStage::EnablingRawMode => Seq::empty(),
        TuiStage::EnteringScreen => seq![TuiActionView::DisableRawMode],
        _ => restoring(),
    }
}

/// The text that says that the step under way failed.
pub open spec fn failure_text(stage: TuiStage, error: Seq<char>) -> Seq<char> {
    match stage {
        TuiStage::OpeningTty => "cannot open /dev/tty: "@ + error,
        TuiStage::EnablingRawMode => error,
        TuiStage::EnteringScreen => "enter alternate screen failed: "@ + error,
        TuiStage::DuplicatingForPanic => "duplicate /dev/tty failed: "@ + error,
        TuiStage::DuplicatingForTerminal => "duplicate /dev/tty failed: "@ + error,
        _ => "terminal init failed: "@ + error,
    }
}

/// Whether a step is under way.
pub open spec fn opening(stage: TuiStage) -> bool {
    stage != TuiStage::Open && stage != TuiStage::Closed
}

/// What follows after the step under way failed.
pub open spec fn failed(stage: TuiStage, error: Seq<char>) -> (TuiStage, Seq<TuiActionView>) {
    (
        TuiStage::Closed,
        undoing(stage) + seq![TuiActionView::Fail(failure_text(stage, error))],
    )
}

impl Tui {
    /// Begins to take the terminal over.
    pub fn open() -> (r: (Tui, TuiAction))
        ensures
            r.0@ == TuiStage::OpeningTty,
            r.1@ == TuiActionView::OpenTty,
    {
        (Tui { stage: TuiStage::OpeningTty }, TuiAction::OpenTty)
    }

    /// The step that is under way.
    pub fn stage(&self) -> (stage: TuiStage)
        ensures
            stage == self@,
    {
        self.stage
    }

    fn proceed(&mut self) -> (actions: Vec<TuiAction>)
        requires
            opening(old(self)@),
        ensures
            (final(self)@, action_views(actions@)) == proceeded(old(self)@),
    {
        let ghost before = self@;
        let (stage, actions) = match self.stage {
            TuiStage::OpeningTty => (TuiStage::EnablingRawMode, vec![TuiAction::EnableRawMode]),
            TuiStage::EnablingRawMode => (
                TuiStage::EnteringScreen,
                vec![TuiAction::EnterAlternateScreen],
            ),
            TuiStage::EnteringScreen => (
                TuiStage::DuplicatingForPanic,
                vec![
                    TuiAction::SetTuiActive(true),
                    TuiAction::InstallPanicHook,
                    TuiAction::Duplicate,
                ],
            ),
            TuiStage::DuplicatingForPanic => (
                TuiStage::DuplicatingForTerminal,
                vec![TuiAction::KeepForPanic, TuiAction::Duplicate],
            ),
            TuiStage::DuplicatingForTerminal => (
                TuiStage::BuildingTerminal,
                vec![TuiAction::BuildTerminal],
            ),
            _ => (TuiStage::Open, vec![TuiAction::Opened]),
        };
        self.stage = stage;
        assert(action_views(actions@) =~= proceeded(before).1);
        actions
    }

    fn fail(&mut self, error: String) -> (actions: Vec<TuiAction>)
        requires
            opening(old(self)@),
        ensures
            (final(self)@, action_views(actions@)) == failed(old(self)@, error@),
    {
        let ghost before = self@;
        let ghost given = error@;
        let mut actions: Vec<TuiAction> = Vec::new();
        let text = match self.stage {
            TuiStage::OpeningTty => join2("cannot open /dev/tty: ", error.as_str()),
            TuiStage::EnablingRawMode => error,
            TuiStage::EnteringScreen => join2("enter alternate screen failed: ", error.as_str()),
            TuiStage::DuplicatingForPanic => join2("duplicate /dev/tty failed: ", error.as_str()),
            TuiStage::DuplicatingForTerminal => join2(
                "duplicate /dev/tty failed: ",
                error.as_str(),
            ),
            _ => join2("terminal init failed: ", error.as_str()),
        };
        match self.stage {
            TuiStage::OpeningTty => {},
            TuiStage::EnablingRawMode => {},
            TuiStage::EnteringScreen => {
                actions.push(TuiAction::DisableRawMode);
            },
            _ => {
                actions.push(TuiAction::SetTuiActive(false));
                actions.push(TuiAction::ForgetForPanic);
                actions.push(TuiAction::LeaveAlternateScreen);
                actions.push(TuiAction::DisableRawMode);
            },
        }
        actions.push(TuiAction::Fail(text));
        self.stage = TuiStage::Closed;
        assert(action_views(actions@) =~= failed(before, given).1);
        actions
    }

    /// Takes how the step under way went and says what to do. When none is under way, there is
    /// nothing to do.
    pub fn advance(&mut self, ev: TuiEvent) -> (actions: Vec<TuiAction>)
        ensures
            (final(self)@, action_views(actions@)) == match ev {
                TuiEvent::Done => proceeded(old(self)@),
                TuiEvent::Failed(e) => if opening(old(self)@) {
                    failed(old(self)@, e@)
                } else {
                    (old(self)@, Seq::empty())
                },
            },
    {
        match self.stage {
            TuiStage::Open | TuiStage::Closed => {
                let actions: Vec<TuiAction> = Vec::new();
                assert(action_views(actions@) =~= Seq::empty());
                actions
            },
            _ => match ev {
                TuiEvent::Done => self.proceed(),
                TuiEvent::Failed(e) => self.fail(e),
            },
        }
    }

    /// Gives the terminal back, if the dialog could be drawn.
    pub fn close(&mut self) -> (actions: Vec<TuiAction>)
        ensures
            (final(self)@, action_views(actions@)) == if old(self)@ == TuiStage::Open {
                (TuiStage::Closed, closing())
            } else {
                (old(self)@, Seq::empty())
            },
    {
        let mut actions: Vec<TuiAction> = Vec::new();
        match self.stage {
            TuiStage::Open => {
                self.stage = TuiStage::Closed;
                actions.push(TuiAction::DisableRawMode);
                actions.push(TuiAction::LeaveAlternateScreen);
                actions.push(TuiAction::SetTuiActive(false));
                actions.push(TuiAction::ForgetForPanic);
                assert(action_views(actions@) =~= closing());
            },
            _ => {
                assert(action_views(actions@) =~= Seq::empty());
            },
        }
        actions
    }
}

/// What was changed about the terminal and about this process.
#[verifier::ext_equal]
pub struct Changes {
    pub raw: bool,
    pub alternate: bool,
    pub tui_active: bool,
    pub kept_for_panic: bool,
}

/// Nothing was changed.
pub open spec fn untouched() -> Changes {
    Changes { raw: false, alternate: false, tui_active: false, kept_for_panic: false }
}

/// What is changed after an action succeeded.
pub open spec fn changed(c: Changes, action: TuiActionView) -> Changes {
    match action {
        TuiActionView::EnableRawMode => Changes { raw: true, ..c },
        TuiActionView::DisableRawMode => Changes { raw: false, ..c },
        TuiActionView::EnterAlternateScreen => Changes { alternate: true, ..c },
        TuiActionView::LeaveAlternateScreen => Changes { alternate: false, ..c },
        TuiActionView::SetTuiActive(on) => Changes { tui_active: on, ..c },
        TuiActionView::KeepForPanic => Changes { kept_for_panic: true, ..c },
        TuiActionView::ForgetForPanic => Changes { kept_for_panic: false, ..c },
        _ => c,
    }
}

/// What is changed after all of `actions` succeeded.
pub open spec fn all_changed(c: Changes, actions: Seq<TuiActionView>) -> Changes
    decreases actions.len(),
{
    if actions.len() == 0 {
        c
    } else {
        changed(all_changed(c, actions.drop_last()), actions.last())
    }
}

/// What is changed while a step is under way: the step itself, the last of the actions that led
/// to it, has not taken effect.
pub open spec fn changes(stage: TuiStage) -> Changes {
    match stage {
        TuiStage::OpeningTty => untouched(),
        TuiStage::EnablingRawMode => untouched(),
        TuiStage::EnteringScreen => Changes { raw: true, ..untouched() },
        TuiStage::DuplicatingForPanic => Changes { kept_for_panic: false, ..taken_over() },
        TuiStage::Closed => untouched(),
        _ => taken_over(),
    }
}

/// Everything was changed.
pub open spec fn taken_over() -> Changes {
    Changes { raw: true, alternate: true, tui_active: true, kept_for_panic: true }
}

/// The last of the actions that led to a stage.
pub open spec fn pending_action(stage: TuiStage) -> TuiActionView {
    match stage {
        TuiStage::OpeningTty => TuiActionView::OpenTty,
        TuiStage::EnablingRawMode => TuiActionView::EnableRawMode,
        TuiStage::EnteringScreen => TuiActionView::EnterAlternateScreen,
        TuiStage::DuplicatingForPanic => TuiActionView::Duplicate,
        TuiStage::DuplicatingForTerminal => TuiActionView::Duplicate,
        TuiStage::BuildingTerminal => TuiActionView::BuildTerminal,
        TuiStage::Open => TuiActionView::Opened,
        TuiStage::Closed => TuiActionView::Opened,
    }
}

/// `changes` follows the terminal from step to step: each step takes effect when it is done, and
/// so do the actions before the next one.
pub proof fn law_changes_are_tracked(stage: TuiStage)
    requires
        opening(stage),
    ensures
        ({
            let (next, actions) = proceeded(stage);
            &&& actions.last() == pending_action(next)
            &&& changes(next) == all_changed(
                changed(changes(stage), pending_action(stage)),
                actions.drop_last(),
            )
        }),
{
    reveal_with_fuel(all_changed, 4);
}

/// Whatever step fails, the terminal is given back as it was, and the failure is reported.
pub proof fn law_failure_gives_the_terminal_back(stage: TuiStage, error: Seq<char>)
    requires
        opening(stage),
    ensures
        all_changed(changes(stage), failed(stage, error).1) == untouched(),
        failed(stage, error).1.last() is Fail,
{
    let all = failed(stage, error).1;
    assert(all.drop_last() =~= undoing(stage));
    reveal_with_fuel(all_changed, 6);
}

/// Closing the dialog gives the terminal back as it was.
pub proof fn law_closing_gives_the_terminal_back()
    ensures
        all_changed(changes(TuiStage::Open), closing()) == untouched(),
{
    reveal_with_fuel(all_changed, 5);
}

/// The terminal is taken over step by step, each step when the one before is done.
pub proof fn law_step_by_step()
    ensures
        proceeded(TuiStage::OpeningTty) == (
            TuiStage::EnablingRawMode,
            seq![TuiActionView::EnableRawMode],
        ),
        proceeded(TuiStage::EnablingRawMode) == (
            TuiStage::EnteringScreen,
            seq![TuiActionView::EnterAlternateScreen],
        ),
        proceeded(TuiStage::EnteringScreen) == (
            TuiStage::DuplicatingForPanic,
            seq![
                TuiActionView::SetTuiActive(true),
                TuiActionView::InstallPanicHook,
                TuiActionView::Duplicate,
            ],
        ),
        proceeded(TuiStage::DuplicatingForPanic) == (
            TuiStage::DuplicatingForTerminal,
            seq![TuiActionView::KeepForPanic, TuiActionView::Duplicate],
        ),
        proceeded(TuiStage::DuplicatingForTerminal) == (
            TuiStage::BuildingTerminal,
            seq![TuiActionView::BuildTerminal],
        ),
        proceeded(TuiStage::BuildingTerminal) == (TuiStage::Open, seq![TuiActionView::Opened]),
        proceeded(TuiStage::Open) == (TuiStage::Open, Seq::<TuiActionView>::empty()),
        proceeded(TuiStage::Closed) == (TuiStage::Closed, Seq::<TuiActionView>::empty()),
        TTY_PATH@ == "/dev/tty"@,
{
}

/// What is said where a step fails: which one, and what went wrong.
pub proof fn law_what_is_said_of_a_failure(stage: TuiStage, e: Seq<char>)
    ensures
        failed(stage, e).0 == TuiStage::Closed,
        failed(stage, e).1.last() == TuiActionView::Fail(failure_text(stage, e)),
        failure_text(TuiStage::OpeningTty, e) == "cannot open /dev/tty: "@ + e,
        failure_text(TuiStage::EnablingRawMode, e) == e,
        failure_text(TuiStage::EnteringScreen, e) == "enter alternate screen failed: "@ + e,
        failure_text(TuiStage::DuplicatingForPanic, e) == "duplicate /dev/tty failed: "@ + e,
        failure_text(TuiStage::DuplicatingForTerminal, e) == "duplicate /dev/tty failed: "@ + e,
        failure_text(TuiStage::BuildingTerminal, e) == "terminal init failed: "@ + e,
        opening(stage) <==> stage != TuiStage::Open && stage != TuiStage::Closed,
{
}

/// Nothing of an action is lost in its view.
pub proof fn law_views_hold_everything(t: String, on: bool, actions: Seq<TuiAction>, i: int)
    ensures
        TuiAction::OpenTty@ == TuiActionView::OpenTty,
        TuiAction::EnableRawMode@ == TuiActionView::EnableRawMode,
        TuiAction::DisableRawMode@ == TuiActionView::DisableRawMode,
        TuiAction::EnterAlternateScreen@ == TuiActionView::EnterAlternateScreen,
        TuiAction::LeaveAlternateScreen@ == TuiActionView::LeaveAlternateScreen,
        TuiAction::SetTuiActive(on)@ == TuiActionView::SetTuiActive(on),
        TuiAction::InstallPanicHook@ == TuiActionView::InstallPanicHook,
        TuiAction::Duplicate@ == TuiActionView::Duplicate,
        TuiAction::KeepForPanic@ == TuiActionView::KeepForPanic,
        TuiAction::ForgetForPanic@ == TuiActionView::ForgetForPanic,
        TuiAction::BuildTerminal@ == TuiActionView::BuildTerminal,
        TuiAction::Opened@ == TuiActionView::Opened,
        TuiAction::Fail(t)@ == TuiActionView::Fail(t@),
        action_views(actions).len() == actions.len(),
        0 <= i < actions.len() ==> action_views(actions)[i] == actions[i]@,
{
}

/// What the calls about the terminal give and change.
pub proof fn law_calls_about_the_terminal()
    ensures
        forall|r: (Tui, TuiAction)| #[trigger]
            call_ensures(Tui::open, (), r) ==> r.0@ == TuiStage::OpeningTty && r.1@
                == TuiActionView::OpenTty,
        forall|m: &mut Tui, ev: TuiEvent, actions: Vec<TuiAction>| #[trigger]
            call_ensures(Tui::advance, (m, ev), actions) ==> {
                &&& ev == TuiEvent::Done ==> (final(m)@, action_views(actions@)) == proceeded((*m)@)
                &&& ev matches TuiEvent::Failed(e) ==> {
                    &&& opening((*m)@) ==> (final(m)@, action_views(actions@)) == failed((*m)@, e@)
                    &&& !opening((*m)@) ==> final(m)@ == (*m)@ && actions@.len() == 0
                }
            },
        forall|m: &mut Tui, actions: Vec<TuiAction>| #[trigger]
            call_ensures(Tui::close, (m,), actions) ==> {
                &&& (*m)@ == TuiStage::Open ==> final(m)@ == TuiStage::Closed && action_views(actions@)
                    == closing()
                &&& (*m)@ != TuiStage::Open ==> final(m)@ == (*m)@ && actions@.len() == 0
            },
        closing() == seq![
            TuiActionView::DisableRawMode,
            TuiActionView::LeaveAlternateScreen,
            TuiActionView::SetTuiActive(false),
            TuiActionView::ForgetForPanic,
        ],
        restoring() == seq![
            TuiActionView::SetTuiActive(false),
            TuiActionView::ForgetForPanic,
            TuiActionView::LeaveAlternateScreen,
            TuiActionView::DisableRawMode,
        ],
{
    assert forall|m: &mut Tui, ev: TuiEvent, actions: Vec<TuiAction>| #[trigger]
        call_ensures(Tui::advance, (m, ev), actions) && !opening((*m)@) && ev is Failed implies
        actions@.len() == 0 by {
        assert(action_views(actions@).len() == 0);
    }
    assert forall|m: &mut Tui, actions: Vec<TuiAction>| #[trigger]
        call_ensures(Tui::close, (m,), actions) && (*m)@ != TuiStage::Open implies actions@.len()
        == 0 by {
        assert(action_views(actions@).len() == 0);
    }
}

} // verus!
