//! The controller: it turns the daemon's requests into popups of tmux.
//!
//! A cancellation may come before the request that it is about. It is remembered, so that the
//! request does not open a popup any more when it comes. While a popup is open, a cancellation
//! reaches it over its own connection, and tmux is told to close it as well.
use crate::daemon::{cancel_message, DaemonView};
use crate::popup::{PopupActionView, PopupEventView, PopupStage, PopupView};
use crate::prompt::{PromptEventView, PromptVerdictView, PromptView};
use crate::protocol::{AuthRequest, AuthRequestView, AuthResult, ClientMsg, ServerMsg, ServerMsgView};
use crate::table::Table;
use vstd::prelude::*;

verus! {

/// How many seconds the controller waits before it tries to connect to the daemon again.
pub const RECONNECT_SECS: u64 = 2;

/// What the controller has to do, in the order given.
#[derive(Debug)]
pub enum ControllerAction {
    /// Send this to the daemon.
    Send(ClientMsg),
    /// Open a popup for the request with this number.
    OpenPopup { id: u64, req: AuthRequest },
    /// Write this message to the popup for the request with this number.
    Signal { popup: u64, msg: ServerMsg },
    /// Tell tmux to close the popup.
    ClosePopup,
}

/// The kind and the contents of a `ControllerAction`.
#[verifier::ext_equal]
pub enum ControllerActionView {
    Send(ClientMsg),
    OpenPopup { id: u64, req: AuthRequestView },
    Signal { popup: u64, msg: ServerMsgView },
    ClosePopup,
}

impl View for ControllerAction {
    type V = ControllerActionView;

    open spec fn view(&self) -> ControllerActionView {
        match self {
            ControllerAction::Send(m) => ControllerActionView::Send(*m),
            ControllerAction::OpenPopup { id, req } => ControllerActionView::OpenPopup {
                id: *id,
                req: req@,
            },
            ControllerAction::Signal { popup, msg } => ControllerActionView::Signal {
                popup: *popup,
                msg: msg@,
            },
            ControllerAction::ClosePopup => ControllerActionView::ClosePopup,
        }
    }
}

/// The views of a list of actions.
pub open spec fn action_views(actions: Seq<ControllerAction>) -> Seq<ControllerActionView> {
    Seq::new(actions.len(), |i: int| actions[i]@)
}

/// What the controller remembers.
#[derive(Debug)]
pub struct Controller {
    current: Option<String>,
    cancelled: Table<()>,
    signal: Option<(u64, String)>,
}

/// What a `Controller` remembers.
#[verifier::ext_equal]
pub struct ControllerView {
    /// The cookie of the popup that was opened last and is not over.
    pub current: Option<Seq<char>>,
    /// The cookies that were cancelled and not asked for since.
    pub cancelled: Set<Seq<char>>,
    /// The request whose popup connected last, and its cookie, if no popup has gone since: it can
    /// be told about a cancellation.
    pub signal: Option<(u64, Seq<char>)>,
}

impl View for Controller {
    type V = ControllerView;

    closed spec fn view(&self) -> ControllerView {
        ControllerView {
            current: match self.current {
                Some(c) => Some(c@),
                None => None,
            },
            cancelled: self.cancelled@.dom(),
            signal: match self.signal {
                Some((popup, cookie)) => Some((popup, cookie@)),
                None => None,
            },
        }
    }
}

/// A controller that has seen nothing yet.
pub open spec fn initial() -> ControllerView {
    ControllerView { current: None, cancelled: Set::empty(), signal: None }
}

/// What tells the popup for the request `popup` that the authentication `cookie` was cancelled.
pub open spec fn signal_to(popup: u64, cookie: Seq<char>) -> ControllerActionView {
    ControllerActionView::Signal { popup, msg: ServerMsgView::Cancel { cookie } }
}

/// What tells the popup about a cancellation, where there is one to tell.
pub open spec fn signals(s: ControllerView) -> Seq<ControllerActionView> {
    match s.signal {
        Some((popup, cookie)) => seq![signal_to(popup, cookie)],
        None => Seq::empty(),
    }
}

/// What a message of the daemon leads to.
pub open spec fn received(s: ControllerView, msg: ServerMsgView) -> (
    ControllerView,
    Seq<ControllerActionView>,
) {
    match msg {
        ServerMsgView::Request { id, req } => if s.cancelled.contains(req.cookie) {
            (
                ControllerView { cancelled: s.cancelled.remove(req.cookie), ..s },
                seq![
                    ControllerActionView::Send(
                        ClientMsg::Response { id, result: AuthResult::Cancel },
                    ),
                ],
            )
        } else {
            (
                ControllerView { current: Some(req.cookie), ..s },
                seq![ControllerActionView::OpenPopup { id, req }],
            )
        },
        ServerMsgView::Cancel { cookie } => (
            ControllerView { cancelled: s.cancelled.insert(cookie), ..s },
            if s.current == Some(cookie) {
                signals(s) + seq![ControllerActionView::ClosePopup]
            } else {
                Seq::empty()
            },
        ),
    }
}

/// What it leads to that the popup for the request `id` has connected.
pub open spec fn attached(s: ControllerView, id: u64, cookie: Seq<char>) -> (
    ControllerView,
    Seq<ControllerActionView>,
) {
    (
        ControllerView { signal: Some((id, cookie)), ..s },
        if s.cancelled.contains(cookie) {
            seq![signal_to(id, cookie)]
        } else {
            Seq::empty()
        },
    )
}

/// After a popup that had connected is gone.
pub open spec fn detached(s: ControllerView) -> ControllerView {
    ControllerView { signal: None, ..s }
}

/// After the popup for `cookie` is over.
pub open spec fn popup_over(s: ControllerView, cookie: Seq<char>) -> ControllerView {
    ControllerView { current: if s.current == Some(cookie) { None } else { s.current }, ..s }
}

impl Controller {
    /// What the controller remembers is in order.
    pub closed spec fn wf(&self) -> bool {
        self.cancelled.wf()
    }

    /// A controller that has seen nothing yet.
    pub fn new() -> (c: Controller)
        ensures
            c@ == initial(),
            c.wf(),
    {
        let c = Controller { current: None, cancelled: Table::new(), signal: None };
        assert(c@ =~= initial());
        c
    }

    /// Whether the popup for `cookie` was opened last and is not over.
    fn shows(&self, cookie: &String) -> (r: bool)
        ensures
            r == (self@.current == Some(cookie@)),
    {
        match &self.current {
            Some(c) => *c == *cookie,
            None => false,
        }
    }

    /// Takes a line of the daemon; one that holds no message is ignored.
    pub fn on_message(&mut self, msg: Option<ServerMsg>) -> (actions: Vec<ControllerAction>)
        requires
            old(self).wf(),
        ensures
            final(self).wf(),
            match msg {
                Some(m) => (final(self)@, action_views(actions@)) == received(old(self)@, m@),
                None => final(self)@ == old(self)@ && actions@.len() == 0,
            },
    {
        let ghost before = self@;
        let mut actions: Vec<ControllerAction> = Vec::new();
        match msg {
            None => {},
            Some(ServerMsg::Request { id, req }) => {
                match self.cancelled.remove(req.cookie.as_str()) {
                    Some(_) => {
                        actions.push(
                            ControllerAction::Send(
                                ClientMsg::Response { id, result: AuthResult::Cancel },
                            ),
                        );
                        proof {
                            let (s, a) = received(before, msg->Some_0@);
                            assert(self@ =~= s);
                            assert(action_views(actions@) =~= a);
                        }
                    },
                    None => {
                        self.current = Some(req.cookie.clone());
                        actions.push(ControllerAction::OpenPopup { id, req });
                        proof {
                            let (s, a) = received(before, msg->Some_0@);
                            assert(self@.cancelled =~= before.cancelled);
                            assert(self@ =~= s);
                            assert(action_views(actions@) =~= a);
                        }
                    },
                }
            },
            Some(ServerMsg::Cancel { cookie }) => {
                self.cancelled.insert(cookie.clone(), ());
                if self.shows(&cookie) {
                    match &self.signal {
                        Some((popup, shown)) => {
                            let msg = ServerMsg::Cancel { cookie: shown.clone() };
                            actions.push(ControllerAction::Signal { popup: *popup, msg });
                        },
                        None => {},
                    }
                    actions.push(ControllerAction::ClosePopup);
                }
                proof {
                    let (s, a) = received(before, msg->Some_0@);
                    assert(self@.cancelled =~= before.cancelled.insert(cookie@));
                    assert(self@ =~= s);
                    assert(action_views(actions@) =~= a);
                }
            },
        }
        actions
    }

    /// Notes that the popup for the request `id` has connected, so that it can be told about a
    /// cancellation; one that came before is told at once.
    pub fn popup_connected(&mut self, id: u64, cookie: &str) -> (actions: Vec<ControllerAction>)
        requires
            old(self).wf(),
        ensures
            final(self).wf(),
            (final(self)@, action_views(actions@)) == attached(old(self)@, id, cookie@),
    {
        let mut actions: Vec<ControllerAction> = Vec::new();
        self.signal = Some((id, cookie.to_owned()));
        if self.cancelled.get(cookie).is_some() {
            let msg = ServerMsg::Cancel { cookie: cookie.to_owned() };
            actions.push(ControllerAction::Signal { popup: id, msg });
        }
        assert(action_views(actions@) =~= attached(old(self)@, id, cookie@).1);
        actions
    }

    /// Notes that a popup that had connected is gone.
    pub fn popup_gone(&mut self)
        requires
            old(self).wf(),
        ensures
            final(self).wf(),
            final(self)@ == detached(old(self)@),
    {
        self.signal = None;
    }

    /// Notes that the popup for the request `id` is over, and reports how it ended.
    pub fn popup_finished(&mut self, id: u64, cookie: &String, result: AuthResult) -> (msg: ClientMsg)
        requires
            old(self).wf(),
        ensures
            final(self).wf(),
            final(self)@ == popup_over(old(self)@, cookie@),
            msg == (ClientMsg::Response { id, result }),
    {
        if self.shows(cookie) {
            self.current = None;
        }
        ClientMsg::Response { id, result }
    }
}

/// A cancellation that comes before its request is not lost: the request is answered as
/// cancelled and opens no popup, and after that nothing of it is remembered.
pub proof fn law_cancelled_before_requested(s: ControllerView, id: u64, req: AuthRequestView)
    ensures
        ({
            let cancelled = received(s, ServerMsgView::Cancel { cookie: req.cookie }).0;
            let (after, actions) = received(cancelled, ServerMsgView::Request { id, req });
            &&& actions == seq![
                ControllerActionView::Send(ClientMsg::Response { id, result: AuthResult::Cancel }),
            ]
            &&& !after.cancelled.contains(req.cookie)
            &&& after.current == s.current
        }),
{
}

/// A cancellation that comes after the popup was opened and before it has connected reaches the
/// popup as soon as it connects.
pub proof fn law_cancelled_before_connected(s: ControllerView, id: u64, req: AuthRequestView)
    requires
        !s.cancelled.contains(req.cookie),
    ensures
        ({
            let opened = received(s, ServerMsgView::Request { id, req }).0;
            let cancelled = received(opened, ServerMsgView::Cancel { cookie: req.cookie }).0;
            attached(cancelled, id, req.cookie).1 == seq![signal_to(id, req.cookie)]
        }),
{
}

/// A cancellation closes the popup that is open for it: the popup is told, and tmux as well.
pub proof fn law_cancelled_while_open(s: ControllerView, id: u64, req: AuthRequestView)
    requires
        !s.cancelled.contains(req.cookie),
    ensures
        ({
            let opened = received(s, ServerMsgView::Request { id, req }).0;
            let open = attached(opened, id, req.cookie).0;
            received(open, ServerMsgView::Cancel { cookie: req.cookie }).1 == seq![
                signal_to(id, req.cookie),
                ControllerActionView::ClosePopup,
            ]
        }),
{
    let opened = received(s, ServerMsgView::Request { id, req }).0;
    let open = attached(opened, id, req.cookie).0;
    assert(received(open, ServerMsgView::Cancel { cookie: req.cookie }).1 =~= seq![
        signal_to(id, req.cookie),
        ControllerActionView::ClosePopup,
    ]);
}

/// A cancellation goes all the way: what the daemon sends makes the controller write a message to
/// the popup that is open for it, that message ends the process in the popup, and its exit code is
/// reported as a cancellation.
pub proof fn law_cancellation_goes_all_the_way(
    d: DaemonView,
    c: ControllerView,
    p: PromptView,
    popup: u64,
    msg: ServerMsgView,
)
    requires
        d.active is Some,
        c.current == Some(p.cookie),
        c.signal == Some((popup, p.cookie)),
        p.listening,
        received(c, cancel_message(d, p.cookie)->Some_0.msg).1.contains(
            ControllerActionView::Signal { popup, msg },
        ),
    ensures
        received(c, cancel_message(d, p.cookie)->Some_0.msg).1 == seq![
            ControllerActionView::Signal { popup, msg },
            ControllerActionView::ClosePopup,
        ],
        crate::prompt::step(p, PromptEventView::Line(Some(msg))).1 matches PromptVerdictView::Exit(
            code,
        ) && AuthResult::spec_from_exit_code(Some(code)) == AuthResult::Cancel,
{
    let actions = received(c, cancel_message(d, p.cookie)->Some_0.msg).1;
    assert(actions[0] == signal_to(popup, p.cookie));
    assert(actions =~= seq![signal_to(popup, p.cookie), ControllerActionView::ClosePopup]);
}

/// A popup that was cancelled before it connected is written its request, and right after it that
/// the request was cancelled; when its process is over, nothing can be written to it any more.
pub proof fn law_lines_of_a_cancelled_popup(
    c: ControllerView,
    p: PopupView,
    id: u64,
    user: u32,
    code: Option<i32>,
)
    requires
        p.stage == PopupStage::Checking,
        c.cancelled.contains(p.req.cookie),
    ensures
        ({
            let same = PopupEventView::Peer { uid: Some(user), current: user };
            let (sending, first) = crate::popup::step(p, same);
            let (waiting, second) = crate::popup::step(sending, PopupEventView::Done);
            let (told, third) = attached(c, id, p.req.cookie);
            let last = crate::popup::step(waiting, PopupEventView::Exited(code)).1;
            &&& first == seq![PopupActionView::SendRequest(p.req)]
            &&& second == seq![PopupActionView::Attach(p.req.cookie), PopupActionView::Wait]
            &&& third == seq![signal_to(id, p.req.cookie)]
            &&& last.first() == PopupActionView::Detach
            &&& detached(told).signal is None
        }),
{
}

/// A cancellation leaves the popup of another authentication alone.
pub proof fn law_other_popups_stay_open(s: ControllerView, cookie: Seq<char>)
    requires
        s.current != Some(cookie),
    ensures
        received(s, ServerMsgView::Cancel { cookie }).1.len() == 0,
        received(s, ServerMsgView::Cancel { cookie }).0.current == s.current,
        received(s, ServerMsgView::Cancel { cookie }).0.signal == s.signal,
{
}

/// The end of a popup does not make the controller forget a newer one.
pub proof fn law_newer_popup_is_kept(s: ControllerView, cookie: Seq<char>, newer: Seq<char>)
    requires
        s.current == Some(newer),
        newer != cookie,
    ensures
        popup_over(s, cookie) == s,
{
}

/// Every request leads to one response: at once if it was cancelled, otherwise when its popup is
/// over.
pub proof fn law_one_response_per_request(s: ControllerView, id: u64, req: AuthRequestView)
    ensures
        received(s, ServerMsgView::Request { id, req }).1 == seq![
            if s.cancelled.contains(req.cookie) {
                ControllerActionView::Send(ClientMsg::Response { id, result: AuthResult::Cancel })
            } else {
                ControllerActionView::OpenPopup { id, req }
            },
        ],
{
    assert(received(s, ServerMsgView::Request { id, req }).1 =~= seq![
        if s.cancelled.contains(req.cookie) {
            ControllerActionView::Send(ClientMsg::Response { id, result: AuthResult::Cancel })
        } else {
            ControllerActionView::OpenPopup { id, req }
        },
    ]);
}

/// A request opens a popup with what it holds and becomes the current one, unless it was cancelled
/// before; then it is answered as cancelled, opens nothing, and is forgotten. Nothing else changes.
pub proof fn law_requests(s: ControllerView, id: u64, req: AuthRequestView)
    ensures
        !s.cancelled.contains(req.cookie) ==> received(s, ServerMsgView::Request { id, req }) == (
            ControllerView { current: Some(req.cookie), ..s },
            seq![ControllerActionView::OpenPopup { id, req }],
        ),
        s.cancelled.contains(req.cookie) ==> received(s, ServerMsgView::Request { id, req }) == (
            ControllerView { cancelled: s.cancelled.remove(req.cookie), ..s },
            seq![
                ControllerActionView::Send(ClientMsg::Response { id, result: AuthResult::Cancel }),
            ],
        ),
{
}

/// A cancellation is remembered, whatever is open, and changes nothing else. Where the popup that is
/// open is meant, tmux is told to close it, and before that the popup that is connected is told
/// that it was cancelled.
pub proof fn law_cancellations(s: ControllerView, cookie: Seq<char>, other: Seq<char>)
    ensures
        ({
            let (t, actions) = received(s, ServerMsgView::Cancel { cookie });
            &&& t.cancelled.contains(cookie)
            &&& other != cookie ==> (t.cancelled.contains(other) <==> s.cancelled.contains(other))
            &&& t.current == s.current && t.signal == s.signal
            &&& s.current != Some(cookie) ==> actions.len() == 0
            &&& s.current == Some(cookie) ==> actions.len() > 0 && actions.last()
                == ControllerActionView::ClosePopup
            &&& s.current == Some(cookie) && s.signal is None ==> actions.len() == 1
            &&& s.current == Some(cookie) && s.signal is Some ==> actions.len() == 2 && actions[0] == (
            ControllerActionView::Signal {
                popup: s.signal->Some_0.0,
                msg: ServerMsgView::Cancel { cookie: s.signal->Some_0.1 },
            })
        }),
{
}

/// A popup that connects is the one that can be told about a cancellation, and is told at once where
/// its request was cancelled already. When it is gone nobody can be told, and when it is over it is
/// not the current one any more. Nothing else changes.
pub proof fn law_popups(s: ControllerView, id: u64, cookie: Seq<char>)
    ensures
        attached(s, id, cookie).0 == (ControllerView { signal: Some((id, cookie)), ..s }),
        s.cancelled.contains(cookie) ==> attached(s, id, cookie).1 == seq![
            ControllerActionView::Signal { popup: id, msg: ServerMsgView::Cancel { cookie } },
        ],
        !s.cancelled.contains(cookie) ==> attached(s, id, cookie).1.len() == 0,
        detached(s) == (ControllerView { signal: None, ..s }),
        s.current == Some(cookie) ==> popup_over(s, cookie) == (ControllerView { current: None, ..s }),
        s.current != Some(cookie) ==> popup_over(s, cookie) == s,
        initial().current is None,
        initial().signal is None,
        !initial().cancelled.contains(cookie),
        RECONNECT_SECS == 2,
{
}

/// Nothing of an action is lost in its view.
pub proof fn law_views_hold_everything(
    m: ClientMsg,
    id: u64,
    req: AuthRequest,
    msg: ServerMsg,
    actions: Seq<ControllerAction>,
    i: int,
)
    ensures
        ControllerAction::Send(m)@ == ControllerActionView::Send(m),
        (ControllerAction::OpenPopup { id, req })@ == (ControllerActionView::OpenPopup {
            id,
            req: req@,
        }),
        (ControllerAction::Signal { popup: id, msg })@ == (ControllerActionView::Signal {
            popup: id,
            msg: msg@,
        }),
        ControllerAction::ClosePopup@ == ControllerActionView::ClosePopup,
        action_views(actions).len() == actions.len(),
        0 <= i < actions.len() ==> action_views(actions)[i] == actions[i]@,
{
}

/// What the calls of a controller give and change.
pub proof fn law_calls_of_a_controller()
    ensures
        forall|c: Controller| #[trigger] call_ensures(Controller::new, (), c) ==> c@ == initial(),
        forall|m: &mut Controller, msg: Option<ServerMsg>, actions: Vec<ControllerAction>| #[trigger]
            call_ensures(Controller::on_message, (m, msg), actions) ==> {
                &&& msg is Some ==> (final(m)@, action_views(actions@)) == received(
                    (*m)@,
                    msg->Some_0@,
                )
                &&& msg is None ==> final(m)@ == (*m)@ && actions@.len() == 0
            },
        forall|m: &mut Controller, id: u64, cookie: &str, actions: Vec<ControllerAction>| #[trigger]
            call_ensures(Controller::popup_connected, (m, id, cookie), actions) ==> (
                final(m)@,
                action_views(actions@),
            ) == attached((*m)@, id, cookie@),
        forall|m: &mut Controller| #[trigger]
            call_ensures(Controller::popup_gone, (m,), ()) ==> final(m)@ == detached((*m)@),
        forall|m: &mut Controller, id: u64, cookie: &String, result: AuthResult, msg: ClientMsg| #[trigger]
            call_ensures(Controller::popup_finished, (m, id, cookie, result), msg) ==> final(m)@
                == popup_over((*m)@, cookie@) && msg == (ClientMsg::Response { id, result }),
{
}

} // verus!
