//! The authentication agent that polkit talks to.
//!
//! Polkit begins authentications and may give any of them up again. They are served one at a
//! time, in the order in which they began, since only one dialog can be shown. One that is given
//! up while it waits for its turn never shows a dialog.
//!
//! Each authentication has a number, its ticket, which is free again when it is over. `Agent`
//! keeps the order and knows which authentications were given up; its caller asks, with `poll`,
//! whether it is a ticket's turn.
use crate::protocol::{AuthRequest, AuthRequestView, AuthResult};
use crate::table::Table;
use crate::ui::{UiEvent, UiEventView};
use crate::user::{pick_username, users_of, Identity};
use vstd::prelude::*;

verus! {

/// What polkit is told when an authentication does not succeed.
#[derive(Debug, Clone, Copy, PartialEq, Eq, Structural)]
pub enum PolkitError {
    /// The authentication was given up.
    Cancelled,
    /// Anything else.
    Failed,
}

/// Where passwords are asked for.
#[derive(Debug, Clone, Copy, PartialEq, Eq, Structural)]
pub enum Backend {
    /// In the agent's own terminal.
    Inline,
    /// In a popup of tmux, by way of the daemon.
    Daemon,
}

/// What is known of an authentication under its cookie.
#[derive(Debug, Clone, Copy, PartialEq, Eq, Structural)]
pub struct Token {
    pub ticket: u128,
    /// Polkit gave the authentication up.
    pub cancelled: bool,
}

/// The authentications that have begun and are not over.
#[derive(Debug)]
pub struct Agent {
    backend: Backend,
    pending: Table<Token>,
    queue: Vec<u128>,
    running: Option<u128>,
}

/// What an `Agent` knows.
#[verifier::ext_equal]
pub struct AgentView {
    pub backend: Backend,
    /// Tokens by cookie.
    pub pending: Map<Seq<char>, Token>,
    /// The tickets that wait for their turn, in the order of their beginning.
    pub queue: Seq<u128>,
    /// The ticket whose turn it is.
    pub running: Option<u128>,
}

impl View for Agent {
    type V = AgentView;

    closed spec fn view(&self) -> AgentView {
        AgentView {
            backend: self.backend,
            pending: self.pending@,
            queue: self.queue@,
            running: self.running,
        }
    }
}

impl AgentView {
    /// No ticket waits twice, and whose turn it is does not wait.
    pub open spec fn wf(self) -> bool {
        &&& self.queue.no_duplicates()
        &&& self.running matches Some(r) ==> !self.queue.contains(r)
    }

    /// Whether an authentication that has this ticket waits or has its turn.
    pub open spec fn under_way(self, ticket: u128) -> bool {
        self.queue.contains(ticket) || self.running == Some(ticket)
    }

    /// Whether the authentication with this cookie and ticket was given up: its token says so,
    /// or its token is not there any more.
    pub open spec fn given_up(self, cookie: Seq<char>, ticket: u128) -> bool {
        !(self.pending.dom().contains(cookie) && self.pending[cookie] == (Token {
            ticket,
            cancelled: false,
        }))
    }
}

/// An agent that serves nothing yet.
pub open spec fn idle(backend: Backend) -> AgentView {
    AgentView {
        backend,
        pending: Map::empty(),
        queue: Seq::empty(),
        running: None,
    }
}

/// After an authentication has begun and was given `ticket`.
pub open spec fn begun(s: AgentView, cookie: Seq<char>, ticket: u128) -> AgentView {
    AgentView {
        pending: s.pending.insert(cookie, Token { ticket, cancelled: false }),
        queue: s.queue.push(ticket),
        ..s
    }
}

/// Whether `ticket` is the first number that no authentication under way has.
pub open spec fn first_free(s: AgentView, ticket: u128) -> bool {
    &&& !s.under_way(ticket)
    &&& forall|t: u128| t < ticket ==> #[trigger] s.under_way(t)
}

/// Whether a ticket has to wait, has its turn, or is over.
#[derive(Debug, Clone, Copy, PartialEq, Eq, Structural)]
pub enum Turn {
    Wait,
    /// Its dialog may be shown now.
    Granted,
    /// It was given up while it waited.
    Cancelled,
}

/// A queue without `ticket`, which stands in it; the others keep their order.
pub open spec fn without(queue: Seq<u128>, ticket: u128) -> Seq<u128> {
    queue.remove(queue.index_of(ticket))
}

/// What asking for a turn gives, and what it changes.
pub open spec fn polled(s: AgentView, cookie: Seq<char>, ticket: u128) -> (AgentView, Turn) {
    if s.given_up(cookie, ticket) {
        (
            AgentView {
                queue: without(s.queue, ticket),
                pending: s.pending.remove(cookie),
                ..s
            },
            Turn::Cancelled,
        )
    } else if s.running is None && s.queue.first() == ticket {
        (AgentView { queue: s.queue.skip(1), running: Some(ticket), ..s }, Turn::Granted)
    } else {
        (s, Turn::Wait)
    }
}

/// After the authentication whose turn it was is over.
pub open spec fn finished(s: AgentView, cookie: Seq<char>) -> AgentView {
    AgentView { pending: s.pending.remove(cookie), running: None, ..s }
}

/// After polkit gave up the authentication with this cookie.
pub open spec fn cancelled(s: AgentView, cookie: Seq<char>) -> AgentView {
    if s.pending.dom().contains(cookie) {
        AgentView {
            pending: s.pending.insert(cookie, Token { cancelled: true, ..s.pending[cookie] }),
            ..s
        }
    } else {
        s
    }
}

/// An authentication that has begun.
#[derive(Debug)]
pub struct Begun {
    pub ticket: u128,
    /// It has to wait for another one.
    pub queued: bool,
    pub req: AuthRequest,
}

/// What to do for an authentication that has its turn.
#[derive(Debug)]
pub enum Task {
    /// Ask for the password in this terminal.
    Ask(AuthRequest),
    /// Forward the request to the daemon, once.
    Forward(AuthRequest),
}

/// The kind and the contents of a `Task`.
#[verifier::ext_equal]
pub enum TaskView {
    Ask(AuthRequestView),
    Forward(AuthRequestView),
}

impl View for Task {
    type V = TaskView;

    open spec fn view(&self) -> TaskView {
        match self {
            Task::Ask(req) => TaskView::Ask(req@),
            Task::Forward(req) => TaskView::Forward(req@),
        }
    }
}

/// Who has to be told that an authentication was given up.
#[derive(Debug)]
pub enum CancelNotice {
    /// The dialog of this terminal.
    Ui(UiEvent),
    /// The daemon, with this cookie.
    Daemon(String),
}

/// The kind and the contents of a `CancelNotice`.
#[verifier::ext_equal]
pub enum CancelNoticeView {
    Ui(UiEventView),
    Daemon(Seq<char>),
}

impl View for CancelNotice {
    type V = CancelNoticeView;

    open spec fn view(&self) -> CancelNoticeView {
        match self {
            CancelNotice::Ui(ev) => CancelNoticeView::Ui(ev@),
            CancelNotice::Daemon(c) => CancelNoticeView::Daemon(c@),
        }
    }
}

impl Agent {
    /// The state of the agent is in order.
    pub closed spec fn wf(&self) -> bool {
        self.pending.wf() && self@.wf()
    }

    /// An agent that asks in its own terminal.
    pub fn inline() -> (agent: Agent)
        ensures
            agent@ == idle(Backend::Inline),
            agent.wf(),
    {
        Agent {
            backend: Backend::Inline,
            pending: Table::new(),
            queue: Vec::new(),
            running: None,
        }
    }

    /// An agent that asks by way of the daemon.
    pub fn daemon() -> (agent: Agent)
        ensures
            agent@ == idle(Backend::Daemon),
            agent.wf(),
    {
        Agent {
            backend: Backend::Daemon,
            pending: Table::new(),
            queue: Vec::new(),
            running: None,
        }
    }

    /// Begins an authentication for the one of the candidates `identities` that `pick_username`
    /// picks. Which of them has a name is up to the system; where none is picked the
    /// authentication fails at once.
    pub fn begin_authentication(
        &mut self,
        action_id: String,
        message: String,
        cookie: String,
        identities: &Vec<Identity>,
    ) -> (r: Result<Begun, PolkitError>)
        requires
            old(self).wf(),
        ensures
            final(self).wf(),
            users_of(identities@).len() == 0 ==> r is Err,
            exists|name: Option<String>| #[trigger]
                call_ensures(pick_username, (identities,), name) && match r {
                    Ok(b) => {
                        &&& name is Some
                        &&& first_free(old(self)@, b.ticket)
                        &&& b.queued == (old(self)@.running is Some || old(self)@.queue.len() > 0)
                        &&& b.req@ == (AuthRequestView {
                            cookie: cookie@,
                            user: name->Some_0@,
                            action: action_id@,
                            message: message@,
                        })
                        &&& final(self)@ == begun(old(self)@, cookie@, b.ticket)
                    },
                    Err(e) => {
                        &&& name is None
                        &&& e == PolkitError::Failed
                        &&& final(self)@ == old(self)@
                    },
                },
    {
        let pick = pick_username;
        let username = pick(identities);
        self.begin_as(action_id, message, cookie, username)
    }

    /// Begins an authentication for the user `username`; without one it fails at once.
    pub fn begin_as(
        &mut self,
        action_id: String,
        message: String,
        cookie: String,
        username: Option<String>,
    ) -> (r: Result<Begun, PolkitError>)
        requires
            old(self).wf(),
        ensures
            final(self).wf(),
            match r {
                Ok(b) => {
                    &&& username is Some
                    &&& first_free(old(self)@, b.ticket)
                    &&& b.queued == (old(self)@.running is Some || old(self)@.queue.len() > 0)
                    &&& b.req@ == (AuthRequestView {
                        cookie: cookie@,
                        user: username->Some_0@,
                        action: action_id@,
                        message: message@,
                    })
                    &&& final(self)@ == begun(old(self)@, cookie@, b.ticket)
                },
                Err(e) => {
                    &&& username is None
                    &&& e == PolkitError::Failed
                    &&& final(self)@ == old(self)@
                },
            },
    {
        match username {
            None => Err(PolkitError::Failed),
            Some(user) => {
                let ticket = self.free_ticket();
                let queued = self.running.is_some() || self.queue.len() > 0;
                self.pending.insert(cookie.clone(), Token { ticket, cancelled: false });
                self.queue.push(ticket);
                proof {
                    lemma_begun(old(self)@, cookie@, ticket);
                }
                let req = AuthRequest { cookie, user, action: action_id, message };
                Ok(Begun { ticket, queued, req })
            },
        }
    }

    /// The first number that no authentication under way has. There are more numbers than
    /// authentications can wait.
    fn free_ticket(&self) -> (ticket: u128)
        ensures
            first_free(self@, ticket),
    {
        let mut ticket: u128 = 0;
        let n = self.queue.len();
        while self.is_waiting(ticket) || self.running == Some(ticket)
            invariant
                n == self.queue@.len(),
                n == self@.queue.len(),
                forall|t: u128| t < ticket ==> #[trigger] self@.under_way(t),
                ticket <= n + 1,
            decreases n + 1 - ticket,
        {
            proof {
                assert forall|t: u128| t <= ticket implies #[trigger] self@.under_way(t) by {
                }
                lemma_more_numbers_than_tickets(self@, ticket);
            }
            ticket = ticket + 1;
        }
        ticket
    }

    /// Whether the authentication with this cookie and ticket was given up.
    pub fn is_given_up(&self, cookie: &str, ticket: u128) -> (r: bool)
        requires
            self.wf(),
        ensures
            r == self@.given_up(cookie@, ticket),
    {
        match self.pending.get(cookie) {
            Some(token) => token.ticket != ticket || token.cancelled,
            None => true,
        }
    }

    /// Whether a ticket waits for its turn.
    pub fn is_waiting(&self, ticket: u128) -> (r: bool)
        ensures
            r == self@.queue.contains(ticket),
    {
        let n = self.queue.len();
        for i in 0..n
            invariant
                n == self.queue@.len(),
                forall|k: int| 0 <= k < i ==> self.queue@[k] != ticket,
        {
            if self.queue[i] == ticket {
                return true;
            }
        }
        false
    }

    /// Asks for the turn of an authentication that waits.
    pub fn poll(&mut self, cookie: &str, ticket: u128) -> (turn: Turn)
        requires
            old(self).wf(),
            old(self)@.queue.contains(ticket),
        ensures
            final(self).wf(),
            (final(self)@, turn) == polled(old(self)@, cookie@, ticket),
    {
        proof {
            law_order_is_kept(self@, cookie@, ticket);
        }
        if self.is_given_up(cookie, ticket) {
            self.leave(ticket);
            let _ = self.pending.remove(cookie);
            return Turn::Cancelled;
        }
        if self.running.is_none() && self.queue[0] == ticket {
            let first = self.queue.remove(0);
            self.running = Some(first);
            assert(self.queue@ =~= old(self)@.queue.skip(1));
            Turn::Granted
        } else {
            Turn::Wait
        }
    }

    /// Takes a ticket out of the queue.
    fn leave(&mut self, ticket: u128)
        requires
            old(self).wf(),
            old(self)@.queue.contains(ticket),
        ensures
            final(self).pending == old(self).pending,
            final(self)@ == (AgentView {
                queue: without(old(self)@.queue, ticket),
                ..old(self)@
            }),
    {
        let mut at: usize = 0;
        let n = self.queue.len();
        while self.queue[at] != ticket
            invariant
                n == self.queue@.len(),
                *self == *old(self),
                self@.queue == self.queue@,
                self.queue@.contains(ticket),
                at < self.queue@.len(),
                forall|k: int| 0 <= k < at ==> self.queue@[k] != ticket,
            decreases self.queue@.len() - at,
        {
            proof {
                let k = choose|k: int| 0 <= k < self.queue@.len() && self.queue@[k] == ticket;
                assert(k > at);
            }
            at = at + 1;
        }
        assert(self@.queue.index_of(ticket) == at);
        self.queue.remove(at);
    }

    /// Who asks for the password of an authentication that has its turn: the request goes there as
    /// it is, and nowhere else.
    pub fn assign(&self, req: AuthRequest) -> (task: Task)
        ensures
            task@ == (match self@.backend {
                Backend::Inline => TaskView::Ask(req@),
                Backend::Daemon => TaskView::Forward(req@),
            }),
    {
        match self.backend {
            Backend::Inline => Task::Ask(req),
            Backend::Daemon => Task::Forward(req),
        }
    }

    /// Notes that the authentication whose turn it was is over.
    pub fn finish(&mut self, cookie: &str)
        requires
            old(self).wf(),
        ensures
            final(self).wf(),
            final(self)@ == finished(old(self)@, cookie@),
    {
        let _ = self.pending.remove(cookie);
        self.running = None;
    }

    /// Polkit gives up the authentication with this cookie; the result is whom to tell.
    pub fn cancel_authentication(&mut self, cookie: String) -> (notice: CancelNotice)
        requires
            old(self).wf(),
        ensures
            final(self).wf(),
            final(self)@ == cancelled(old(self)@, cookie@),
            notice@ == (match old(self)@.backend {
                Backend::Inline => CancelNoticeView::Ui(UiEventView::Cancel { cookie: cookie@ }),
                Backend::Daemon => CancelNoticeView::Daemon(cookie@),
            }),
    {
        let found: Option<Token> = match self.pending.get(cookie.as_str()) {
            Some(token) => Some(*token),
            None => None,
        };
        match found {
            Some(token) => {
                self.pending.insert(cookie.clone(), Token { ticket: token.ticket, cancelled: true });
            },
            None => {},
        }
        match self.backend {
            Backend::Inline => CancelNotice::Ui(UiEvent::Cancel { cookie }),
            Backend::Daemon => CancelNotice::Daemon(cookie),
        }
    }
}

/// How a request that was forwarded to the daemon ended.
#[derive(Debug)]
pub enum Forwarded {
    /// Polkit gave the authentication up first.
    GivenUp,
    /// The daemon answered, or reported this error.
    Replied(Result<AuthResult, String>),
}

/// What polkit is told after a request was forwarded.
pub open spec fn outcome_of(end: Forwarded) -> Result<(), PolkitError> {
    match end {
        Forwarded::GivenUp => Err(PolkitError::Cancelled),
        Forwarded::Replied(Ok(AuthResult::Success)) => Ok(()),
        Forwarded::Replied(Ok(AuthResult::Cancel)) => Err(PolkitError::Cancelled),
        Forwarded::Replied(Ok(AuthResult::Failed)) => Err(PolkitError::Failed),
        Forwarded::Replied(Err(_)) => Err(PolkitError::Failed),
    }
}

/// What polkit is told after a request was forwarded; an error of the daemon is a failure.
pub fn daemon_outcome(end: &Forwarded) -> (r: Result<(), PolkitError>)
    ensures
        r == outcome_of(*end),
{
    match end {
        Forwarded::GivenUp => Err(PolkitError::Cancelled),
        Forwarded::Replied(Ok(AuthResult::Success)) => Ok(()),
        Forwarded::Replied(Ok(AuthResult::Cancel)) => Err(PolkitError::Cancelled),
        Forwarded::Replied(Ok(AuthResult::Failed)) => Err(PolkitError::Failed),
        Forwarded::Replied(Err(_)) => Err(PolkitError::Failed),
    }
}

/// As many numbers as authentications are under way, and no more, can be taken.
proof fn lemma_more_numbers_than_tickets(s: AgentView, last: u128)
    requires
        forall|t: u128| t <= last ==> #[trigger] s.under_way(t),
    ensures
        last < s.queue.len() + 1,
{
    let taken = match s.running {
        Some(r) => s.queue.push(r),
        None => s.queue,
    };
    assert forall|t: u128| t <= last implies #[trigger] taken.contains(t) by {
        assert(s.under_way(t));
        if s.queue.contains(t) {
            let k = s.queue.index_of(t);
            assert(taken[k] == t);
        } else {
            assert(taken[taken.len() - 1] == t);
        }
    }
    lemma_pigeonhole(taken, last);
}

/// A sequence that holds all numbers up to `last` is longer than `last`.
proof fn lemma_pigeonhole(taken: Seq<u128>, last: u128)
    requires
        forall|t: u128| t <= last ==> #[trigger] taken.contains(t),
    ensures
        last < taken.len(),
    decreases last,
{
    assert(taken.contains(last));
    if last > 0 {
        let at = taken.index_of(last);
        let rest = taken.remove(at);
        let before = (last - 1) as u128;
        assert forall|t: u128| t <= before implies #[trigger] rest.contains(t) by {
            assert(taken.contains(t));
            let k = taken.index_of(t);
            if k < at {
                assert(rest[k] == t);
            } else {
                assert(rest[k - 1] == t);
            }
        }
        lemma_pigeonhole(rest, before);
    }
}

/// A ticket that was taken out of a queue is not in it any more; the others are.
proof fn lemma_without(queue: Seq<u128>, ticket: u128)
    requires
        queue.no_duplicates(),
        queue.contains(ticket),
    ensures
        without(queue, ticket).no_duplicates(),
        !without(queue, ticket).contains(ticket),
        forall|t: u128|
            t != ticket ==> (#[trigger] without(queue, ticket).contains(t) <==> queue.contains(t)),
{
    let at = queue.index_of(ticket);
    let rest = without(queue, ticket);
    assert forall|i: int| 0 <= i < rest.len() implies #[trigger] rest[i] == queue[if i < at {
        i
    } else {
        i + 1
    }] by {}
    assert forall|t: u128| t != ticket implies (#[trigger] rest.contains(t) <==> queue.contains(
        t,
    )) by {
        if queue.contains(t) {
            let k = queue.index_of(t);
            assert(rest[if k < at {
                k
            } else {
                k - 1
            }] == t);
        }
        if rest.contains(t) {
            let k = rest.index_of(t);
            assert(rest[k] == t);
        }
    }
}

/// A number that is free can be given.
proof fn lemma_begun(s: AgentView, cookie: Seq<char>, ticket: u128)
    requires
        s.wf(),
        !s.under_way(ticket),
    ensures
        begun(s, cookie, ticket).wf(),
{
    let q = begun(s, cookie, ticket).queue;
    assert forall|i: int, j: int| 0 <= i < q.len() && 0 <= j < q.len() && i != j implies q[i]
        != q[j] by {
        if i < s.queue.len() {
            assert(s.queue.contains(s.queue[i]));
        }
        if j < s.queue.len() {
            assert(s.queue.contains(s.queue[j]));
        }
    }
    if s.running is Some && q.contains(s.running->Some_0) {
        let k = q.index_of(s.running->Some_0);
        if k < s.queue.len() {
            assert(s.queue.contains(s.queue[k]));
        }
    }
}

/// Whatever happens, no ticket waits twice or while it has its turn, and the waiting keep their
/// order: who begins stands last, who leaves or has the turn is taken out, and nothing else moves.
pub proof fn law_order_is_kept(s: AgentView, cookie: Seq<char>, ticket: u128)
    requires
        s.wf(),
    ensures
        !s.under_way(ticket) ==> begun(s, cookie, ticket).wf() && begun(s, cookie, ticket).queue
            == s.queue.push(ticket),
        s.queue.contains(ticket) ==> polled(s, cookie, ticket).0.wf() && (polled(
            s,
            cookie,
            ticket,
        ).0.queue == s.queue || polled(s, cookie, ticket).0.queue == without(s.queue, ticket)),
        finished(s, cookie).wf() && finished(s, cookie).queue == s.queue,
        cancelled(s, cookie).wf() && cancelled(s, cookie).queue == s.queue,
{
    if !s.under_way(ticket) {
        lemma_begun(s, cookie, ticket);
    }
    if s.queue.contains(ticket) {
        lemma_without(s.queue, ticket);
        if polled(s, cookie, ticket).1 == Turn::Granted {
            assert(s.queue.index_of(ticket) == 0);
            assert(s.queue.skip(1) =~= without(s.queue, ticket));
        }
    }
}

/// One dialog at a time, first come first served: a turn is given only when no other
/// authentication has it, and only to the one that stands first.
pub proof fn law_first_come_first_served(s: AgentView, cookie: Seq<char>, ticket: u128)
    requires
        s.wf(),
        s.queue.contains(ticket),
        polled(s, cookie, ticket).1 == Turn::Granted,
    ensures
        s.running is None,
        polled(s, cookie, ticket).0.running == Some(ticket),
        s.queue.first() == ticket,
        s.queue == seq![ticket] + polled(s, cookie, ticket).0.queue,
{
    assert(s.queue =~= seq![ticket] + s.queue.skip(1));
}

/// An authentication that polkit gives up while it waits is answered as cancelled, whoever has the
/// turn. It never has a turn, takes none away, and leaves nothing behind; what is known of the
/// others, and their order, stays what it was.
pub proof fn law_cancelled_while_waiting(s: AgentView, cookie: Seq<char>, ticket: u128)
    requires
        s.wf(),
        s.queue.contains(ticket),
        s.pending.dom().contains(cookie),
        s.pending[cookie].ticket == ticket,
    ensures
        ({
            let (after, turn) = polled(cancelled(s, cookie), cookie, ticket);
            &&& turn == Turn::Cancelled
            &&& after.running == s.running
            &&& !after.under_way(ticket)
            &&& after.queue == without(s.queue, ticket)
            &&& after.pending == s.pending.remove(cookie)
        }),
{
    lemma_without(s.queue, ticket);
    assert(polled(cancelled(s, cookie), cookie, ticket).0.pending =~= s.pending.remove(cookie));
}

/// What can happen to an agent.
pub enum AgentEvent {
    /// An authentication with this cookie begins and is given this ticket.
    Begin(Seq<char>, u128),
    /// The authentication with this cookie and ticket asks for its turn.
    Poll(Seq<char>, u128),
    /// The authentication with this cookie, whose turn it was, is over.
    Finish(Seq<char>),
    /// Polkit gives up the authentication with this cookie.
    Cancel(Seq<char>),
}

/// Whether an event can happen: a ticket is free when it is given, and waits when it asks for its
/// turn.
pub open spec fn can_happen(s: AgentView, ev: AgentEvent) -> bool {
    match ev {
        AgentEvent::Begin(_, ticket) => !s.under_way(ticket),
        AgentEvent::Poll(_, ticket) => s.queue.contains(ticket),
        _ => true,
    }
}

/// The agent after an event.
pub open spec fn happened(s: AgentView, ev: AgentEvent) -> AgentView {
    match ev {
        AgentEvent::Begin(cookie, ticket) => begun(s, cookie, ticket),
        AgentEvent::Poll(cookie, ticket) => polled(s, cookie, ticket).0,
        AgentEvent::Finish(cookie) => finished(s, cookie),
        AgentEvent::Cancel(cookie) => cancelled(s, cookie),
    }
}

/// The agent after `events`.
pub open spec fn after(s: AgentView, events: Seq<AgentEvent>) -> AgentView
    decreases events.len(),
{
    if events.len() == 0 {
        s
    } else {
        happened(after(s, events.drop_last()), events.last())
    }
}

/// Whether `events` can happen one after the other.
pub open spec fn all_can_happen(s: AgentView, events: Seq<AgentEvent>) -> bool
    decreases events.len(),
{
    events.len() == 0 || {
        &&& all_can_happen(s, events.drop_last())
        &&& can_happen(after(s, events.drop_last()), events.last())
    }
}

/// Whether the event `ev` gives a turn.
pub open spec fn gives_turn(s: AgentView, ev: AgentEvent) -> bool {
    ev matches AgentEvent::Poll(cookie, ticket) && polled(s, cookie, ticket).1 == Turn::Granted
}

/// For each ticket that waits after `events`, in the order of the queue, which of the events was
/// its beginning.
pub open spec fn beginnings(s: AgentView, events: Seq<AgentEvent>) -> Seq<int>
    decreases events.len(),
{
    if events.len() == 0 {
        Seq::empty()
    } else {
        let s0 = after(s, events.drop_last());
        let b0 = beginnings(s, events.drop_last());
        match events.last() {
            AgentEvent::Begin(..) => b0.push(events.len() - 1),
            AgentEvent::Poll(cookie, ticket) => if polled(s0, cookie, ticket).1 == Turn::Wait {
                b0
            } else {
                b0.remove(s0.queue.index_of(ticket))
            },
            _ => b0,
        }
    }
}

/// For each turn that was given in the course of `events`, in the order in which they were given,
/// which of the events was the beginning of the authentication that had it.
pub open spec fn served(s: AgentView, events: Seq<AgentEvent>) -> Seq<int>
    decreases events.len(),
{
    if events.len() == 0 {
        Seq::empty()
    } else {
        let before = served(s, events.drop_last());
        if gives_turn(after(s, events.drop_last()), events.last()) {
            before.push(beginnings(s, events.drop_last()).first())
        } else {
            before
        }
    }
}

/// Whether the event `n` of `events` is the beginning of an authentication that is given `ticket`.
pub open spec fn begins(events: Seq<AgentEvent>, n: int, ticket: u128) -> bool {
    0 <= n < events.len() && (events[n] matches AgentEvent::Begin(_, t) && t == ticket)
}

/// Whatever happens, for as long as it may, turns are given one at a time and in the order in
/// which the authentications began: no turn is given while another lasts, it goes to the one that
/// began first of all that wait, and no authentication has a turn before one that began earlier,
/// nor twice.
pub proof fn law_turns_in_the_order_of_beginning(
    backend: Backend,
    events: Seq<AgentEvent>,
    ev: AgentEvent,
)
    requires
        all_can_happen(idle(backend), events),
        can_happen(after(idle(backend), events), ev),
    ensures
        ({
            let s = after(idle(backend), events);
            let b = beginnings(idle(backend), events);
            let had = served(idle(backend), events);
            &&& s.wf()
            &&& b.len() == s.queue.len()
            &&& forall|k: int| 0 <= k < b.len() ==> begins(events, #[trigger] b[k], s.queue[k])
            &&& forall|i: int, j: int|
                0 <= i < j < had.len() ==> (#[trigger] had[i]) < (#[trigger] had[j])
            &&& gives_turn(s, ev) ==> {
                &&& s.running is None
                &&& happened(s, ev).running == Some(s.queue[0])
                &&& forall|k: int| 1 <= k < b.len() ==> b[0] < (#[trigger] b[k])
                &&& forall|i: int| 0 <= i < had.len() ==> (#[trigger] had[i]) < b[0]
            }
        }),
{
    lemma_turns(backend, events);
}

/// What every course of events keeps: the waiting stand in the order of their beginnings, and who
/// had a turn began before all of them.
proof fn lemma_turns(backend: Backend, events: Seq<AgentEvent>)
    requires
        all_can_happen(idle(backend), events),
    ensures
        ({
            let s = after(idle(backend), events);
            let b = beginnings(idle(backend), events);
            let had = served(idle(backend), events);
            &&& s.wf()
            &&& b.len() == s.queue.len()
            &&& forall|k: int| 0 <= k < b.len() ==> begins(events, #[trigger] b[k], s.queue[k])
            &&& forall|i: int, j: int| 0 <= i < j < b.len() ==> (#[trigger] b[i]) < (#[trigger] b[j])
            &&& forall|i: int, j: int|
                0 <= i < j < had.len() ==> (#[trigger] had[i]) < (#[trigger] had[j])
            &&& forall|i: int| 0 <= i < had.len() ==> 0 <= (#[trigger] had[i]) < events.len()
            &&& forall|i: int, k: int|
                0 <= i < had.len() && 0 <= k < b.len() ==> (#[trigger] had[i]) < (#[trigger] b[k])
        }),
    decreases events.len(),
{
    let start = idle(backend);
    let s = after(start, events);
    let b = beginnings(start, events);
    let had = served(start, events);
    if events.len() > 0 {
        let past = events.drop_last();
        lemma_turns(backend, past);
        let s0 = after(start, past);
        let b0 = beginnings(start, past);
        let had0 = served(start, past);
        assert forall|n: int, t: u128| begins(past, n, t) implies begins(events, n, t) by {
            assert(past[n] == events[n]);
        }
        match events.last() {
            AgentEvent::Begin(cookie, ticket) => {
                law_order_is_kept(s0, cookie, ticket);
                assert(had == had0);
                assert forall|k: int| 0 <= k < b.len() implies begins(
                    events,
                    #[trigger] b[k],
                    s.queue[k],
                ) && b[k] < events.len() by {
                    if k < b0.len() {
                        assert(begins(past, b0[k], s0.queue[k]));
                    }
                }
                assert forall|i: int, j: int| 0 <= i < j < b.len() implies (#[trigger] b[i]) < (
                #[trigger] b[j]) by {
                    assert(begins(past, b0[i], s0.queue[i]));
                    if j < b0.len() {
                        assert(b0[i] < b0[j]);
                    }
                }
                assert forall|i: int, k: int| 0 <= i < had.len() && 0 <= k < b.len() implies (
                #[trigger] had[i]) < (#[trigger] b[k]) by {
                    if k < b0.len() {
                        assert(had0[i] < b0[k]);
                    }
                }
            },
            AgentEvent::Poll(cookie, ticket) => {
                law_order_is_kept(s0, cookie, ticket);
                let at = s0.queue.index_of(ticket);
                let turn = polled(s0, cookie, ticket).1;
                if turn == Turn::Granted {
                    assert(at == 0);
                    assert(s.queue =~= without(s0.queue, ticket));
                    assert(had == had0.push(b0[0]));
                } else {
                    assert(had == had0);
                }
                if turn != Turn::Wait {
                    assert forall|k: int| 0 <= k < b.len() implies begins(
                        events,
                        #[trigger] b[k],
                        s.queue[k],
                    ) by {
                        let m = if k < at {
                            k
                        } else {
                            k + 1
                        };
                        assert(b[k] == b0[m] && s.queue[k] == s0.queue[m]);
                        assert(begins(past, b0[m], s0.queue[m]));
                    }
                    assert forall|i: int, k: int| 0 <= i < had.len() && 0 <= k < b.len() implies (
                    #[trigger] had[i]) < (#[trigger] b[k]) by {
                        let m = if k < at {
                            k
                        } else {
                            k + 1
                        };
                        assert(b[k] == b0[m]);
                        if i < had0.len() {
                            assert(had0[i] < b0[m]);
                        } else {
                            assert(b0[0] < b0[m]);
                        }
                    }
                    assert forall|i: int, j: int| 0 <= i < j < b.len() implies (#[trigger] b[i]) < (
                    #[trigger] b[j]) by {
                        let m = if i < at {
                            i
                        } else {
                            i + 1
                        };
                        let n = if j < at {
                            j
                        } else {
                            j + 1
                        };
                        assert(b0[m] < b0[n]);
                    }
                    assert forall|i: int, j: int| 0 <= i < j < had.len() implies (
                    #[trigger] had[i]) < (#[trigger] had[j]) by {
                        if j == had0.len() {
                            assert(had0[i] < b0[0]);
                        }
                    }
                    assert(begins(past, b0[0], s0.queue[0]));
                } else {
                    assert forall|k: int| 0 <= k < b.len() implies begins(
                        events,
                        #[trigger] b[k],
                        s.queue[k],
                    ) by {
                        assert(begins(past, b0[k], s0.queue[k]));
                    }
                }
            },
            AgentEvent::Finish(cookie) => {
                law_order_is_kept(s0, cookie, 0);
                assert(had == had0 && b == b0);
                assert forall|k: int| 0 <= k < b.len() implies begins(
                    events,
                    #[trigger] b[k],
                    s.queue[k],
                ) by {
                    assert(begins(past, b0[k], s0.queue[k]));
                }
            },
            AgentEvent::Cancel(cookie) => {
                law_order_is_kept(s0, cookie, 0);
                assert(had == had0 && b == b0);
                assert forall|k: int| 0 <= k < b.len() implies begins(
                    events,
                    #[trigger] b[k],
                    s.queue[k],
                ) by {
                    assert(begins(past, b0[k], s0.queue[k]));
                }
            },
        }
    }
}

/// What was given up stays given up for as long as it is under way, whatever happens to it or to
/// other authentications.
pub proof fn law_given_up_for_good(
    s: AgentView,
    cookie: Seq<char>,
    ticket: u128,
    other: Seq<char>,
    other_ticket: u128,
    new_ticket: u128,
)
    requires
        s.given_up(cookie, ticket),
        s.under_way(ticket),
        !s.under_way(new_ticket),
    ensures
        begun(s, other, new_ticket).given_up(cookie, ticket),
        polled(s, other, other_ticket).0.given_up(cookie, ticket),
        finished(s, other).given_up(cookie, ticket),
        cancelled(s, other).given_up(cookie, ticket),
{
}

/// Giving up, or ending, one authentication does not give up another.
pub proof fn law_others_go_on(
    s: AgentView,
    cookie: Seq<char>,
    ticket: u128,
    other: Seq<char>,
    other_ticket: u128,
)
    requires
        cookie != other,
    ensures
        cancelled(s, other).given_up(cookie, ticket) == s.given_up(cookie, ticket),
        finished(s, other).given_up(cookie, ticket) == s.given_up(cookie, ticket),
        polled(s, other, other_ticket).0.given_up(cookie, ticket) == s.given_up(cookie, ticket),
        begun(s, other, other_ticket).given_up(cookie, ticket) == s.given_up(cookie, ticket),
{
}

/// Giving up an authentication that is not there changes nothing.
pub proof fn law_unknown_cookie(s: AgentView, cookie: Seq<char>)
    requires
        !s.pending.dom().contains(cookie),
    ensures
        cancelled(s, cookie) == s,
{
}

/// When an authentication is over, its token is gone, and the next one that waits goes on: it has
/// its turn, unless it was given up, and then it leaves.
pub proof fn law_turn_passes_on(s: AgentView, cookie: Seq<char>, next: Seq<char>)
    requires
        s.queue.len() > 0,
    ensures
        !finished(s, cookie).pending.dom().contains(cookie),
        polled(finished(s, cookie), next, s.queue[0]).1 != Turn::Wait,
        next != cookie && !s.given_up(next, s.queue[0]) ==> polled(
            finished(s, cookie),
            next,
            s.queue[0],
        ).1 == Turn::Granted,
{
}

/// An authentication that has just begun is under way, stands last, is not given up, and leaves the
/// others and the turn as they were.
pub proof fn law_beginning(s: AgentView, cookie: Seq<char>, ticket: u128, other: Seq<char>)
    requires
        s.wf(),
        !s.under_way(ticket),
    ensures
        ({
            let t = begun(s, cookie, ticket);
            &&& t.under_way(ticket)
            &&& t.queue.last() == ticket
            &&& t.queue.drop_last() == s.queue
            &&& !t.given_up(cookie, ticket)
            &&& cancelled(t, cookie).given_up(cookie, ticket)
            &&& t.running == s.running
            &&& t.backend == s.backend
            &&& other != cookie ==> t.pending.dom().contains(other) == s.pending.dom().contains(other)
                && (s.pending.dom().contains(other) ==> t.pending[other] == s.pending[other])
        }),
{
    assert(begun(s, cookie, ticket).queue.drop_last() =~= s.queue);
    let t = begun(s, cookie, ticket);
    assert(t.queue[t.queue.len() - 1] == ticket);
}

/// Who asks for a turn gets it exactly when it stands first, no other has it, and it was not given
/// up; it is sent away exactly when it was given up; and otherwise it waits and nothing changes.
/// Only the turn of one that gets it, and the place of one that leaves, are changed.
pub proof fn law_asking_for_a_turn(s: AgentView, cookie: Seq<char>, ticket: u128, other: Seq<char>)
    requires
        s.wf(),
        s.queue.contains(ticket),
    ensures
        ({
            let (t, turn) = polled(s, cookie, ticket);
            &&& turn == Turn::Cancelled <==> s.given_up(cookie, ticket)
            &&& turn == Turn::Granted <==> !s.given_up(cookie, ticket) && s.running is None
                && s.queue[0] == ticket
            &&& turn == Turn::Wait ==> t == s
            &&& turn == Turn::Granted ==> t == (AgentView {
                running: Some(ticket),
                queue: s.queue.skip(1),
                ..s
            })
            &&& turn == Turn::Cancelled ==> {
                &&& t.running == s.running
                &&& !t.under_way(ticket)
                &&& t.queue.len() == s.queue.len() - 1
                &&& !t.pending.dom().contains(cookie)
            }
            &&& other != cookie ==> t.pending.dom().contains(other) == s.pending.dom().contains(other)
                && (s.pending.dom().contains(other) ==> t.pending[other] == s.pending[other])
            &&& t.backend == s.backend
        }),
{
    lemma_without(s.queue, ticket);
}

/// An authentication is given up when its token is gone, belongs to another one, or says so, and
/// only then.
pub proof fn law_what_given_up_means(s: AgentView, cookie: Seq<char>, ticket: u128)
    ensures
        !s.pending.dom().contains(cookie) ==> s.given_up(cookie, ticket),
        s.pending.dom().contains(cookie) ==> (s.given_up(cookie, ticket) <==> s.pending[cookie].ticket
            != ticket || s.pending[cookie].cancelled),
{
}

/// Who leaves a queue leaves those before and those behind in their order.
pub proof fn law_leaving_the_queue(before: Seq<u128>, ticket: u128, behind: Seq<u128>)
    requires
        (before + seq![ticket] + behind).no_duplicates(),
    ensures
        without(before + seq![ticket] + behind, ticket) == before + behind,
{
    let all = before + seq![ticket] + behind;
    assert(all[before.len() as int] == ticket);
    assert(all.contains(ticket));
    assert(all.index_of(ticket) == before.len());
    assert(all.remove(before.len() as int) =~= before + behind);
}

/// Giving up an authentication marks its token and nothing else, and ending one takes its token
/// away, frees the turn, and nothing else.
pub proof fn law_giving_up_and_ending(s: AgentView, cookie: Seq<char>, other: Seq<char>)
    ensures
        ({
            let c = cancelled(s, cookie);
            &&& s.pending.dom().contains(cookie) ==> c.pending.dom().contains(cookie)
                && c.pending[cookie].cancelled && c.pending[cookie].ticket
                == s.pending[cookie].ticket
            &&& other != cookie ==> c.pending.dom().contains(other) == s.pending.dom().contains(other)
                && (s.pending.dom().contains(other) ==> c.pending[other] == s.pending[other])
            &&& c.queue == s.queue && c.running == s.running && c.backend == s.backend
        }),
        ({
            let f = finished(s, cookie);
            &&& f.running is None
            &&& !f.pending.dom().contains(cookie)
            &&& other != cookie ==> f.pending.dom().contains(other) == s.pending.dom().contains(other)
                && (s.pending.dom().contains(other) ==> f.pending[other] == s.pending[other])
            &&& f.queue == s.queue && f.backend == s.backend
        }),
{
}

/// Polkit is told of a success exactly when the daemon reported one, of a cancellation exactly when
/// polkit or the user gave up, and of a failure in every other case, whatever error it was.
pub proof fn law_what_polkit_is_told(end: Forwarded)
    ensures
        outcome_of(end) is Ok <==> end == Forwarded::Replied(Ok(AuthResult::Success)),
        outcome_of(end) == Err::<(), PolkitError>(PolkitError::Cancelled) <==> end
            == Forwarded::GivenUp || end == Forwarded::Replied(Ok(AuthResult::Cancel)),
        outcome_of(end) == Err::<(), PolkitError>(PolkitError::Failed) <==> end == Forwarded::Replied(
            Ok(AuthResult::Failed),
        ) || (end matches Forwarded::Replied(Err(_))),
{
}

/// A new agent serves nothing, and keeps to the backend that it was made for.
pub proof fn law_a_new_agent(backend: Backend, cookie: Seq<char>, ticket: u128)
    ensures
        idle(backend).wf(),
        idle(backend).backend == backend,
        !idle(backend).under_way(ticket),
        !idle(backend).pending.dom().contains(cookie),
        idle(backend).running is None,
{
}

/// Nothing of a task or of a notice is lost in its view.
pub proof fn law_views_hold_everything(req: AuthRequest, cookie: String, ev: UiEvent)
    ensures
        Task::Ask(req)@ == TaskView::Ask(req@),
        Task::Forward(req)@ == TaskView::Forward(req@),
        CancelNotice::Ui(ev)@ == CancelNoticeView::Ui(ev@),
        CancelNotice::Daemon(cookie)@ == CancelNoticeView::Daemon(cookie@),
{
}

/// What a call that begins an authentication gives: the request holds what polkit said and the user
/// that was picked, the ticket is free, and who has to wait is told so. It succeeds exactly when
/// there is a user.
pub proof fn law_calls_that_begin()
    ensures
        forall|
            m: &mut Agent,
            action: String,
            message: String,
            cookie: String,
            user: Option<String>,
            r: Result<Begun, PolkitError>,
        | #[trigger]
            call_ensures(Agent::begin_as, (m, action, message, cookie, user), r) ==> {
                &&& r is Ok <==> user is Some
                &&& r matches Ok(b) ==> {
                    &&& b.req.cookie@ == cookie@
                    &&& b.req.user@ == user->Some_0@
                    &&& b.req.action@ == action@
                    &&& b.req.message@ == message@
                    &&& b.queued <==> !((*m)@.running is None && (*m)@.queue.len() == 0)
                    &&& !(*m)@.under_way(b.ticket)
                    &&& forall|t: u128| t < b.ticket ==> #[trigger] (*m)@.under_way(t)
                    &&& final(m)@ == begun((*m)@, cookie@, b.ticket)
                }
                &&& r matches Err(e) ==> e == PolkitError::Failed && final(m)@ == (*m)@
            },
        forall|
            m: &mut Agent,
            action: String,
            message: String,
            cookie: String,
            ids: &Vec<Identity>,
            r: Result<Begun, PolkitError>,
        | #[trigger]
            call_ensures(Agent::begin_authentication, (m, action, message, cookie, ids), r) ==> exists|
                name: Option<String>,
            | #[trigger]
                call_ensures(pick_username, (ids,), name) && (r is Ok <==> name is Some) && (r matches Ok(
                    b,
                ) ==> {
                    &&& b.req.user@ == name->Some_0@
                    &&& b.req.cookie@ == cookie@
                    &&& b.req.action@ == action@
                    &&& b.req.message@ == message@
                    &&& !(*m)@.under_way(b.ticket)
                    &&& final(m)@ == begun((*m)@, cookie@, b.ticket)
                }) && (r matches Err(e) ==> e == PolkitError::Failed && final(m)@ == (*m)@),
{
}

/// What the other calls of an agent give and change.
pub proof fn law_calls_of_an_agent()
    ensures
        forall|agent: Agent| #[trigger]
            call_ensures(Agent::inline, (), agent) ==> agent@ == idle(Backend::Inline),
        forall|agent: Agent| #[trigger]
            call_ensures(Agent::daemon, (), agent) ==> agent@ == idle(Backend::Daemon),
        forall|m: &mut Agent, cookie: &str, ticket: u128, turn: Turn| #[trigger]
            call_ensures(Agent::poll, (m, cookie, ticket), turn) ==> (final(m)@, turn) == polled(
                (*m)@,
                cookie@,
                ticket,
            ),
        forall|m: &mut Agent, cookie: &str| #[trigger]
            call_ensures(Agent::finish, (m, cookie), ()) ==> final(m)@ == finished((*m)@, cookie@),
        forall|m: &mut Agent, cookie: String, notice: CancelNotice| #[trigger]
            call_ensures(Agent::cancel_authentication, (m, cookie), notice) ==> {
                &&& final(m)@ == cancelled((*m)@, cookie@)
                &&& (*m)@.backend == Backend::Inline ==> notice@ == CancelNoticeView::Ui(
                    UiEventView::Cancel { cookie: cookie@ },
                )
                &&& (*m)@.backend == Backend::Daemon ==> notice@ == CancelNoticeView::Daemon(cookie@)
            },
        forall|agent: &Agent, cookie: &str, ticket: u128, r: bool| #[trigger]
            call_ensures(Agent::is_given_up, (agent, cookie, ticket), r) ==> r == agent@.given_up(
                cookie@,
                ticket,
            ),
        forall|agent: &Agent, ticket: u128, r: bool| #[trigger]
            call_ensures(Agent::is_waiting, (agent, ticket), r) ==> r == agent@.queue.contains(ticket),
        forall|agent: &Agent, req: AuthRequest, task: Task| #[trigger]
            call_ensures(Agent::assign, (agent, req), task) ==> {
                &&& agent@.backend == Backend::Inline ==> task@ == TaskView::Ask(req@)
                &&& agent@.backend == Backend::Daemon ==> task@ == TaskView::Forward(req@)
            },
        forall|end: &Forwarded, r: Result<(), PolkitError>| #[trigger]
            call_ensures(daemon_outcome, (end,), r) ==> r == outcome_of(*end),
{
}

} // verus!
