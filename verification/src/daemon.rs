//! The daemon's side of the socket: which controller is served, and which requests are open.
//!
//! There is one current controller at most; a new connection takes the place of the one before.
//! A request that was sent to it is open until its response comes, it takes too long, it is
//! abandoned, or the current controller disconnects, which fails all open requests at once.
use crate::protocol::{AuthRequest, AuthResult, ClientMsg, ServerMsg, ServerMsgView};
use crate::text::{join2, join3};
use crate::user::{current_user, runs_this_process, same_user};
use vstd::prelude::*;

verus! {

/// How many seconds a request may stay open.
pub const REQUEST_TIMEOUT_SECS: u64 = 120;

/// What was found at the path of the socket.
#[derive(Debug, Clone, Copy, PartialEq, Eq, Structural)]
pub enum SocketProbe {
    /// Nothing.
    Absent,
    /// A socket that somebody listens on.
    Alive,
    /// A socket that nobody listens on.
    Stale,
}

/// Why a connection is not accepted.
#[derive(Debug, Clone, Copy, PartialEq, Eq, Structural)]
pub enum Rejection {
    /// It is not known who connected.
    NoPeer,
    /// This other user connected.
    OtherUser(u32),
}

/// How a request ended.
#[derive(Debug, Clone, Copy, PartialEq, Eq, Structural)]
pub enum RequestEnd {
    /// A response came, or the controller disconnected.
    Answered(AuthResult),
    /// The request could not be sent.
    SendFailed,
    /// It will not be answered any more.
    Dropped,
    /// Nothing came within `REQUEST_TIMEOUT_SECS`.
    TimedOut,
}

/// A message, and the connection that it goes to.
#[derive(Debug)]
pub struct Outgoing {
    pub generation: u64,
    pub msg: ServerMsg,
}

/// The connection and the contents of an `Outgoing`.
#[verifier::ext_equal]
pub struct OutgoingView {
    pub generation: u64,
    pub msg: ServerMsgView,
}

impl View for Outgoing {
    type V = OutgoingView;

    open spec fn view(&self) -> OutgoingView {
        OutgoingView { generation: self.generation, msg: self.msg@ }
    }
}

/// The view of a message that may be there.
pub open spec fn outgoing_view(o: Option<Outgoing>) -> Option<OutgoingView> {
    match o {
        Some(o) => Some(o@),
        None => None,
    }
}

/// The current controller and the open requests.
#[derive(Debug)]
pub struct Daemon {
    pending: Vec<u64>,
    active: Option<u64>,
    conn_seq: u64,
    next_id: u64,
}

/// What a `Daemon` knows.
#[verifier::ext_equal]
pub struct DaemonView {
    /// The numbers of the open requests, in the order in which they were sent.
    pub pending: Seq<u64>,
    /// The connection of the current controller.
    pub active: Option<u64>,
    /// The number of the next connection.
    pub conn_seq: u64,
    /// The number of the next request.
    pub next_id: u64,
}

impl View for Daemon {
    type V = DaemonView;

    closed spec fn view(&self) -> DaemonView {
        DaemonView {
            pending: self.pending@,
            active: self.active,
            conn_seq: self.conn_seq,
            next_id: self.next_id,
        }
    }
}

impl DaemonView {
    /// No request is open twice.
    pub open spec fn wf(self) -> bool {
        self.pending.no_duplicates()
    }
}

/// The number after `n`; the first one comes after the last one.
pub open spec fn successor(n: u64) -> u64 {
    if n == u64::MAX {
        0
    } else {
        (n + 1) as u64
    }
}

/// The requests other than `id`.
pub open spec fn dropped(pending: Seq<u64>, id: u64) -> Seq<u64> {
    pending.filter(|p: u64| p != id)
}

/// A daemon that has just started.
pub open spec fn started() -> DaemonView {
    DaemonView { pending: Seq::empty(), active: None, conn_seq: 0, next_id: 1 }
}

/// After a controller has connected.
pub open spec fn connected(s: DaemonView) -> DaemonView {
    DaemonView { active: Some(s.conn_seq), conn_seq: successor(s.conn_seq), ..s }
}

/// After a request was made: it is open if there is a controller to send it to.
pub open spec fn requested(s: DaemonView) -> DaemonView {
    DaemonView {
        pending: if s.active is Some {
            dropped(s.pending, s.next_id).push(s.next_id)
        } else {
            dropped(s.pending, s.next_id)
        },
        next_id: successor(s.next_id),
        ..s
    }
}

/// After a request has ended.
pub open spec fn closed_request(s: DaemonView, id: u64) -> DaemonView {
    DaemonView { pending: dropped(s.pending, id), ..s }
}

/// After the connection `generation` was closed.
pub open spec fn disconnected(s: DaemonView, generation: u64) -> DaemonView {
    if s.active == Some(generation) {
        DaemonView { active: None, pending: Seq::empty(), ..s }
    } else {
        s
    }
}

/// Each of the requests `ids`, answered as failed.
pub open spec fn all_failed(ids: Seq<u64>) -> Seq<(u64, AuthResult)> {
    Seq::new(ids.len(), |i: int| (ids[i], AuthResult::Failed))
}

/// The requests that end when the connection `generation` is closed, and what they are answered.
pub open spec fn answers_at_disconnect(s: DaemonView, generation: u64) -> Seq<(u64, AuthResult)> {
    if s.active == Some(generation) {
        all_failed(s.pending)
    } else {
        Seq::empty()
    }
}

/// The message that tells the current controller to close the popup of `cookie`.
pub open spec fn cancel_message(s: DaemonView, cookie: Seq<char>) -> Option<OutgoingView> {
    match s.active {
        Some(generation) => Some(
            OutgoingView { generation, msg: ServerMsgView::Cancel { cookie } },
        ),
        None => None,
    }
}

/// What to do about the path of the socket before it is bound: an old socket has to be removed,
/// one that is in use is an error.
pub fn start_plan(socket_path: &str, probe: SocketProbe) -> (remove: Result<bool, String>)
    ensures
        match remove {
            Ok(r) => probe != SocketProbe::Alive && r == (probe == SocketProbe::Stale),
            Err(e) => probe == SocketProbe::Alive && e@
                == "another daemon is already listening on "@ + socket_path@,
        },
{
    match probe {
        SocketProbe::Absent => Ok(false),
        SocketProbe::Stale => Ok(true),
        SocketProbe::Alive => Err(join2("another daemon is already listening on ", socket_path)),
    }
}

/// The result of a request, as its maker sees it.
pub open spec fn request_result(end: RequestEnd) -> Result<AuthResult, Seq<char>> {
    match end {
        RequestEnd::Answered(r) => Ok(r),
        RequestEnd::SendFailed => Err("controller gone"@),
        RequestEnd::Dropped => Err("controller dropped the response"@),
        RequestEnd::TimedOut => Err("authentication timed out"@),
    }
}

/// The result of a request that ended like this.
pub fn conclude(end: RequestEnd) -> (r: Result<AuthResult, String>)
    ensures
        match r {
            Ok(a) => request_result(end) == Ok::<AuthResult, Seq<char>>(a),
            Err(e) => request_result(end) == Err::<AuthResult, Seq<char>>(e@),
        },
{
    match end {
        RequestEnd::Answered(r) => Ok(r),
        RequestEnd::SendFailed => Err("controller gone".to_owned()),
        RequestEnd::Dropped => Err("controller dropped the response".to_owned()),
        RequestEnd::TimedOut => Err("authentication timed out".to_owned()),
    }
}

impl Daemon {
    /// No request is open twice.
    pub open spec fn wf(&self) -> bool {
        self@.wf()
    }

    /// The daemon after an attempt to bind its socket.
    pub fn start(socket_path: &str, bound: Result<(), String>) -> (r: Result<Daemon, String>)
        ensures
            match r {
                Ok(d) => bound is Ok && d@ == started() && d.wf(),
                Err(e) => bound is Err && e@ == "failed to bind "@ + socket_path@ + ": "@
                    + bound->Err_0@,
            },
    {
        match bound {
            Ok(()) => Ok(Daemon { pending: Vec::new(), active: None, conn_seq: 0, next_id: 1 }),
            Err(e) => Err(join3("failed to bind ", socket_path, ": ").concat(e.as_str())),
        }
    }

    /// Takes the request out of the open ones.
    fn drop_pending(&mut self, id: u64)
        ensures
            final(self)@ == closed_request(old(self)@, id),
    {
        let n = self.pending.len();
        let mut kept: Vec<u64> = Vec::new();
        let ghost all = self.pending@;
        proof {
            reveal(Seq::filter);
            assert(all.take(0) =~= Seq::<u64>::empty());
        }
        for i in 0..n
            invariant
                n == all.len(),
                all == self.pending@,
                *self == *old(self),
                kept@ == dropped(all.take(i as int), id),
        {
            proof {
                reveal(Seq::filter);
                assert(all.take(i + 1).drop_last() =~= all.take(i as int));
                assert(all.take(i + 1).last() == all[i as int]);
            }
            if self.pending[i] != id {
                kept.push(self.pending[i]);
            }
        }
        assert(all.take(n as int) =~= all);
        self.pending = kept;
    }

    /// Whether the request `id` is open.
    pub fn is_open(&self, id: u64) -> (r: bool)
        ensures
            r == self@.pending.contains(id),
    {
        let n = self.pending.len();
        for i in 0..n
            invariant
                n == self.pending@.len(),
                forall|k: int| 0 <= k < i ==> self.pending@[k] != id,
        {
            if self.pending[i] == id {
                return true;
            }
        }
        false
    }

    /// Takes a connection of `peer` when this process runs as `current`: a controller of the
    /// same user becomes the current one.
    pub fn accept(&mut self, peer: Option<u32>, current: u32) -> (r: Result<u64, Rejection>)
        ensures
            match r {
                Ok(generation) => {
                    &&& peer == Some(current)
                    &&& generation == old(self)@.conn_seq
                    &&& final(self)@ == connected(old(self)@)
                },
                Err(Rejection::NoPeer) => peer is None && final(self)@ == old(self)@,
                Err(Rejection::OtherUser(uid)) => {
                    &&& peer == Some(uid)
                    &&& uid != current
                    &&& final(self)@ == old(self)@
                },
            },
    {
        match peer {
            None => Err(Rejection::NoPeer),
            Some(uid) => {
                if same_user(peer, current) {
                    let generation = self.conn_seq;
                    self.conn_seq = generation.wrapping_add(1);
                    self.active = Some(generation);
                    Ok(generation)
                } else {
                    Err(Rejection::OtherUser(uid))
                }
            },
        }
    }

    /// Takes a connection of `peer`. Who runs this process is up to the system; a peer that is
    /// not known is rejected in any case.
    pub fn accept_peer(&mut self, peer: Option<u32>) -> (r: Result<u64, Rejection>)
        ensures
            exists|current: u32| #[trigger]
                runs_this_process(current) && match r {
                    Ok(generation) => {
                        &&& peer == Some(current)
                        &&& generation == old(self)@.conn_seq
                        &&& final(self)@ == connected(old(self)@)
                    },
                    Err(Rejection::NoPeer) => peer is None && final(self)@ == old(self)@,
                    Err(Rejection::OtherUser(uid)) => {
                        &&& peer == Some(uid)
                        &&& uid != current
                        &&& final(self)@ == old(self)@
                    },
                },
    {
        let current = current_user();
        self.accept(peer, current)
    }

    /// Makes a request: its number, and the message that carries it to the current controller.
    /// Without a controller it fails at once.
    pub fn request(&mut self, req: AuthRequest) -> (r: Result<(u64, Outgoing), String>)
        ensures
            final(self)@ == requested(old(self)@),
            match r {
                Ok((id, o)) => {
                    &&& id == old(self)@.next_id
                    &&& old(self)@.active == Some(o.generation)
                    &&& o.msg@ == (ServerMsgView::Request { id, req: req@ })
                },
                Err(e) => old(self)@.active is None && e@ == "no controller connected"@,
            },
    {
        let id = self.next_id;
        self.next_id = id.wrapping_add(1);
        self.drop_pending(id);
        match self.active {
            Some(generation) => {
                self.pending.push(id);
                Ok((id, Outgoing { generation, msg: ServerMsg::Request { id, req } }))
            },
            None => Err("no controller connected".to_owned()),
        }
    }

    /// Closes a request that could not be sent, or that nobody waits for any more.
    pub fn abandon(&mut self, id: u64)
        ensures
            final(self)@ == closed_request(old(self)@, id),
    {
        self.drop_pending(id);
    }

    /// Closes the request `id` for `cookie`, which has taken too long, and tells the controller
    /// to close its popup.
    pub fn time_out(&mut self, id: u64, cookie: &str) -> (o: Option<Outgoing>)
        ensures
            final(self)@ == closed_request(old(self)@, id),
            outgoing_view(o) == cancel_message(old(self)@, cookie@),
    {
        self.drop_pending(id);
        self.cancel(cookie)
    }

    /// Takes a message of a controller; the result is the open request that it answers. Anything
    /// that is no message, or answers no open request, is ignored.
    pub fn on_message(&mut self, msg: Option<ClientMsg>) -> (answered: Option<(u64, AuthResult)>)
        ensures
            match msg {
                Some(ClientMsg::Response { id, result }) => {
                    &&& final(self)@ == closed_request(old(self)@, id)
                    &&& answered == (if old(self)@.pending.contains(id) {
                        Some((id, result))
                    } else {
                        None
                    })
                },
                None => answered is None && final(self)@ == old(self)@,
            },
    {
        match msg {
            Some(ClientMsg::Response { id, result }) => {
                let open = self.is_open(id);
                self.drop_pending(id);
                if open {
                    Some((id, result))
                } else {
                    None
                }
            },
            None => None,
        }
    }

    /// The message that tells the current controller to close the popup of `cookie`.
    pub fn cancel(&self, cookie: &str) -> (o: Option<Outgoing>)
        ensures
            outgoing_view(o) == cancel_message(self@, cookie@),
    {
        match self.active {
            Some(generation) => Some(
                Outgoing { generation, msg: ServerMsg::Cancel { cookie: cookie.to_owned() } },
            ),
            None => None,
        }
    }

    /// Notes that the connection `generation` was closed; the result is the requests that end with
    /// it, and what each of them is answered: all that are open fail if it was the current one.
    pub fn disconnect(&mut self, generation: u64) -> (ended: Vec<(u64, AuthResult)>)
        ensures
            final(self)@ == disconnected(old(self)@, generation),
            ended@ == answers_at_disconnect(old(self)@, generation),
    {
        let mut ended: Vec<(u64, AuthResult)> = Vec::new();
        if self.active == Some(generation) {
            self.active = None;
            let n = self.pending.len();
            for i in 0..n
                invariant
                    n == self.pending@.len(),
                    ended@ == all_failed(self.pending@.take(i as int)),
                    self@ == (DaemonView { active: None, ..old(self)@ }),
            {
                ended.push((self.pending[i], AuthResult::Failed));
                assert(ended@ =~= all_failed(self.pending@.take(i + 1)));
            }
            assert(self.pending@.take(n as int) =~= self.pending@);
            self.pending = Vec::new();
        }
        ended
    }
}

/// A request that was closed is not open any more; the others are what they were.
proof fn lemma_dropped(pending: Seq<u64>, id: u64)
    ensures
        !dropped(pending, id).contains(id),
        forall|p: u64|
            p != id ==> (#[trigger] dropped(pending, id).contains(p) <==> pending.contains(p)),
        pending.no_duplicates() ==> dropped(pending, id).no_duplicates(),
    decreases pending.len(),
{
    reveal(Seq::filter);
    if pending.len() > 0 {
        let rest = pending.drop_last();
        let last = pending.last();
        lemma_dropped(rest, id);
        let d = dropped(rest, id);
        assert(pending =~= rest.push(last));
        assert forall|p: u64| pending.contains(p) <==> (rest.contains(p) || p == last) by {
            if rest.contains(p) {
                let k = choose|k: int| 0 <= k < rest.len() && rest[k] == p;
                assert(pending[k] == p);
            }
            if p == last {
                assert(pending[pending.len() - 1] == p);
            }
            if pending.contains(p) && p != last {
                let k = choose|k: int| 0 <= k < pending.len() && pending[k] == p;
                assert(rest[k] == p);
            }
        }
        if last != id {
            let after = dropped(pending, id);
            assert(after == d.push(last));
            assert forall|p: u64| after.contains(p) <==> (d.contains(p) || p == last) by {
                if d.contains(p) {
                    let k = choose|k: int| 0 <= k < d.len() && d[k] == p;
                    assert(after[k] == p);
                }
                if p == last {
                    assert(after[after.len() - 1] == p);
                }
                if after.contains(p) && p != last {
                    let k = choose|k: int| 0 <= k < after.len() && after[k] == p;
                    assert(d[k] == p);
                }
            }
            if pending.no_duplicates() {
                assert(rest.no_duplicates());
                assert(!rest.contains(last)) by {
                    if rest.contains(last) {
                        let k = choose|k: int| 0 <= k < rest.len() && rest[k] == last;
                        assert(pending[k] == pending[pending.len() - 1]);
                    }
                }
                assert(!d.contains(last));
                assert forall|i: int, j: int|
                    0 <= i < after.len() && 0 <= j < after.len() && i != j implies after[i]
                    != after[j] by {
                    if i < d.len() && j < d.len() {
                        assert(d[i] != d[j]);
                    } else if i < d.len() {
                        assert(d.contains(d[i]));
                    } else if j < d.len() {
                        assert(d.contains(d[j]));
                    }
                }
            }
        } else {
            assert(pending.no_duplicates() ==> rest.no_duplicates());
        }
    }
}

/// No request is ever open twice.
pub proof fn law_no_request_is_open_twice(s: DaemonView, id: u64, generation: u64)
    requires
        s.wf(),
    ensures
        requested(s).wf(),
        closed_request(s, id).wf(),
        disconnected(s, generation).wf(),
        connected(s).wf(),
{
    lemma_dropped(s.pending, id);
    lemma_dropped(s.pending, s.next_id);
    let d = dropped(s.pending, s.next_id);
    let p = d.push(s.next_id);
    assert forall|i: int, j: int| 0 <= i < p.len() && 0 <= j < p.len() && i != j implies p[i]
        != p[j] by {
        if i < d.len() {
            assert(d.contains(d[i]));
        }
        if j < d.len() {
            assert(d.contains(d[j]));
        }
    }
}

/// A request is answered once: after its response, a second one answers nothing, and other
/// requests are not touched.
pub proof fn law_answered_once(s: DaemonView, id: u64, other: u64)
    ensures
        !closed_request(s, id).pending.contains(id),
        other != id ==> (closed_request(s, id).pending.contains(other) <==> s.pending.contains(
            other,
        )),
{
    lemma_dropped(s.pending, id);
}

/// A request is open exactly from when it was sent until it ends: with a controller it is open
/// afterwards, without one it leaves nothing behind.
pub proof fn law_open_while_waiting(s: DaemonView)
    ensures
        requested(s).pending.contains(s.next_id) <==> s.active is Some,
{
    lemma_dropped(s.pending, s.next_id);
    let d = dropped(s.pending, s.next_id);
    assert(d.push(s.next_id)[d.len() as int] == s.next_id);
}

/// Numbers of requests that follow each other differ.
pub proof fn law_numbers_differ(s: DaemonView)
    ensures
        requested(s).next_id != s.next_id,
        connected(s).conn_seq != s.conn_seq,
{
}

/// The newest connection is the current one, and closing an older one changes nothing.
pub proof fn law_newest_controller_counts(s: DaemonView, older: u64)
    requires
        older != s.conn_seq,
    ensures
        connected(s).active == Some(s.conn_seq),
        disconnected(connected(s), older) == connected(s),
{
}

/// When the current controller disconnects, every open request is answered as failed, none stays
/// open, and the next one fails at once until another controller connects. What an older
/// connection that is closed ends is nothing.
pub proof fn law_disconnect_fails_all(s: DaemonView, generation: u64, older: u64)
    requires
        s.active == Some(generation),
        older != generation,
    ensures
        forall|id: u64|
            s.pending.contains(id) ==> #[trigger] answers_at_disconnect(s, generation).contains(
                (id, AuthResult::Failed),
            ),
        forall|i: int|
            0 <= i < answers_at_disconnect(s, generation).len() ==> (
            #[trigger] answers_at_disconnect(s, generation)[i]).1 == AuthResult::Failed
                && s.pending.contains(answers_at_disconnect(s, generation)[i].0),
        request_result(RequestEnd::Answered(AuthResult::Failed)) == Ok::<AuthResult, Seq<char>>(
            AuthResult::Failed,
        ),
        answers_at_disconnect(s, older).len() == 0,
        disconnected(s, older) == s,
        disconnected(s, generation).pending.len() == 0,
        disconnected(s, generation).active is None,
        !requested(disconnected(s, generation)).pending.contains(s.next_id),
{
    law_open_while_waiting(disconnected(s, generation));
    assert forall|id: u64| s.pending.contains(id) implies #[trigger] answers_at_disconnect(
        s,
        generation,
    ).contains((id, AuthResult::Failed)) by {
        let k = s.pending.index_of(id);
        assert(answers_at_disconnect(s, generation)[k] == (id, AuthResult::Failed));
    }
}

/// A request gets the next number and leaves the other requests, the connection and its number as
/// they were; with a controller it is open, behind the others, and without one it is not.
pub proof fn law_making_a_request(s: DaemonView, other: u64)
    requires
        s.wf(),
        s.next_id < u64::MAX,
        !s.pending.contains(s.next_id),
    ensures
        requested(s).next_id == s.next_id + 1,
        requested(s).active == s.active,
        requested(s).conn_seq == s.conn_seq,
        s.active is Some ==> requested(s).pending == s.pending.push(s.next_id),
        s.active is None ==> requested(s).pending == s.pending,
        other != s.next_id ==> (requested(s).pending.contains(other) <==> s.pending.contains(other)),
{
    lemma_nothing_to_drop(s.pending, s.next_id);
    if other != s.next_id && s.active is Some {
        let p = s.pending.push(s.next_id);
        if s.pending.contains(other) {
            let k = s.pending.index_of(other);
            assert(p[k] == other);
        }
        if p.contains(other) {
            let k = p.index_of(other);
            assert(s.pending[k] == other);
        }
    }
}

/// What does not hold a number is the same without it.
proof fn lemma_nothing_to_drop(pending: Seq<u64>, id: u64)
    requires
        !pending.contains(id),
    ensures
        dropped(pending, id) == pending,
    decreases pending.len(),
{
    reveal(Seq::filter);
    if pending.len() > 0 {
        let rest = pending.drop_last();
        assert(!rest.contains(id)) by {
            if rest.contains(id) {
                let k = rest.index_of(id);
                assert(pending[k] == id);
            }
        }
        lemma_nothing_to_drop(rest, id);
        assert(pending[pending.len() - 1] != id);
        assert(rest.push(pending.last()) =~= pending);
    } else {
        assert(dropped(pending, id) =~= pending);
    }
}

/// A connection gets the next number and becomes the current one; requests stay as they are. The
/// end of a request changes nothing but that it is not open any more.
pub proof fn law_connecting_and_closing(s: DaemonView, id: u64, other: u64)
    ensures
        connected(s).active == Some(s.conn_seq),
        s.conn_seq < u64::MAX ==> connected(s).conn_seq == s.conn_seq + 1,
        connected(s).pending == s.pending,
        connected(s).next_id == s.next_id,
        closed_request(s, id).active == s.active,
        closed_request(s, id).conn_seq == s.conn_seq,
        closed_request(s, id).next_id == s.next_id,
        !closed_request(s, id).pending.contains(id),
        other != id ==> (closed_request(s, id).pending.contains(other) <==> s.pending.contains(
            other,
        )),
{
    lemma_dropped(s.pending, id);
}

/// A cancellation goes to the current controller, with the cookie that was given, exactly when
/// there is one.
pub proof fn law_cancelling(s: DaemonView, cookie: Seq<char>)
    ensures
        cancel_message(s, cookie) is Some <==> s.active is Some,
        cancel_message(s, cookie) matches Some(out) ==> Some(out.generation) == s.active && out.msg
            == (ServerMsgView::Cancel { cookie }),
{
}

/// The maker of a request sees the result that came, whichever it is, and an error exactly when
/// none came.
pub proof fn law_what_a_request_gives(result: AuthResult, end: RequestEnd)
    ensures
        request_result(RequestEnd::Answered(result)) == Ok::<AuthResult, Seq<char>>(result),
        request_result(end) is Err <==> !(end is Answered),
        request_result(RequestEnd::TimedOut) == Err::<AuthResult, Seq<char>>(
            "authentication timed out"@,
        ),
        request_result(RequestEnd::SendFailed) == Err::<AuthResult, Seq<char>>("controller gone"@),
        request_result(RequestEnd::Dropped) == Err::<AuthResult, Seq<char>>(
            "controller dropped the response"@,
        ),
{
}

/// A new daemon has no controller and no open request. A request may stay open for 120 seconds.
pub proof fn law_a_new_daemon(id: u64)
    ensures
        started().active is None,
        !started().pending.contains(id),
        started().wf(),
        REQUEST_TIMEOUT_SECS == 120,
{
}

/// Nothing of a message is lost in its view.
pub proof fn law_views_hold_everything(o: Outgoing)
    ensures
        o@.generation == o.generation,
        o@.msg == o.msg@,
        outgoing_view(Some(o)) == Some(o@),
        outgoing_view(None) is None,
{
}

/// What the calls of a daemon give and change.
pub proof fn law_calls_of_a_daemon()
    ensures
        forall|path: &str, probe: SocketProbe, r: Result<bool, String>| #[trigger]
            call_ensures(start_plan, (path, probe), r) ==> {
                &&& probe == SocketProbe::Absent ==> r == Ok::<bool, String>(false)
                &&& probe == SocketProbe::Stale ==> r == Ok::<bool, String>(true)
                &&& probe == SocketProbe::Alive ==> r is Err && r->Err_0@
                    == "another daemon is already listening on "@ + path@
            },
        forall|path: &str, bound: Result<(), String>, r: Result<Daemon, String>| #[trigger]
            call_ensures(Daemon::start, (path, bound), r) ==> {
                &&& bound is Ok ==> r is Ok && r->Ok_0@ == started()
                &&& bound is Err ==> r is Err && r->Err_0@ == "failed to bind "@ + path@ + ": "@
                    + bound->Err_0@
            },
        forall|end: RequestEnd, r: Result<AuthResult, String>| #[trigger]
            call_ensures(conclude, (end,), r) ==> {
                &&& r is Ok <==> request_result(end) is Ok
                &&& r is Ok ==> r->Ok_0 == request_result(end)->Ok_0
                &&& r is Err ==> r->Err_0@ == request_result(end)->Err_0
            },
        forall|m: &mut Daemon, peer: Option<u32>, current: u32, r: Result<u64, Rejection>| #[trigger]
            call_ensures(Daemon::accept, (m, peer, current), r) ==> {
                &&& r is Ok <==> peer == Some(current)
                &&& r matches Ok(g) ==> g == (*m)@.conn_seq && final(m)@ == connected((*m)@)
                &&& r is Err ==> final(m)@ == (*m)@
                &&& peer is None ==> r == Err::<u64, Rejection>(Rejection::NoPeer)
                &&& peer is Some && peer->Some_0 != current ==> r == Err::<u64, Rejection>(
                    Rejection::OtherUser(peer->Some_0),
                )
            },
        forall|m: &mut Daemon, peer: Option<u32>, r: Result<u64, Rejection>| #[trigger]
            call_ensures(Daemon::accept_peer, (m, peer), r) ==> exists|current: u32| #[trigger]
                runs_this_process(current) && (r is Ok <==> peer == Some(current)) && (r is Ok
                    ==> final(m)@ == connected((*m)@)) && (r is Err ==> final(m)@ == (*m)@),
{
}

/// What the calls about requests give and change.
pub proof fn law_calls_about_requests()
    ensures
        forall|m: &mut Daemon, req: AuthRequest, r: Result<(u64, Outgoing), String>| #[trigger]
            call_ensures(Daemon::request, (m, req), r) ==> {
                &&& final(m)@ == requested((*m)@)
                &&& r is Ok <==> (*m)@.active is Some
                &&& r matches Ok(o) ==> o.0 == (*m)@.next_id && Some(o.1.generation) == (*m)@.active
                    && o.1.msg@ == (ServerMsgView::Request { id: o.0, req: req@ })
                &&& r matches Err(e) ==> e@ == "no controller connected"@
            },
        forall|m: &mut Daemon, id: u64| #[trigger]
            call_ensures(Daemon::abandon, (m, id), ()) ==> final(m)@ == closed_request((*m)@, id),
        forall|m: &mut Daemon, id: u64, cookie: &str, o: Option<Outgoing>| #[trigger]
            call_ensures(Daemon::time_out, (m, id, cookie), o) ==> final(m)@ == closed_request(
                (*m)@,
                id,
            ) && outgoing_view(o) == cancel_message((*m)@, cookie@),
        forall|d: &Daemon, cookie: &str, o: Option<Outgoing>| #[trigger]
            call_ensures(Daemon::cancel, (d, cookie), o) ==> outgoing_view(o) == cancel_message(
                d@,
                cookie@,
            ),
        forall|m: &mut Daemon, msg: Option<ClientMsg>, a: Option<(u64, AuthResult)>| #[trigger]
            call_ensures(Daemon::on_message, (m, msg), a) ==> {
                &&& msg is None ==> a is None && final(m)@ == (*m)@
                &&& msg matches Some(ClientMsg::Response { id, result }) ==> {
                    &&& final(m)@ == closed_request((*m)@, id)
                    &&& (*m)@.pending.contains(id) ==> a == Some((id, result))
                    &&& !(*m)@.pending.contains(id) ==> a is None
                }
            },
        forall|m: &mut Daemon, generation: u64, ended: Vec<(u64, AuthResult)>| #[trigger]
            call_ensures(Daemon::disconnect, (m, generation), ended) ==> final(m)@ == disconnected(
                (*m)@,
                generation,
            ) && ended@ == answers_at_disconnect((*m)@, generation),
        forall|d: &Daemon, id: u64, r: bool| #[trigger]
            call_ensures(Daemon::is_open, (d, id), r) ==> r == d@.pending.contains(id),
{
}

/// Numbers are never given again because a controller left: the counters go on.
pub proof fn law_counters_go_on(s: DaemonView, generation: u64)
    ensures
        disconnected(s, generation).next_id == s.next_id,
        disconnected(s, generation).conn_seq == s.conn_seq,
        s.active != Some(generation) ==> disconnected(s, generation) == s,
        started().next_id == 1,
        started().conn_seq == 0,
{
}

/// After the last number comes the first one, so that numbers never run out; a request whose number
/// is still open takes its place.
pub proof fn law_numbers_never_run_out(s: DaemonView)
    ensures
        s.next_id == u64::MAX ==> requested(s).next_id == 0,
        s.conn_seq == u64::MAX ==> connected(s).conn_seq == 0,
        s.active is Some ==> requested(s).pending.last() == s.next_id,
{
}

} // verus!
