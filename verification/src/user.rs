//! Whom to ask for a password, and which peers to trust.
use crate::text::str_eq;
use vstd::prelude::*;

verus! {

/// A value in the details of an identity.
#[derive(Debug, Clone, Copy, PartialEq, Eq, Structural)]
pub enum DetailValue {
    /// An unsigned number of 32 bits.
    U32(u32),
    /// A value of any other type.
    Other,
}

/// A candidate that polkit offers: a kind such as `unix-user`, and details by name.
#[derive(Debug)]
pub struct Identity {
    pub kind: String,
    pub details: Vec<(String, DetailValue)>,
}

/// The value under `name` in `details`.
pub open spec fn detail(details: Seq<(String, DetailValue)>, name: Seq<char>) -> Option<DetailValue>
    decreases details.len(),
{
    if details.len() == 0 {
        None
    } else if details[0].0@ == name {
        Some(details[0].1)
    } else {
        detail(details.skip(1), name)
    }
}

/// The user that an identity stands for: the number under `uid` of a `unix-user`.
pub open spec fn user_of(id: Identity) -> Option<u32> {
    if id.kind@ != "unix-user"@ {
        None
    } else {
        match detail(id.details@, "uid"@) {
            Some(DetailValue::U32(uid)) => Some(uid),
            _ => None,
        }
    }
}

/// The user that an identity stands for; none for a group and other kinds.
pub fn identity_uid(id: &Identity) -> (uid: Option<u32>)
    ensures
        uid == user_of(*id),
{
    if !str_eq(id.kind.as_str(), "unix-user") {
        return None;
    }
    let n = id.details.len();
    assert(id.details@.skip(0) =~= id.details@);
    for i in 0..n
        invariant
            n == id.details@.len(),
            detail(id.details@, "uid"@) == detail(id.details@.skip(i as int), "uid"@),
            id.kind@ == "unix-user"@,
    {
        assert(id.details@.skip(i as int).skip(1) =~= id.details@.skip(i + 1));
        if str_eq(id.details[i].0.as_str(), "uid") {
            return match id.details[i].1 {
                DetailValue::U32(uid) => Some(uid),
                DetailValue::Other => None,
            };
        }
    }
    None
}

/// The users among the candidates, in order; candidates of other kinds are skipped.
pub open spec fn users_of(ids: Seq<Identity>) -> Seq<u32>
    decreases ids.len(),
{
    if ids.len() == 0 {
        Seq::empty()
    } else {
        let users = users_of(ids.drop_last());
        match user_of(ids.last()) {
            Some(uid) => users.push(uid),
            None => users,
        }
    }
}

/// The users among the candidates, in order.
fn candidate_users(ids: &Vec<Identity>) -> (users: Vec<u32>)
    ensures
        users@ == users_of(ids@),
{
    let mut users: Vec<u32> = Vec::new();
    let n = ids.len();
    assert(ids@.take(0) =~= Seq::<Identity>::empty());
    for i in 0..n
        invariant
            n == ids@.len(),
            users@ == users_of(ids@.take(i as int)),
    {
        assert(ids@.take(i + 1).drop_last() =~= ids@.take(i as int));
        assert(ids@.take(i + 1).last() == ids@[i as int]);
        match identity_uid(&ids[i]) {
            Some(uid) => {
                users.push(uid);
            },
            None => {},
        }
    }
    assert(ids@.take(n as int) =~= ids@);
    users
}

/// The text in an optional `String`.
pub open spec fn opt_text(s: Option<String>) -> Option<Seq<char>> {
    match s {
        Some(s) => Some(s@),
        None => None,
    }
}

/// Which name is taken of the users `users`: that of the current user, or else that of root,
/// where they are among the candidates and have a name, or else that of the first candidate.
pub open spec fn preferred(
    users: Seq<u32>,
    current: u32,
    current_name: Option<Seq<char>>,
    root_name: Option<Seq<char>>,
    first_name: Option<Seq<char>>,
) -> Option<Seq<char>> {
    if users.contains(current) && current_name is Some {
        current_name
    } else if users.contains(0) && root_name is Some {
        root_name
    } else if users.len() > 0 {
        first_name
    } else {
        None
    }
}

/// Whether `uid` is among `users`.
fn is_among(users: &Vec<u32>, uid: u32) -> (r: bool)
    ensures
        r == users@.contains(uid),
{
    let n = users.len();
    for i in 0..n
        invariant
            n == users@.len(),
            forall|k: int| 0 <= k < i ==> users@[k] != uid,
    {
        if users[i] == uid {
            return true;
        }
    }
    false
}

/// Chooses the name for an authentication, given the name of the current user, of root, and of
/// the first user among the candidates.
pub fn choose_username(
    identities: &Vec<Identity>,
    current: u32,
    current_name: Option<String>,
    root_name: Option<String>,
    first_name: Option<String>,
) -> (name: Option<String>)
    ensures
        opt_text(name) == preferred(
            users_of(identities@),
            current,
            opt_text(current_name),
            opt_text(root_name),
            opt_text(first_name),
        ),
{
    let users = candidate_users(identities);
    if is_among(&users, current) && current_name.is_some() {
        return current_name;
    }
    if is_among(&users, 0) && root_name.is_some() {
        return root_name;
    }
    if users.len() > 0 {
        first_name
    } else {
        None
    }
}

/// `get_current_uid` of uzers: the user that runs this process. Nothing is said of which one
/// that is: it depends on how the process was started.
#[verifier::external_body]
fn current_uid() -> (uid: u32) {
    uzers::get_current_uid()
}

/// `get_user_by_uid` of uzers: the name of a user in the system's user database, if it has one.
/// Nothing is said of the name: it depends on the system.
#[verifier::external_body]
fn uid_to_username(uid: u32) -> (name: Option<String>) {
    uzers::get_user_by_uid(uid).map(|u| u.name().to_string_lossy().into_owned())
}

/// `uid` is what `current_uid` gives: the system says that this user runs this process.
pub closed spec fn runs_this_process(uid: u32) -> bool {
    call_ensures(current_uid, (), uid)
}

/// `name` is what `uid_to_username` gives for `uid`: the system says that this user has this
/// name, or none.
pub closed spec fn is_named(uid: u32, name: Option<String>) -> bool {
    call_ensures(uid_to_username, (uid,), name)
}

/// The user that runs this process.
pub fn current_user() -> (uid: u32)
    ensures
        runs_this_process(uid),
{
    let ask = current_uid;
    ask()
}

/// The name of the user `uid`, if it has one.
pub fn username_of(uid: u32) -> (name: Option<String>)
    ensures
        is_named(uid, name),
{
    let ask = uid_to_username;
    ask(uid)
}

/// What the system is asked about the candidates `users`, and what it answers: who runs this
/// process, and the names of that user and of root where they are among the candidates, and of
/// the first candidate.
pub open spec fn looked_up(
    users: Seq<u32>,
    current: u32,
    current_name: Option<String>,
    root_name: Option<String>,
    first_name: Option<String>,
) -> bool {
    &&& runs_this_process(current)
    &&& users.contains(current) ==> is_named(current, current_name)
    &&& users.contains(0) ==> is_named(0, root_name)
    &&& users.len() > 0 ==> is_named(users[0], first_name)
}

/// Chooses the name for an authentication among the candidates: the current user, or else root,
/// or else the first user. Which users have a name, and which one is the current, is up to the
/// system; without a user among the candidates there is no name.
pub fn pick_username(identities: &Vec<Identity>) -> (name: Option<String>)
    ensures
        users_of(identities@).len() == 0 ==> name is None,
        exists|
            current: u32,
            current_name: Option<String>,
            root_name: Option<String>,
            first_name: Option<String>,
        | #[trigger]
            looked_up(users_of(identities@), current, current_name, root_name, first_name)
                && opt_text(name) == preferred(
                users_of(identities@),
                current,
                opt_text(current_name),
                opt_text(root_name),
                opt_text(first_name),
            ),
{
    let current = current_user();
    let users = candidate_users(identities);
    let current_name = if is_among(&users, current) {
        username_of(current)
    } else {
        None
    };
    let root_name = if is_among(&users, 0) {
        username_of(0)
    } else {
        None
    };
    let first_name = if users.len() > 0 {
        username_of(users[0])
    } else {
        None
    };
    assert(looked_up(users@, current, current_name, root_name, first_name));
    choose_username(identities, current, current_name, root_name, first_name)
}

/// Whether a peer is known to be the user `current`.
pub fn same_user(peer: Option<u32>, current: u32) -> (r: bool)
    ensures
        r == (peer == Some(current)),
{
    match peer {
        Some(uid) => uid == current,
        None => false,
    }
}

/// Candidates that are no users decide nothing: without them the choice is the same.
pub proof fn law_other_kinds_are_skipped(before: Seq<Identity>, other: Identity, after: Seq<Identity>)
    requires
        user_of(other) is None,
    ensures
        users_of(before.push(other) + after) == users_of(before + after),
    decreases after.len(),
{
    if after.len() == 0 {
        assert(before.push(other) + after =~= before.push(other));
        assert(before.push(other).drop_last() =~= before);
        assert(before + after =~= before);
    } else {
        law_other_kinds_are_skipped(before, other, after.drop_last());
        assert((before.push(other) + after).drop_last() =~= before.push(other)
            + after.drop_last());
        assert((before + after).drop_last() =~= before + after.drop_last());
    }
}

/// The current user comes before root, and root before the first candidate.
pub proof fn law_order_of_preference(
    users: Seq<u32>,
    current: u32,
    mine: Seq<char>,
    root: Seq<char>,
    first: Option<Seq<char>>,
)
    ensures
        users.contains(current) ==> preferred(users, current, Some(mine), Some(root), first)
            == Some(mine),
        !users.contains(current) && users.contains(0) ==> preferred(
            users,
            current,
            Some(mine),
            Some(root),
            first,
        ) == Some(root),
        users.len() > 0 && !users.contains(current) && !users.contains(0) ==> preferred(
            users,
            current,
            Some(mine),
            Some(root),
            first,
        ) == first,
        users.len() == 0 ==> preferred(users, current, Some(mine), Some(root), first) is None,
{
}

/// The users among the candidates keep the order of the candidates: those of two lists together
/// are those of the one and then those of the other, and a user alone is that user. So where the
/// first candidate is a user, it is the first user.
pub proof fn law_users_keep_their_order(a: Seq<Identity>, b: Seq<Identity>)
    ensures
        users_of(a + b) == users_of(a) + users_of(b),
        a.len() == 0 ==> users_of(a).len() == 0,
        (a.len() == 1 && user_of(a[0]) is Some) ==> users_of(a) == seq![user_of(a[0])->Some_0],
        (a.len() == 1 && user_of(a[0]) is None) ==> users_of(a).len() == 0,
        (a.len() > 0 && user_of(a[0]) is Some) ==> users_of(a).len() > 0 && users_of(a)[0]
            == user_of(a[0])->Some_0,
{
    lemma_users_of_both(a, b);
    if a.len() > 0 {
        let head = seq![a[0]];
        assert(head.drop_last() =~= Seq::<Identity>::empty());
        assert(users_of(head.drop_last()) =~= Seq::<u32>::empty());
        lemma_users_of_both(head, a.skip(1));
        assert(head + a.skip(1) =~= a);
        if a.len() == 1 {
            assert(a =~= head);
            assert(users_of(head) =~= match user_of(a[0]) {
                Some(u) => seq![u],
                None => Seq::empty(),
            });
        }
    }
}

/// The users of two lists together.
proof fn lemma_users_of_both(a: Seq<Identity>, b: Seq<Identity>)
    ensures
        users_of(a + b) == users_of(a) + users_of(b),
    decreases b.len(),
{
    if b.len() == 0 {
        assert(a + b =~= a);
        assert(users_of(a) + users_of(b) =~= users_of(a));
    } else {
        lemma_users_of_both(a, b.drop_last());
        assert((a + b).drop_last() =~= a + b.drop_last());
        assert((a + b).last() == b.last());
        assert(users_of(a + b) =~= users_of(a) + users_of(b));
    }
}

/// A candidate stands for a user exactly when its kind is `unix-user` and its first detail called
/// `uid` is a number: for the user with that number.
pub proof fn law_who_is_a_user(id: Identity, i: int, uid: u32)
    ensures
        user_of(id) is Some ==> id.kind@ == "unix-user"@,
        (id.kind@ == "unix-user"@ && 0 <= i < id.details@.len() && id.details@[i].0@ == "uid"@ && (
        forall|j: int| 0 <= j < i ==> (#[trigger] id.details@[j]).0@ != "uid"@)) ==> user_of(id)
            == (match id.details@[i].1 {
            DetailValue::U32(n) => Some(n),
            DetailValue::Other => None,
        }),
        (forall|j: int| 0 <= j < id.details@.len() ==> (#[trigger] id.details@[j]).0@ != "uid"@)
            ==> user_of(id) is None,
{
    if 0 <= i < id.details@.len() && id.details@[i].0@ == "uid"@ && (forall|j: int|
        0 <= j < i ==> (#[trigger] id.details@[j]).0@ != "uid"@) {
        lemma_first_detail(id.details@, "uid"@, i);
    }
    if forall|j: int| 0 <= j < id.details@.len() ==> (#[trigger] id.details@[j]).0@ != "uid"@ {
        lemma_no_detail(id.details@, "uid"@);
    }
}

/// The first detail under a name is the one that counts.
proof fn lemma_first_detail(details: Seq<(String, DetailValue)>, name: Seq<char>, i: int)
    requires
        0 <= i < details.len(),
        details[i].0@ == name,
        forall|j: int| 0 <= j < i ==> (#[trigger] details[j]).0@ != name,
    ensures
        detail(details, name) == Some(details[i].1),
    decreases details.len(),
{
    if i > 0 {
        assert(details[0].0@ != name);
        let rest = details.skip(1);
        assert forall|j: int| 0 <= j < i - 1 implies (#[trigger] rest[j]).0@ != name by {
            assert(details[j + 1].0@ != name);
        }
        lemma_first_detail(rest, name, i - 1);
    }
}

/// What stands under no name is not there.
proof fn lemma_no_detail(details: Seq<(String, DetailValue)>, name: Seq<char>)
    requires
        forall|j: int| 0 <= j < details.len() ==> (#[trigger] details[j]).0@ != name,
    ensures
        detail(details, name) is None,
    decreases details.len(),
{
    if details.len() > 0 {
        assert(details[0].0@ != name);
        let rest = details.skip(1);
        assert forall|j: int| 0 <= j < rest.len() implies (#[trigger] rest[j]).0@ != name by {
            assert(details[j + 1].0@ != name);
        }
        lemma_no_detail(rest, name);
    }
}

/// A name is taken of the current user, root and the first user only where the one before has
/// none, and never of a user that is no candidate; without a candidate there is none.
pub proof fn law_names_are_tried_in_turn(
    users: Seq<u32>,
    current: u32,
    mine: Option<Seq<char>>,
    root: Option<Seq<char>>,
    first: Option<Seq<char>>,
)
    ensures
        ({
            let name = preferred(users, current, mine, root, first);
            &&& users.contains(current) && mine is Some ==> name == mine
            &&& !users.contains(current) ==> name == preferred(users, current, None, root, first)
            &&& mine is None && users.contains(0) && root is Some ==> name == root
            &&& mine is None && (!users.contains(0) || root is None) && users.len() > 0 ==> name
                == first
            &&& !users.contains(0) ==> name == preferred(users, current, mine, None, first)
            &&& users.len() == 0 ==> name is None
        }),
{
}

/// What the system is asked: who runs this process, and the names of the current user and of root
/// where they are candidates, and of the first candidate that is a user.
pub proof fn law_who_is_looked_up(
    ids: Seq<Identity>,
    i: int,
    current: u32,
    mine: Option<String>,
    root: Option<String>,
    first: Option<String>,
)
    requires
        looked_up(users_of(ids), current, mine, root, first),
        0 <= i < ids.len(),
        user_of(ids[i]) is Some,
    ensures
        runs_this_process(current),
        user_of(ids[i]) == Some(current) ==> is_named(current, mine),
        user_of(ids[i]) == Some(0u32) ==> is_named(0, root),
        (forall|j: int| 0 <= j < i ==> user_of(#[trigger] ids[j]) is None) ==> is_named(
            user_of(ids[i])->Some_0,
            first,
        ),
{
    let u = user_of(ids[i])->Some_0;
    let (a, b) = (ids.take(i), ids.skip(i));
    assert(a + b =~= ids);
    law_users_keep_their_order(a, b);
    law_users_keep_their_order(b, Seq::empty());
    assert(b[0] == ids[i]);
    let users = users_of(ids);
    assert(users[users_of(a).len() as int] == u);
    assert(users.contains(u));
    if forall|j: int| 0 <= j < i ==> user_of(#[trigger] ids[j]) is None {
        assert forall|j: int| 0 <= j < a.len() implies user_of(#[trigger] a[j]) is None by {
            assert(user_of(ids[j]) is None);
        }
        lemma_no_users(a);
    }
}

/// Among candidates that are no users there are no users.
proof fn lemma_no_users(ids: Seq<Identity>)
    requires
        forall|j: int| 0 <= j < ids.len() ==> user_of(#[trigger] ids[j]) is None,
    ensures
        users_of(ids).len() == 0,
    decreases ids.len(),
{
    if ids.len() > 0 {
        let rest = ids.drop_last();
        assert forall|j: int| 0 <= j < rest.len() implies user_of(#[trigger] rest[j]) is None by {
            assert(user_of(ids[j]) is None);
        }
        lemma_no_users(rest);
        assert(user_of(ids[ids.len() - 1]) is None);
    }
}

/// The system is asked by the two calls that ask it, with the user in question.
proof fn law_how_the_system_is_asked(uid: u32, name: Option<String>)
    ensures
        runs_this_process(uid) <==> call_ensures(current_uid, (), uid),
        is_named(uid, name) <==> call_ensures(uid_to_username, (uid,), name),
{
}

/// What the calls about users give.
pub proof fn law_calls_about_users()
    ensures
        forall|id: &Identity, uid: Option<u32>| #[trigger]
            call_ensures(identity_uid, (id,), uid) ==> uid == user_of(*id),
        forall|
            ids: &Vec<Identity>,
            current: u32,
            mine: Option<String>,
            root: Option<String>,
            first: Option<String>,
            name: Option<String>,
        | #[trigger]
            call_ensures(choose_username, (ids, current, mine, root, first), name) ==> opt_text(name)
                == preferred(
                users_of(ids@),
                current,
                opt_text(mine),
                opt_text(root),
                opt_text(first),
            ),
        forall|ids: &Vec<Identity>, name: Option<String>| #[trigger]
            call_ensures(pick_username, (ids,), name) ==> exists|
                current: u32,
                mine: Option<String>,
                root: Option<String>,
                first: Option<String>,
            | #[trigger]
                looked_up(users_of(ids@), current, mine, root, first) && opt_text(name) == preferred(
                    users_of(ids@),
                    current,
                    opt_text(mine),
                    opt_text(root),
                    opt_text(first),
                ),
        forall|peer: Option<u32>, current: u32, r: bool| #[trigger]
            call_ensures(same_user, (peer, current), r) ==> (r <==> peer == Some(current)),
        forall|uid: u32| #[trigger] call_ensures(current_user, (), uid) ==> runs_this_process(uid),
        forall|uid: u32, name: Option<String>| #[trigger]
            call_ensures(username_of, (uid,), name) ==> is_named(uid, name),
        forall|s: String| #[trigger] opt_text(Some(s)) == Some(s@),
        opt_text(None) is None,
{
}

} // verus!
