//! A model of the unread counters that the handler's requests act on, and
//! the accounting it yields.
use crate::handler::{dedup, resumes, Action, Draft, Stage, StoreReply, StoreRequest};
use crate::registry::without_channel;
use vstd::prelude::*;

verus! {

/// Counters per (user, room); an absent entry counts zero.
pub type Counters = Map<(u128, u128), nat>;

pub open spec fn unread(c: Counters, user: u128, room: u128) -> nat {
    if c.contains_key((user, room)) {
        c[(user, room)]
    } else {
        0
    }
}

/// The counters after one increment for each listed user.
pub open spec fn after_increments(c: Counters, users: Seq<u128>, room: u128) -> Counters
    decreases users.len(),
{
    if users.len() == 0 {
        c
    } else {
        let p = after_increments(c, users.drop_last(), room);
        p.insert((users.last(), room), unread(p, users.last(), room) + 1)
    }
}

/// What a request of the handler does to the counters.
pub open spec fn after_request(c: Counters, req: StoreRequest) -> Counters {
    match req {
        StoreRequest::IncrementUnread { user_ids, chat_room_id } => after_increments(c, user_ids@, chat_room_id),
        StoreRequest::ClearUnread { user_id, chat_room_id } => c.remove((user_id, chat_room_id)),
        _ => c,
    }
}

proof fn lemma_increments_count(c: Counters, users: Seq<u128>, room: u128, b: u128)
    requires
        users.no_duplicates(),
    ensures
        unread(after_increments(c, users, room), b, room) == unread(c, b, room) + if users.contains(b) { 1nat } else { 0nat },
    decreases users.len(),
{
    if users.len() > 0 {
        let q = users.drop_last();
        assert(q.no_duplicates());
        lemma_increments_count(c, q, room, b);
        assert(users[users.len() - 1] == users.last());
        if q.contains(users.last()) {
            let k = choose|k: int| 0 <= k < q.len() && q[k] == users.last();
            assert(users[k] == users[users.len() - 1]);
        }
        if users.contains(b) && b != users.last() {
            let k = choose|k: int| 0 <= k < users.len() && users[k] == b;
            assert(q[k] == b);
        }
        if q.contains(b) {
            let k = choose|k: int| 0 <= k < q.len() && q[k] == b;
            assert(users[k] == b);
        }
    }
}

proof fn lemma_without_channel(s: Seq<u128>, connected: Set<u128>)
    requires
        s.no_duplicates(),
    ensures
        without_channel(s, connected).no_duplicates(),
        forall|x: u128| without_channel(s, connected).contains(x) <==> (s.contains(x) && !connected.contains(x)),
    decreases s.len(),
{
    if s.len() > 0 {
        let q = s.drop_last();
        assert(q.no_duplicates());
        lemma_without_channel(q, connected);
        let p = without_channel(q, connected);
        assert(s[s.len() - 1] == s.last());
        assert forall|x: u128| without_channel(s, connected).contains(x) <==> (s.contains(x) && !connected.contains(x)) by {
            if s.contains(x) && x != s.last() {
                let k = choose|k: int| 0 <= k < s.len() && s[k] == x;
                assert(q[k] == x);
            }
            if q.contains(x) {
                let k = choose|k: int| 0 <= k < q.len() && q[k] == x;
                assert(s[k] == x);
            }
            if !connected.contains(s.last()) {
                assert(p.push(s.last())[p.len() as int] == s.last());
                if p.contains(x) {
                    let k = choose|k: int| 0 <= k < p.len() && p[k] == x;
                    assert(p.push(s.last())[k] == x);
                }
                if p.push(s.last()).contains(x) && x != s.last() {
                    let k = choose|k: int| 0 <= k < p.len() + 1 && p.push(s.last())[k] == x;
                    assert(p[k] == x);
                }
            }
        }
        if !connected.contains(s.last()) {
            if q.contains(s.last()) {
                let k = choose|k: int| 0 <= k < q.len() && q[k] == s.last();
                assert(s[k] == s[s.len() - 1]);
            }
            assert(!p.contains(s.last()));
            let pp = p.push(s.last());
            assert forall|i: int, j: int| 0 <= i < pp.len() && 0 <= j < pp.len() && i != j implies pp[i] != pp[j] by {
                if i < p.len() && j == p.len() {
                    assert(p[i] == pp[i]);
                }
                if j < p.len() && i == p.len() {
                    assert(p[j] == pp[j]);
                }
            }
        }
    }
}

/// A message sent to a room adds one to the unread counter of each member
/// that has no channel, and leaves the counters of the others alone: the
/// fan-out reaches each member once, the members without a channel come
/// back from the registry, and the handler increments exactly those.
pub proof fn send_counts_unread_once(
    user: u128,
    draft: Draft,
    id: u128,
    created_at: String,
    sender_username: String,
    members: Vec<u128>,
    connected: Set<u128>,
    offline: Vec<u128>,
    c: Counters,
    b: u128,
    t1: Stage, a1: Action, t2: Stage, a2: Action,
)
    requires
        resumes(user, Stage::AwaitMembers { draft, id, created_at, sender_username }, StoreReply::Members(members), t1, a1),
        a1 matches Action::Deliver { recipients, .. } && offline@ == without_channel(recipients@, connected),
        resumes(user, t1, StoreReply::Delivered { offline }, t2, a2),
    ensures
        members@.contains(b) && !connected.contains(b) ==> (a2 matches Action::Store(req)
            && unread(after_request(c, req), b, draft.chat_room_id) == unread(c, b, draft.chat_room_id) + 1),
        !(members@.contains(b) && !connected.contains(b)) ==> (a2 matches Action::Store(req)
            ==> unread(after_request(c, req), b, draft.chat_room_id) == unread(c, b, draft.chat_room_id)),
{
    crate::handler::fan_out_reaches_each_member_once(members@);
    lemma_without_channel(dedup(members@), connected);
    let w = without_channel(dedup(members@), connected);
    assert(offline@ == w);
    assert(dedup(members@).to_set().contains(b) == members@.to_set().contains(b));
    assert(w.contains(b) == (members@.contains(b) && !connected.contains(b)));
    if members@.contains(b) && !connected.contains(b) {
        assert(dedup(members@).to_set().contains(b));
        assert(w.contains(b));
        assert(offline@.len() > 0);
    }
    lemma_increments_count(c, w, draft.chat_room_id, b);
}

/// The counters after `n` messages to a room, each of whose fan-outs left
/// `b` among the members without a channel exactly once.
pub open spec fn after_sends(c: Counters, offline_lists: Seq<Seq<u128>>, room: u128) -> Counters
    decreases offline_lists.len(),
{
    if offline_lists.len() == 0 {
        c
    } else {
        after_increments(after_sends(c, offline_lists.drop_last(), room), offline_lists.last(), room)
    }
}

/// `N` messages sent to a room while a member has no channel raise that
/// member's counter by `N`, and the reset of a first read brings it to zero.
pub proof fn unread_accounting(c: Counters, offline_lists: Seq<Seq<u128>>, room: u128, b: u128)
    requires
        forall|i: int| 0 <= i < offline_lists.len() ==> (#[trigger] offline_lists[i]).no_duplicates()
            && offline_lists[i].contains(b),
    ensures
        unread(after_sends(c, offline_lists, room), b, room) == unread(c, b, room) + offline_lists.len(),
        unread(after_sends(c, offline_lists, room).remove((b, room)), b, room) == 0,
    decreases offline_lists.len(),
{
    if offline_lists.len() > 0 {
        let q = offline_lists.drop_last();
        assert forall|i: int| 0 <= i < q.len() implies (#[trigger] q[i]).no_duplicates() && q[i].contains(b) by {
            assert(q[i] == offline_lists[i]);
        }
        unread_accounting(c, q, room, b);
        assert(offline_lists.last() == offline_lists[offline_lists.len() - 1]);
        lemma_increments_count(after_sends(c, q, room), offline_lists.last(), room, b);
    }
}

/// The counters after the store requests among `acts`, in order.
pub open spec fn after_actions(c: Counters, acts: Seq<Action>) -> Counters
    decreases acts.len(),
{
    if acts.len() == 0 {
        c
    } else {
        let p = after_actions(c, acts.drop_last());
        match acts.last() {
            Action::Store(req) => after_request(p, req),
            _ => p,
        }
    }
}

/// The `k`-th of a series of sends to `room`: the handler, waiting for the
/// members, gets them, fans the message out, and gets back from the registry
/// the recipients without a channel at that moment.
pub open spec fn nth_send(
    user: u128,
    room: u128,
    stages: Seq<Stage>,
    members: Seq<Vec<u128>>,
    connected: Seq<Set<u128>>,
    offline: Seq<Vec<u128>>,
    t1: Seq<Stage>,
    a1: Seq<Action>,
    t2: Seq<Stage>,
    a2: Seq<Action>,
    k: int,
) -> bool {
    &&& stages[k] matches Stage::AwaitMembers { draft, .. } && draft.chat_room_id == room
    &&& resumes(user, stages[k], StoreReply::Members(members[k]), t1[k], a1[k])
    &&& a1[k] matches Action::Deliver { recipients, .. } && offline[k]@ == without_channel(recipients@, connected[k])
    &&& resumes(user, t1[k], StoreReply::Delivered { offline: offline[k] }, t2[k], a2[k])
}

/// Member `b` is among the `k`-th send's members and has no channel then.
pub open spec fn absent_member(members: Seq<Vec<u128>>, connected: Seq<Set<u128>>, b: u128, k: int) -> bool {
    members[k]@.contains(b) && !connected[k].contains(b)
}

/// `N` messages sent to a room while member `b` has no channel raise `b`'s
/// unread counter of the room by exactly `N`, and leave the counter of a
/// member `w` that had a channel during every send unchanged.
pub proof fn repeated_sends_count_unread(
    user: u128,
    room: u128,
    stages: Seq<Stage>,
    members: Seq<Vec<u128>>,
    connected: Seq<Set<u128>>,
    offline: Seq<Vec<u128>>,
    t1: Seq<Stage>,
    a1: Seq<Action>,
    t2: Seq<Stage>,
    a2: Seq<Action>,
    c: Counters,
    b: u128,
    w: u128,
)
    requires
        members.len() == stages.len() && connected.len() == stages.len() && offline.len() == stages.len(),
        t1.len() == stages.len() && a1.len() == stages.len() && t2.len() == stages.len() && a2.len() == stages.len(),
        forall|k: int| 0 <= k < stages.len() ==> #[trigger] nth_send(user, room, stages, members, connected, offline, t1, a1, t2, a2, k),
        forall|k: int| 0 <= k < stages.len() ==> #[trigger] absent_member(members, connected, b, k),
    ensures
        unread(after_actions(c, a2), b, room) == unread(c, b, room) + stages.len(),
        (forall|k: int| 0 <= k < stages.len() ==> (#[trigger] connected[k]).contains(w))
            ==> unread(after_actions(c, a2), w, room) == unread(c, w, room),
    decreases stages.len(),
{
    let n = stages.len();
    if n > 0 {
        let m = n - 1;
        assert forall|k: int| 0 <= k < m implies #[trigger] nth_send(user, room, stages.drop_last(), members.drop_last(),
            connected.drop_last(), offline.drop_last(), t1.drop_last(), a1.drop_last(), t2.drop_last(), a2.drop_last(), k) by {
            assert(nth_send(user, room, stages, members, connected, offline, t1, a1, t2, a2, k));
        }
        assert forall|k: int| 0 <= k < m implies #[trigger] absent_member(members.drop_last(), connected.drop_last(), b, k) by {
            assert(absent_member(members, connected, b, k));
        }
        repeated_sends_count_unread(user, room, stages.drop_last(), members.drop_last(), connected.drop_last(),
            offline.drop_last(), t1.drop_last(), a1.drop_last(), t2.drop_last(), a2.drop_last(), c, b, w);
        if forall|k: int| 0 <= k < n ==> (#[trigger] connected[k]).contains(w) {
            assert forall|k: int| 0 <= k < m implies (#[trigger] connected.drop_last()[k]).contains(w) by {
                assert(connected[k].contains(w));
            }
        }
        let prev = after_actions(c, a2.drop_last());
        assert(nth_send(user, room, stages, members, connected, offline, t1, a1, t2, a2, m));
        assert(absent_member(members, connected, b, m));
        assert(a2.last() == a2[m]);
        match stages[m] {
            Stage::AwaitMembers { draft, id, created_at, sender_username } => {
                send_counts_unread_once(user, draft, id, created_at, sender_username, members[m], connected[m],
                    offline[m], prev, b, t1[m], a1[m], t2[m], a2[m]);
                send_counts_unread_once(user, draft, id, created_at, sender_username, members[m], connected[m],
                    offline[m], prev, w, t1[m], a1[m], t2[m], a2[m]);
            },
            _ => {},
        }
    }
}

} // verus!
