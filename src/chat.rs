//! Chat rooms: how a room is created, how a direct chat is reused, and how
//! a room is named for its viewer.
use vstd::prelude::*;

verus! {

/// A request to create a room, from `creator_id`, with the other members.
pub struct CreateChatRequest {
    pub creator_id: u128,
    pub is_group: bool,
    pub name: Option<String>,
    pub member_ids: Vec<u128>,
}

/// A member of a room as listed to clients. `joined_at` is in seconds since
/// the epoch.
pub struct ChatMemberResponse {
    pub user_id: u128,
    pub username: String,
    pub joined_at: i64,
}

/// A direct chat is a request for a non-group room with one other member.
pub open spec fn is_direct(req: CreateChatRequest) -> bool {
    !req.is_group && req.member_ids@.len() == 1
}

/// The unordered pair of a direct chat, smaller identifier first.
pub open spec fn pair_of(a: u128, b: u128) -> (u128, u128) {
    if a <= b {
        (a, b)
    } else {
        (b, a)
    }
}

/// The pair under which an existing direct chat is looked up before a new
/// one is created; `None` for any other request.
pub fn direct_chat_lookup(req: &CreateChatRequest) -> (r: Option<(u128, u128)>)
    ensures
        r is Some <==> is_direct(*req),
        r matches Some(p) ==> p == pair_of(req.creator_id, req.member_ids@[0]),
{
    if !req.is_group && req.member_ids.len() == 1 {
        let other = req.member_ids[0];
        if req.creator_id <= other {
            Some((req.creator_id, other))
        } else {
            Some((other, req.creator_id))
        }
    } else {
        None
    }
}

/// The stored name of a new room: the requested one for a group, none for a
/// one-to-one chat.
pub fn room_name(req: &CreateChatRequest) -> (r: Option<String>)
    ensures
        req.is_group ==> r == req.name,
        !req.is_group ==> r is None,
{
    if req.is_group {
        match &req.name {
            Some(n) => Some(n.clone()),
            None => None,
        }
    } else {
        None
    }
}

/// The members of a new room: those requested, then the creator.
pub fn room_members(req: &CreateChatRequest) -> (r: Vec<u128>)
    ensures
        r@ == req.member_ids@.push(req.creator_id),
{
    let mut all: Vec<u128> = Vec::new();
    let mut i: usize = 0;
    while i < req.member_ids.len()
        invariant
            i <= req.member_ids.len(),
            all@ == req.member_ids@.subrange(0, i as int),
        decreases req.member_ids.len() - i,
    {
        all.push(req.member_ids[i]);
        proof {
            assert(all@ =~= req.member_ids@.subrange(0, i as int + 1));
        }
        i = i + 1;
    }
    all.push(req.creator_id);
    proof {
        assert(all@ =~= req.member_ids@.push(req.creator_id));
    }
    all
}

/// The name a viewer sees for a room: a one-to-one room with two members is
/// named after the other member, any other room by its stored name.
pub open spec fn shown_name(is_group: bool, name: Option<String>, members: Seq<ChatMemberResponse>, viewer: u128) -> Option<Seq<char>> {
    if !is_group && members.len() == 2 {
        if members[0].user_id != viewer {
            Some(members[0].username@)
        } else if members[1].user_id != viewer {
            Some(members[1].username@)
        } else {
            None
        }
    } else {
        match name {
            Some(n) => Some(n@),
            None => None,
        }
    }
}

pub fn display_name(is_group: bool, name: Option<String>, members: &Vec<ChatMemberResponse>, viewer: u128) -> (r: Option<String>)
    ensures
        match r {
            Some(s) => shown_name(is_group, name, members@, viewer) == Some(s@),
            None => shown_name(is_group, name, members@, viewer) is None,
        },
{
    if !is_group && members.len() == 2 {
        if members[0].user_id != viewer {
            Some(members[0].username.clone())
        } else if members[1].user_id != viewer {
            Some(members[1].username.clone())
        } else {
            None
        }
    } else {
        name
    }
}

/// Messages listed per page when the client names no limit.
pub const DEFAULT_MESSAGE_PAGE: i64 = 50;
/// The most messages one page lists.
pub const MAX_MESSAGE_PAGE: i64 = 100;

/// The number of messages a page lists: the requested count, or the default,
/// capped at the maximum.
pub fn message_page_limit(limit: Option<i64>) -> (r: i64)
    ensures
        r == match limit {
            Some(l) => if l < MAX_MESSAGE_PAGE { l } else { MAX_MESSAGE_PAGE },
            None => DEFAULT_MESSAGE_PAGE,
        },
{
    match limit {
        Some(l) => if l < MAX_MESSAGE_PAGE { l } else { MAX_MESSAGE_PAGE },
        None => DEFAULT_MESSAGE_PAGE,
    }
}

/// A stored room: whether it is a group, and its members.
pub struct RoomRecord {
    pub is_group: bool,
    pub members: Set<u128>,
}

/// `id` is a direct room of the pair `a`, `b` in `rooms`.
pub open spec fn is_direct_room_of(rooms: Map<u128, RoomRecord>, id: u128, a: u128, b: u128) -> bool {
    rooms.contains_key(id) && !rooms[id].is_group && rooms[id].members == set![a, b]
}

/// The outcome of a direct-chat creation against the room store: the room
/// found for the pair, or else a new room `fresh` with the two members.
/// The lookup goes by the unordered pair, so it does not depend on who
/// creates the chat.
pub open spec fn create_direct(rooms: Map<u128, RoomRecord>, a: u128, b: u128, fresh: u128) -> (Map<u128, RoomRecord>, u128) {
    let (x, y) = pair_of(a, b);
    if exists|id: u128| is_direct_room_of(rooms, id, x, y) {
        (rooms, choose|id: u128| is_direct_room_of(rooms, id, x, y))
    } else {
        (rooms.insert(fresh, RoomRecord { is_group: false, members: set![x, y] }), fresh)
    }
}

/// Creating a direct chat between two users twice, in either order, returns
/// the same room both times and adds no second room for the pair.
pub proof fn direct_chat_is_reused(rooms: Map<u128, RoomRecord>, a: u128, b: u128, fresh1: u128, fresh2: u128)
    requires
        !rooms.contains_key(fresh1),
    ensures
        ({
            let (rooms1, id1) = create_direct(rooms, a, b, fresh1);
            let (rooms2, id2) = create_direct(rooms1, b, a, fresh2);
            &&& id2 == id1
            &&& rooms2 == rooms1
            &&& is_direct_room_of(rooms1, id1, a, b)
            &&& forall|id: u128| #[trigger] is_direct_room_of(rooms2, id, a, b)
                ==> id == id1 || is_direct_room_of(rooms, id, a, b)
        }),
{
    assert(set![a, b] =~= set![b, a]);
    let (x, y) = pair_of(a, b);
    assert(pair_of(b, a) == (x, y));
    assert forall|m: Map<u128, RoomRecord>, id: u128| is_direct_room_of(m, id, x, y) <==> #[trigger] is_direct_room_of(m, id, a, b) by {}
    let (rooms1, id1) = create_direct(rooms, a, b, fresh1);
    if !(exists|id: u128| is_direct_room_of(rooms, id, x, y)) {
        assert(is_direct_room_of(rooms1, fresh1, x, y));
        assert forall|id: u128| is_direct_room_of(rooms1, id, x, y) implies id == fresh1 by {
            if id != fresh1 {
                assert(rooms1[id] == rooms[id]);
                assert(is_direct_room_of(rooms, id, x, y));
            }
        }
        let (rooms2, id2) = create_direct(rooms1, b, a, fresh2);
        assert(is_direct_room_of(rooms1, id2, x, y));
        assert(id2 == fresh1);
        assert forall|id: u128| #[trigger] is_direct_room_of(rooms2, id, a, b) implies id == id1 by {
            assert(is_direct_room_of(rooms1, id, x, y));
        }
    }
    assert(is_direct_room_of(rooms1, id1, x, y));
}

} // verus!
