//! The earlier room list format: each room names its channel, its role and
//! the members it belongs to.

use std::collections::HashMap;
use vstd::prelude::*;

verus! {

broadcast use vstd::std_specs::hash::group_hash_axioms;

/// All rooms of the list format.
pub struct RoomsVec {
    pub room: Vec<RoomInfo>,
}

/// One room: its members, its channel and its role.
pub struct RoomInfo {
    pub user_id: Vec<u64>,
    pub channel_id: u64,
    pub role_id: u64,
}

/// `m` with each of `ids`, in order, mapped to `v`.
pub open spec fn assign_all(m: Map<u64, (u64, u64)>, ids: Seq<u64>, v: (u64, u64)) -> Map<
    u64,
    (u64, u64),
>
    decreases ids.len(),
{
    if ids.len() == 0 {
        m
    } else {
        assign_all(m, ids.drop_last(), v).insert(ids.last(), v)
    }
}

/// Each member mapped to the channel and role of the rooms listing them, a
/// later room overriding an earlier one.
pub open spec fn room_assignments(rooms: Seq<RoomInfo>) -> Map<u64, (u64, u64)>
    decreases rooms.len(),
{
    if rooms.len() == 0 {
        Map::empty()
    } else {
        assign_all(
            room_assignments(rooms.drop_last()),
            rooms.last().user_id@,
            (rooms.last().channel_id, rooms.last().role_id),
        )
    }
}

/// `u` is listed as a member of one of `rooms`.
pub open spec fn listed(rooms: Seq<RoomInfo>, u: u64) -> bool {
    exists|i: int| 0 <= i < rooms.len() && #[trigger] rooms[i].user_id@.contains(u)
}

impl RoomsVec {
    /// Each member mapped to the channel and role of their room (the last
    /// room listing them, when several do).
    pub fn into(self) -> (r: HashMap<u64, (u64, u64)>)
        ensures
            r@ == room_assignments(self.room@),
    {
        let mut items: HashMap<u64, (u64, u64)> = HashMap::new();
        let ghost all = self.room@;
        let n = self.room.len();
        let mut i: usize = 0;
        while i < n
            invariant
                n == all.len(),
                i <= n,
                self.room@ == all,
                items@ == room_assignments(all.take(i as int)),
            decreases n - i,
        {
            let x = &self.room[i];
            let value = (x.channel_id, x.role_id);
            let ghost base = items@;
            let m = x.user_id.len();
            let mut j: usize = 0;
            while j < m
                invariant
                    m == x.user_id@.len(),
                    j <= m,
                    items@ == assign_all(base, x.user_id@.take(j as int), value),
                decreases m - j,
            {
                proof {
                    assert(x.user_id@.take(j + 1).drop_last() =~= x.user_id@.take(j as int));
                }
                items.insert(x.user_id[j], value);
                j = j + 1;
            }
            proof {
                assert(x.user_id@.take(m as int) =~= x.user_id@);
                assert(all.take(i + 1).drop_last() =~= all.take(i as int));
            }
            i = i + 1;
        }
        proof {
            assert(all.take(n as int) =~= all);
        }
        items
    }
}

proof fn lemma_assign_all_dom(m: Map<u64, (u64, u64)>, ids: Seq<u64>, v: (u64, u64), u: u64)
    ensures
        assign_all(m, ids, v).contains_key(u) <==> (m.contains_key(u) || ids.contains(u)),
    decreases ids.len(),
{
    if ids.len() > 0 {
        lemma_assign_all_dom(m, ids.drop_last(), v, u);
        if ids.drop_last().contains(u) {
            let k = choose|k: int| 0 <= k < ids.drop_last().len() && ids.drop_last()[k] == u;
            assert(ids[k] == u);
        }
        if ids.contains(u) && u != ids.last() {
            let k = choose|k: int| 0 <= k < ids.len() && ids[k] == u;
            assert(ids.drop_last()[k] == u);
        }
    }
}

/// A member is in the map exactly when some room lists them.
pub proof fn lemma_assignments_cover_members(rooms: Seq<RoomInfo>, u: u64)
    ensures
        room_assignments(rooms).contains_key(u) <==> listed(rooms, u),
    decreases rooms.len(),
{
    if rooms.len() > 0 {
        let init = rooms.drop_last();
        lemma_assignments_cover_members(init, u);
        lemma_assign_all_dom(
            room_assignments(init),
            rooms.last().user_id@,
            (rooms.last().channel_id, rooms.last().role_id),
            u,
        );
        if listed(init, u) {
            let i = choose|i: int| 0 <= i < init.len() && #[trigger] init[i].user_id@.contains(u);
            assert(rooms[i] == init[i]);
        }
        if listed(rooms, u) && !rooms.last().user_id@.contains(u) {
            let i = choose|i: int| 0 <= i < rooms.len() && #[trigger] rooms[i].user_id@.contains(u);
            assert(i != rooms.len() - 1);
            assert(init[i] == rooms[i]);
        }
        if rooms.last().user_id@.contains(u) {
            assert(rooms[rooms.len() - 1].user_id@.contains(u));
        }
    }
}

} // verus!
