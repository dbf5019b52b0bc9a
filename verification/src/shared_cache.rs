//! The in-memory map from members to their rooms, kept in step with the
//! database: the decisions here, the database calls around them.

use crate::model::{store_ids, stored_ids, RoomInfo};
use std::collections::HashMap;
use vstd::prelude::*;

verus! {

broadcast use vstd::std_specs::hash::group_hash_axioms;

/// The member-to-rooms map.
pub struct SharedCache {
    user_room_map: HashMap<u64, Vec<u64>>,
}

/// The map built from the stored records, a later record of the same
/// owner replacing an earlier one.
pub open spec fn rooms_map(rooms: Seq<RoomInfo>) -> Map<u64, Seq<u64>>
    decreases rooms.len(),
{
    if rooms.len() == 0 {
        Map::empty()
    } else {
        rooms_map(rooms.drop_last()).insert(rooms.last().owner, rooms.last().channel_ids@)
    }
}

/// The map once `channel` is added to the rooms of `user`.
pub open spec fn with_room(m: Map<u64, Seq<u64>>, user: u64, channel: u64) -> Map<u64, Seq<u64>> {
    if m.contains_key(user) {
        m.insert(user, m[user].push(channel))
    } else {
        m.insert(user, seq![channel])
    }
}

/// The map once the last room of `user` is taken back: the user keeps the
/// rest of the list, or loses the entry when nothing is left.
pub open spec fn without_last_room(m: Map<u64, Seq<u64>>, user: u64) -> Map<u64, Seq<u64>> {
    let rest = if m[user].len() > 0 {
        m[user].drop_last()
    } else {
        m[user]
    };
    if rest.len() != 0 {
        m.insert(user, rest)
    } else {
        m.remove(user)
    }
}

/// The database write that records the rooms of one member.
pub struct RoomWrite {
    /// Whether the member's record is replaced (it existed) or inserted.
    pub replace: bool,
    /// The owner, as stored.
    pub a: i64,
    /// The member's channels, as stored.
    pub b: Vec<i64>,
}

/// Builds the member-to-rooms map from the stored records, in order.
pub fn get_rooms(rooms: Vec<RoomInfo>) -> (r: HashMap<u64, Vec<u64>>)
    ensures
        r@.map_values(|v: Vec<u64>| v@) == rooms_map(rooms@),
{
    let mut map: HashMap<u64, Vec<u64>> = HashMap::new();
    let mut rest = rooms;
    let ghost all = rest@;
    let mut i: usize = 0;
    let n = rest.len();
    proof {
        assert(map@.map_values(|v: Vec<u64>| v@) =~= rooms_map(all.take(0)));
    }
    while i < n
        invariant
            n == all.len(),
            i <= n,
            rest@ == all,
            map@.map_values(|v: Vec<u64>| v@) == rooms_map(all.take(i as int)),
        decreases n - i,
    {
        let owner = rest[i].owner;
        let channels = rest[i].channel_ids.clone();
        proof {
            assert(all.take(i + 1).drop_last() =~= all.take(i as int));
            assert(all.take(i + 1).last() == all[i as int]);
        }
        map.insert(owner, channels);
        proof {
            assert(map@.map_values(|v: Vec<u64>| v@) =~= rooms_map(all.take(i as int)).insert(
                owner,
                all[i as int].channel_ids@,
            ));
        }
        i = i + 1;
    }
    proof {
        assert(all.take(n as int) =~= all);
    }
    map
}

impl View for SharedCache {
    type V = Map<u64, Seq<u64>>;

    closed spec fn view(&self) -> Map<u64, Seq<u64>> {
        self.user_room_map@.map_values(|v: Vec<u64>| v@)
    }
}

impl SharedCache {
    /// The cache of the rooms loaded from the database.
    pub fn new(rooms: Vec<RoomInfo>) -> (r: SharedCache)
        ensures
            r@ == rooms_map(rooms@),
    {
        SharedCache { user_room_map: get_rooms(rooms) }
    }

    /// Adds `channel` to the rooms of `user`, and says which database write
    /// records the new list: a replacement when the member had a record,
    /// an insertion otherwise.
    pub fn add_user_room(&mut self, user_id: u64, channel: u64) -> (w: RoomWrite)
        ensures
            final(self)@ == with_room(old(self)@, user_id, channel),
            w.replace == old(self)@.contains_key(user_id),
            w.a == user_id as i64,
            w.b@ == stored_ids(final(self)@[user_id]),
    {
        let (replace, list) = match self.user_room_map.remove(&user_id) {
            Some(mut n) => {
                n.push(channel);
                (true, n)
            },
            None => {
                let mut n: Vec<u64> = Vec::new();
                n.push(channel);
                (false, n)
            },
        };
        let b = store_ids(&list);
        self.user_room_map.insert(user_id, list);
        proof {
            assert(self@ =~= with_room(old(self)@, user_id, channel));
        }
        RoomWrite { replace, a: user_id as i64, b }
    }

    /// Ends an addition once the database write is done: nothing changes when
    /// it succeeded; when it failed, the added room is taken back and the
    /// failure is reported.
    pub fn finish_add_user_room(&mut self, user_id: u64, written: bool) -> (r: Result<(), ()>)
        requires
            old(self)@.contains_key(user_id),
        ensures
            written ==> r is Ok && final(self)@ == old(self)@,
            !written ==> r is Err && final(self)@ == without_last_room(old(self)@, user_id),
    {
        if written {
            Ok(())
        } else {
            let mut channels = match self.user_room_map.remove(&user_id) {
                Some(c) => c,
                None => Vec::new(),
            };
            channels.pop();
            if channels.len() != 0 {
                self.user_room_map.insert(user_id, channels);
            }
            proof {
                assert(self@ =~= without_last_room(old(self)@, user_id));
            }
            Err(())
        }
    }

    /// Removing a room is not done yet: the map stays as it is.
    pub fn delete_user_room(&mut self, owner: u64, channel_id: u64)
        ensures
            final(self)@ == old(self)@,
    {
    }

    /// The member-to-rooms map.
    pub fn get_user_room_map(&self) -> (r: &HashMap<u64, Vec<u64>>)
        ensures
            r@.map_values(|v: Vec<u64>| v@) == self@,
    {
        &self.user_room_map
    }
}

/// A failed addition leaves the map as it was, unless the member had a
/// record with no rooms at all (that record is then gone).
pub proof fn lemma_failed_add_restores(m: Map<u64, Seq<u64>>, user: u64, channel: u64)
    requires
        !(m.contains_key(user) && m[user].len() == 0),
    ensures
        without_last_room(with_room(m, user, channel), user) == m,
{
    let a = with_room(m, user, channel);
    if m.contains_key(user) {
        assert(a[user].drop_last() =~= m[user]);
        assert(a.insert(user, m[user]) =~= m);
    } else {
        assert(a[user].drop_last() =~= Seq::<u64>::empty());
        assert(a.remove(user) =~= m);
    }
}

} // verus!
