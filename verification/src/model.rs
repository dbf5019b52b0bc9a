//! The record of one member's rooms, as stored in the `rooms` collection.

use vstd::prelude::*;

verus! {

/// A member and the channels that are their rooms.
pub struct RoomInfo {
    pub owner: u64,
    pub channel_ids: Vec<u64>,
}

/// The stored form of a room record: field `a` holds the owner and `b` the
/// channels, all as signed 64-bit integers.
pub struct StoredRoom {
    pub a: i64,
    pub b: Vec<i64>,
}

/// The ids as the database stores them: each reinterpreted as `i64`.
pub open spec fn stored_ids(ids: Seq<u64>) -> Seq<i64> {
    Seq::new(ids.len(), |i: int| ids[i] as i64)
}

/// Reinterprets each id as `i64`, as the database stores it.
pub fn store_ids(ids: &Vec<u64>) -> (r: Vec<i64>)
    ensures
        r@ == stored_ids(ids@),
{
    let mut r: Vec<i64> = Vec::new();
    let mut i: usize = 0;
    while i < ids.len()
        invariant
            i <= ids@.len(),
            r@ == stored_ids(ids@).take(i as int),
        decreases ids@.len() - i,
    {
        r.push(ids[i] as i64);
        proof {
            assert(r@ =~= stored_ids(ids@).take(i + 1));
        }
        i = i + 1;
    }
    proof {
        assert(stored_ids(ids@).take(ids@.len() as int) =~= stored_ids(ids@));
    }
    r
}

impl RoomInfo {
    /// The form in which the record is written to the database.
    pub fn serialize(&self) -> (r: StoredRoom)
        ensures
            r.a == self.owner as i64,
            r.b@ == stored_ids(self.channel_ids@),
    {
        StoredRoom { a: self.owner as i64, b: store_ids(&self.channel_ids) }
    }
}

} // verus!
