use homebot::model::RoomInfo as StoredRoomInfo;
use homebot::rooms::{RoomInfo, RoomsVec};
use homebot::shared_cache::{get_rooms, SharedCache};

fn record(owner: u64, channels: &[u64]) -> StoredRoomInfo {
    StoredRoomInfo { owner, channel_ids: channels.to_vec() }
}

#[test]
fn rooms_vec_maps_each_member_to_their_room() {
    let rooms = RoomsVec {
        room: vec![
            RoomInfo { user_id: vec![1, 2], channel_id: 10, role_id: 100 },
            RoomInfo { user_id: vec![3], channel_id: 11, role_id: 101 },
            RoomInfo { user_id: vec![2, 4], channel_id: 12, role_id: 102 },
        ],
    };
    let map = rooms.into();
    assert_eq!(map.len(), 4);
    assert_eq!(map[&1], (10, 100));
    assert_eq!(map[&2], (12, 102));
    assert_eq!(map[&3], (11, 101));
    assert_eq!(map[&4], (12, 102));
}

#[test]
fn rooms_vec_without_members_is_empty() {
    let rooms = RoomsVec { room: vec![RoomInfo { user_id: vec![], channel_id: 1, role_id: 2 }] };
    assert!(rooms.into().is_empty());
}

#[test]
fn stored_room_uses_signed_ids() {
    let stored = record(u64::MAX, &[1, 1 << 63]).serialize();
    assert_eq!(stored.a, -1);
    assert_eq!(stored.b, vec![1, i64::MIN]);
}

#[test]
fn get_rooms_keeps_the_last_record_of_an_owner() {
    let map = get_rooms(vec![record(1, &[10]), record(2, &[20, 21]), record(1, &[11, 12])]);
    assert_eq!(map.len(), 2);
    assert_eq!(map[&1], vec![11, 12]);
    assert_eq!(map[&2], vec![20, 21]);
}

#[test]
fn add_user_room_inserts_then_replaces() {
    let mut cache = SharedCache::new(vec![]);
    let first = cache.add_user_room(5, 50);
    assert!(!first.replace);
    assert_eq!(first.a, 5);
    assert_eq!(first.b, vec![50]);
    let second = cache.add_user_room(5, u64::MAX);
    assert!(second.replace);
    assert_eq!(second.b, vec![50, -1]);
    assert_eq!(cache.get_user_room_map()[&5], vec![50, u64::MAX]);
}

#[test]
fn finish_add_user_room_keeps_on_success() {
    let mut cache = SharedCache::new(vec![record(5, &[50])]);
    cache.add_user_room(5, 51);
    assert_eq!(cache.finish_add_user_room(5, true), Ok(()));
    assert_eq!(cache.get_user_room_map()[&5], vec![50, 51]);
}

#[test]
fn failed_add_restores_the_map() {
    let mut cache = SharedCache::new(vec![record(5, &[50]), record(6, &[60])]);
    cache.add_user_room(5, 51);
    assert_eq!(cache.finish_add_user_room(5, false), Err(()));
    assert_eq!(cache.get_user_room_map()[&5], vec![50]);
    assert_eq!(cache.get_user_room_map()[&6], vec![60]);
    cache.add_user_room(7, 70);
    assert_eq!(cache.finish_add_user_room(7, false), Err(()));
    assert!(!cache.get_user_room_map().contains_key(&7));
    assert_eq!(cache.get_user_room_map().len(), 2);
}

#[test]
fn failed_add_drops_an_empty_record() {
    let mut cache = SharedCache::new(vec![record(8, &[])]);
    cache.add_user_room(8, 80);
    assert_eq!(cache.finish_add_user_room(8, false), Err(()));
    assert!(!cache.get_user_room_map().contains_key(&8));
}

#[test]
fn delete_user_room_changes_nothing() {
    let mut cache = SharedCache::new(vec![record(5, &[50])]);
    cache.delete_user_room(5, 50);
    assert_eq!(cache.get_user_room_map()[&5], vec![50]);
}
