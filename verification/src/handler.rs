//! Decisions on gateway events: start-up, members joining.

use crate::config::Config;
use crate::text::{
    alphanumeric, byte_len, chars_of, filter_alphanumeric, keep_alphanumeric,
    lemma_kept_alphanumeric, lemma_truncated_is_short_prefix, truncate_to_bytes,
    truncated_to_bytes,
};
use vstd::prelude::*;

verus! {

/// The event handler.
pub struct Handler;

/// The presence the bot shows: playing this status, online.
pub struct Presence {
    pub playing: String,
    pub online: bool,
}

/// The guild whose new members get a room.
pub const HOME_GUILD: u64 = 806947535825403904;

/// Longest room name made from a username, in bytes.
pub const MAX_ROOM_NAME_BYTES: usize = 83;

impl Handler {
    /// The presence set once the bot is ready: playing the configured status.
    pub fn ready(config: &Config) -> (p: Presence)
        ensures
            p.playing@ == config.status@,
            p.online,
    {
        Presence { playing: config.status.clone(), online: true }
    }

    /// Whether a member who joined gets a room: only in the home guild, and
    /// only when they do not already have rooms.
    pub fn guild_member_addition(guild_id: u64, rooms: Option<&Vec<u64>>) -> (r: bool)
        ensures
            r == (guild_id == HOME_GUILD && !(rooms matches Some(n) && n@.len() != 0)),
    {
        if guild_id != HOME_GUILD {
            return false;
        }
        match rooms {
            Some(n) => n.len() == 0,
            None => true,
        }
    }

    /// The room name made from a new member's username: its alphanumeric
    /// characters, cut to 83 bytes when longer; `None` when 83 bytes falls
    /// inside a character (there `String::truncate` panics).
    pub fn room_name_for_member(username: &str) -> (r: Option<String>)
        ensures
            match r {
                Some(s) => truncated_to_bytes(keep_alphanumeric(username@), 83) == Some(s@),
                None => truncated_to_bytes(keep_alphanumeric(username@), 83) is None,
            },
    {
        let name = filter_alphanumeric(username);
        let v = chars_of(name.as_str());
        truncate_to_bytes(&v, MAX_ROOM_NAME_BYTES)
    }

    /// Who is told when the room of a new member could not be made: the
    /// member, then each sudoer in order.
    pub fn failure_recipients(member: u64, sudoers: &Vec<u64>) -> (r: Vec<u64>)
        ensures
            r@ == seq![member] + sudoers@,
    {
        let mut r: Vec<u64> = Vec::new();
        r.push(member);
        let mut i: usize = 0;
        while i < sudoers.len()
            invariant
                i <= sudoers@.len(),
                r@ == seq![member] + sudoers@.take(i as int),
            decreases sudoers@.len() - i,
        {
            r.push(sudoers[i]);
            proof {
                assert(r@ =~= seq![member] + sudoers@.take(i + 1));
            }
            i = i + 1;
        }
        proof {
            assert(sudoers@.take(sudoers@.len() as int) =~= sudoers@);
        }
        r
    }
}

/// A room name made from a username holds only alphanumeric characters
/// of the username, in order, and takes at most 83 bytes.
pub proof fn lemma_member_room_name(username: Seq<char>)
    ensures
        truncated_to_bytes(keep_alphanumeric(username), 83) matches Some(t) ==> byte_len(t) <= 83
            && t == keep_alphanumeric(username).take(t.len() as int) && (forall|i: int|
            0 <= i < t.len() ==> alphanumeric(#[trigger] t[i])),
{
    let k = keep_alphanumeric(username);
    lemma_kept_alphanumeric(username);
    lemma_truncated_is_short_prefix(k, 83);
    if let Some(t) = truncated_to_bytes(k, 83) {
        assert forall|i: int| 0 <= i < t.len() implies alphanumeric(#[trigger] t[i]) by {
            assert(t[i] == k[i]);
        }
    }
}

} // verus!
