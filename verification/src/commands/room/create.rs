//! `room create`: a sudoer creates a room for a member; also used when a
//! member joins the server.

use crate::commands::room::add::option_id;
use crate::commands::room::{member_access, Overwrite, OverwriteTarget, READ_MESSAGES};
use crate::commands::id_option;
use crate::embed::{error_str, error_with, is_error, is_success, success_str, Embed};
use vstd::prelude::*;

verus! {

/// The guild the rooms live in; its id is also the id of its everyone role.
pub const GUILD_ID: u64 = 806947535825403904;

/// The channel that marks where new rooms are placed.
pub const MARKER_CHANNEL: u64 = 821991091703119883;

/// The channel name of a room called `name`.
pub open spec fn decorated(name: Seq<char>) -> Seq<char> {
    "°•°♡"@ + name + "’s-room♡°•°"@
}

/// Builds the channel name of a room called `name`.
pub fn decorate(name: &str) -> (r: String)
    ensures
        r@ == decorated(name@),
{
    let mut r = String::from_str("°•°♡");
    r.append(name);
    r.append("’s-room♡°•°");
    r
}

/// The first step of `room create`.
pub enum CreatePlan {
    /// Stop without a reply (not a sudoer, or a missing or unreadable option).
    Stop,
    /// Create a room for `owner` with this room name.
    Create { owner: u64, room_name: String },
}

/// Decides on `room create` from whether the invoker is a sudoer and the
/// two options (user, room name); the room name is handed on as given (the
/// channel name is made from it when the room is created).
pub fn execute(is_sudoer: bool, user_option: Option<&str>, name_option: Option<&str>) -> (r: CreatePlan)
    ensures
        !is_sudoer ==> r is Stop,
        is_sudoer ==> match (option_id(user_option), name_option) {
            (Some(owner), Some(n)) => r matches CreatePlan::Create { owner: o, room_name } && o
                == owner && room_name@ == n@,
            _ => r is Stop,
        },
{
    if !is_sudoer {
        return CreatePlan::Stop;
    }
    let owner = match id_option(user_option) {
        Some(o) => o,
        None => {
            return CreatePlan::Stop;
        },
    };
    match name_option {
        Some(n) => CreatePlan::Create { owner, room_name: String::from_str(n) },
        None => CreatePlan::Stop,
    }
}

/// The reply to `room create`: success, or the error the creation gave.
pub fn creation_reply(created: Result<(), Embed>) -> (e: Embed)
    ensures
        match created {
            Ok(_) => is_success(e, "Created room :3"@),
            Err(err) => e == err,
        },
{
    match created {
        Ok(_) => success_str("Created room :3"),
        Err(err) => err,
    }
}

/// The request that creates a room's channel.
pub struct ChannelRequest {
    pub name: String,
    /// Channel type 0: a text channel.
    pub kind: u64,
    pub position: i64,
    pub parent_id: String,
    pub permission_overwrites: Vec<Overwrite>,
}

/// What looking up the marker channel gave.
pub enum MarkerLookup {
    /// The marker's position.
    Position(i64),
    /// The marker has no position.
    NoPosition,
    /// The lookup failed with this error.
    Failed(String),
}

/// The overwrites of a new room: hidden from everyone, visible to the owner.
pub fn room_overwrites(owner: u64) -> (v: Vec<Overwrite>)
    ensures
        v@.len() == 2,
        v@[0].allow == 0 && v@[0].deny == READ_MESSAGES && v@[0].target == OverwriteTarget::Role(
            GUILD_ID,
        ),
        v@[1].allow == READ_MESSAGES && v@[1].deny == 0 && v@[1].target == OverwriteTarget::Member(
            owner,
        ),
{
    let mut v: Vec<Overwrite> = Vec::new();
    v.push(Overwrite { allow: 0, deny: READ_MESSAGES, target: OverwriteTarget::Role(GUILD_ID) });
    v.push(member_access(owner));
    v
}

/// Creating a room for `owner`, once the marker channel was looked up: the
/// new room's channel goes just above the marker, in the rooms category,
/// named after `room_name` and visible to `owner` only.
pub fn create_room(owner: u64, room_name: &str, marker: MarkerLookup) -> (r: Result<ChannelRequest, Embed>)
    requires
        marker matches MarkerLookup::Position(p) ==> p > i64::MIN,
    ensures
        match marker {
            MarkerLookup::Position(p) => r matches Ok(req) && req.name@ == decorated(room_name@)
                && req.kind == 0 && req.position == p - 1 && req.parent_id@
                == "813785080421548103"@ && req.permission_overwrites@.len() == 2
                && req.permission_overwrites@[0].allow == 0
                && req.permission_overwrites@[0].deny == READ_MESSAGES
                && req.permission_overwrites@[0].target == OverwriteTarget::Role(GUILD_ID)
                && req.permission_overwrites@[1].allow == READ_MESSAGES
                && req.permission_overwrites@[1].deny == 0
                && req.permission_overwrites@[1].target == OverwriteTarget::Member(owner),
            MarkerLookup::NoPosition => r matches Err(e) && is_error(
                e,
                "**Error**: Marker channel of unknown type! Could not get it's position"@,
            ),
            MarkerLookup::Failed(err) => r matches Err(e) && is_error(
                e,
                "**Error**: Failed to get marker channel: "@ + err@,
            ),
        },
{
    let overwrites = room_overwrites(owner);
    let name = decorate(room_name);
    match marker {
        MarkerLookup::Position(p) => Ok(
            ChannelRequest {
                name,
                kind: 0,
                position: p - 1,
                parent_id: String::from_str("813785080421548103"),
                permission_overwrites: overwrites,
            },
        ),
        MarkerLookup::NoPosition => Err(
            error_str("**Error**: Marker channel of unknown type! Could not get it's position"),
        ),
        MarkerLookup::Failed(err) => Err(
            error_with("**Error**: Failed to get marker channel: ", err.as_str()),
        ),
    }
}

/// Decides on the channel creation: the new channel's id, to be recorded as
/// the owner's room, or the error reply.
pub fn after_create(created: Result<u64, String>) -> (r: Result<u64, Embed>)
    ensures
        match created {
            Ok(c) => r == Ok::<u64, Embed>(c),
            Err(err) => r matches Err(e) && is_error(
                e,
                "**Error**: Failed to create channel for room: "@ + err@,
            ),
        },
{
    match created {
        Ok(c) => Ok(c),
        Err(err) => Err(error_with("**Error**: Failed to create channel for room: ", err.as_str())),
    }
}

/// Decides on recording the room: done, or the database error reply.
pub fn after_record(recorded: Result<(), ()>) -> (r: Result<(), Embed>)
    ensures
        recorded is Ok ==> r is Ok,
        recorded is Err ==> (r matches Err(e) && is_error(
            e,
            "**Error**: Database error. Report this to the mods"@,
        )),
{
    match recorded {
        Ok(_) => Ok(()),
        Err(_) => Err(error_str("**Error**: Database error. Report this to the mods")),
    }
}

} // verus!
