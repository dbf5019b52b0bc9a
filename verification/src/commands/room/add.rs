//! `room add`: a member lets another user into one of their rooms.

use crate::commands::room::{ChannelLookup, GrantStep, TargetStep};
use crate::commands::{id_option, may_target, no_rooms_embed, no_rooms_text, stop_embed, stop_text};
use crate::embed::{error_str, error_with, is_error, is_success, success_str, Embed};
use crate::text::{contains_u64, parsed_u64};
use vstd::prelude::*;

verus! {

/// The id an option gives, when it is there and reads as a number.
pub open spec fn option_id(o: Option<&str>) -> Option<u64> {
    match o {
        Some(s) => parsed_u64(s@),
        None => None,
    }
}

/// The first step of `room add`.
pub enum AddPlan {
    /// Reply and stop.
    Reply(Embed),
    /// Stop without a reply (a missing or unreadable option).
    Stop,
    /// Go on with this user and, when one was named, this room.
    Proceed { target: u64, room: Option<u64> },
}

/// Decides on `room add` from the invoker's rooms and the two options
/// (user, room): a member without rooms is told so; an unreadable option
/// stops; a named room must be one of the member's rooms; a member with
/// several rooms must name one.
pub fn execute(rooms: Option<&Vec<u64>>, user_option: Option<&str>, room_option: Option<&str>) -> (r: AddPlan)
    ensures
        match rooms {
            None => r matches AddPlan::Reply(e) && is_error(e, no_rooms_text()),
            Some(rs) => match option_id(user_option) {
                None => r is Stop,
                Some(target) => match room_option {
                    Some(s) => match parsed_u64(s@) {
                        None => r is Stop,
                        Some(c) => if rs@.contains(c) {
                            r == AddPlan::Proceed { target, room: Some(c) }
                        } else {
                            r matches AddPlan::Reply(e) && is_error(
                                e,
                                "**Error**: That channel is not one of your rooms!"@,
                            )
                        },
                    },
                    None => if rs@.len() > 1 {
                        r matches AddPlan::Reply(e) && is_error(
                            e,
                            "**Error**: Since you have multiple rooms, you have to specify a room!"@,
                        )
                    } else {
                        r == AddPlan::Proceed { target, room: None }
                    },
                },
            },
        },
{
    let rooms = match rooms {
        Some(n) => n,
        None => {
            return AddPlan::Reply(no_rooms_embed());
        },
    };
    let target = match id_option(user_option) {
        Some(t) => t,
        None => {
            return AddPlan::Stop;
        },
    };
    match room_option {
        Some(s) => match id_option(Some(s)) {
            Some(c) => {
                if contains_u64(rooms, c) {
                    AddPlan::Proceed { target, room: Some(c) }
                } else {
                    AddPlan::Reply(error_str("**Error**: That channel is not one of your rooms!"))
                }
            },
            None => AddPlan::Stop,
        },
        None => {
            if rooms.len() > 1 {
                AddPlan::Reply(
                    error_str("**Error**: Since you have multiple rooms, you have to specify a room!"),
                )
            } else {
                AddPlan::Proceed { target, room: None }
            }
        },
    }
}

/// The room a user is added to: the named one, or else the member's first.
pub fn pick_room(rooms: &Vec<u64>, room: Option<u64>) -> (r: u64)
    requires
        room is Some || rooms@.len() > 0,
    ensures
        r == match room {
            Some(c) => c,
            None => rooms@[0],
        },
{
    match room {
        Some(c) => c,
        None => rooms[0],
    }
}

/// Decides on the target of `room add`: the bot and the invoker are
/// refused; anyone else is added to the named room, or else to the
/// member's first room, which is looked up next.
pub fn target_step(target: u64, bot: u64, invoker: u64, rooms: &Vec<u64>, room: Option<u64>) -> (r: TargetStep)
    requires
        (target != bot && target != invoker) ==> (room is Some || rooms@.len() > 0),
    ensures
        if target != bot && target != invoker {
            r == TargetStep::LookUp {
                room: match room {
                    Some(c) => c,
                    None => rooms@[0],
                },
            }
        } else {
            r matches TargetStep::Reply(e) && is_error(e, stop_text())
        },
{
    if may_target(target, bot, invoker) {
        TargetStep::LookUp { room: pick_room(rooms, room) }
    } else {
        TargetStep::Reply(stop_embed())
    }
}

/// Decides on the room's channel: a user who already has an overwrite is
/// already in the room; anything but a guild channel is an error.
pub fn after_lookup(target: u64, lookup: &ChannelLookup) -> (r: GrantStep)
    ensures
        match lookup {
            ChannelLookup::Guild { member_overwrites } => if member_overwrites@.contains(target) {
                r matches GrantStep::Reply(e) && is_error(
                    e,
                    "**Error**: That user is already in your room!"@,
                )
            } else {
                r is Grant
            },
            ChannelLookup::NotGuild => r matches GrantStep::Reply(e) && is_error(
                e,
                "**Error**: Expected a guild channel"@,
            ),
            ChannelLookup::Failed(err) => r matches GrantStep::Reply(e) && is_error(
                e,
                "**Error**: Failed to get channel: "@ + err@,
            ),
        },
{
    match lookup {
        ChannelLookup::Guild { member_overwrites } => {
            if contains_u64(member_overwrites, target) {
                GrantStep::Reply(error_str("**Error**: That user is already in your room!"))
            } else {
                GrantStep::Grant
            }
        },
        ChannelLookup::NotGuild => GrantStep::Reply(error_str("**Error**: Expected a guild channel")),
        ChannelLookup::Failed(err) => GrantStep::Reply(
            error_with("**Error**: Failed to get channel: ", err.as_str()),
        ),
    }
}

/// The reply once access was given, or the error the grant failed with.
pub fn after_grant(granted: Result<(), String>) -> (e: Embed)
    ensures
        match granted {
            Ok(_) => is_success(e, "Added user to room :3"@),
            Err(err) => is_error(e, "**Error**: Failed to add user to channel: "@ + err@),
        },
{
    match granted {
        Ok(_) => success_str("Added user to room :3"),
        Err(err) => error_with("**Error**: Failed to add user to channel: ", err.as_str()),
    }
}

} // verus!
