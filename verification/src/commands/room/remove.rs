//! `room remove`: a member takes a user out of their room.

use crate::commands::room::TargetStep;
use crate::commands::{may_target, no_rooms_embed, no_rooms_text, stop_embed, stop_text};
use crate::embed::{error_str, error_with, is_error, is_success, success_str, Embed};
use vstd::prelude::*;

verus! {

/// Decides on `room remove` from the invoker's rooms: a member without
/// rooms is told so (`Some` reply); otherwise the command goes on.
pub fn execute(rooms: Option<&Vec<u64>>) -> (r: Option<Embed>)
    ensures
        match rooms {
            None => r matches Some(e) && is_error(e, no_rooms_text()),
            Some(_) => r is None,
        },
{
    match rooms {
        Some(_) => None,
        None => Some(no_rooms_embed()),
    }
}

/// The room a user is removed from: the member's first room.
pub fn room_of(rooms: &Vec<u64>) -> (r: u64)
    requires
        rooms@.len() > 0,
    ensures
        r == rooms@[0],
{
    rooms[0]
}

/// Decides on the target of `room remove`: the bot and the invoker are
/// refused; anyone else is removed from the member's first room, whose
/// user lookup comes next.
pub fn target_step(target: u64, bot: u64, invoker: u64, rooms: &Vec<u64>) -> (r: TargetStep)
    requires
        (target != bot && target != invoker) ==> rooms@.len() > 0,
    ensures
        if target != bot && target != invoker {
            r == TargetStep::LookUp { room: rooms@[0] }
        } else {
            r matches TargetStep::Reply(e) && is_error(e, stop_text())
        },
{
    if may_target(target, bot, invoker) {
        TargetStep::LookUp { room: room_of(rooms) }
    } else {
        TargetStep::Reply(stop_embed())
    }
}

/// The next step of removing a user.
pub enum RemoveStep {
    /// Take the room's role from the user.
    Revoke,
    /// Reply and stop.
    Reply(Embed),
}

/// The reply when the user could not be looked up.
pub fn after_user_lookup_failed(err: &str) -> (e: Embed)
    ensures
        is_error(e, "**Error**: Failed to get user object: "@ + err@),
{
    error_with("**Error**: Failed to get user object: ", err)
}

/// Decides on whether the user has the room's role: only a user who has
/// it can be removed.
pub fn after_role_check(has_role: Result<bool, String>) -> (r: RemoveStep)
    ensures
        match has_role {
            Ok(true) => r is Revoke,
            Ok(false) => r matches RemoveStep::Reply(e) && is_error(
                e,
                "That user is not added to your room!"@,
            ),
            Err(err) => r matches RemoveStep::Reply(e) && is_error(
                e,
                "**Error**: Failed to check if user already has role: "@ + err@,
            ),
        },
{
    match has_role {
        Ok(true) => RemoveStep::Revoke,
        Ok(false) => RemoveStep::Reply(error_str("That user is not added to your room!")),
        Err(err) => RemoveStep::Reply(
            error_with("**Error**: Failed to check if user already has role: ", err.as_str()),
        ),
    }
}

/// The reply once the role was taken, or the error that stopped it.
pub fn after_revoke(revoked: Result<(), String>) -> (e: Embed)
    ensures
        match revoked {
            Ok(_) => is_success(e, "Removed user from room ;-;"@),
            Err(err) => is_error(e, "**Error**: Failed to remove role from user: "@ + err@),
        },
{
    match revoked {
        Ok(_) => success_str("Removed user from room ;-;"),
        Err(err) => error_with("**Error**: Failed to remove role from user: ", err.as_str()),
    }
}

} // verus!
