//! `room forceadd`: a sudoer lets a user into any channel.

use crate::commands::room::add::option_id;
use crate::commands::room::{ChannelLookup, GrantStep};
use crate::commands::id_option;
use crate::embed::{error_str, error_with, is_error, is_success, success_str, Embed};
use crate::text::contains_u64;
use vstd::prelude::*;

verus! {

/// The first step of `room forceadd`.
pub enum ForceAddPlan {
    /// Stop without a reply (not a sudoer, or a missing or unreadable option).
    Stop,
    /// Go on with this channel and this user.
    Proceed { channel: u64, target: u64 },
}

/// Decides on `room forceadd` from whether the invoker is a sudoer and the
/// two options (channel, user).
pub fn execute(is_sudoer: bool, channel_option: Option<&str>, user_option: Option<&str>) -> (r: ForceAddPlan)
    ensures
        r == if !is_sudoer {
            ForceAddPlan::Stop
        } else {
            match (option_id(channel_option), option_id(user_option)) {
                (Some(channel), Some(target)) => ForceAddPlan::Proceed { channel, target },
                _ => ForceAddPlan::Stop,
            }
        },
{
    if !is_sudoer {
        return ForceAddPlan::Stop;
    }
    let channel = match id_option(channel_option) {
        Some(c) => c,
        None => {
            return ForceAddPlan::Stop;
        },
    };
    match id_option(user_option) {
        Some(target) => ForceAddPlan::Proceed { channel, target },
        None => ForceAddPlan::Stop,
    }
}

/// Decides on the channel: a user who already has an overwrite is already
/// in it; anything but a guild channel is an error.
pub fn after_lookup(target: u64, lookup: &ChannelLookup) -> (r: GrantStep)
    ensures
        match lookup {
            ChannelLookup::Guild { member_overwrites } => if member_overwrites@.contains(target) {
                r matches GrantStep::Reply(e) && is_error(
                    e,
                    "**Error**: That user is already in the channel!"@,
                )
            } else {
                r is Grant
            },
            ChannelLookup::NotGuild => r matches GrantStep::Reply(e) && is_error(
                e,
                "**Error**: Expected a guild channel"@,
            ),
            ChannelLookup::Failed(err) => r matches GrantStep::Reply(e) && is_error(
                e,
                "**Error**: Failed to get channel: "@ + err@,
            ),
        },
{
    match lookup {
        ChannelLookup::Guild { member_overwrites } => {
            if contains_u64(member_overwrites, target) {
                GrantStep::Reply(error_str("**Error**: That user is already in the channel!"))
            } else {
                GrantStep::Grant
            }
        },
        ChannelLookup::NotGuild => GrantStep::Reply(error_str("**Error**: Expected a guild channel")),
        ChannelLookup::Failed(err) => GrantStep::Reply(
            error_with("**Error**: Failed to get channel: ", err.as_str()),
        ),
    }
}

/// The reply once access was given, or the error the grant failed with.
pub fn after_grant(granted: Result<(), String>) -> (e: Embed)
    ensures
        match granted {
            Ok(_) => is_success(e, "Added user to channel :3"@),
            Err(err) => is_error(e, "**Error**: Failed to add user to channel: "@ + err@),
        },
{
    match granted {
        Ok(_) => success_str("Added user to channel :3"),
        Err(err) => error_with("**Error**: Failed to add user to channel: ", err.as_str()),
    }
}

} // verus!
