//! `room rename`: a member renames the room they are in.

use crate::commands::{no_rooms_embed, no_rooms_text};
use crate::embed::{error_str, error_with, is_error, is_success, success_str, Embed};
use crate::text::{chars_of, contains_u64, filter_alphanumeric, keep_alphanumeric};
use vstd::prelude::*;

verus! {

/// The next step of `room rename`.
pub enum RenamePlan {
    /// Reply and stop.
    Reply(Embed),
    /// Stop without a reply (a missing option).
    Stop,
    /// Rename the channel to this name.
    Rename { name: String },
}

/// Whether `s` is 1 to 83 characters long.
pub fn fits_room_name(s: &str) -> (r: bool)
    ensures
        r == (1 <= s@.len() <= 83),
{
    let v = chars_of(s);
    1 <= v.len() && v.len() <= 83
}

/// Decides on `room rename` from the invoker's rooms, the name option and
/// the channel it was used in: the name keeps only its alphanumeric
/// characters and must then be 1 to 83 characters long; the channel must be one
/// of the member's rooms.
pub fn execute(rooms: Option<&Vec<u64>>, name_option: Option<&str>, channel: u64) -> (r: RenamePlan)
    ensures
        match rooms {
            None => r matches RenamePlan::Reply(e) && is_error(e, no_rooms_text()),
            Some(rs) => match name_option {
                None => r is Stop,
                Some(n) => {
                    let name = keep_alphanumeric(n@);
                    if !(1 <= name.len() <= 83) {
                        r matches RenamePlan::Reply(e) && is_error(
                            e,
                            "**Error**: Room name has to be between 1 and 83 characters long!"@,
                        )
                    } else if rs@.contains(channel) {
                        r matches RenamePlan::Rename { name: s } && s@ == name
                    } else {
                        r matches RenamePlan::Reply(e) && is_error(
                            e,
                            "**Error**: You aren't in a room that you own!"@,
                        )
                    }
                },
            },
        },
{
    let rooms = match rooms {
        Some(n) => n,
        None => {
            return RenamePlan::Reply(no_rooms_embed());
        },
    };
    let name = match name_option {
        Some(n) => filter_alphanumeric(n),
        None => {
            return RenamePlan::Stop;
        },
    };
    if !fits_room_name(name.as_str()) {
        return RenamePlan::Reply(
            error_str("**Error**: Room name has to be between 1 and 83 characters long!"),
        );
    }
    if contains_u64(rooms, channel) {
        RenamePlan::Rename { name }
    } else {
        RenamePlan::Reply(error_str("**Error**: You aren't in a room that you own!"))
    }
}

/// The reply once the channel was renamed, or the error that stopped it.
pub fn after_edit(edited: Result<(), String>) -> (e: Embed)
    ensures
        match edited {
            Ok(_) => is_success(e, "Changed room name :3"@),
            Err(err) => is_error(e, "**Error**: Failed to edit channel name: "@ + err@),
        },
{
    match edited {
        Ok(_) => success_str("Changed room name :3"),
        Err(err) => error_with("**Error**: Failed to edit channel name: ", err.as_str()),
    }
}

} // verus!
