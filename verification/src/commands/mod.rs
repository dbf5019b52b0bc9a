//! Slash commands: their definitions, the dispatch on their names, and
//! what is shared by the room commands.

pub mod me;
pub mod minecraft;
pub mod room;

use crate::embed::{error_str, is_error, Embed, EmbedField, HELP_COLOUR};
use crate::text::{parse_u64, parsed_u64, same_text};
use vstd::prelude::*;

verus! {

/// The kind of a command option.
pub enum OptionKind {
    SubCommand,
    Text,
    User,
}

/// One option of a command, with its own sub-options.
pub struct OptionSpec {
    pub name: String,
    pub description: String,
    pub kind: OptionKind,
    pub required: bool,
    pub options: Vec<OptionSpec>,
}

/// A command registered with the guild.
pub struct CommandSpec {
    pub name: String,
    pub description: String,
    pub options: Vec<OptionSpec>,
}

/// A leaf option (no sub-options).
pub fn leaf_option(name: &str, description: &str, kind: OptionKind, required: bool) -> (o: OptionSpec)
    ensures
        o.name@ == name@,
        o.description@ == description@,
        o.kind == kind,
        o.required == required,
        o.options@.len() == 0,
{
    OptionSpec {
        name: String::from_str(name),
        description: String::from_str(description),
        kind,
        required,
        options: Vec::new(),
    }
}

/// The `help` command.
pub fn help_command() -> (c: CommandSpec)
    ensures
        c.name@ == "help"@,
        c.description@ == "Lists commands for using this bot"@,
        c.options@.len() == 0,
{
    CommandSpec {
        name: String::from_str("help"),
        description: String::from_str("Lists commands for using this bot"),
        options: Vec::new(),
    }
}

/// The commands registered at start-up, in order: `help`, then `room`
/// with the subcommands and options that `room::register` gives.
pub fn register_commands() -> (cs: Vec<CommandSpec>)
    ensures
        cs@.len() == 2,
        cs@[0].name@ == "help"@,
        cs@[0].description@ == "Lists commands for using this bot"@,
        cs@[0].options@.len() == 0,
        room::is_room_command(cs@[1]),
{
    let mut cs: Vec<CommandSpec> = Vec::new();
    cs.push(help_command());
    cs.push(room::register());
    cs
}

/// What an interaction asks for.
pub enum Command {
    Help,
    Room,
    Ignore,
}

/// Dispatches an interaction on its command name; interactions without
/// command data and unknown names are ignored.
pub fn execute(name: Option<&str>) -> (c: Command)
    ensures
        c == match name {
            Some(n) => if n@ == "help"@ {
                Command::Help
            } else if n@ == "room"@ {
                Command::Room
            } else {
                Command::Ignore
            },
            None => Command::Ignore,
        },
{
    match name {
        Some(n) => {
            if same_text(n, "help") {
                Command::Help
            } else if same_text(n, "room") {
                Command::Room
            } else {
                Command::Ignore
            }
        },
        None => Command::Ignore,
    }
}

/// The text of the `Room` field of the command list.
pub open spec fn room_usage() -> Seq<char> {
    "Usage: ``/room <subcommand>``\n\n``add``\n``create``\n``remove``"@
}

/// The reply to `help`: the list of commands and subcommands.
pub fn help_embed() -> (e: Embed)
    ensures
        e.title matches Some(t) && t@ == "List of commands & subcommands"@,
        e.colour == HELP_COLOUR,
        e.description is None,
        e.fields@.len() == 1,
        e.fields@[0].name@ == "Room"@,
        e.fields@[0].value@ == room_usage(),
        e.fields@[0].inline,
{
    let mut fields: Vec<EmbedField> = Vec::new();
    fields.push(
        EmbedField {
            name: String::from_str("Room"),
            value: String::from_str("Usage: ``/room <subcommand>``\n\n``add``\n``create``\n``remove``"),
            inline: true,
        },
    );
    Embed {
        title: Some(String::from_str("List of commands & subcommands")),
        colour: HELP_COLOUR,
        description: None,
        fields,
    }
}

/// Whether `user` is one of the configured sudoers.
pub fn sudo_check(sudoers: &Vec<u64>, user: u64) -> (r: bool)
    ensures
        r == sudoers@.contains(user),
{
    crate::text::contains_u64(sudoers, user)
}

/// The id an option carries as text, when there is an option, it holds a
/// string and the string reads as a number.
pub fn id_option(value: Option<&str>) -> (r: Option<u64>)
    ensures
        r == match value {
            Some(s) => parsed_u64(s@),
            None => None,
        },
{
    match value {
        Some(s) => parse_u64(s),
        None => None,
    }
}

/// Whether a member may add or remove `target`: not the bot, not themselves.
pub fn may_target(target: u64, bot: u64, invoker: u64) -> (r: bool)
    ensures
        r == (target != bot && target != invoker),
{
    target != bot && target != invoker
}

/// The text of the reply to a member without rooms.
pub open spec fn no_rooms_text() -> Seq<char> {
    "**Error**: You don't have any rooms! Try leaving the server and rejoining or consulting this with a mod"@
}

/// The reply to a member without rooms.
pub fn no_rooms_embed() -> (e: Embed)
    ensures
        is_error(e, no_rooms_text()),
{
    error_str(
        "**Error**: You don't have any rooms! Try leaving the server and rejoining or consulting this with a mod",
    )
}

/// The text of the reply to a refused target.
pub open spec fn stop_text() -> Seq<char> {
    "**Error**: Stop ;-;"@
}

/// The reply to a member who targets the bot or themselves.
pub fn stop_embed() -> (e: Embed)
    ensures
        is_error(e, stop_text()),
{
    error_str("**Error**: Stop ;-;")
}

} // verus!
