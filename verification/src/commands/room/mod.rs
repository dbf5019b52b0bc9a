//! The `room` command and its subcommands.

pub mod add;
pub mod create;
pub mod forceadd;
pub mod list;
pub mod remove;
pub mod rename;

use crate::commands::{leaf_option, CommandSpec, OptionKind, OptionSpec};
use crate::embed::Embed;
use crate::text::same_text;
use vstd::prelude::*;

verus! {

/// A subcommand with the given options.
fn subcommand(name: &str, description: &str, options: Vec<OptionSpec>) -> (o: OptionSpec)
    ensures
        o.name@ == name@,
        o.description@ == description@,
        o.kind == OptionKind::SubCommand,
        !o.required,
        o.options == options,
{
    OptionSpec {
        name: String::from_str(name),
        description: String::from_str(description),
        kind: OptionKind::SubCommand,
        required: false,
        options,
    }
}

/// `c` is the `room` command: `add` and `remove` with a required user,
/// `create` with a required user and room name.
pub open spec fn is_room_command(c: CommandSpec) -> bool {
    &&& c.name@ == "room"@
    &&& c.description@ == "Subcommands for room management"@
    &&& c.options@.len() == 3
    &&& c.options@[0].name@ == "add"@
    &&& c.options@[0].description@ == "Adds a user to your room"@
    &&& c.options@[0].options@.len() == 1
    &&& c.options@[0].options@[0].name@ == "user"@
    &&& c.options@[0].options@[0].description@ == "The user to be added"@
    &&& c.options@[0].options@[0].kind == OptionKind::User
    &&& c.options@[0].options@[0].required
    &&& c.options@[1].name@ == "remove"@
    &&& c.options@[1].description@ == "Removes a user from your room"@
    &&& c.options@[1].options@.len() == 1
    &&& c.options@[1].options@[0].name@ == "user"@
    &&& c.options@[1].options@[0].description@ == "The user to be removed"@
    &&& c.options@[1].options@[0].kind == OptionKind::User
    &&& c.options@[1].options@[0].required
    &&& c.options@[2].name@ == "create"@
    &&& c.options@[2].description@ == "Creates a room for a user"@
    &&& c.options@[2].options@.len() == 2
    &&& c.options@[2].options@[0].name@ == "user"@
    &&& c.options@[2].options@[0].description@ == "The new owner of this room"@
    &&& c.options@[2].options@[0].kind == OptionKind::User
    &&& c.options@[2].options@[0].required
    &&& c.options@[2].options@[1].name@ == "room_name"@
    &&& c.options@[2].options@[1].description@ == "The name of the room and the permission role"@
    &&& c.options@[2].options@[1].kind == OptionKind::Text
    &&& c.options@[2].options@[1].required
    &&& forall|i: int| 0 <= i < 3 ==> (#[trigger] c.options@[i]).kind == OptionKind::SubCommand
}

/// In the `room` command every option named `user` (of `add`, `remove`
/// and `create`) asks for a member, only `room_name` is free text, and
/// every option of a subcommand is required.
pub proof fn lemma_room_option_kinds(c: CommandSpec)
    requires
        is_room_command(c),
    ensures
        forall|i: int, j: int|
            0 <= i < c.options@.len() && 0 <= j < c.options@[i].options@.len() ==> {
                let o = #[trigger] c.options@[i].options@[j];
                &&& (o.name@ == "user"@ ==> o.kind == OptionKind::User)
                &&& (o.kind == OptionKind::Text ==> o.name@ == "room_name"@)
                &&& (o.kind == OptionKind::User || o.kind == OptionKind::Text)
                &&& o.required
            },
        forall|i: int|
            #![trigger c.options@[i]]
            0 <= i < c.options@.len() ==> exists|j: int|
                0 <= j < c.options@[i].options@.len() && (#[trigger] c.options@[i].options@[j]).kind
                    == OptionKind::User,
{
    reveal_strlit("user");
    reveal_strlit("room_name");
    assert("room_name"@.len() != "user"@.len());
    assert forall|i: int, j: int|
        0 <= i < c.options@.len() && 0 <= j < c.options@[i].options@.len() implies {
            let o = #[trigger] c.options@[i].options@[j];
            &&& (o.name@ == "user"@ ==> o.kind == OptionKind::User)
            &&& (o.kind == OptionKind::Text ==> o.name@ == "room_name"@)
            &&& (o.kind == OptionKind::User || o.kind == OptionKind::Text)
            &&& o.required
        } by {
        if i == 0 || i == 1 {
            assert(j == 0);
        } else {
            assert(i == 2);
            assert(j == 0 || j == 1);
        }
    }
    assert forall|i: int|
        #![trigger c.options@[i]]
        0 <= i < c.options@.len() implies exists|j: int|
            0 <= j < c.options@[i].options@.len() && (#[trigger] c.options@[i].options@[j]).kind
                == OptionKind::User by {
        assert(c.options@[i].options@[0].kind == OptionKind::User);
    }
}

/// The `room` command: `add` and `remove` with a required user, `create`
/// with a required user and room name.
pub fn register() -> (c: CommandSpec)
    ensures
        is_room_command(c),
{
    let mut add_opts: Vec<OptionSpec> = Vec::new();
    add_opts.push(leaf_option("user", "The user to be added", OptionKind::User, true));
    let mut remove_opts: Vec<OptionSpec> = Vec::new();
    remove_opts.push(leaf_option("user", "The user to be removed", OptionKind::User, true));
    let mut create_opts: Vec<OptionSpec> = Vec::new();
    create_opts.push(leaf_option("user", "The new owner of this room", OptionKind::User, true));
    create_opts.push(
        leaf_option(
            "room_name",
            "The name of the room and the permission role",
            OptionKind::Text,
            true,
        ),
    );
    let mut options: Vec<OptionSpec> = Vec::new();
    options.push(subcommand("add", "Adds a user to your room", add_opts));
    options.push(subcommand("remove", "Removes a user from your room", remove_opts));
    options.push(subcommand("create", "Creates a room for a user", create_opts));
    CommandSpec {
        name: String::from_str("room"),
        description: String::from_str("Subcommands for room management"),
        options,
    }
}

/// What a `room` interaction asks for.
pub enum RoomCommand {
    Add,
    Create,
    Remove,
    Ignore,
}

/// Dispatches on the name of the first option (the subcommand).
pub fn execute(subcommand: Option<&str>) -> (c: RoomCommand)
    ensures
        c == match subcommand {
            Some(n) => if n@ == "add"@ {
                RoomCommand::Add
            } else if n@ == "create"@ {
                RoomCommand::Create
            } else if n@ == "remove"@ {
                RoomCommand::Remove
            } else {
                RoomCommand::Ignore
            },
            None => RoomCommand::Ignore,
        },
{
    match subcommand {
        Some(n) => {
            if same_text(n, "add") {
                RoomCommand::Add
            } else if same_text(n, "create") {
                RoomCommand::Create
            } else if same_text(n, "remove") {
                RoomCommand::Remove
            } else {
                RoomCommand::Ignore
            }
        },
        None => RoomCommand::Ignore,
    }
}

/// The permission to see a channel (`READ_MESSAGES`).
pub const READ_MESSAGES: u64 = 1024;

/// Whom a permission overwrite is for.
pub enum OverwriteTarget {
    Role(u64),
    Member(u64),
}

/// A permission overwrite of a channel.
pub struct Overwrite {
    pub allow: u64,
    pub deny: u64,
    pub target: OverwriteTarget,
}

/// The overwrite that lets `member` see a channel.
pub fn member_access(member: u64) -> (o: Overwrite)
    ensures
        o.allow == READ_MESSAGES,
        o.deny == 0,
        o.target == OverwriteTarget::Member(member),
{
    Overwrite { allow: READ_MESSAGES, deny: 0, target: OverwriteTarget::Member(member) }
}

/// What looking up a channel gave.
pub enum ChannelLookup {
    /// A guild channel; the members that have an overwrite on it.
    Guild { member_overwrites: Vec<u64> },
    /// A channel that is not a guild channel.
    NotGuild,
    /// The lookup failed with this error.
    Failed(String),
}

/// The step after the target of `room add` or `room remove` is known.
pub enum TargetStep {
    /// Reply and stop (the target is the bot or the invoker).
    Reply(Embed),
    /// Look up this room and go on with it.
    LookUp { room: u64 },
}

/// The next step of adding a member to a channel.
pub enum GrantStep {
    /// Give the member access to the channel.
    Grant,
    /// Reply and stop.
    Reply(Embed),
}

} // verus!
