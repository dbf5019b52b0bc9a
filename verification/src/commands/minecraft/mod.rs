//! The `minecraft` command.

pub mod link;

use crate::commands::{leaf_option, CommandSpec, OptionKind, OptionSpec};
use crate::text::same_text;
use vstd::prelude::*;

verus! {

/// The `minecraft` command: `link` with a required Minecraft username.
pub fn register() -> (c: CommandSpec)
    ensures
        c.name@ == "minecraft"@,
        c.description@ == "Subcommands for Minecraft linking"@,
        c.options@.len() == 1,
        c.options@[0].name@ == "link"@,
        c.options@[0].description@
            == "Generates a new server address you join to link your account"@,
        c.options@[0].kind == OptionKind::SubCommand,
        !c.options@[0].required,
        c.options@[0].options@.len() == 1,
        c.options@[0].options@[0].name@ == "username"@,
        c.options@[0].options@[0].description@ == "Current Minecraft username"@,
        c.options@[0].options@[0].kind == OptionKind::Text,
        c.options@[0].options@[0].required,
{
    let mut sub: Vec<OptionSpec> = Vec::new();
    sub.push(leaf_option("username", "Current Minecraft username", OptionKind::Text, true));
    let mut options: Vec<OptionSpec> = Vec::new();
    options.push(
        OptionSpec {
            name: String::from_str("link"),
            description: String::from_str(
                "Generates a new server address you join to link your account",
            ),
            kind: OptionKind::SubCommand,
            required: false,
            options: sub,
        },
    );
    CommandSpec {
        name: String::from_str("minecraft"),
        description: String::from_str("Subcommands for Minecraft linking"),
        options,
    }
}

/// What a `minecraft` interaction asks for.
pub enum MinecraftCommand {
    Link,
    Ignore,
}

/// Dispatches on the name of the first option (the subcommand).
pub fn execute(subcommand: Option<&str>) -> (c: MinecraftCommand)
    ensures
        c == match subcommand {
            Some(n) => if n@ == "link"@ {
                MinecraftCommand::Link
            } else {
                MinecraftCommand::Ignore
            },
            None => MinecraftCommand::Ignore,
        },
{
    match subcommand {
        Some(n) => {
            if same_text(n, "link") {
                MinecraftCommand::Link
            } else {
                MinecraftCommand::Ignore
            }
        },
        None => MinecraftCommand::Ignore,
    }
}

} // verus!
