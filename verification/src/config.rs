//! The bot's configuration (`config.toml`).

use vstd::prelude::*;

verus! {

/// The configuration.
#[derive(Clone)]
pub struct Config {
    pub discord: Discord,
    pub guild_id: u64,
    pub main_server: u64,
    pub moderation_server: u64,
    pub mongodb: MongoDB,
    pub public_channels: Vec<u64>,
    pub status: String,
    pub sudoers: Vec<u64>,
}

/// The Discord section.
#[derive(Clone)]
pub struct Discord {
    pub token: String,
}

/// The MongoDB section.
#[derive(Clone)]
pub struct MongoDB {
    pub connection_string: String,
}

impl Config {
    /// The configuration written when there is no `config.toml` yet: empty
    /// credentials, the home guild as guild and main server, the moderation
    /// server, no public channels, no sudoers and the default status.
    pub fn initial() -> (c: Config)
        ensures
            c.discord.token@ == Seq::<char>::empty(),
            c.guild_id == 806947535825403904,
            c.main_server == 806947535825403904,
            c.moderation_server == 818026699349688331,
            c.mongodb.connection_string@ == Seq::<char>::empty(),
            c.public_channels@.len() == 0,
            c.status@ == "bunni is pog~"@,
            c.sudoers@.len() == 0,
    {
        Config {
            discord: Discord { token: String::new() },
            guild_id: 806947535825403904,
            main_server: 806947535825403904,
            moderation_server: 818026699349688331,
            mongodb: MongoDB { connection_string: String::new() },
            public_channels: Vec::new(),
            status: String::from_str("bunni is pog~"),
            sudoers: Vec::new(),
        }
    }
}

} // verus!
