//! Verified core of the home server bot: room bookkeeping, command decisions,
//! Minecraft account linking and text-to-speech audio processing.

pub mod commands;
pub mod config;
pub mod embed;
pub mod handler;
pub mod logger;
pub mod minecraft;
pub mod model;
pub mod rooms;
pub mod shared_cache;
pub mod text;
pub mod tts;
pub mod typemap;
