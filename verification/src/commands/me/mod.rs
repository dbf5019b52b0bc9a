//! The `me` command group (profile management).

pub mod set;
