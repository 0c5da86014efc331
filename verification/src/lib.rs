//! Verified core of the PresenceHub presence pipeline.

pub mod activity;
pub mod clock;
pub mod config;
pub mod console;
pub mod custom_app;
pub mod discord;
pub mod discord_app;
pub mod desktop;
pub mod flag;
pub mod foreground;
pub mod json;
pub mod context;
pub mod lifecycle;
pub mod engine_laws;
pub mod output;
pub mod plugin;
pub mod presence;
pub mod process;
pub mod protocol;
pub mod registry;
pub mod render;
pub mod runtime;
pub mod strmap;
pub mod text;

use vstd::prelude::*;

verus! {
} // verus!
