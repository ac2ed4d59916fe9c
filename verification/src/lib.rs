//! The capabilities that the Cygnixy plugin gives to scripts, as far as they
//! are decisions: which capabilities there are and under which names, what
//! becomes of a registration in which the interpreter refuses a callable,
//! when a `discord_send` is refused and how it proceeds, and what the logging
//! entries write. Whoever hosts the plugin performs what is decided here.

pub mod capability;
pub mod logging;
pub mod messaging;
pub mod plugin;
pub mod registry;
pub mod text;

pub use plugin::PluginLuaCygnixy;
