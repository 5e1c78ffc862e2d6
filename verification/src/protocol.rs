//! The one contract of the protocol: identifiers, events, commands, the
//! envelope that carries them, the routing header of the relay, the shapes of
//! the REST surface, diffs and the confinement of paths to a workspace.

pub mod api;
pub mod commands;
pub mod diff;
pub mod envelope;
pub mod events;
pub mod fixtures;
pub mod ids;
pub mod paths;
pub mod relay;
pub mod time;
