//! A verified core for a Node.js binding of a Spotify Connect client.
//!
//! The binding lets JavaScript create a player, connect it to a Spotify
//! session, play, pause and stop tracks, receive player events, and announce
//! the process as a Spotify Connect device on the local network.
//!
//! This crate holds the decisions of that binding: when a player is ready,
//! which commands it hands to the playback engine, which events are reported
//! under which names, who receives them, how the announced device is
//! identified, and how the discovery search starts and stops.  The JavaScript
//! glue, the async runtime and the network live around it.

use vstd::prelude::*;

pub mod callback;
pub mod device;
pub mod discovery;
pub mod error;
pub mod events;
pub mod playback;
pub mod player;

pub use error::NotReadyError;

verus! {

} // verus!
