//! A client-side model of a remote media player: typed descriptors for its
//! fields and events, and a position estimator that follows playback without
//! polling the player.

pub mod enums;
pub mod error;
pub mod player;
pub mod properties;
pub mod signals;
pub mod streams;
pub mod estimator;
pub mod mpris;
pub mod wire;

pub use enums::{Interface, Loop, Playback};
pub use error::Error;
