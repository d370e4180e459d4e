//! A terminal-driven audio playlist player, organised around two structures:
//! a [`Track`] and a [`Playlist`] (a grouping of tracks with additional data).
//!
//! The crate holds the playback navigation engine: a two-level pointer state
//! machine (current playlist, current track) with repeat and shuffle
//! semantics, bounded index arithmetic, and the signal-driven decision logic
//! that a thin driver runs against an audio sink and an input thread.
//!
//! [`Track`]: playback::Track
//! [`Playlist`]: playback::Playlist
use vstd::prelude::*;

/// A module for handling and interacting with external devices.
pub mod in_out;

/// Plain representations of the structures of [`playback`], as a playlist
/// descriptor file declares them.
pub mod serde;

/// The module responsible for the playback navigation state.
pub mod playback;

/// Command-line flag handling.
pub mod flags;

verus! {

#[derive(Clone, Copy, Debug, PartialEq, Eq, Structural)]
/// Errors encountered when interacting with [`Vec`]-esque structures.
pub enum VectorError {
    /// Overflowing an index, because under-flowing an unsigned integer based
    /// index is impossible.
    OutOfBounds,
    /// As the name says.
    Empty,
}

#[derive(Clone, Copy, Debug, PartialEq, Eq, Structural)]
/// Errors raised by the signal channel between the input thread and the
/// playback loop.
pub enum ChannelError {
    Timeout,
    Empty,
    Disconnect,
}

impl Default for ChannelError {
    /// The default channel failure is a hung-up connection.
    fn default() -> (r: Self)
        ensures
            r is Disconnect,
    {
        Self::Disconnect
    }
}

#[derive(Clone, Copy, Debug, PartialEq, Eq, Structural)]
/// Every failure the player can report.
///
/// Failures that originate outside the navigation engine (the decoder, the
/// audio device, the deserialiser, the environment) are carried as bare tags:
/// the driver that owns the outside handle maps its errors onto these before
/// they reach the engine, and keeps whatever detail it wants to print.
pub enum Error {
    Io,
    Decode,
    Play,
    Stream,
    Deserialise,
    Variable,
    Vector(VectorError),
    Channel(ChannelError),
}

} // verus!
