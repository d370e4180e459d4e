//! The boundary towards the input device: the key-binding table the input
//! thread applies, the signals it produces, and the playback side of the
//! channel they arrive on.
use vstd::prelude::*;
use crate::ChannelError;

verus! {

#[verifier::external_type_specification]
#[verifier::external_body]
#[verifier::reject_recursive_types(T)]
/// The consuming end of a crossbeam channel, as an opaque value.
pub struct ExReceiver<T>(crossbeam_channel::Receiver<T>);

/// The playback side of the input thread's signal channel.
///
/// The input thread reads key presses and pushes [`Signals`] through this
/// channel. The thread handle itself, and the exit channel that tells the
/// thread to stop listening, stay with the driver that spawned it: the
/// engine only ever consumes signals.
///
/// [`Signals`]: Signal
pub struct Controls {
    signal_receiver: crossbeam_channel::Receiver<Signal>,
}

impl Controls {
    /// Bundle the playback-side endpoint of the signal channel.
    pub fn from_endpoint(signal_receiver: crossbeam_channel::Receiver<Signal>) -> Self {
        Controls { signal_receiver }
    }

    /// Try to receive a signal without waiting for one.
    ///
    /// Relies on crossbeam_channel's `Receiver::try_recv`: it returns a
    /// pending message, or `Empty` when none is queued, or `Disconnected`
    /// when the channel is empty and the sender is gone. It never reports a
    /// timeout, and which of the three happens depends on the input thread.
    #[verifier::external_body]
    pub fn signal_receive(&self) -> (r: Result<Signal, ChannelError>)
        ensures
            r matches Err(e) ==> (e is Empty || e is Disconnect),
    {
        self.signal_receiver.try_recv().map_err(|error| match error {
            crossbeam_channel::TryRecvError::Empty => ChannelError::Empty,
            crossbeam_channel::TryRecvError::Disconnected => ChannelError::Disconnect,
        })
    }
}

#[derive(Clone, Copy, Debug, PartialEq, Eq, Structural)]
/// High level control signal representation.
///
/// A signal is a discrete user-intent event. Signals are produced by the
/// input thread from key presses and consumed by the playback loop; they are
/// immutable values with no behaviour beyond classification.
pub enum Signal {
    PlaylistNext,
    PlaylistBack,
    Exit,
    PlaylistReset,

    TrackNext,
    TrackBack,
    Play,
    TrackReset,

    VolumeIncrease,
    VolumeDecrease,
    Mute,
    VolumeReset,
}

/// Translate one key press into a control signal, by the fixed key-binding
/// table: `l`/`j` skip a track forward and back, `k` toggles playback, `h`
/// resets the track pointer; the shifted letters drive the volume the same
/// way, and with control held the four keys act on the playlist level, with
/// control-`k` as the exit key.
pub fn signal_of_key(symbol: char, control: bool) -> (r: Option<Signal>)
    ensures
        control ==> r == (match symbol {
            'l' | 'L' => Some(Signal::PlaylistNext),
            'j' | 'J' => Some(Signal::PlaylistBack),
            'k' | 'K' => Some(Signal::Exit),
            'h' | 'H' => Some(Signal::PlaylistReset),
            _ => Option::<Signal>::None,
        }),
        !control ==> r == (match symbol {
            'l' => Some(Signal::TrackNext),
            'j' => Some(Signal::TrackBack),
            'k' => Some(Signal::Play),
            'h' => Some(Signal::TrackReset),
            'L' => Some(Signal::VolumeIncrease),
            'J' => Some(Signal::VolumeDecrease),
            'K' => Some(Signal::Mute),
            'H' => Some(Signal::VolumeReset),
            _ => Option::<Signal>::None,
        }),
{
    if control {
        match symbol {
            'l' | 'L' => Some(Signal::PlaylistNext),
            'j' | 'J' => Some(Signal::PlaylistBack),
            'k' | 'K' => Some(Signal::Exit),
            'h' | 'H' => Some(Signal::PlaylistReset),
            _ => None,
        }
    } else {
        match symbol {
            'l' => Some(Signal::TrackNext),
            'j' => Some(Signal::TrackBack),
            'k' => Some(Signal::Play),
            'h' => Some(Signal::TrackReset),
            'L' => Some(Signal::VolumeIncrease),
            'J' => Some(Signal::VolumeDecrease),
            'K' => Some(Signal::Mute),
            'H' => Some(Signal::VolumeReset),
            _ => None,
        }
    }
}

impl Signal {
    /// Mask function that checks whether `self` is a track-level `Next` or `Back`.
    pub fn is_track_skip(&self) -> (r: bool)
        ensures
            r == (self is TrackNext || self is TrackBack),
    {
        matches!(self, Self::TrackNext | Self::TrackBack)
    }

    /// Mask function that checks whether `self` is a playlist-level `Next` or `Back`.
    pub fn is_playlist_skip(&self) -> (r: bool)
        ensures
            r == (self is PlaylistNext || self is PlaylistBack),
    {
        matches!(self, Self::PlaylistNext | Self::PlaylistBack)
    }

    /// Mask function that checks if `self` is a playlist- or track-level `Next`.
    pub fn is_next_skip(&self) -> (r: bool)
        ensures
            r == (self is TrackNext || self is PlaylistNext),
    {
        matches!(self, Self::TrackNext | Self::PlaylistNext)
    }

    /// Mask function that checks if `self` is a playlist- or track-level `Back`.
    pub fn is_back_skip(&self) -> (r: bool)
        ensures
            r == (self is TrackBack || self is PlaylistBack),
    {
        matches!(self, Self::TrackBack | Self::PlaylistBack)
    }

    /// Mask function that checks whether `self` is any skip.
    pub fn is_skip(&self) -> (r: bool)
        ensures
            r == (self is TrackNext || self is TrackBack || self is PlaylistNext
                || self is PlaylistBack),
    {
        matches!(self, Self::TrackNext | Self::TrackBack | Self::PlaylistNext | Self::PlaylistBack)
    }

    /// Mask function that checks whether `self` resets a pointer or the volume.
    pub fn is_reset(&self) -> (r: bool)
        ensures
            r == (self is PlaylistReset || self is TrackReset || self is VolumeReset),
    {
        matches!(self, Self::PlaylistReset | Self::TrackReset | Self::VolumeReset)
    }

    /// Mask function that checks whether `self` is scoped to the playlist pointer.
    pub fn is_playlist(&self) -> (r: bool)
        ensures
            r == (self is PlaylistNext || self is PlaylistBack || self is PlaylistReset),
    {
        matches!(self, Self::PlaylistNext | Self::PlaylistBack | Self::PlaylistReset)
    }

    /// Mask function that checks whether `self` is scoped to the track pointer.
    pub fn is_track(&self) -> (r: bool)
        ensures
            r == (self is TrackNext || self is TrackBack || self is TrackReset),
    {
        matches!(self, Self::TrackNext | Self::TrackBack | Self::TrackReset)
    }

    /// Mask function that checks whether `self` is scoped to the volume.
    pub fn is_volume(&self) -> (r: bool)
        ensures
            r == (self is VolumeIncrease || self is VolumeDecrease || self is Mute
                || self is VolumeReset),
    {
        matches!(self, Self::VolumeIncrease | Self::VolumeDecrease | Self::Mute | Self::VolumeReset)
    }
}

} // verus!
