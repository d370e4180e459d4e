//! Playback navigation state.
//!
//! The structures here form a two-level pointer machine: a [`Playhandle`]
//! owns a sequence of [`Playlists`], each of which owns a sequence of
//! [`Tracks`] together with an index permutation that realises shuffling
//! without moving the tracks themselves. All pointer arithmetic, repeat
//! bookkeeping and signal handling is decided here; a thin driver runs the
//! decisions against the audio sink and reports sink and channel events
//! back.
//!
//! [`Playlists`]: Playlist
//! [`Tracks`]: Track
use vstd::prelude::*;
use crate::in_out::{Controls, Signal};
use crate::serde::{time_or_zero, SerDePlaylist};
use crate::{ChannelError, Error, VectorError};

verus! {

/// Amount, in thousandths, by which one key press moves the volume (0.025).
pub const STEP: i32 = 25;

/// Upper bound of the audible volume range, in thousandths (2.0).
pub const VOLUME_MAX: i32 = 2000;

/// The starting volume, in thousandths (1.0).
pub const VOLUME_DEFAULT: i32 = 1000;

/// How long after the start of a unit a back-skip still targets the
/// previous unit; afterwards it restarts the current one.
pub const BACK_THRESHOLD_MS: u64 = 1000;

#[derive(Clone, Copy, Debug, PartialEq, Eq, Structural)]
/// Signals returned by the crucial playback functions.
///
/// These signals indicate exit states. A skip has a level that denominates
/// how many function layers it passes through: a level-2 skip goes through
/// the playlist layer and the top layer, a level-1 skip only through one.
pub enum ControlFlow {
    /// Don't continue, if even possible.
    Break,
    /// A level 1 skip.
    Skip,
    /// A level 2 skip.
    SkipSkip,
    /// The function finished without any special exceptions.
    Default,
}

impl Default for ControlFlow {
    /// Finishing without exceptions is the default outcome.
    fn default() -> (r: Self)
        ensures
            r is Default,
    {
        Self::Default
    }
}

/// The pointer a next-skip proposes: one past the current unit.
pub open spec fn next_skip_target(index: int) -> int {
    index + 1
}

/// The pointer a back-skip proposes.
///
/// Within the first second of the unit it is the previous unit, saturating
/// at the first one; afterwards the skip is reinterpreted as a restart of
/// the current unit, and the pointer does not move.
pub open spec fn back_skip_target(index: int, elapsed_ms: int) -> int {
    if elapsed_ms >= BACK_THRESHOLD_MS {
        index
    } else if index > 0 {
        index - 1
    } else {
        0
    }
}

/// One completed pass of a repeating unit: the counter counts down, the
/// infinite-repeat sentinel region never leaves the negatives.
pub open spec fn repeats_decremented(repeats: int) -> int {
    if repeats == isize::MIN {
        repeats
    } else {
        repeats - 1
    }
}

/// `map` reorders the indices `0..len` without duplicating or dropping any.
pub open spec fn is_permutation(map: Seq<usize>, len: int) -> bool {
    &&& map.len() == len
    &&& forall|i: int| 0 <= i < len ==> map[i] < len
    &&& forall|i: int, j: int| 0 <= i < len && 0 <= j < len && i != j ==> map[i] != map[j]
}

/// Compute a next-skip pointer.
pub fn skip_next(index: usize) -> (r: usize)
    requires
        index < usize::MAX,
    ensures
        r == next_skip_target(index as int),
{
    index + 1
}

/// Compute a back-skip pointer from the time the current unit has played.
pub fn skip_back(index: usize, elapsed_ms: u64) -> (r: usize)
    ensures
        r == back_skip_target(index as int, elapsed_ms as int),
{
    if elapsed_ms >= BACK_THRESHOLD_MS {
        index
    } else if index > 0 {
        index - 1
    } else {
        0
    }
}

/// A playable unit: a file path and a repeat counter.
pub struct Track {
    pub file_path: String,
    pub repeats: isize,
}

impl Track {
    /// Bundle a path with its repeat counter.
    pub fn new(file_path: String, repeats: isize) -> (r: Self)
        ensures
            r.file_path == file_path,
            r.repeats == repeats,
    {
        Track { file_path, repeats }
    }

    /// Whether or not a [`Track`] can repeat.
    pub fn repeats_can(&self) -> (r: bool)
        ensures
            r == (self.repeats != 0),
    {
        self.repeats != 0
    }

    /// Decrement the repeat count by one completed pass.
    pub fn repeats_update(&mut self)
        ensures
            final(self).repeats == repeats_decremented(old(self).repeats as int),
            final(self).file_path == old(self).file_path,
    {
        if self.repeats != isize::MIN {
            self.repeats = self.repeats - 1;
        }
    }
}

/// A collection of [`Tracks`].
///
/// The structure maintains two vectors: the tracks themselves, which never
/// move after construction, and a pointer-map that maps playback positions
/// onto them. Shuffling permutes only the map.
///
/// [`Tracks`]: Track
pub struct Playlist {
    /// Map of indexes that maps playback positions onto [`tracks`].
    ///
    /// [`tracks`]: Self::tracks
    pub track_map: Vec<usize>,
    pub shuffle: bool,
    /// Maximum pointer offset; equates to the track count.
    pub length: usize,
    pub tracks: Vec<Track>,
    pub repeats: isize,
}

impl Playlist {
    /// The structural soundness of a playlist: the map is a permutation of
    /// the track positions, and the recorded length is the track count.
    pub open spec fn wf(&self) -> bool {
        &&& self.length == self.tracks@.len()
        &&& self.length > 0
        &&& is_permutation(self.track_map@, self.length as int)
    }

    /// Get the amount of held [`Tracks`].
    ///
    /// [`Tracks`]: Track
    pub fn tracks_count(&self) -> (r: usize)
        ensures
            r == self.tracks@.len(),
    {
        self.tracks.len()
    }

    /// A specialisation of [`tracks_count`] that compares the amount of held
    /// [`Tracks`] to zero.
    ///
    /// [`tracks_count`]: Self::tracks_count
    /// [`Tracks`]: Track
    pub fn tracks_is_empty(&self) -> (r: bool)
        ensures
            r == (self.tracks@.len() == 0),
    {
        self.tracks_count() == 0
    }

    /// Check if it's allowed to shuffle.
    pub fn shuffle_can(&self) -> (r: bool)
        ensures
            r == self.shuffle,
    {
        self.shuffle
    }

    /// See if the [`Playlist`] can repeat.
    pub fn repeats_can(&self) -> (r: bool)
        ensures
            r == (self.repeats != 0),
    {
        self.repeats != 0
    }

    /// Decrement the number of repeats by one completed pass.
    pub fn repeats_update(&mut self)
        ensures
            final(self).repeats == repeats_decremented(old(self).repeats as int),
            final(self).track_map == old(self).track_map,
            final(self).shuffle == old(self).shuffle,
            final(self).length == old(self).length,
            final(self).tracks == old(self).tracks,
    {
        if self.repeats != isize::MIN {
            self.repeats = self.repeats - 1;
        }
    }

    /// Get the correctly mapped index, or [`None`] when the position is out
    /// of bounds.
    pub fn index_get(&self, index: usize) -> (r: Option<usize>)
        ensures
            index < self.track_map@.len() ==> r == Some(self.track_map@[index as int]),
            index >= self.track_map@.len() ==> r is None,
    {
        if index < self.track_map.len() {
            Some(self.track_map[index])
        } else {
            None
        }
    }

    /// Get the [`Track`] at the nth playback position, or [`None`] when the
    /// position is out of bounds.
    pub fn nth(&self, index: usize) -> (r: Option<&Track>)
        requires
            self.wf(),
        ensures
            index < self.track_map@.len() ==> (r matches Some(track) && *track == self.tracks@[
                self.track_map@[index as int] as int
            ]),
            index >= self.track_map@.len() ==> r is None,
    {
        match self.index_get(index) {
            Some(mapped) => Some(&self.tracks[mapped]),
            None => None,
        }
    }

    /// Build a playlist from an already-parsed descriptor.
    ///
    /// The pointer-map starts as the identity, so playback follows the
    /// declared order until a shuffle. A descriptor without songs is
    /// rejected: an empty playlist has no position the pointers could
    /// legally take.
    pub fn from_descriptor(descriptor: SerDePlaylist) -> (r: Result<Self, Error>)
        ensures
            r is Ok <==> descriptor.song@.len() > 0,
            r matches Ok(playlist) ==> {
                &&& playlist.wf()
                &&& playlist.tracks@.len() == descriptor.song@.len()
                &&& forall|i: int|
                    0 <= i < descriptor.song@.len() ==> {
                        &&& (#[trigger] playlist.tracks@[i]).file_path == descriptor.song@[i].file
                        &&& playlist.tracks@[i].repeats == time_or_zero(descriptor.song@[i].time)
                    }
                &&& forall|i: int|
                    0 <= i < descriptor.song@.len() ==> #[trigger] playlist.track_map@[i] == i
                &&& playlist.shuffle == (descriptor.vary != Some(false))
                &&& playlist.repeats == time_or_zero(descriptor.time)
                &&& playlist.length == descriptor.song@.len()
            },
            r matches Err(e) ==> e == Error::Vector(VectorError::Empty),
    {
        let song_count = descriptor.song.len();
        if song_count == 0 {
            return Err(Error::Vector(VectorError::Empty));
        }
        let mut track_map: Vec<usize> = Vec::new();
        let mut tracks: Vec<Track> = Vec::new();
        let mut i: usize = 0;
        while i < song_count
            invariant
                0 <= i <= descriptor.song@.len(),
                song_count == descriptor.song@.len(),
                track_map@.len() == i,
                tracks@.len() == i,
                forall|k: int| 0 <= k < i ==> #[trigger] track_map@[k] == k,
                forall|k: int|
                    0 <= k < i ==> {
                        &&& (#[trigger] tracks@[k]).file_path == descriptor.song@[k].file
                        &&& tracks@[k].repeats == time_or_zero(descriptor.song@[k].time)
                    },
            decreases descriptor.song@.len() - i,
        {
            let entry = &descriptor.song[i];
            let repeats = match entry.time {
                Some(t) => t,
                None => 0,
            };
            track_map.push(i);
            tracks.push(Track { file_path: entry.file.clone(), repeats });
            i += 1;
        }
        let shuffle = match descriptor.vary {
            Some(v) => v,
            None => true,
        };
        let repeats = match descriptor.time {
            Some(t) => t,
            None => 0,
        };
        Ok(Playlist { track_map, shuffle, length: song_count, tracks, repeats })
    }

    /// Shuffle all [`Tracks`] around, by permuting the pointer-map in place
    /// with a pass of random transpositions.
    ///
    /// [`Tracks`]: Track
    pub fn shuffle(&mut self)
        requires
            old(self).wf(),
        ensures
            final(self).wf(),
            is_permutation(final(self).track_map@, final(self).length as int),
            final(self).tracks == old(self).tracks,
            final(self).shuffle == old(self).shuffle,
            final(self).length == old(self).length,
            final(self).repeats == old(self).repeats,
    {
        let len = self.length;
        let mut index: usize = 0;
        while index < len
            invariant
                0 <= index <= len,
                self.length == len,
                self.tracks == old(self).tracks,
                self.shuffle == old(self).shuffle,
                self.repeats == old(self).repeats,
                self.length == self.tracks@.len(),
                len > 0,
                is_permutation(self.track_map@, len as int),
            decreases len - index,
        {
            let with_front = random_in(0, index);
            self.map_swap(index, with_front);
            let with_back = random_in(index, len - 1);
            self.map_swap(index, with_back);
            index += 1;
        }
    }

    /// Exchange two entries of the pointer-map.
    fn map_swap(&mut self, a: usize, b: usize)
        requires
            a < old(self).track_map@.len(),
            b < old(self).track_map@.len(),
            is_permutation(old(self).track_map@, old(self).track_map@.len() as int),
        ensures
            final(self).track_map@ == old(self).track_map@.update(
                a as int,
                old(self).track_map@[b as int],
            ).update(b as int, old(self).track_map@[a as int]),
            is_permutation(final(self).track_map@, final(self).track_map@.len() as int),
            final(self).tracks == old(self).tracks,
            final(self).shuffle == old(self).shuffle,
            final(self).length == old(self).length,
            final(self).repeats == old(self).repeats,
    {
        let at_a = self.track_map[a];
        let at_b = self.track_map[b];
        self.track_map.set(a, at_b);
        self.track_map.set(b, at_a);
        proof {
            lemma_swap_preserves_permutation(
                old(self).track_map@,
                self.track_map@.len() as int,
                a as int,
                b as int,
            );
        }
    }
}

/// Exchanging two entries of a permutation leaves a permutation.
proof fn lemma_swap_preserves_permutation(map: Seq<usize>, len: int, a: int, b: int)
    requires
        is_permutation(map, len),
        0 <= a < len,
        0 <= b < len,
    ensures
        is_permutation(map.update(a, map[b]).update(b, map[a]), len),
{
    let swapped = map.update(a, map[b]).update(b, map[a]);
    assert(forall|i: int| 0 <= i < len ==> swapped[i] == map[if i == a {
        b
    } else if i == b {
        a
    } else {
        i
    }]);
}

/// The player's state.
///
/// This is a singleton structure, of which (preferably) only one is active
/// at a time. It holds two pointers that operate similar to coordinates on a
/// grid: the playlist-pointer selects the current playlist, the
/// track-pointer a playback position inside it, always interpreted through
/// the playlist's pointer-map.
///
/// The volume is kept in thousandths of the sink's scale, so a driver
/// divides by a thousand when pushing it out. Muting negates the stored
/// value; un-muting negates it back, restoring the exact pre-mute volume.
pub struct Playhandle {
    pub current_track_index: usize,
    pub current_playlist_index: usize,

    /// One-shot flag: a track-pointer update ran past the current playlist.
    pub has_reached_current_playlist_end: bool,
    /// One-shot flag: a playlist-pointer update ran past the collection.
    pub has_reached_entire_end: bool,

    pub playlists: Vec<Playlist>,

    /// Global volume, in thousandths; negated while muted.
    pub volume: i32,
    /// Mirror of the sink's pause state.
    pub paused: bool,
    /// How long the current track has been playing, pauses excluded.
    pub track_elapsed_ms: u64,
    /// How long the current playlist pass has been playing, pauses
    /// excluded. The back-skip threshold of a playlist-scoped skip is
    /// measured against this clock, as a track-scoped one is against
    /// [`track_elapsed_ms`]: each skip counts from the moment its own unit
    /// began.
    ///
    /// [`track_elapsed_ms`]: Self::track_elapsed_ms
    pub playlist_elapsed_ms: u64,
}

/// The playlist collections match between two states.
pub open spec fn same_playlists(a: Playhandle, b: Playhandle) -> bool {
    a.playlists == b.playlists
}

/// The two cursors match between two states.
pub open spec fn same_pointers(a: Playhandle, b: Playhandle) -> bool {
    &&& a.current_playlist_index == b.current_playlist_index
    &&& a.current_track_index == b.current_track_index
}

/// The one-shot end flags match between two states.
pub open spec fn same_flags(a: Playhandle, b: Playhandle) -> bool {
    &&& a.has_reached_current_playlist_end == b.has_reached_current_playlist_end
    &&& a.has_reached_entire_end == b.has_reached_entire_end
}

/// Volume and pause state match between two states.
pub open spec fn same_sound(a: Playhandle, b: Playhandle) -> bool {
    &&& a.volume == b.volume
    &&& a.paused == b.paused
}

/// The per-track and per-playlist clocks match between two states.
pub open spec fn same_clock(a: Playhandle, b: Playhandle) -> bool {
    &&& a.track_elapsed_ms == b.track_elapsed_ms
    &&& a.playlist_elapsed_ms == b.playlist_elapsed_ms
}

/// The volume a driver may show and push to the sink: the stored value,
/// clamped into the audible range.
pub open spec fn clamped(volume: int) -> int {
    if volume < 0 {
        0
    } else if volume > VOLUME_MAX {
        VOLUME_MAX as int
    } else {
        volume
    }
}

/// The stored volume after a mute toggle: its negation.
pub open spec fn muted(volume: int) -> int {
    -volume
}

/// The stored volume after one increment: one step up, saturating at the
/// top of the range.
pub open spec fn stepped_up(volume: int) -> int {
    if volume + STEP > VOLUME_MAX {
        VOLUME_MAX as int
    } else {
        volume + STEP
    }
}

/// The stored volume after one decrement: one step down, saturating at the
/// negated top of the range.
pub open spec fn stepped_down(volume: int) -> int {
    if volume - STEP < -(VOLUME_MAX as int) {
        -(VOLUME_MAX as int)
    } else {
        volume - STEP
    }
}

impl Playhandle {
    /// The structural soundness of the player state: every playlist is
    /// sound, and the stored volume never leaves the mute-extended range.
    pub open spec fn wf(&self) -> bool {
        &&& forall|i: int|
            0 <= i < self.playlists@.len() ==> (#[trigger] self.playlists@[i]).wf()
        &&& -(VOLUME_MAX as int) <= self.volume <= VOLUME_MAX
    }

    /// The playlist-pointer selects a held playlist.
    pub open spec fn playlist_in_bounds(&self) -> bool {
        (self.current_playlist_index as int) < self.playlists@.len()
    }

    /// The playlist the playlist-pointer selects.
    pub open spec fn current_playlist(&self) -> Playlist {
        self.playlists@[self.current_playlist_index as int]
    }

    /// The track-pointer selects a playback position of the current playlist.
    pub open spec fn track_in_bounds(&self) -> bool {
        &&& self.playlist_in_bounds()
        &&& (self.current_track_index as int) < self.current_playlist().tracks@.len()
    }

    /// The track the two pointers select, through the pointer-map.
    pub open spec fn current_track(&self) -> Track {
        self.current_playlist().tracks@[
            self.current_playlist().track_map@[self.current_track_index as int] as int
        ]
    }

    /// Initialise a new instance from already-built playlists.
    ///
    /// Both pointers start at zero, the end flags unset, the volume at its
    /// default, and the pause mirror on hold until playback begins.
    pub fn raw_parts_from(playlists: Vec<Playlist>) -> (r: Self)
        ensures
            r.current_track_index == 0,
            r.current_playlist_index == 0,
            !r.has_reached_current_playlist_end,
            !r.has_reached_entire_end,
            r.playlists == playlists,
            r.volume == VOLUME_DEFAULT,
            r.paused,
            r.track_elapsed_ms == 0,
            r.playlist_elapsed_ms == 0,
    {
        Playhandle {
            current_track_index: 0,
            current_playlist_index: 0,
            has_reached_current_playlist_end: false,
            has_reached_entire_end: false,
            playlists,
            volume: VOLUME_DEFAULT,
            paused: true,
            track_elapsed_ms: 0,
            playlist_elapsed_ms: 0,
        }
    }

    /// Count the number of held [`Playlists`].
    ///
    /// [`Playlists`]: Playlist
    pub fn playlists_count(&self) -> (r: usize)
        ensures
            r == self.playlists@.len(),
    {
        self.playlists.len()
    }

    /// Count the number of held [`Tracks`] inside of the current playlist.
    ///
    /// [`Tracks`]: Track
    pub fn tracks_count(&self) -> (r: usize)
        requires
            self.playlist_in_bounds(),
        ensures
            r == self.current_playlist().tracks@.len(),
    {
        self.playlists[self.current_playlist_index].tracks_count()
    }

    /// Count the number of held [`Tracks`] over all [`Playlists`].
    ///
    /// [`Tracks`]: Track
    /// [`Playlists`]: Playlist
    pub fn all_tracks_count(&self) -> (r: usize)
        requires
            total_tracks(self.playlists@, self.playlists@.len() as int) <= usize::MAX,
        ensures
            r == total_tracks(self.playlists@, self.playlists@.len() as int),
    {
        let mut sum: usize = 0;
        let mut i: usize = 0;
        while i < self.playlists.len()
            invariant
                0 <= i <= self.playlists@.len(),
                sum == total_tracks(self.playlists@, i as int),
                total_tracks(self.playlists@, self.playlists@.len() as int) <= usize::MAX,
            decreases self.playlists@.len() - i,
        {
            proof {
                lemma_total_tracks_bound(self.playlists@, i + 1 as int, self.playlists@.len() as int);
            }
            sum = sum + self.playlists[i].tracks_count();
            i += 1;
        }
        sum
    }

    /// A specialisation of [`playlists_count`] that compares the amount of
    /// held [`Playlists`] to zero.
    ///
    /// [`playlists_count`]: Self::playlists_count
    /// [`Playlists`]: Playlist
    pub fn entries_is_empty(&self) -> (r: bool)
        ensures
            r == (self.playlists@.len() == 0),
    {
        self.playlists.len() == 0
    }

    /// See if all [`Tracks`] of a [`Playlist`] have been played through.
    ///
    /// This function is single-use: reading the flag resets it.
    ///
    /// [`Tracks`]: Track
    /// [`Playlist`]: Playlist
    pub fn playlist_has_ended(&mut self) -> (r: bool)
        ensures
            r == old(self).has_reached_current_playlist_end,
            !final(self).has_reached_current_playlist_end,
            final(self).has_reached_entire_end == old(self).has_reached_entire_end,
            same_playlists(*final(self), *old(self)),
            same_pointers(*final(self), *old(self)),
            same_sound(*final(self), *old(self)),
            same_clock(*final(self), *old(self)),
    {
        let r = self.has_reached_current_playlist_end;
        self.has_reached_current_playlist_end = false;
        r
    }

    /// See if all [`Playlists`] have been played through.
    ///
    /// This function is single-use: reading the flag resets it.
    ///
    /// [`Playlists`]: Playlist
    pub fn playlists_have_ended(&mut self) -> (r: bool)
        ensures
            r == old(self).has_reached_entire_end,
            !final(self).has_reached_entire_end,
            final(self).has_reached_current_playlist_end == old(
                self,
            ).has_reached_current_playlist_end,
            same_playlists(*final(self), *old(self)),
            same_pointers(*final(self), *old(self)),
            same_sound(*final(self), *old(self)),
            same_clock(*final(self), *old(self)),
    {
        let r = self.has_reached_entire_end;
        self.has_reached_entire_end = false;
        r
    }

    /// Make sure that the playlist-pointer is not out of bounds.
    ///
    /// Returns [`None`] if there is no error.
    pub fn playlist_index_check(&self) -> (r: Option<VectorError>)
        ensures
            r == (if self.playlist_in_bounds() {
                Option::<VectorError>::None
            } else {
                Some(VectorError::OutOfBounds)
            }),
    {
        if self.current_playlist_index >= self.playlists.len() {
            Some(VectorError::OutOfBounds)
        } else {
            None
        }
    }

    /// Make sure that the track-pointer is not out of bounds.
    ///
    /// Returns [`None`] if there is no error; a playlist-pointer out of
    /// bounds makes every track position out of bounds too.
    pub fn track_index_check(&self) -> (r: Option<VectorError>)
        ensures
            r == (if self.track_in_bounds() {
                Option::<VectorError>::None
            } else {
                Some(VectorError::OutOfBounds)
            }),
    {
        if self.current_playlist_index >= self.playlists.len() {
            return Some(VectorError::OutOfBounds);
        }
        let maximum = self.playlists[self.current_playlist_index].tracks_count();
        if self.current_track_index >= maximum {
            Some(VectorError::OutOfBounds)
        } else {
            None
        }
    }

    /// Get the playlist-pointer, after checking its bounds.
    pub fn playlist_index_get(&self) -> (r: Result<usize, VectorError>)
        ensures
            r == (if self.playlist_in_bounds() {
                Result::<usize, VectorError>::Ok(self.current_playlist_index)
            } else {
                Err(VectorError::OutOfBounds)
            }),
    {
        if self.current_playlist_index < self.playlists.len() {
            Ok(self.current_playlist_index)
        } else {
            Err(VectorError::OutOfBounds)
        }
    }

    /// Get the track-pointer.
    ///
    /// The pointer is meaningless without a playlist it points into, so the
    /// check made is the playlist-pointer's.
    pub fn track_index_get(&self) -> (r: Result<usize, VectorError>)
        ensures
            r == (if self.playlist_in_bounds() {
                Result::<usize, VectorError>::Ok(self.current_track_index)
            } else {
                Err(VectorError::OutOfBounds)
            }),
    {
        if self.current_playlist_index < self.playlists.len() {
            Ok(self.current_track_index)
        } else {
            Err(VectorError::OutOfBounds)
        }
    }

    /// Get the playlist-pointer without checking whether it has overrun the
    /// maximum.
    pub fn playlist_index_get_unchecked(&self) -> (r: usize)
        ensures
            r == self.current_playlist_index,
    {
        self.current_playlist_index
    }

    /// Get the track-pointer without checking whether it has overrun the
    /// maximum.
    pub fn track_index_get_unchecked(&self) -> (r: usize)
        ensures
            r == self.current_track_index,
    {
        self.current_track_index
    }

    /// Attempt to move the playlist-pointer to a proposed position.
    ///
    /// A position inside the collection is committed, with the
    /// track-pointer reset to zero first; one past the collection is
    /// refused without mutating either pointer, and the end-of-collection
    /// flag is raised.
    pub fn playlist_index_try_set(&mut self, new_index: usize) -> (r: Result<(), VectorError>)
        ensures
            same_playlists(*final(self), *old(self)),
            same_sound(*final(self), *old(self)),
            same_clock(*final(self), *old(self)),
            final(self).has_reached_current_playlist_end == old(
                self,
            ).has_reached_current_playlist_end,
            (new_index as int) < old(self).playlists@.len() ==> {
                &&& r is Ok
                &&& final(self).current_playlist_index == new_index
                &&& final(self).current_track_index == 0
                &&& final(self).has_reached_entire_end == old(self).has_reached_entire_end
            },
            (new_index as int) >= old(self).playlists@.len() ==> {
                &&& r == Result::<(), VectorError>::Err(VectorError::OutOfBounds)
                &&& same_pointers(*final(self), *old(self))
                &&& final(self).has_reached_entire_end
            },
    {
        if new_index >= self.playlists.len() {
            self.has_reached_entire_end = true;
            return Err(VectorError::OutOfBounds);
        }
        self.track_index_reset();
        self.current_playlist_index = new_index;
        Ok(())
    }

    /// Attempt to move the track-pointer to a proposed position.
    ///
    /// A position inside the current playlist is committed; one past it is
    /// refused without moving the pointer, and the end-of-playlist flag is
    /// raised. With the playlist-pointer itself out of bounds nothing moves
    /// and no flag is raised.
    pub fn track_index_try_set(&mut self, new_index: usize) -> (r: Result<(), VectorError>)
        ensures
            same_playlists(*final(self), *old(self)),
            same_sound(*final(self), *old(self)),
            same_clock(*final(self), *old(self)),
            final(self).current_playlist_index == old(self).current_playlist_index,
            final(self).has_reached_entire_end == old(self).has_reached_entire_end,
            !old(self).playlist_in_bounds() ==> {
                &&& r == Result::<(), VectorError>::Err(VectorError::OutOfBounds)
                &&& same_pointers(*final(self), *old(self))
                &&& same_flags(*final(self), *old(self))
            },
            old(self).playlist_in_bounds() && (new_index as int) < old(
                self,
            ).current_playlist().tracks@.len() ==> {
                &&& r is Ok
                &&& final(self).current_track_index == new_index
                &&& same_flags(*final(self), *old(self))
            },
            old(self).playlist_in_bounds() && (new_index as int) >= old(
                self,
            ).current_playlist().tracks@.len() ==> {
                &&& r == Result::<(), VectorError>::Err(VectorError::OutOfBounds)
                &&& final(self).current_track_index == old(self).current_track_index
                &&& final(self).has_reached_current_playlist_end
            },
    {
        if self.current_playlist_index >= self.playlists.len() {
            return Err(VectorError::OutOfBounds);
        }
        let maximum = self.playlists[self.current_playlist_index].tracks_count();
        if new_index >= maximum {
            self.has_reached_current_playlist_end = true;
            return Err(VectorError::OutOfBounds);
        }
        self.current_track_index = new_index;
        Ok(())
    }

    /// Reset the playlist-pointer, and with it the track-pointer, back to
    /// zero.
    pub fn playlist_index_reset(&mut self)
        ensures
            final(self).current_playlist_index == 0,
            final(self).current_track_index == 0,
            same_playlists(*final(self), *old(self)),
            same_flags(*final(self), *old(self)),
            same_sound(*final(self), *old(self)),
            same_clock(*final(self), *old(self)),
    {
        self.track_index_reset();
        self.current_playlist_index = 0;
    }

    /// Reset the track-pointer back to zero.
    pub fn track_index_reset(&mut self)
        ensures
            final(self).current_track_index == 0,
            final(self).current_playlist_index == old(self).current_playlist_index,
            same_playlists(*final(self), *old(self)),
            same_flags(*final(self), *old(self)),
            same_sound(*final(self), *old(self)),
            same_clock(*final(self), *old(self)),
    {
        self.current_track_index = 0;
    }

    /// Get a clamped version of the internal volume, between zero and the
    /// top of the audible range.
    pub fn volume_get(&self) -> (r: i32)
        ensures
            r == clamped(self.volume as int),
            0 <= r <= VOLUME_MAX,
    {
        if self.volume < 0 {
            0
        } else if self.volume > VOLUME_MAX {
            VOLUME_MAX
        } else {
            self.volume
        }
    }

    /// Get an un-clamped version of the internal volume.
    pub fn volume_get_raw(&self) -> (r: i32)
        ensures
            r == self.volume,
    {
        self.volume
    }

    /// Set the volume back to the default.
    pub fn volume_reset(&mut self)
        ensures
            final(self).volume == VOLUME_DEFAULT,
            final(self).paused == old(self).paused,
            same_playlists(*final(self), *old(self)),
            same_pointers(*final(self), *old(self)),
            same_flags(*final(self), *old(self)),
            same_clock(*final(self), *old(self)),
    {
        self.volume = VOLUME_DEFAULT;
    }

    /// A low level mute function: negate the stored volume.
    ///
    /// Muting a muted volume restores the exact previous value. Call sites
    /// push [`volume_get`] to the sink afterwards, so a muted (negative)
    /// store plays as silence.
    ///
    /// [`volume_get`]: Self::volume_get
    pub fn volume_mute(&mut self)
        requires
            old(self).wf(),
        ensures
            final(self).wf(),
            final(self).volume == muted(old(self).volume as int),
            final(self).paused == old(self).paused,
            same_playlists(*final(self), *old(self)),
            same_pointers(*final(self), *old(self)),
            same_flags(*final(self), *old(self)),
            same_clock(*final(self), *old(self)),
    {
        self.volume = -self.volume;
    }

    /// A low level dial up function; counterpart of [`volume_decrement`].
    ///
    /// [`volume_decrement`]: Self::volume_decrement
    pub fn volume_increment(&mut self)
        requires
            old(self).wf(),
        ensures
            final(self).wf(),
            final(self).volume == stepped_up(old(self).volume as int),
            final(self).paused == old(self).paused,
            same_playlists(*final(self), *old(self)),
            same_pointers(*final(self), *old(self)),
            same_flags(*final(self), *old(self)),
            same_clock(*final(self), *old(self)),
    {
        if self.volume > VOLUME_MAX - STEP {
            self.volume = VOLUME_MAX;
        } else {
            self.volume = self.volume + STEP;
        }
    }

    /// A low level dial down function; counterpart of [`volume_increment`].
    ///
    /// [`volume_increment`]: Self::volume_increment
    pub fn volume_decrement(&mut self)
        requires
            old(self).wf(),
        ensures
            final(self).wf(),
            final(self).volume == stepped_down(old(self).volume as int),
            final(self).paused == old(self).paused,
            same_playlists(*final(self), *old(self)),
            same_pointers(*final(self), *old(self)),
            same_flags(*final(self), *old(self)),
            same_clock(*final(self), *old(self)),
    {
        if self.volume < -VOLUME_MAX + STEP {
            self.volume = -VOLUME_MAX;
        } else {
            self.volume = self.volume - STEP;
        }
    }

    /// A low level play function; counterpart of [`playback_pause`].
    ///
    /// [`playback_pause`]: Self::playback_pause
    pub fn playback_play(&mut self)
        ensures
            !final(self).paused,
            final(self).volume == old(self).volume,
            same_playlists(*final(self), *old(self)),
            same_pointers(*final(self), *old(self)),
            same_flags(*final(self), *old(self)),
            same_clock(*final(self), *old(self)),
    {
        self.paused = false;
    }

    /// A low level pause function; counterpart of [`playback_play`].
    ///
    /// [`playback_play`]: Self::playback_play
    pub fn playback_pause(&mut self)
        ensures
            final(self).paused,
            final(self).volume == old(self).volume,
            same_playlists(*final(self), *old(self)),
            same_pointers(*final(self), *old(self)),
            same_flags(*final(self), *old(self)),
            same_clock(*final(self), *old(self)),
    {
        self.paused = true;
    }

    /// A high level combination of [`playback_play`] and [`playback_pause`].
    ///
    /// [`playback_play`]: Self::playback_play
    /// [`playback_pause`]: Self::playback_pause
    pub fn playback_toggle(&mut self)
        ensures
            final(self).paused == !old(self).paused,
            final(self).volume == old(self).volume,
            same_playlists(*final(self), *old(self)),
            same_pointers(*final(self), *old(self)),
            same_flags(*final(self), *old(self)),
            same_clock(*final(self), *old(self)),
    {
        if self.playback_is_paused() {
            self.playback_play()
        } else {
            self.playback_pause()
        }
    }

    /// Find out if the mirrored sink state is paused or not.
    pub fn playback_is_paused(&self) -> (r: bool)
        ensures
            r == self.paused,
    {
        self.paused
    }

    /// Begin playing the current track: the per-track clock starts at zero
    /// and the sink is expected to run.
    pub fn track_begin(&mut self)
        ensures
            final(self).track_elapsed_ms == 0,
            final(self).playlist_elapsed_ms == old(self).playlist_elapsed_ms,
            !final(self).paused,
            final(self).volume == old(self).volume,
            same_playlists(*final(self), *old(self)),
            same_pointers(*final(self), *old(self)),
            same_flags(*final(self), *old(self)),
    {
        self.track_elapsed_ms = 0;
        self.paused = false;
    }

    /// Swap the internal playlist collection with a new one.
    ///
    /// Both pointers start over at zero. The driver clears the sink
    /// alongside, as it does for any pointer jump.
    pub fn playlists_swap(&mut self, new: Vec<Playlist>)
        ensures
            final(self).playlists == new,
            final(self).current_playlist_index == 0,
            final(self).current_track_index == 0,
            same_flags(*final(self), *old(self)),
            same_sound(*final(self), *old(self)),
            same_clock(*final(self), *old(self)),
    {
        self.playlists = new;
        self.playlist_index_reset();
    }
}

/// The tracks held by the first `n` playlists, counted together.
pub open spec fn total_tracks(playlists: Seq<Playlist>, n: int) -> int
    decreases n,
{
    if n <= 0 {
        0
    } else {
        total_tracks(playlists, n - 1) + playlists[n - 1].tracks@.len()
    }
}

/// Counting tracks over a prefix of the playlists never counts more than
/// over all of them.
proof fn lemma_total_tracks_bound(playlists: Seq<Playlist>, n: int, m: int)
    requires
        0 <= n <= m,
    ensures
        total_tracks(playlists, n) <= total_tracks(playlists, m),
    decreases m - n,
{
    if n < m {
        lemma_total_tracks_bound(playlists, n, m - 1);
    }
}

#[derive(Clone, Copy, Debug, PartialEq, Eq, Structural)]
/// A command for the audio sink and terminal, decided by one tick of the
/// track loop and carried out by the driver that owns them.
pub enum SinkAction {
    /// Nothing to do.
    Idle,
    /// Stop and empty the sink, and clear the status line: a pointer jumped.
    Clear,
    /// Resume the sink.
    Play,
    /// Pause the sink.
    Pause,
    /// Push this volume, in thousandths, to the sink.
    SetVolume(i32),
}

#[derive(Clone, Copy, Debug, PartialEq, Eq, Structural)]
/// What the track loop does after a tick.
pub enum TrackStep {
    /// Keep ticking: the track is still playing.
    KeepPlaying,
    /// The track repeats: submit the same track to the sink again and keep
    /// ticking.
    Replay,
    /// The track loop is over with this flow.
    Done(ControlFlow),
    /// The track loop failed; the playlist layer decides what that means.
    Failed(Error),
}

#[derive(Clone, Copy, Debug, PartialEq, Eq, Structural)]
/// What the playlist loop does after a track finished.
pub enum PlaylistTick {
    /// Play on at the current pointers.
    NextTrack,
    /// The track pointer ran past the playlist: wrap the pass up.
    EndOfTracks,
    /// The playlist loop is over with this flow.
    Done(ControlFlow),
    /// An error the playlist layer does not absorb.
    Failed(Error),
}

#[derive(Clone, Copy, Debug, PartialEq, Eq, Structural)]
/// How a completed pass over a playlist ends.
pub enum PlaylistEnd {
    /// The playlist repeats: play it again from the top.
    Replay,
    /// The playlist is spent; the playlist pointer moved on (or the end of
    /// the collection was flagged).
    Advanced,
}

#[derive(Clone, Copy, Debug, PartialEq, Eq, Structural)]
/// What the top-level loop does after a playlist finished.
pub enum SessionStep {
    /// Move on to the playlist the pointer now selects.
    NextPlaylist,
    /// The session is over with this flow.
    Done(ControlFlow),
}

/// `b` is `a` with the entry at `index` replaced by some other playlist.
pub open spec fn playlists_match_except(a: Seq<Playlist>, b: Seq<Playlist>, index: int) -> bool {
    &&& a.len() == b.len()
    &&& forall|k: int| 0 <= k < a.len() && k != index ==> a[k] == b[k]
}

/// `b` is `a` with the entry at `index` replaced by some other track.
pub open spec fn tracks_match_except(a: Seq<Track>, b: Seq<Track>, index: int) -> bool {
    &&& a.len() == b.len()
    &&& forall|k: int| 0 <= k < a.len() && k != index ==> a[k] == b[k]
}

/// The running clock after one tick: saturating, so a stuck driver cannot
/// panic the engine.
pub open spec fn clock_advanced(elapsed_ms: int, tick_ms: int) -> int {
    if elapsed_ms + tick_ms > u64::MAX {
        u64::MAX as int
    } else {
        elapsed_ms + tick_ms
    }
}

/// The complete decision table of the per-track loop: how the state `post`
/// and the returned action and step `r` follow from the state `pre` and one
/// received signal. It fixes which pointer a skip moves and by how much,
/// what a reset zeroes, how the volume and pause state change, and which
/// flow the loop returns; [`Playhandle::track_signal_step`] promises it and
/// [`Playhandle::track_channel_step`] extends it over the channel's error
/// outcomes.
pub open spec fn track_signal_spec(
    pre: Playhandle,
    post: Playhandle,
    signal: Signal,
    r: (SinkAction, TrackStep),
) -> bool {
    &&& same_playlists(post, pre)
    &&& same_clock(post, pre)
    &&& (signal is Exit ==> {
        &&& r == (SinkAction::Clear, TrackStep::Done(ControlFlow::Break))
        &&& same_pointers(post, pre)
        &&& same_flags(post, pre)
        &&& same_sound(post, pre)
    })
    &&& (signal is TrackNext ==> {
        let next = next_skip_target(pre.current_track_index as int);
        &&& post.current_playlist_index == pre.current_playlist_index
        &&& post.has_reached_entire_end == pre.has_reached_entire_end
        &&& same_sound(post, pre)
        &&& (post.current_track_index as int, post.has_reached_current_playlist_end)
            == track_next_applied(
            pre.current_track_index as int,
            pre.has_reached_current_playlist_end,
            pre.current_playlist().tracks@.len() as int,
        )
        &&& (next < pre.current_playlist().tracks@.len() ==> {
            &&& r == (SinkAction::Clear, TrackStep::Done(ControlFlow::Skip))
            &&& post.current_track_index == next
            &&& post.has_reached_current_playlist_end == pre.has_reached_current_playlist_end
        })
        &&& (next >= pre.current_playlist().tracks@.len() ==> {
            &&& r == (SinkAction::Clear, TrackStep::Failed(Error::Vector(VectorError::OutOfBounds)))
            &&& post.current_track_index == pre.current_track_index
            &&& post.has_reached_current_playlist_end
        })
    })
    &&& (signal is TrackBack ==> {
        &&& r == (SinkAction::Clear, TrackStep::Done(ControlFlow::Skip))
        &&& post.current_track_index == back_skip_target(
            pre.current_track_index as int,
            pre.track_elapsed_ms as int,
        )
        &&& post.current_playlist_index == pre.current_playlist_index
        &&& same_flags(post, pre)
        &&& same_sound(post, pre)
    })
    &&& (signal is PlaylistNext ==> {
        let next = next_skip_target(pre.current_playlist_index as int);
        &&& post.has_reached_current_playlist_end == pre.has_reached_current_playlist_end
        &&& same_sound(post, pre)
        &&& (next < pre.playlists@.len() ==> {
            &&& r == (SinkAction::Clear, TrackStep::Done(ControlFlow::SkipSkip))
            &&& post.current_playlist_index == next
            &&& post.current_track_index == 0
            &&& post.has_reached_entire_end == pre.has_reached_entire_end
        })
        &&& (next >= pre.playlists@.len() ==> {
            &&& r == (SinkAction::Clear, TrackStep::Failed(Error::Vector(VectorError::OutOfBounds)))
            &&& same_pointers(post, pre)
            &&& post.has_reached_entire_end
        })
    })
    &&& (signal is PlaylistBack ==> {
        &&& r == (SinkAction::Clear, TrackStep::Done(ControlFlow::SkipSkip))
        &&& post.current_playlist_index == back_skip_target(
            pre.current_playlist_index as int,
            pre.playlist_elapsed_ms as int,
        )
        &&& post.current_track_index == 0
        &&& same_flags(post, pre)
        &&& same_sound(post, pre)
    })
    &&& (signal is Play ==> {
        &&& r == (
            if pre.paused {
                SinkAction::Play
            } else {
                SinkAction::Pause
            },
            TrackStep::KeepPlaying,
        )
        &&& post.paused == !pre.paused
        &&& post.volume == pre.volume
        &&& same_pointers(post, pre)
        &&& same_flags(post, pre)
    })
    &&& (signal is PlaylistReset ==> {
        &&& r == (SinkAction::Clear, TrackStep::Done(ControlFlow::Default))
        &&& post.current_playlist_index == 0
        &&& post.current_track_index == 0
        &&& same_flags(post, pre)
        &&& same_sound(post, pre)
    })
    &&& (signal is TrackReset ==> {
        &&& r == (SinkAction::Clear, TrackStep::Done(ControlFlow::Default))
        &&& post.current_track_index == 0
        &&& post.current_playlist_index == pre.current_playlist_index
        &&& same_flags(post, pre)
        &&& same_sound(post, pre)
    })
    &&& (signal is VolumeIncrease ==> {
        &&& post.volume == stepped_up(pre.volume as int)
        &&& r == (
            SinkAction::SetVolume(clamped(stepped_up(pre.volume as int)) as i32),
            TrackStep::KeepPlaying,
        )
    })
    &&& (signal is VolumeDecrease ==> {
        &&& post.volume == stepped_down(pre.volume as int)
        &&& r == (
            SinkAction::SetVolume(clamped(stepped_down(pre.volume as int)) as i32),
            TrackStep::KeepPlaying,
        )
    })
    &&& (signal is Mute ==> {
        &&& post.volume == muted(pre.volume as int)
        &&& r == (
            SinkAction::SetVolume(clamped(muted(pre.volume as int)) as i32),
            TrackStep::KeepPlaying,
        )
    })
    &&& (signal is VolumeReset ==> {
        &&& post.volume == VOLUME_DEFAULT
        &&& r == (SinkAction::SetVolume(VOLUME_DEFAULT), TrackStep::KeepPlaying)
    })
    &&& ((signal is VolumeIncrease || signal is VolumeDecrease || signal is Mute
        || signal is VolumeReset) ==> {
        &&& post.paused == pre.paused
        &&& same_pointers(post, pre)
        &&& same_flags(post, pre)
    })
}

impl Playhandle {
    /// React to one signal received while the current track plays.
    ///
    /// The whole decision is pinned by [`track_signal_spec`], the per-track
    /// loop's decision table. The driver performs the returned
    /// [`SinkAction`] and then follows the [`TrackStep`].
    pub fn track_signal_step(&mut self, signal: Signal) -> (r: (SinkAction, TrackStep))
        requires
            old(self).wf(),
            old(self).track_in_bounds(),
        ensures
            final(self).wf(),
            track_signal_spec(*old(self), *final(self), signal, r),
    {
        match signal {
            Signal::Exit => {
                (SinkAction::Clear, TrackStep::Done(ControlFlow::Break))
            },
            Signal::TrackNext => {
                let next = skip_next(self.current_track_index);
                match self.track_index_try_set(next) {
                    Ok(()) => (SinkAction::Clear, TrackStep::Done(ControlFlow::Skip)),
                    Err(e) => (SinkAction::Clear, TrackStep::Failed(Error::Vector(e))),
                }
            },
            Signal::TrackBack => {
                let back = skip_back(self.current_track_index, self.track_elapsed_ms);
                match self.track_index_try_set(back) {
                    Ok(()) => (SinkAction::Clear, TrackStep::Done(ControlFlow::Skip)),
                    Err(e) => (SinkAction::Clear, TrackStep::Failed(Error::Vector(e))),
                }
            },
            Signal::PlaylistNext => {
                let count = self.playlists.len();
                assert(self.current_playlist_index < count);
                let next = skip_next(self.current_playlist_index);
                match self.playlist_index_try_set(next) {
                    Ok(()) => (SinkAction::Clear, TrackStep::Done(ControlFlow::SkipSkip)),
                    Err(e) => (SinkAction::Clear, TrackStep::Failed(Error::Vector(e))),
                }
            },
            Signal::PlaylistBack => {
                let back = skip_back(self.current_playlist_index, self.playlist_elapsed_ms);
                match self.playlist_index_try_set(back) {
                    Ok(()) => (SinkAction::Clear, TrackStep::Done(ControlFlow::SkipSkip)),
                    Err(e) => (SinkAction::Clear, TrackStep::Failed(Error::Vector(e))),
                }
            },
            Signal::Play => {
                self.playback_toggle();
                let action = if self.playback_is_paused() {
                    SinkAction::Pause
                } else {
                    SinkAction::Play
                };
                (action, TrackStep::KeepPlaying)
            },
            Signal::PlaylistReset => {
                self.playlist_index_reset();
                (SinkAction::Clear, TrackStep::Done(ControlFlow::Default))
            },
            Signal::TrackReset => {
                self.track_index_reset();
                (SinkAction::Clear, TrackStep::Done(ControlFlow::Default))
            },
            Signal::VolumeIncrease => {
                self.volume_increment();
                (SinkAction::SetVolume(self.volume_get()), TrackStep::KeepPlaying)
            },
            Signal::VolumeDecrease => {
                self.volume_decrement();
                (SinkAction::SetVolume(self.volume_get()), TrackStep::KeepPlaying)
            },
            Signal::Mute => {
                self.volume_mute();
                (SinkAction::SetVolume(self.volume_get()), TrackStep::KeepPlaying)
            },
            Signal::VolumeReset => {
                self.volume_reset();
                (SinkAction::SetVolume(self.volume_get()), TrackStep::KeepPlaying)
            },
        }
    }

    /// React to one channel read made while the current track plays.
    ///
    /// This extends the decision table over the channel's own outcomes: a
    /// quiet channel keeps the track playing with nothing touched; a
    /// hung-up one means the input thread died, which fails the track loop
    /// with the distinct disconnect error and nothing touched; a received
    /// signal acts exactly as [`track_signal_spec`] states.
    pub fn track_channel_step(&mut self, received: Result<Signal, ChannelError>) -> (r: (
        SinkAction,
        TrackStep,
    ))
        requires
            old(self).wf(),
            old(self).track_in_bounds(),
        ensures
            final(self).wf(),
            received matches Ok(signal) ==> track_signal_spec(
                *old(self),
                *final(self),
                signal,
                r,
            ),
            received matches Err(e) ==> ({
                &&& *final(self) == *old(self)
                &&& (e is Empty ==> r == (SinkAction::Idle, TrackStep::KeepPlaying))
                &&& (!(e is Empty) ==> r == (
                    SinkAction::Idle,
                    TrackStep::Failed(Error::Channel(ChannelError::Disconnect)),
                ))
            }),
    {
        match received {
            Ok(signal) => self.track_signal_step(signal),
            Err(ChannelError::Empty) => (SinkAction::Idle, TrackStep::KeepPlaying),
            Err(_) => (
                SinkAction::Idle,
                TrackStep::Failed(Error::Channel(ChannelError::Disconnect)),
            ),
        }
    }

    /// Decrement the repeat counter of the track the pointers select.
    fn current_track_repeats_update(&mut self)
        requires
            old(self).wf(),
            old(self).track_in_bounds(),
        ensures
            final(self).wf(),
            same_pointers(*final(self), *old(self)),
            same_flags(*final(self), *old(self)),
            same_sound(*final(self), *old(self)),
            same_clock(*final(self), *old(self)),
            playlists_match_except(
                old(self).playlists@,
                final(self).playlists@,
                old(self).current_playlist_index as int,
            ),
            ({
                let before = old(self).current_playlist();
                let after = final(self).current_playlist();
                &&& after.track_map == before.track_map
                &&& after.shuffle == before.shuffle
                &&& after.length == before.length
                &&& after.repeats == before.repeats
                &&& tracks_match_except(
                    before.tracks@,
                    after.tracks@,
                    before.track_map@[old(self).current_track_index as int] as int,
                )
                &&& final(self).current_track().repeats == repeats_decremented(
                    old(self).current_track().repeats as int,
                )
                &&& final(self).current_track().file_path == old(self).current_track().file_path
            }),
    {
        let playlist_index = self.current_playlist_index;
        let ghost playlists_before = self.playlists@;
        let mut playlist = self.playlists.remove(playlist_index);
        let mapped = playlist.track_map[self.current_track_index];
        let ghost tracks_before = playlist.tracks@;
        let mut track = playlist.tracks.remove(mapped);
        track.repeats_update();
        playlist.tracks.insert(mapped, track);
        assert(playlist.tracks@ =~= tracks_before.update(mapped as int, playlist.tracks@[
            mapped as int
        ]));
        self.playlists.insert(playlist_index, playlist);
        assert(self.playlists@ =~= playlists_before.update(playlist_index as int, playlist));
    }

    /// Wind the current track up after its playback drained.
    ///
    /// A non-zero repeat counter buys the track another pass: the counter
    /// counts down and the driver submits the same track again. A spent
    /// counter advances the track pointer by one; past the last position
    /// the pointer stays, the end-of-playlist flag is raised and the error
    /// hands the pass to the playlist layer.
    pub fn track_end_step(&mut self) -> (r: TrackStep)
        requires
            old(self).wf(),
            old(self).track_in_bounds(),
        ensures
            final(self).wf(),
            same_sound(*final(self), *old(self)),
            same_clock(*final(self), *old(self)),
            old(self).current_track().repeats != 0 ==> ({
                &&& r is Replay
                &&& same_pointers(*final(self), *old(self))
                &&& same_flags(*final(self), *old(self))
                &&& playlists_match_except(
                    old(self).playlists@,
                    final(self).playlists@,
                    old(self).current_playlist_index as int,
                )
                &&& final(self).current_track().repeats == repeats_decremented(
                    old(self).current_track().repeats as int,
                )
                &&& final(self).current_track().file_path == old(self).current_track().file_path
                &&& final(self).current_playlist().track_map == old(
                    self,
                ).current_playlist().track_map
                &&& final(self).current_playlist().repeats == old(self).current_playlist().repeats
            }),
            old(self).current_track().repeats == 0 ==> ({
                let next = next_skip_target(old(self).current_track_index as int);
                &&& same_playlists(*final(self), *old(self))
                &&& final(self).current_playlist_index == old(self).current_playlist_index
                &&& final(self).has_reached_entire_end == old(self).has_reached_entire_end
                &&& (next < old(self).current_playlist().tracks@.len() ==> {
                    &&& r == TrackStep::Done(ControlFlow::Default)
                    &&& final(self).current_track_index == next
                    &&& final(self).has_reached_current_playlist_end == old(
                        self,
                    ).has_reached_current_playlist_end
                })
                &&& (next >= old(self).current_playlist().tracks@.len() ==> {
                    &&& r == TrackStep::Failed(Error::Vector(VectorError::OutOfBounds))
                    &&& final(self).current_track_index == old(self).current_track_index
                    &&& final(self).has_reached_current_playlist_end
                })
            }),
    {
        let playlist_index = self.current_playlist_index;
        let mapped = self.playlists[playlist_index].track_map[self.current_track_index];
        if self.playlists[playlist_index].tracks[mapped].repeats != 0 {
            self.current_track_repeats_update();
            TrackStep::Replay
        } else {
            let next = skip_next(self.current_track_index);
            match self.track_index_try_set(next) {
                Ok(()) => TrackStep::Done(ControlFlow::Default),
                Err(e) => TrackStep::Failed(Error::Vector(e)),
            }
        }
    }

    /// One tick of the per-track loop while the sink still plays.
    ///
    /// The two running clocks advance by the driver-measured tick, unless
    /// the playback is paused. Then one channel read is made and handled by
    /// [`track_channel_step`], which pins the reaction to every possible
    /// outcome of the read: keep playing on a quiet channel, fail on a
    /// hung-up one, act by the decision table on a signal.
    ///
    /// Which outcome the read takes depends on the keys pressed in the
    /// meantime, so this contract states what holds whatever came back.
    ///
    /// [`track_channel_step`]: Self::track_channel_step
    pub fn track_tick(&mut self, controls: &Controls, tick_ms: u64) -> (r: (SinkAction, TrackStep))
        requires
            old(self).wf(),
            old(self).track_in_bounds(),
        ensures
            final(self).wf(),
            same_playlists(*final(self), *old(self)),
            !(r.1 is Replay),
            final(self).track_elapsed_ms == (if old(self).paused {
                old(self).track_elapsed_ms as int
            } else {
                clock_advanced(old(self).track_elapsed_ms as int, tick_ms as int)
            }),
            final(self).playlist_elapsed_ms == (if old(self).paused {
                old(self).playlist_elapsed_ms as int
            } else {
                clock_advanced(old(self).playlist_elapsed_ms as int, tick_ms as int)
            }),
            r == (SinkAction::Idle, TrackStep::KeepPlaying) ==> ({
                &&& same_pointers(*final(self), *old(self))
                &&& same_flags(*final(self), *old(self))
                &&& same_sound(*final(self), *old(self))
            }),
            r.1 matches TrackStep::Failed(e) ==> (e matches Error::Channel(c) ==> ({
                &&& c is Disconnect
                &&& r.0 is Idle
                &&& same_pointers(*final(self), *old(self))
                &&& same_flags(*final(self), *old(self))
                &&& same_sound(*final(self), *old(self))
            })),
            same_pointers(*final(self), *old(self)) || r.0 is Clear,
    {
        if !self.playback_is_paused() {
            if self.track_elapsed_ms <= u64::MAX - tick_ms {
                self.track_elapsed_ms = self.track_elapsed_ms + tick_ms;
            } else {
                self.track_elapsed_ms = u64::MAX;
            }
            if self.playlist_elapsed_ms <= u64::MAX - tick_ms {
                self.playlist_elapsed_ms = self.playlist_elapsed_ms + tick_ms;
            } else {
                self.playlist_elapsed_ms = u64::MAX;
            }
        }
        let received = controls.signal_receive();
        self.track_channel_step(received)
    }

    /// Decide what the playlist loop does with a finished track's flow.
    ///
    /// A break unwinds everything. A level-2 skip consumed this layer: it is
    /// demoted to a level-1 skip and propagated. A level-1 skip and a normal
    /// completion play on at whatever the pointers now say. A track pointer
    /// that ran out of bounds means this playlist is exhausted, possibly via
    /// poisoned state: the pointer is reset and the pass wraps up rather
    /// than crashing the program. Any other error propagates.
    pub fn playlist_track_step(&mut self, outcome: Result<ControlFlow, Error>) -> (r: PlaylistTick)
        ensures
            same_playlists(*final(self), *old(self)),
            same_flags(*final(self), *old(self)),
            same_sound(*final(self), *old(self)),
            same_clock(*final(self), *old(self)),
            final(self).current_playlist_index == old(self).current_playlist_index,
            outcome == Result::<ControlFlow, Error>::Ok(ControlFlow::Break) ==> r
                == PlaylistTick::Done(ControlFlow::Break),
            outcome == Result::<ControlFlow, Error>::Ok(ControlFlow::SkipSkip) ==> r
                == PlaylistTick::Done(ControlFlow::Skip),
            outcome == Result::<ControlFlow, Error>::Ok(ControlFlow::Skip) ==> r
                == PlaylistTick::NextTrack,
            outcome == Result::<ControlFlow, Error>::Ok(ControlFlow::Default) ==> r
                == PlaylistTick::NextTrack,
            outcome == Result::<ControlFlow, Error>::Err(
                Error::Vector(VectorError::OutOfBounds),
            ) ==> ({
                &&& r == PlaylistTick::EndOfTracks
                &&& final(self).current_track_index == 0
            }),
            outcome matches Err(e) ==> (e != Error::Vector(VectorError::OutOfBounds) ==> r
                == PlaylistTick::Failed(e)),
            outcome != Result::<ControlFlow, Error>::Err(
                Error::Vector(VectorError::OutOfBounds),
            ) ==> final(self).current_track_index == old(self).current_track_index,
    {
        match outcome {
            Ok(ControlFlow::Break) => PlaylistTick::Done(ControlFlow::Break),
            Ok(ControlFlow::SkipSkip) => PlaylistTick::Done(ControlFlow::Skip),
            Ok(ControlFlow::Skip) => PlaylistTick::NextTrack,
            Ok(ControlFlow::Default) => PlaylistTick::NextTrack,
            Err(Error::Vector(VectorError::OutOfBounds)) => {
                self.track_index_reset();
                PlaylistTick::EndOfTracks
            },
            Err(other) => PlaylistTick::Failed(other),
        }
    }

    /// Wind a pass over the current playlist up.
    ///
    /// A non-zero repeat counter buys the playlist another pass: the counter
    /// counts down, the pointer-map reshuffles when this pass shuffles, and
    /// the track pointer starts over. A spent counter advances the playlist
    /// pointer by one; past the last playlist the pointer stays and the
    /// end-of-collection flag is raised. Either way the track pointer ends
    /// at zero, and a replayed pass starts its clock over.
    pub fn playlist_end_step(&mut self, should_shuffle: bool) -> (r: PlaylistEnd)
        requires
            old(self).wf(),
            old(self).playlist_in_bounds(),
        ensures
            final(self).wf(),
            same_sound(*final(self), *old(self)),
            final(self).track_elapsed_ms == old(self).track_elapsed_ms,
            final(self).current_track_index == 0,
            old(self).current_playlist().repeats != 0 ==> ({
                let before = old(self).current_playlist();
                let after = final(self).current_playlist();
                &&& r is Replay
                &&& final(self).playlist_elapsed_ms == 0
                &&& final(self).current_playlist_index == old(self).current_playlist_index
                &&& same_flags(*final(self), *old(self))
                &&& playlists_match_except(
                    old(self).playlists@,
                    final(self).playlists@,
                    old(self).current_playlist_index as int,
                )
                &&& after.tracks == before.tracks
                &&& after.shuffle == before.shuffle
                &&& after.length == before.length
                &&& after.repeats == repeats_decremented(before.repeats as int)
                &&& is_permutation(after.track_map@, after.length as int)
                &&& (!should_shuffle ==> after.track_map == before.track_map)
            }),
            old(self).current_playlist().repeats == 0 ==> ({
                let next = next_skip_target(old(self).current_playlist_index as int);
                &&& r is Advanced
                &&& final(self).playlist_elapsed_ms == old(self).playlist_elapsed_ms
                &&& same_playlists(*final(self), *old(self))
                &&& final(self).has_reached_current_playlist_end == old(
                    self,
                ).has_reached_current_playlist_end
                &&& (next < old(self).playlists@.len() ==> {
                    &&& final(self).current_playlist_index == next
                    &&& final(self).has_reached_entire_end == old(self).has_reached_entire_end
                })
                &&& (next >= old(self).playlists@.len() ==> {
                    &&& final(self).current_playlist_index == old(self).current_playlist_index
                    &&& final(self).has_reached_entire_end
                })
            }),
    {
        let playlist_index = self.current_playlist_index;
        if self.playlists[playlist_index].repeats_can() {
            let ghost playlists_before = self.playlists@;
            let mut playlist = self.playlists.remove(playlist_index);
            playlist.repeats_update();
            if should_shuffle {
                playlist.shuffle();
            }
            self.playlists.insert(playlist_index, playlist);
            assert(self.playlists@ =~= playlists_before.update(playlist_index as int, playlist));
            self.track_index_reset();
            self.playlist_elapsed_ms = 0;
            PlaylistEnd::Replay
        } else {
            let count = self.playlists.len();
            assert(playlist_index < count);
            let next = skip_next(playlist_index);
            self.track_index_reset();
            let _ = self.playlist_index_try_set(next);
            PlaylistEnd::Advanced
        }
    }

    /// Prepare the current playlist for a pass: the pass's clock starts at
    /// zero, and the playlist shuffles when shuffling is both wanted
    /// globally and allowed by the playlist — the returned decision, which
    /// the pass's wind-up reuses.
    pub fn session_playlist_begin(&mut self, should_shuffle: bool) -> (r: bool)
        requires
            old(self).wf(),
            old(self).playlist_in_bounds(),
        ensures
            final(self).wf(),
            r == (should_shuffle && old(self).current_playlist().shuffle),
            same_pointers(*final(self), *old(self)),
            same_flags(*final(self), *old(self)),
            same_sound(*final(self), *old(self)),
            final(self).track_elapsed_ms == old(self).track_elapsed_ms,
            final(self).playlist_elapsed_ms == 0,
            !r ==> same_playlists(*final(self), *old(self)),
            r ==> ({
                let before = old(self).current_playlist();
                let after = final(self).current_playlist();
                &&& playlists_match_except(
                    old(self).playlists@,
                    final(self).playlists@,
                    old(self).current_playlist_index as int,
                )
                &&& after.tracks == before.tracks
                &&& after.shuffle == before.shuffle
                &&& after.length == before.length
                &&& after.repeats == before.repeats
                &&& is_permutation(after.track_map@, after.length as int)
            }),
    {
        self.playlist_elapsed_ms = 0;
        let playlist_index = self.current_playlist_index;
        let shufflable = should_shuffle && self.playlists[playlist_index].shuffle_can();
        if shufflable {
            let ghost playlists_before = self.playlists@;
            let mut playlist = self.playlists.remove(playlist_index);
            playlist.shuffle();
            self.playlists.insert(playlist_index, playlist);
            assert(self.playlists@ =~= playlists_before.update(playlist_index as int, playlist));
        }
        shufflable
    }

    /// Decide what the top-level loop does after a playlist finished with
    /// `flow`.
    ///
    /// A break ends the session at once, flags untouched. A level-1 skip
    /// plays on at whatever the pointers now say, flags untouched: the
    /// index arithmetic was already done downstream. Only on a normal
    /// completion are the two one-shot end flags consumed, in order and
    /// short-circuiting as a pair of reads: if either was raised, the
    /// session is naturally finished; if not, the loop picks whatever
    /// playlist the pointer now selects. A level-2 skip cannot reach this
    /// layer: the playlist layer demotes every one, so such a flow is a
    /// contract violation and ruled out here rather than handled.
    pub fn session_playlist_step(&mut self, flow: ControlFlow) -> (r: SessionStep)
        requires
            flow !is SkipSkip,
        ensures
            same_playlists(*final(self), *old(self)),
            same_pointers(*final(self), *old(self)),
            same_sound(*final(self), *old(self)),
            same_clock(*final(self), *old(self)),
            flow is Break ==> ({
                &&& r == SessionStep::Done(ControlFlow::Break)
                &&& same_flags(*final(self), *old(self))
            }),
            flow is Skip ==> ({
                &&& r == SessionStep::NextPlaylist
                &&& same_flags(*final(self), *old(self))
            }),
            flow is Default ==> ({
                &&& !final(self).has_reached_current_playlist_end
                &&& (old(self).has_reached_current_playlist_end ==> {
                    &&& r == SessionStep::Done(ControlFlow::Default)
                    &&& final(self).has_reached_entire_end == old(self).has_reached_entire_end
                })
                &&& (!old(self).has_reached_current_playlist_end ==> {
                    &&& !final(self).has_reached_entire_end
                    &&& (old(self).has_reached_entire_end ==> r == SessionStep::Done(
                        ControlFlow::Default,
                    ))
                    &&& (!old(self).has_reached_entire_end ==> r == SessionStep::NextPlaylist)
                })
            }),
    {
        match flow {
            ControlFlow::Break => SessionStep::Done(ControlFlow::Break),
            ControlFlow::Skip => SessionStep::NextPlaylist,
            _ => {
                if self.playlist_has_ended() || self.playlists_have_ended() {
                    SessionStep::Done(ControlFlow::Default)
                } else {
                    SessionStep::NextPlaylist
                }
            },
        }
    }
}

/// Next-skips move the track pointer strictly upward: while the proposed
/// position stays inside a playlist of `count` tracks the pointer grows by
/// exactly one, and the first proposal past the last position is exactly
/// `count` — there the pointer update is refused, which hands the pass to
/// the playlist layer, whose advance resets the track pointer to zero.
pub proof fn lemma_track_next_progression(index: int, count: int)
    requires
        0 <= index < count,
    ensures
        next_skip_target(index) > index,
        index < count - 1 <==> next_skip_target(index) < count,
        index == count - 1 <==> next_skip_target(index) == count,
{
}

/// The track pointer and end-of-playlist flag after one next-skip, in a
/// playlist of `count` tracks: the successor position when it stays inside
/// the playlist, else an unmoved pointer with the flag raised — the refusal
/// of [`track_index_try_set`].
///
/// [`track_index_try_set`]: Playhandle::track_index_try_set
pub open spec fn track_next_applied(track: int, flagged: bool, count: int) -> (int, bool) {
    if track + 1 < count {
        (track + 1, flagged)
    } else {
        (track, true)
    }
}

/// The track pointer and end-of-playlist flag after a run of next-skips.
pub open spec fn track_next_repeated(track: int, flagged: bool, count: int, presses: nat) -> (
    int,
    bool,
)
    decreases presses,
{
    if presses == 0 {
        (track, flagged)
    } else {
        let previous = track_next_repeated(track, flagged, count, (presses - 1) as nat);
        track_next_applied(previous.0, previous.1, count)
    }
}

/// Under any run of next-skips in a playlist of `count` tracks, the track
/// pointer strictly increases, by exactly one per press, until its
/// successor would leave the playlist; from then on it stands still at the
/// last position with the end-of-playlist flag raised, which hands the pass
/// to the playlist layer — and its advance resets the pointer to zero.
pub proof fn lemma_track_next_sequence(track: int, count: int, presses: nat)
    requires
        0 <= track < count,
    ensures
        presses <= count - 1 - track ==> track_next_repeated(track, false, count, presses) == (
            track + presses,
            false,
        ),
        presses > count - 1 - track ==> track_next_repeated(track, false, count, presses) == (
            count - 1,
            true,
        ),
    decreases presses,
{
    if presses > 0 {
        lemma_track_next_sequence(track, count, (presses - 1) as nat);
    }
}

/// A back-skip at or past the threshold restarts the unit: the pointer does
/// not move. Below the threshold, a pointer above zero moves back by
/// exactly one.
pub proof fn lemma_back_skip_threshold(index: int, elapsed_ms: int)
    requires
        0 <= index,
    ensures
        elapsed_ms >= BACK_THRESHOLD_MS ==> back_skip_target(index, elapsed_ms) == index,
        elapsed_ms < BACK_THRESHOLD_MS && index > 0 ==> back_skip_target(index, elapsed_ms) == index
            - 1,
{
}

/// A back-skip at the first unit never underflows: the pointer remains
/// zero, however much or little time has elapsed.
pub proof fn lemma_back_skip_floor(elapsed_ms: int)
    ensures
        back_skip_target(0, elapsed_ms) == 0,
{
}

/// The displayed volume lies within the audible range, whatever sequence of
/// operations produced the stored value.
pub proof fn lemma_volume_display_bounds(volume: int)
    ensures
        0 <= clamped(volume) <= VOLUME_MAX,
{
}

/// Muting negates the stored volume, and muting again restores the exact
/// pre-mute value.
pub proof fn lemma_mute_round_trip(volume: int)
    ensures
        muted(muted(volume)) == volume,
{
}

/// A negative repeat counter is the infinite-repeat sentinel: a completed
/// pass never brings it to zero, so no number of passes exhausts the unit.
pub proof fn lemma_infinite_repeat_stable(repeats: int)
    requires
        repeats < 0,
    ensures
        repeats_decremented(repeats) < 0,
        repeats_decremented(repeats) != 0,
{
}

/// Draw a random position between the two bounds, inclusive.
///
/// Relies on fastrand's `usize`: a random value in the given range, drawn
/// from the thread-local generator, so nothing beyond its bounds can be
/// promised of it; it panics only on an empty range, which the bounds rule
/// out.
#[verifier::external_body]
fn random_in(low: usize, high: usize) -> (r: usize)
    requires
        low <= high,
    ensures
        low <= r <= high,
{
    fastrand::usize(low..=high)
}

} // verus!
