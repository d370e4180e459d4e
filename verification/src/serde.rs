//! Plain, already-parsed playlist descriptors.
//!
//! A descriptor is what a playlist file declares: a list of song paths with
//! optional repeat counts, an optional repeat count for the whole list, and
//! an optional shuffle preference. The loader that reads and deserialises
//! the files lives with the driver; the engine only ever sees these records.
use vstd::prelude::*;
use crate::{Error, VectorError};

verus! {

#[derive(Debug, PartialEq, Eq)]
/// A playlist with some metadata.
pub struct SerDePlaylist {
    pub song: Vec<SerDeTrack>,
    pub time: Option<isize>,
    pub vary: Option<bool>,
}

#[derive(Debug, PartialEq, Eq)]
/// A song path with additional metadata.
pub struct SerDeTrack {
    pub file: String,
    pub time: Option<isize>,
}

impl Clone for SerDeTrack {
    /// An exact copy of the record.
    fn clone(&self) -> (r: Self)
        ensures
            r == *self,
    {
        SerDeTrack { file: self.file.clone(), time: self.time }
    }
}

/// The repeat count a descriptor stands for: a missing count means zero,
/// play once.
pub open spec fn time_or_zero(time: Option<isize>) -> int {
    match time {
        Some(t) => t as int,
        None => 0,
    }
}

/// The songs of the first `n` of `lists`, in declaration order.
pub open spec fn songs_concat(lists: Seq<SerDePlaylist>, n: int) -> Seq<SerDeTrack>
    decreases n,
{
    if n <= 0 {
        Seq::empty()
    } else {
        songs_concat(lists, n - 1) + lists[n - 1].song@
    }
}

impl SerDePlaylist {
    /// Bundle an already-parsed descriptor.
    pub fn new(song: Vec<SerDeTrack>, time: Option<isize>, vary: Option<bool>) -> (r: Self)
        ensures
            r.song == song,
            r.time == time,
            r.vary == vary,
    {
        SerDePlaylist { song, time, vary }
    }

    /// Destructure `self` and get a reference to the contained tracks.
    pub fn song_get(&self) -> (r: &Vec<SerDeTrack>)
        ensures
            *r == self.song,
    {
        &self.song
    }

    /// Destructure `self` and get a mutable reference to the contained tracks.
    pub fn song_get_mut(&mut self) -> (r: &mut Vec<SerDeTrack>)
        ensures
            *r == old(self).song,
            final(self).song == *final(r),
            final(self).time == old(self).time,
            final(self).vary == old(self).vary,
    {
        &mut self.song
    }

    /// Destructure `self` and take the contained tracks.
    pub fn song_take(self) -> (r: Vec<SerDeTrack>)
        ensures
            r == self.song,
    {
        self.song
    }

    /// Read the declared repeat count.
    pub fn time_get(&self) -> (r: Option<isize>)
        ensures
            r == self.time,
    {
        self.time
    }

    /// Read the declared shuffle preference.
    pub fn vary_get(&self) -> (r: Option<bool>)
        ensures
            r == self.vary,
    {
        self.vary
    }

    /// Primitive for setting repeats equal to some non-zero value.
    ///
    /// A zero unsets the count, as [`time_unset`] does.
    ///
    /// [`time_unset`]: Self::time_unset
    pub fn time_set(&mut self, value: isize)
        ensures
            final(self).time == (if value == 0 { Option::<isize>::None } else { Some(value) }),
            final(self).song == old(self).song,
            final(self).vary == old(self).vary,
    {
        self.time = if value == 0 { None } else { Some(value) };
    }

    /// Primitive for setting repeats equal to null.
    pub fn time_unset(&mut self)
        ensures
            final(self).time is None,
            final(self).song == old(self).song,
            final(self).vary == old(self).vary,
    {
        self.time_set(0)
    }

    /// Primitive for setting shuffling equal to some state.
    ///
    /// Only a positive preference is recorded; declining leaves the field
    /// unset.
    pub fn vary_set(&mut self, state: bool)
        ensures
            final(self).vary == (if state { Some(true) } else { Option::<bool>::None }),
            final(self).song == old(self).song,
            final(self).time == old(self).time,
    {
        self.vary = if state { Some(true) } else { None };
    }

    /// Primitive for setting shuffling equal to null.
    pub fn vary_unset(&mut self)
        ensures
            final(self).vary is None,
            final(self).song == old(self).song,
            final(self).time == old(self).time,
    {
        self.vary_set(false)
    }

    /// Merge a list of descriptors into a single one.
    ///
    /// The merged descriptor carries every song in declaration order, the
    /// smallest declared repeat count, and no shuffle preference. The merge
    /// fails when there is nothing to merge, and also when every single
    /// descriptor asks to be shuffled: the merged list then has no
    /// unshuffled backbone to keep the declared order of.
    pub fn flatten(lists: Vec<Self>) -> (r: Result<Self, Error>)
        ensures
            r is Ok <==> exists|i: int|
                0 <= i < lists@.len() && lists@[i].vary != Some(true),
            r matches Ok(merged) ==> {
                &&& merged.song@ == songs_concat(lists@, lists@.len() as int)
                &&& merged.vary == Some(false)
                &&& merged.time matches Some(t) && (exists|i: int|
                    0 <= i < lists@.len() && t == time_or_zero(lists@[i].time)) && (forall|i: int|
                    0 <= i < lists@.len() ==> t <= time_or_zero(lists@[i].time))
            },
            r matches Err(e) ==> e == Error::Vector(VectorError::Empty),
    {
        if lists.len() == 0 {
            return Err(Error::Vector(VectorError::Empty));
        }
        let mut repeats: isize = match lists[0].time {
            Some(t) => t,
            None => 0,
        };
        let mut i: usize = 1;
        while i < lists.len()
            invariant
                1 <= i <= lists@.len(),
                exists|k: int| 0 <= k < i && repeats == time_or_zero(lists@[k].time),
                forall|k: int| 0 <= k < i ==> repeats <= time_or_zero(lists@[k].time),
            decreases lists@.len() - i,
        {
            let t = match lists[i].time {
                Some(t) => t,
                None => 0,
            };
            if t < repeats {
                repeats = t;
            }
            i += 1;
        }
        let mut varies = true;
        let mut j: usize = 0;
        while j < lists.len()
            invariant
                0 <= j <= lists@.len(),
                varies <==> forall|k: int| 0 <= k < j ==> lists@[k].vary == Some(true),
            decreases lists@.len() - j,
        {
            match lists[j].vary {
                Some(true) => {},
                _ => {
                    varies = false;
                },
            }
            j += 1;
        }
        if varies {
            return Err(Error::Vector(VectorError::Empty));
        }
        let mut tracks: Vec<SerDeTrack> = Vec::new();
        let mut n: usize = 0;
        while n < lists.len()
            invariant
                0 <= n <= lists@.len(),
                tracks@ == songs_concat(lists@, n as int),
            decreases lists@.len() - n,
        {
            let mut m: usize = 0;
            while m < lists[n].song.len()
                invariant
                    0 <= n < lists@.len(),
                    0 <= m <= lists@[n as int].song@.len(),
                    tracks@ == songs_concat(lists@, n as int) + lists@[n as int].song@.subrange(
                        0,
                        m as int,
                    ),
                decreases lists@[n as int].song@.len() - m,
            {
                tracks.push(lists[n].song[m].clone());
                assert(lists@[n as int].song@.subrange(0, m + 1 as int) =~= lists@[
                    n as int
                ].song@.subrange(0, m as int) + seq![lists@[n as int].song@[m as int]]);
                m += 1;
            }
            assert(lists@[n as int].song@.subrange(0, lists@[n as int].song@.len() as int) =~= lists@[
                n as int
            ].song@);
            assert(tracks@ =~= songs_concat(lists@, n + 1 as int));
            n += 1;
        }
        Ok(SerDePlaylist { vary: Some(false), song: tracks, time: Some(repeats) })
    }

    /// Find out if a descriptor holds no songs.
    pub fn is_empty(&self) -> (r: bool)
        ensures
            r == (self.song@.len() == 0),
    {
        self.song.len() == 0
    }
}

impl SerDeTrack {
    /// Bundle an already-parsed song entry.
    pub fn new(file: String, time: Option<isize>) -> (r: Self)
        ensures
            r.file == file,
            r.time == time,
    {
        SerDeTrack { file, time }
    }

    /// Set the amount that the track should be repeated.
    pub fn set_time(&mut self, value: isize)
        ensures
            final(self).time == Some(value),
            final(self).file == old(self).file,
    {
        self.time = Some(value)
    }

    /// Set the repeat-amount to default.
    pub fn unset_time(&mut self)
        ensures
            final(self).time is None,
            final(self).file == old(self).file,
    {
        self.time = None
    }
}

} // verus!
