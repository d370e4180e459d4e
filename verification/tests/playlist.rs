use quing::playback::{Playlist, Playhandle};
use quing::serde::{SerDePlaylist, SerDeTrack};
use quing::{Error, VectorError};

fn song(name: &str) -> SerDeTrack {
    SerDeTrack::new(String::from(name), None)
}

#[test]
fn descriptor_without_songs_is_rejected() {
    let descriptor = SerDePlaylist::new(Vec::new(), None, None);
    let result = Playlist::from_descriptor(descriptor);
    assert!(matches!(result, Err(Error::Vector(VectorError::Empty))));
}

#[test]
fn descriptor_builds_identity_map_and_defaults() {
    let descriptor = SerDePlaylist::new(vec![song("x"), song("y"), song("z")], None, None);
    let playlist = Playlist::from_descriptor(descriptor).unwrap();
    assert_eq!(playlist.track_map, vec![0, 1, 2]);
    assert_eq!(playlist.tracks_count(), 3);
    assert!(!playlist.tracks_is_empty());
    // A missing shuffle preference allows shuffling; a missing repeat count
    // means play once.
    assert!(playlist.shuffle_can());
    assert!(!playlist.repeats_can());
    assert_eq!(playlist.tracks[0].file_path, "x");
    assert_eq!(playlist.tracks[2].file_path, "z");
}

#[test]
fn descriptor_carries_repeats_and_shuffle_preference() {
    let mut entry = song("x");
    entry.set_time(-1);
    let descriptor = SerDePlaylist::new(vec![entry], Some(3), Some(false));
    let playlist = Playlist::from_descriptor(descriptor).unwrap();
    assert!(!playlist.shuffle_can());
    assert_eq!(playlist.repeats, 3);
    assert_eq!(playlist.tracks[0].repeats, -1);
    assert!(playlist.tracks[0].repeats_can());
}

#[test]
fn nth_resolves_through_the_map_and_checks_bounds() {
    let descriptor = SerDePlaylist::new(vec![song("x"), song("y")], None, None);
    let mut playlist = Playlist::from_descriptor(descriptor).unwrap();
    playlist.track_map = vec![1, 0];
    assert_eq!(playlist.nth(0).unwrap().file_path, "y");
    assert_eq!(playlist.nth(1).unwrap().file_path, "x");
    assert!(playlist.nth(2).is_none());
    assert_eq!(playlist.index_get(0), Some(1));
    assert_eq!(playlist.index_get(5), None);
}

#[test]
fn shuffle_always_yields_a_permutation() {
    let names: Vec<String> = (0..16).map(|i| format!("track-{i}")).collect();
    let songs: Vec<SerDeTrack> = names.iter().map(|n| SerDeTrack::new(n.clone(), None)).collect();
    let descriptor = SerDePlaylist::new(songs, None, Some(true));
    let mut playlist = Playlist::from_descriptor(descriptor).unwrap();
    for _ in 0..25 {
        playlist.shuffle();
        let mut sorted = playlist.track_map.clone();
        sorted.sort();
        let identity: Vec<usize> = (0..16).collect();
        assert_eq!(sorted, identity);
    }
}

#[test]
fn shuffling_moves_the_map_not_the_tracks() {
    let songs: Vec<SerDeTrack> = (0..8).map(|i| SerDeTrack::new(format!("t{i}"), None)).collect();
    let descriptor = SerDePlaylist::new(songs, None, Some(true));
    let mut playlist = Playlist::from_descriptor(descriptor).unwrap();
    playlist.shuffle();
    for (i, unit) in playlist.tracks.iter().enumerate() {
        assert_eq!(unit.file_path, format!("t{i}"));
    }
}

#[test]
fn flatten_of_nothing_is_empty_error() {
    let result = SerDePlaylist::flatten(Vec::new());
    assert!(matches!(result, Err(Error::Vector(VectorError::Empty))));
}

#[test]
fn flatten_refuses_when_every_list_varies() {
    let lists = vec![
        SerDePlaylist::new(vec![song("a")], None, Some(true)),
        SerDePlaylist::new(vec![song("b")], None, Some(true)),
    ];
    let result = SerDePlaylist::flatten(lists);
    assert!(matches!(result, Err(Error::Vector(VectorError::Empty))));
}

#[test]
fn flatten_concatenates_in_order_and_takes_the_smallest_repeat() {
    let lists = vec![
        SerDePlaylist::new(vec![song("a"), song("b")], Some(4), Some(true)),
        SerDePlaylist::new(vec![song("c")], Some(-1), None),
        SerDePlaylist::new(vec![song("d")], None, Some(false)),
    ];
    let merged = SerDePlaylist::flatten(lists).unwrap();
    let names: Vec<&str> = merged.song_get().iter().map(|t| t.file.as_str()).collect();
    assert_eq!(names, vec!["a", "b", "c", "d"]);
    assert_eq!(merged.time_get(), Some(-1));
    assert_eq!(merged.vary_get(), Some(false));
    assert!(!merged.is_empty());
}

#[test]
fn time_and_vary_setters() {
    let mut descriptor = SerDePlaylist::new(vec![song("a")], None, None);
    descriptor.time_set(5);
    assert_eq!(descriptor.time_get(), Some(5));
    descriptor.time_set(0);
    assert_eq!(descriptor.time_get(), None);
    descriptor.time_set(-1);
    assert_eq!(descriptor.time_get(), Some(-1));
    descriptor.time_unset();
    assert_eq!(descriptor.time_get(), None);

    descriptor.vary_set(true);
    assert_eq!(descriptor.vary_get(), Some(true));
    descriptor.vary_set(false);
    assert_eq!(descriptor.vary_get(), None);
    descriptor.vary_unset();
    assert_eq!(descriptor.vary_get(), None);

    let mut entry = song("a");
    entry.set_time(7);
    assert_eq!(entry.time, Some(7));
    entry.unset_time();
    assert_eq!(entry.time, None);
}

#[test]
fn songs_can_be_taken_and_borrowed() {
    let mut descriptor = SerDePlaylist::new(vec![song("a"), song("b")], None, None);
    assert_eq!(descriptor.song_get().len(), 2);
    descriptor.song_get_mut().push(song("c"));
    let songs = descriptor.song_take();
    assert_eq!(songs.len(), 3);
    assert_eq!(songs[2].file, "c");
}

#[test]
fn playlists_swap_resets_the_pointers() {
    let first = Playlist::from_descriptor(SerDePlaylist::new(
        vec![song("a"), song("b")],
        None,
        Some(false),
    ))
    .unwrap();
    let second = Playlist::from_descriptor(SerDePlaylist::new(vec![song("c")], None, Some(false)))
        .unwrap();
    let mut handle = Playhandle::raw_parts_from(vec![first]);
    handle.track_begin();
    let _ = handle.track_index_try_set(1);
    assert_eq!(handle.track_index_get_unchecked(), 1);
    handle.playlists_swap(vec![second]);
    assert_eq!(handle.playlist_index_get_unchecked(), 0);
    assert_eq!(handle.track_index_get_unchecked(), 0);
    assert_eq!(handle.playlists_count(), 1);
    assert_eq!(handle.all_tracks_count(), 1);
    assert!(!handle.entries_is_empty());
}
