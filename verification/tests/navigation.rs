use quing::playback::{
    skip_back, skip_next, ControlFlow, Playhandle, Playlist, PlaylistEnd, PlaylistTick,
    SessionStep, SinkAction, Track, TrackStep,
};
use quing::in_out::Signal;
use quing::serde::{SerDePlaylist, SerDeTrack};
use quing::{ChannelError, Error, VectorError};

fn track(name: &str, repeats: isize) -> SerDeTrack {
    SerDeTrack::new(String::from(name), if repeats == 0 { None } else { Some(repeats) })
}

fn playlist(names: &[&str], repeats: isize, vary: Option<bool>) -> Playlist {
    let songs: Vec<SerDeTrack> = names.iter().map(|n| track(n, 0)).collect();
    let descriptor = SerDePlaylist::new(songs, Some(repeats), vary);
    Playlist::from_descriptor(descriptor).unwrap()
}

/// Run one playlist pass as the driver would, with no signals arriving and
/// the sink draining each submitted track at once. Records every played
/// (playlist, mapped track) pair.
fn run_playlist(
    handle: &mut Playhandle,
    should_shuffle: bool,
    visited: &mut Vec<(usize, usize)>,
) -> Result<ControlFlow, Error> {
    loop {
        if handle.track_index_check().is_some() {
            match handle.playlist_end_step(should_shuffle) {
                PlaylistEnd::Replay => continue,
                PlaylistEnd::Advanced => return Ok(ControlFlow::Default),
            }
        }
        let playlist_index = handle.playlist_index_get_unchecked();
        let outcome = loop {
            let position = handle.track_index_get_unchecked();
            let mapped = handle.playlists[playlist_index].index_get(position).unwrap();
            visited.push((playlist_index, mapped));
            match handle.track_end_step() {
                TrackStep::Replay => continue,
                TrackStep::Done(flow) => break Ok(flow),
                TrackStep::Failed(error) => break Err(error),
                TrackStep::KeepPlaying => unreachable!(),
            }
        };
        match handle.playlist_track_step(outcome) {
            PlaylistTick::NextTrack => continue,
            PlaylistTick::EndOfTracks => match handle.playlist_end_step(should_shuffle) {
                PlaylistEnd::Replay => continue,
                PlaylistEnd::Advanced => return Ok(ControlFlow::Default),
            },
            PlaylistTick::Done(flow) => return Ok(flow),
            PlaylistTick::Failed(error) => return Err(error),
        }
    }
}

/// Run a whole signal-free session as the driver would.
fn run_session(
    handle: &mut Playhandle,
    should_shuffle: bool,
    visited: &mut Vec<(usize, usize)>,
) -> Result<ControlFlow, Error> {
    loop {
        if handle.playlist_index_check().is_some() {
            return Ok(ControlFlow::Default);
        }
        let shuffling = handle.session_playlist_begin(should_shuffle);
        let flow = run_playlist(handle, shuffling, visited)?;
        match handle.session_playlist_step(flow) {
            SessionStep::NextPlaylist => continue,
            SessionStep::Done(flow) => return Ok(flow),
        }
    }
}

#[test]
fn three_tracks_play_in_declared_order_then_playlist_advances() {
    let lists = vec![playlist(&["a", "b", "c"], 0, Some(false)), playlist(&["d"], 0, Some(false))];
    let mut handle = Playhandle::raw_parts_from(lists);
    let mut visited = Vec::new();
    let flow = run_session(&mut handle, false, &mut visited).unwrap();
    // The first playlist plays its tracks once, in order; its natural end
    // advances the playlist pointer and finishes the session.
    assert_eq!(&visited[..3], &[(0, 0), (0, 1), (0, 2)]);
    assert_eq!(handle.playlist_index_get_unchecked(), 1);
    assert_eq!(handle.track_index_get_unchecked(), 0);
    assert_eq!(flow, ControlFlow::Default);
}

#[test]
fn single_track_with_two_repeats_plays_three_times() {
    let songs = vec![track("only", 2)];
    let descriptor = SerDePlaylist::new(songs, Some(0), Some(false));
    let list = Playlist::from_descriptor(descriptor).unwrap();
    let mut handle = Playhandle::raw_parts_from(vec![list]);
    let mut visited = Vec::new();
    let flow = run_session(&mut handle, false, &mut visited).unwrap();
    assert_eq!(visited, vec![(0, 0), (0, 0), (0, 0)]);
    assert_eq!(flow, ControlFlow::Default);
}

#[test]
fn exit_breaks_at_every_layer_without_pointer_mutation() {
    let lists = vec![playlist(&["a", "b"], 0, Some(false)), playlist(&["c"], 0, Some(false))];
    let mut handle = Playhandle::raw_parts_from(lists);
    handle.track_begin();
    let (action, step) = handle.track_signal_step(Signal::Exit);
    assert_eq!(action, SinkAction::Clear);
    assert_eq!(step, TrackStep::Done(ControlFlow::Break));
    assert_eq!(handle.playlist_index_get_unchecked(), 0);
    assert_eq!(handle.track_index_get_unchecked(), 0);

    let tick = handle.playlist_track_step(Ok(ControlFlow::Break));
    assert_eq!(tick, PlaylistTick::Done(ControlFlow::Break));

    let session = handle.session_playlist_step(ControlFlow::Break);
    assert_eq!(session, SessionStep::Done(ControlFlow::Break));
    assert_eq!(handle.playlist_index_get_unchecked(), 0);
    assert_eq!(handle.track_index_get_unchecked(), 0);
}

#[test]
fn playlist_next_moves_pointer_and_bubbles_as_skip() {
    let lists = vec![playlist(&["a", "b"], 0, Some(false)), playlist(&["c"], 0, Some(false))];
    let mut handle = Playhandle::raw_parts_from(lists);
    handle.track_begin();
    let (action, step) = handle.track_signal_step(Signal::PlaylistNext);
    assert_eq!(action, SinkAction::Clear);
    assert_eq!(step, TrackStep::Done(ControlFlow::SkipSkip));
    assert_eq!(handle.playlist_index_get_unchecked(), 1);
    assert_eq!(handle.track_index_get_unchecked(), 0);

    // The playlist layer consumes one level: the skip leaves it as Skip.
    let tick = handle.playlist_track_step(Ok(ControlFlow::SkipSkip));
    assert_eq!(tick, PlaylistTick::Done(ControlFlow::Skip));

    // The top layer plays on with the new pointers.
    let session = handle.session_playlist_step(ControlFlow::Skip);
    assert_eq!(session, SessionStep::NextPlaylist);
}

#[test]
fn track_next_strictly_increases_until_past_the_end() {
    let lists = vec![playlist(&["a", "b", "c"], 0, Some(false))];
    let mut handle = Playhandle::raw_parts_from(lists);
    handle.track_begin();

    let (_, step) = handle.track_signal_step(Signal::TrackNext);
    assert_eq!(step, TrackStep::Done(ControlFlow::Skip));
    assert_eq!(handle.track_index_get_unchecked(), 1);

    let (_, step) = handle.track_signal_step(Signal::TrackNext);
    assert_eq!(step, TrackStep::Done(ControlFlow::Skip));
    assert_eq!(handle.track_index_get_unchecked(), 2);

    // One past the last position: refused, flagged, handed to the playlist
    // layer, whose advance resets the track pointer.
    let (_, step) = handle.track_signal_step(Signal::TrackNext);
    assert_eq!(step, TrackStep::Failed(Error::Vector(VectorError::OutOfBounds)));
    assert_eq!(handle.track_index_get_unchecked(), 2);

    let tick = handle.playlist_track_step(Err(Error::Vector(VectorError::OutOfBounds)));
    assert_eq!(tick, PlaylistTick::EndOfTracks);
    assert_eq!(handle.track_index_get_unchecked(), 0);
    let end = handle.playlist_end_step(false);
    assert_eq!(end, PlaylistEnd::Advanced);
    assert_eq!(handle.track_index_get_unchecked(), 0);
}

#[test]
fn back_skip_within_threshold_moves_back_one() {
    let lists = vec![playlist(&["a", "b", "c"], 0, Some(false))];
    let mut handle = Playhandle::raw_parts_from(lists);
    handle.track_begin();
    handle.track_signal_step(Signal::TrackNext);
    handle.track_signal_step(Signal::TrackNext);
    assert_eq!(handle.track_index_get_unchecked(), 2);

    handle.track_elapsed_ms = 999;
    let (_, step) = handle.track_signal_step(Signal::TrackBack);
    assert_eq!(step, TrackStep::Done(ControlFlow::Skip));
    assert_eq!(handle.track_index_get_unchecked(), 1);
}

#[test]
fn back_skip_past_threshold_restarts_without_moving() {
    let lists = vec![playlist(&["a", "b", "c"], 0, Some(false))];
    let mut handle = Playhandle::raw_parts_from(lists);
    handle.track_begin();
    handle.track_signal_step(Signal::TrackNext);
    assert_eq!(handle.track_index_get_unchecked(), 1);

    handle.track_elapsed_ms = 1000;
    let (_, step) = handle.track_signal_step(Signal::TrackBack);
    assert_eq!(step, TrackStep::Done(ControlFlow::Skip));
    assert_eq!(handle.track_index_get_unchecked(), 1);
}

#[test]
fn playlist_back_skip_threshold_uses_the_playlist_clock() {
    let lists = vec![playlist(&["a"], 0, Some(false)), playlist(&["b"], 0, Some(false))];
    let mut handle = Playhandle::raw_parts_from(lists);
    handle.track_begin();
    handle.track_signal_step(Signal::PlaylistNext);
    assert_eq!(handle.playlist_index_get_unchecked(), 1);

    // Deep into the playlist pass, even if early in its current track, the
    // skip restarts the current playlist rather than jumping back.
    handle.playlist_elapsed_ms = 5_000;
    handle.track_elapsed_ms = 100;
    let (_, step) = handle.track_signal_step(Signal::PlaylistBack);
    assert_eq!(step, TrackStep::Done(ControlFlow::SkipSkip));
    assert_eq!(handle.playlist_index_get_unchecked(), 1);
    assert_eq!(handle.track_index_get_unchecked(), 0);

    // Within the first second of the pass it jumps to the previous one.
    handle.playlist_elapsed_ms = 500;
    let (_, step) = handle.track_signal_step(Signal::PlaylistBack);
    assert_eq!(step, TrackStep::Done(ControlFlow::SkipSkip));
    assert_eq!(handle.playlist_index_get_unchecked(), 0);
}

#[test]
fn back_skip_at_zero_never_underflows() {
    let lists = vec![playlist(&["a", "b"], 0, Some(false)), playlist(&["c"], 0, Some(false))];
    let mut handle = Playhandle::raw_parts_from(lists);
    handle.track_begin();
    assert_eq!(handle.track_index_get_unchecked(), 0);

    handle.track_elapsed_ms = 0;
    let (_, step) = handle.track_signal_step(Signal::TrackBack);
    assert_eq!(step, TrackStep::Done(ControlFlow::Skip));
    assert_eq!(handle.track_index_get_unchecked(), 0);

    let (_, step) = handle.track_signal_step(Signal::PlaylistBack);
    assert_eq!(step, TrackStep::Done(ControlFlow::SkipSkip));
    assert_eq!(handle.playlist_index_get_unchecked(), 0);
}

#[test]
fn infinite_repeat_sentinel_never_reaches_zero() {
    let mut unit = Track::new(String::from("forever"), -1);
    for _ in 0..10_000 {
        assert!(unit.repeats_can());
        unit.repeats_update();
        assert!(unit.repeats < 0);
    }
    assert!(unit.repeats_can());
}

#[test]
fn playlist_repeat_counts_down_and_replays() {
    let lists = vec![playlist(&["a", "b"], 1, Some(false)), playlist(&["c"], 0, Some(false))];
    let mut handle = Playhandle::raw_parts_from(lists);
    let mut visited = Vec::new();
    run_session(&mut handle, false, &mut visited).unwrap();
    // One repeat: the two tracks play twice before the playlist advances.
    assert_eq!(&visited[..4], &[(0, 0), (0, 1), (0, 0), (0, 1)]);
}

#[test]
fn resets_zero_the_pointers_and_finish_the_track_loop() {
    let lists = vec![playlist(&["a", "b", "c"], 0, Some(false)), playlist(&["d"], 0, Some(false))];
    let mut handle = Playhandle::raw_parts_from(lists);
    handle.track_begin();
    handle.track_signal_step(Signal::TrackNext);
    handle.track_signal_step(Signal::TrackNext);
    let (action, step) = handle.track_signal_step(Signal::TrackReset);
    assert_eq!(action, SinkAction::Clear);
    assert_eq!(step, TrackStep::Done(ControlFlow::Default));
    assert_eq!(handle.track_index_get_unchecked(), 0);

    handle.track_signal_step(Signal::PlaylistNext);
    assert_eq!(handle.playlist_index_get_unchecked(), 1);
    let (_, step) = handle.track_signal_step(Signal::PlaylistReset);
    assert_eq!(step, TrackStep::Done(ControlFlow::Default));
    assert_eq!(handle.playlist_index_get_unchecked(), 0);
    assert_eq!(handle.track_index_get_unchecked(), 0);
}

#[test]
fn play_signal_toggles_pause_and_commands_the_sink() {
    let lists = vec![playlist(&["a"], 0, Some(false))];
    let mut handle = Playhandle::raw_parts_from(lists);
    handle.track_begin();
    assert!(!handle.playback_is_paused());
    let (action, step) = handle.track_signal_step(Signal::Play);
    assert_eq!(action, SinkAction::Pause);
    assert_eq!(step, TrackStep::KeepPlaying);
    assert!(handle.playback_is_paused());
    let (action, _) = handle.track_signal_step(Signal::Play);
    assert_eq!(action, SinkAction::Play);
    assert!(!handle.playback_is_paused());
}

#[test]
fn volume_signals_push_the_clamped_volume() {
    let lists = vec![playlist(&["a"], 0, Some(false))];
    let mut handle = Playhandle::raw_parts_from(lists);
    handle.track_begin();
    let (action, step) = handle.track_signal_step(Signal::VolumeIncrease);
    assert_eq!(action, SinkAction::SetVolume(1025));
    assert_eq!(step, TrackStep::KeepPlaying);
    let (action, _) = handle.track_signal_step(Signal::Mute);
    assert_eq!(action, SinkAction::SetVolume(0));
    assert_eq!(handle.volume_get_raw(), -1025);
    let (action, _) = handle.track_signal_step(Signal::Mute);
    assert_eq!(action, SinkAction::SetVolume(1025));
    let (action, _) = handle.track_signal_step(Signal::VolumeReset);
    assert_eq!(action, SinkAction::SetVolume(1000));
    let (action, _) = handle.track_signal_step(Signal::VolumeDecrease);
    assert_eq!(action, SinkAction::SetVolume(975));
}

#[test]
fn end_flags_are_single_use() {
    let lists = vec![playlist(&["a"], 0, Some(false))];
    let mut handle = Playhandle::raw_parts_from(lists);
    handle.track_begin();
    // Draining the only track runs the pointer past the end.
    let step = handle.track_end_step();
    assert_eq!(step, TrackStep::Failed(Error::Vector(VectorError::OutOfBounds)));
    assert!(handle.playlist_has_ended());
    assert!(!handle.playlist_has_ended());
    assert!(!handle.playlists_have_ended());
}

#[test]
fn refused_playlist_skip_mutates_no_pointer() {
    let lists = vec![playlist(&["a", "b"], 0, Some(false))];
    let mut handle = Playhandle::raw_parts_from(lists);
    handle.track_begin();
    handle.track_signal_step(Signal::TrackNext);
    assert_eq!(handle.track_index_get_unchecked(), 1);

    // The only playlist is the last one: the proposal is refused, the
    // end-of-collection flag raised, and both pointers stand still.
    let (action, step) = handle.track_signal_step(Signal::PlaylistNext);
    assert_eq!(action, SinkAction::Clear);
    assert_eq!(step, TrackStep::Failed(Error::Vector(VectorError::OutOfBounds)));
    assert_eq!(handle.playlist_index_get_unchecked(), 0);
    assert_eq!(handle.track_index_get_unchecked(), 1);
    assert!(!handle.playlist_has_ended());
    assert!(handle.playlists_have_ended());
}

#[test]
fn committed_playlist_move_resets_the_track_pointer_first() {
    let lists = vec![playlist(&["a", "b"], 0, Some(false)), playlist(&["c"], 0, Some(false))];
    let mut handle = Playhandle::raw_parts_from(lists);
    handle.track_begin();
    handle.track_signal_step(Signal::TrackNext);
    assert_eq!(handle.track_index_get_unchecked(), 1);
    assert!(handle.playlist_index_try_set(1).is_ok());
    assert_eq!(handle.playlist_index_get_unchecked(), 1);
    assert_eq!(handle.track_index_get_unchecked(), 0);
}

#[test]
fn stale_end_flags_are_consulted_only_on_a_normal_completion() {
    let lists = vec![playlist(&["a"], 0, Some(false)), playlist(&["b"], 0, Some(false))];
    let mut handle = Playhandle::raw_parts_from(lists);
    handle.has_reached_current_playlist_end = true;

    // A level-1 skip plays on and leaves the flags alone.
    assert_eq!(handle.session_playlist_step(ControlFlow::Skip), SessionStep::NextPlaylist);
    assert!(handle.has_reached_current_playlist_end);

    // A normal completion consumes them and ends the session.
    assert_eq!(
        handle.session_playlist_step(ControlFlow::Default),
        SessionStep::Done(ControlFlow::Default)
    );
    assert!(!handle.has_reached_current_playlist_end);
}

#[test]
fn skip_helpers_compute_the_exact_targets() {
    assert_eq!(skip_next(0), 1);
    assert_eq!(skip_next(41), 42);
    assert_eq!(skip_back(5, 999), 4);
    assert_eq!(skip_back(5, 1000), 5);
    assert_eq!(skip_back(5, 8_000), 5);
    assert_eq!(skip_back(0, 0), 0);
    assert_eq!(skip_back(0, 5_000), 0);
}

#[test]
fn pointer_checks_and_getters_follow_the_bounds() {
    let mut handle = Playhandle::raw_parts_from(Vec::new());
    assert!(handle.entries_is_empty());
    assert!(handle.playlist_index_check().is_some());
    assert!(handle.track_index_check().is_some());
    assert_eq!(handle.playlist_index_get(), Err(VectorError::OutOfBounds));
    assert_eq!(handle.track_index_get(), Err(VectorError::OutOfBounds));

    // Moving the playlist pointer in an empty collection flags the end of
    // the collection; a track move with the playlist pointer out of bounds
    // fails without raising any flag.
    assert_eq!(handle.playlist_index_try_set(0), Err(VectorError::OutOfBounds));
    assert!(handle.playlists_have_ended());
    assert_eq!(handle.track_index_try_set(0), Err(VectorError::OutOfBounds));
    assert!(!handle.playlist_has_ended());

    let lists = vec![playlist(&["a", "b"], 0, Some(false))];
    let mut handle = Playhandle::raw_parts_from(lists);
    assert!(handle.playlist_index_check().is_none());
    assert!(handle.track_index_check().is_none());
    assert_eq!(handle.playlist_index_get(), Ok(0));
    assert_eq!(handle.track_index_get(), Ok(0));
    assert_eq!(handle.tracks_count(), 2);
    assert_eq!(handle.all_tracks_count(), 2);
    assert_eq!(handle.playlists_count(), 1);
    assert!(handle.track_index_try_set(1).is_ok());
    assert_eq!(handle.track_index_get(), Ok(1));
    handle.track_index_reset();
    assert_eq!(handle.track_index_get_unchecked(), 0);
}

#[test]
fn session_begin_shuffles_only_when_wanted_and_allowed() {
    let forbids = vec![playlist(&["a", "b"], 0, Some(false))];
    let mut handle = Playhandle::raw_parts_from(forbids);
    assert!(!handle.session_playlist_begin(true));
    assert!(!handle.session_playlist_begin(false));

    let allows = vec![playlist(&["a", "b", "c", "d"], 0, Some(true))];
    let mut handle = Playhandle::raw_parts_from(allows);
    assert!(!handle.session_playlist_begin(false));
    assert!(handle.session_playlist_begin(true));
    let mut sorted = handle.playlists[0].track_map.clone();
    sorted.sort();
    assert_eq!(sorted, vec![0, 1, 2, 3]);
}

#[test]
fn channel_errors_other_than_bounds_propagate_out_of_the_playlist_layer() {
    let lists = vec![playlist(&["a"], 0, Some(false))];
    let mut handle = Playhandle::raw_parts_from(lists);
    let outcome = Err(Error::Channel(ChannelError::Disconnect));
    let tick = handle.playlist_track_step(outcome);
    assert_eq!(tick, PlaylistTick::Failed(Error::Channel(ChannelError::Disconnect)));
}
