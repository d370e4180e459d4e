use quing::in_out::{Controls, Signal};
use quing::playback::{ControlFlow, Playhandle, Playlist, SinkAction, TrackStep};
use quing::serde::{SerDePlaylist, SerDeTrack};
use quing::{ChannelError, Error};

fn handle_with_tracks(count: usize) -> Playhandle {
    let songs: Vec<SerDeTrack> =
        (0..count).map(|i| SerDeTrack::new(format!("t{i}"), None)).collect();
    let descriptor = SerDePlaylist::new(songs, None, Some(false));
    let playlist = Playlist::from_descriptor(descriptor).unwrap();
    Playhandle::raw_parts_from(vec![playlist])
}

#[test]
fn receive_reports_empty_on_a_quiet_channel() {
    let (_sender, receiver) = crossbeam_channel::unbounded::<Signal>();
    let controls = Controls::from_endpoint(receiver);
    assert_eq!(controls.signal_receive(), Err(ChannelError::Empty));
}

#[test]
fn receive_hands_signals_over_in_order() {
    let (sender, receiver) = crossbeam_channel::unbounded();
    let controls = Controls::from_endpoint(receiver);
    sender.send(Signal::VolumeIncrease).unwrap();
    sender.send(Signal::Exit).unwrap();
    assert_eq!(controls.signal_receive(), Ok(Signal::VolumeIncrease));
    assert_eq!(controls.signal_receive(), Ok(Signal::Exit));
    assert_eq!(controls.signal_receive(), Err(ChannelError::Empty));
}

#[test]
fn receive_reports_disconnect_once_the_sender_is_gone() {
    let (sender, receiver) = crossbeam_channel::unbounded::<Signal>();
    let controls = Controls::from_endpoint(receiver);
    drop(sender);
    assert_eq!(controls.signal_receive(), Err(ChannelError::Disconnect));
}

#[test]
fn channel_step_keeps_playing_on_an_empty_channel() {
    let mut handle = handle_with_tracks(2);
    handle.track_begin();
    let (action, step) = handle.track_channel_step(Err(ChannelError::Empty));
    assert_eq!((action, step), (SinkAction::Idle, TrackStep::KeepPlaying));
    assert_eq!(handle.track_index_get_unchecked(), 0);
    assert!(!handle.playback_is_paused());
}

#[test]
fn channel_step_fails_distinctly_on_a_disconnect() {
    let mut handle = handle_with_tracks(2);
    handle.track_begin();
    let (action, step) = handle.track_channel_step(Err(ChannelError::Disconnect));
    assert_eq!(action, SinkAction::Idle);
    assert_eq!(step, TrackStep::Failed(Error::Channel(ChannelError::Disconnect)));
    assert_eq!(handle.track_index_get_unchecked(), 0);
    assert_eq!(handle.playlists[0].tracks[0].repeats, 0);
}

#[test]
fn channel_step_dispatches_a_received_signal() {
    let mut handle = handle_with_tracks(2);
    handle.track_begin();
    let (action, step) = handle.track_channel_step(Ok(Signal::TrackNext));
    assert_eq!(action, SinkAction::Clear);
    assert_eq!(step, TrackStep::Done(ControlFlow::Skip));
    assert_eq!(handle.track_index_get_unchecked(), 1);
}

#[test]
fn tick_acts_on_a_pending_signal() {
    let (sender, receiver) = crossbeam_channel::unbounded();
    let controls = Controls::from_endpoint(receiver);
    let mut handle = handle_with_tracks(3);
    handle.track_begin();
    sender.send(Signal::TrackNext).unwrap();
    let (action, step) = handle.track_tick(&controls, 10);
    assert_eq!(action, SinkAction::Clear);
    assert_eq!(step, TrackStep::Done(ControlFlow::Skip));
    assert_eq!(handle.track_index_get_unchecked(), 1);
}

#[test]
fn tick_keeps_playing_and_counts_time_with_no_signal() {
    let (_sender, receiver) = crossbeam_channel::unbounded::<Signal>();
    let controls = Controls::from_endpoint(receiver);
    let mut handle = handle_with_tracks(1);
    handle.track_begin();
    let (action, step) = handle.track_tick(&controls, 40);
    assert_eq!((action, step), (SinkAction::Idle, TrackStep::KeepPlaying));
    let (_, _) = handle.track_tick(&controls, 2);
    assert_eq!(handle.track_elapsed_ms, 42);
    assert_eq!(handle.playlist_elapsed_ms, 42);
}

#[test]
fn tick_does_not_count_time_while_paused() {
    let (sender, receiver) = crossbeam_channel::unbounded();
    let controls = Controls::from_endpoint(receiver);
    let mut handle = handle_with_tracks(1);
    handle.track_begin();
    sender.send(Signal::Play).unwrap();
    let (action, _) = handle.track_tick(&controls, 5);
    assert_eq!(action, SinkAction::Pause);
    assert_eq!(handle.track_elapsed_ms, 5);
    let _ = handle.track_tick(&controls, 100);
    assert_eq!(handle.track_elapsed_ms, 5);
}

#[test]
fn tick_fails_the_session_when_the_input_thread_died() {
    let (sender, receiver) = crossbeam_channel::unbounded::<Signal>();
    let controls = Controls::from_endpoint(receiver);
    let mut handle = handle_with_tracks(1);
    handle.track_begin();
    drop(sender);
    let (action, step) = handle.track_tick(&controls, 1);
    assert_eq!(action, SinkAction::Idle);
    assert_eq!(step, TrackStep::Failed(Error::Channel(ChannelError::Disconnect)));
    // The failure is reported without any state change beyond the clock.
    assert_eq!(handle.playlist_index_get_unchecked(), 0);
    assert_eq!(handle.track_index_get_unchecked(), 0);
    assert!(!handle.playlist_has_ended());
    assert!(!handle.playlists_have_ended());
    assert_eq!(handle.volume_get_raw(), 1000);
    assert!(!handle.playback_is_paused());
    assert_eq!(handle.playlists[0].tracks[0].repeats, 0);
}

#[test]
fn queued_signals_arrive_in_sending_order() {
    let (sender, receiver) = crossbeam_channel::unbounded();
    let controls = Controls::from_endpoint(receiver);
    for signal in [Signal::VolumeIncrease, Signal::Mute, Signal::TrackNext] {
        sender.send(signal).unwrap();
    }
    assert_eq!(controls.signal_receive(), Ok(Signal::VolumeIncrease));
    assert_eq!(controls.signal_receive(), Ok(Signal::Mute));
    assert_eq!(controls.signal_receive(), Ok(Signal::TrackNext));
    assert_eq!(controls.signal_receive(), Err(ChannelError::Empty));
}
