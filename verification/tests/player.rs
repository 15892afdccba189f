use robintuk_player::player::{MusicPlayer, PlayerError, SourceOutcome};
use robintuk_player::sink::Sink;
use robintuk_player::types::SongTable;

fn track(name: &str, path: &str) -> SongTable {
    SongTable {
        name: name.to_string(),
        path: path.to_string(),
        ..Default::default()
    }
}

fn player_with(paths: &[&str]) -> MusicPlayer {
    let mut p = MusicPlayer::new(Sink::new());
    let q: Vec<SongTable> = paths.iter().map(|s| track(s, s)).collect();
    p.set_queue(q);
    p
}

fn sink_paths(p: &MusicPlayer) -> Vec<String> {
    p.sink.streams.iter().map(|t| t.path.clone()).collect()
}

#[test]
fn new_player_starts_paused_and_empty() {
    let p = MusicPlayer::new(Sink::new());
    assert!(p.check_is_paused());
    assert!(!p.check_is_loaded());
    assert_eq!(p.get_queue_length(), 0);
    assert_eq!(p.get_current_position(), 0);
    assert_eq!(p.get_sink_length(), 0);
    assert_eq!(p.check_repeat_mode(), 1);
}

#[test]
fn cursor_bound_is_permissive() {
    // A queue of length 3 accepts positions 0 through 3 inclusive and
    // rejects everything above.
    let mut p = player_with(&["a", "b", "c"]);
    assert!(p.update_current_index(0).is_ok());
    assert!(p.update_current_index(2).is_ok());
    assert!(p.update_current_index(3).is_ok());
    assert_eq!(p.get_current_position(), 3);
    assert_eq!(p.update_current_index(4).unwrap_err(), PlayerError::IndexOutOfRange);
    assert_eq!(p.get_current_position(), 3);
}

#[test]
fn update_to_same_position_succeeds() {
    let mut p = player_with(&["a", "b", "c"]);
    assert!(p.update_current_index(2).is_ok());
    assert!(p.update_current_index(2).is_ok());
    assert_eq!(p.get_current_position(), 2);
}

#[test]
fn set_queue_resets_cursor() {
    let mut p = player_with(&["a", "b", "c"]);
    p.update_current_index(2).unwrap();
    p.set_queue(vec![track("x", "x"), track("y", "y")]);
    assert_eq!(p.get_current_position(), 0);
    assert_eq!(p.get_queue_length(), 2);
}

#[test]
fn empty_queue_has_no_current_song() {
    let p = MusicPlayer::new(Sink::new());
    assert_eq!(p.get_current_song().unwrap_err(), PlayerError::EmptyQueue);
}

#[test]
fn current_song_follows_cursor() {
    let mut p = player_with(&["a", "b", "c"]);
    p.update_current_index(1).unwrap();
    let song = p.get_current_song().unwrap();
    assert_eq!(song.path, "b");
    assert_eq!(song.name, "b");
}

#[test]
fn repeat_queue_wraps_to_front() {
    let mut p = player_with(&["a", "b", "c"]);
    p.set_repeat_mode(1);
    p.update_current_index(2).unwrap();
    p.next_song(SourceOutcome::Ready);
    assert_eq!(p.get_current_position(), 0);
    assert_eq!(sink_paths(&p), vec!["a".to_string()]);
    assert!(!p.check_is_paused());
}

#[test]
fn repeat_one_never_moves_cursor() {
    let mut p = player_with(&["a", "b", "c"]);
    p.set_repeat_mode(2);
    p.load_song(1, SourceOutcome::Ready).unwrap();
    for _ in 0..3 {
        p.next_song(SourceOutcome::Ready);
        assert_eq!(p.get_current_position(), 1);
    }
    assert_eq!(sink_paths(&p), vec!["b".to_string()]);
}

#[test]
fn previous_wraps_to_last_track() {
    let mut p = player_with(&["a", "b", "c"]);
    p.previous_song(SourceOutcome::Ready, SourceOutcome::Ready);
    assert_eq!(p.get_current_position(), 2);
    assert_eq!(sink_paths(&p), vec!["c".to_string()]);
    assert!(!p.check_is_paused());
}

#[test]
fn load_song_with_missing_file_reports_track_unavailable() {
    let mut p = player_with(&["a", "b", "c"]);
    let r = p.load_song(1, SourceOutcome::Unreadable);
    assert_eq!(r.unwrap_err(), PlayerError::TrackUnavailable);
    // The position is already committed; nothing was queued.
    assert_eq!(p.get_current_position(), 1);
    assert_eq!(p.get_sink_length(), 0);
}

#[test]
fn forward_advance_keeps_the_look_ahead() {
    // Queue a, b, c without repeat, cursor on a and the sink holding the
    // streams for a and b. Advancing drops a's stream and queues c's
    // behind b's, so the transition stays gapless.
    let mut p = player_with(&["a", "b", "c"]);
    p.set_repeat_mode(0);
    p.update_current_index(1).unwrap();
    p.previous_song(SourceOutcome::Ready, SourceOutcome::Ready);
    assert_eq!(p.get_current_position(), 0);
    assert_eq!(sink_paths(&p), vec!["a".to_string(), "b".to_string()]);

    p.next_song(SourceOutcome::Ready);
    assert_eq!(p.get_current_position(), 1);
    assert_eq!(sink_paths(&p), vec!["b".to_string(), "c".to_string()]);
    assert!(!p.check_is_paused());
}

#[test]
fn repeat_queue_advance_reloads_from_scratch() {
    let mut p = player_with(&["a", "b"]);
    p.set_repeat_mode(1);
    p.update_current_index(1).unwrap();
    p.next_song(SourceOutcome::Ready);
    assert_eq!(p.get_current_position(), 0);
    assert_eq!(sink_paths(&p), vec!["a".to_string()]);
}

#[test]
fn out_of_range_update_leaves_cursor() {
    let mut p = player_with(&["a", "b", "c"]);
    p.update_current_index(1).unwrap();
    assert_eq!(p.update_current_index(5).unwrap_err(), PlayerError::IndexOutOfRange);
    assert_eq!(p.get_current_position(), 1);
}

#[test]
fn no_repeat_stops_at_end_of_queue() {
    // Without repeat, the second-to-last track counts as the end: the
    // cursor rewinds and the buffered audio is discarded.
    let mut p = player_with(&["a", "b", "c"]);
    p.set_repeat_mode(0);
    p.load_song(1, SourceOutcome::Ready).unwrap();
    p.play_song();
    p.next_song(SourceOutcome::Ready);
    assert_eq!(p.get_current_position(), 0);
    assert_eq!(p.get_sink_length(), 0);
    assert!(!p.check_is_loaded());
}

#[test]
fn no_repeat_advance_on_single_track_parks_cursor() {
    // The permissive bound lets the cursor advance to one past the last
    // track; reading there reports the position instead of a track.
    let mut p = player_with(&["a"]);
    p.set_repeat_mode(0);
    p.next_song(SourceOutcome::Ready);
    assert_eq!(p.get_current_position(), 1);
    assert_eq!(p.get_current_song().unwrap_err(), PlayerError::IndexOutOfRange);
    // A further advance has nothing to advance to.
    p.next_song(SourceOutcome::Ready);
    assert_eq!(p.get_current_position(), 1);
}

#[test]
fn decode_failure_is_absorbed() {
    let mut p = player_with(&["a", "b"]);
    let r = p.load_song(0, SourceOutcome::DecodeFailed);
    assert!(r.is_ok());
    assert_eq!(p.get_current_position(), 0);
    assert_eq!(p.get_sink_length(), 0);
}

#[test]
fn load_at_queue_length_loads_nothing() {
    let mut p = player_with(&["a", "b"]);
    let r = p.load_song(2, SourceOutcome::Ready);
    assert!(r.is_ok());
    assert_eq!(p.get_current_position(), 2);
    assert_eq!(p.get_sink_length(), 0);
}

#[test]
fn load_replaces_buffered_audio() {
    let mut p = player_with(&["a", "b", "c"]);
    p.load_song(0, SourceOutcome::Ready).unwrap();
    p.load_song(2, SourceOutcome::Ready).unwrap();
    assert_eq!(sink_paths(&p), vec!["c".to_string()]);
    assert_eq!(p.get_current_position(), 2);
}

#[test]
fn add_to_queue_appends_in_order() {
    let mut p = player_with(&["a", "b"]);
    p.update_current_index(1).unwrap();
    p.add_to_queue(vec![track("c", "c"), track("d", "d")]);
    assert_eq!(p.get_queue_length(), 4);
    assert_eq!(p.get_current_position(), 1);
    let paths: Vec<&str> = p.get_current_queue().iter().map(|t| t.path.as_str()).collect();
    assert_eq!(paths, vec!["a", "b", "c", "d"]);
}

#[test]
fn clear_queue_discards_audio_and_tracks() {
    let mut p = player_with(&["a", "b"]);
    p.load_song(0, SourceOutcome::Ready).unwrap();
    p.play_song();
    p.clear_queue();
    assert_eq!(p.get_queue_length(), 0);
    assert_eq!(p.get_current_position(), 0);
    assert_eq!(p.get_sink_length(), 0);
}

#[test]
fn stop_song_keeps_queue_and_cursor() {
    let mut p = player_with(&["a", "b", "c"]);
    p.load_song(1, SourceOutcome::Ready).unwrap();
    p.stop_song();
    assert_eq!(p.get_sink_length(), 0);
    assert_eq!(p.get_current_position(), 1);
    assert_eq!(p.get_queue_length(), 3);
}

#[test]
fn play_and_pause_toggle_output() {
    let mut p = player_with(&["a"]);
    assert!(p.check_is_paused());
    p.play_song();
    assert!(!p.check_is_paused());
    p.pause_song();
    assert!(p.check_is_paused());
}

#[test]
fn seek_is_recorded_for_the_playing_stream() {
    let mut p = player_with(&["a"]);
    p.load_song(0, SourceOutcome::Ready).unwrap();
    p.seek(42);
    assert_eq!(p.get_song_pos(), 42);
}

#[test]
fn seek_with_nothing_queued_is_dropped() {
    let mut p = player_with(&["a"]);
    p.seek(42);
    assert_eq!(p.get_song_pos(), 0);
}

#[test]
fn repeat_one_rewinds_the_stream() {
    let mut p = player_with(&["a", "b"]);
    p.set_repeat_mode(2);
    p.load_song(0, SourceOutcome::Ready).unwrap();
    p.seek(42);
    p.next_song(SourceOutcome::Ready);
    assert_eq!(p.get_song_pos(), 0);
    assert!(!p.check_is_paused());
    assert_eq!(sink_paths(&p), vec!["a".to_string()]);
}

#[test]
fn set_volume_reaches_the_sink() {
    let mut p = player_with(&["a"]);
    p.set_volume(55);
    assert_eq!(p.sink.volume, 55);
}

#[test]
fn repeat_mode_codes_round_trip() {
    let mut p = MusicPlayer::new(Sink::new());
    p.set_repeat_mode(0);
    assert_eq!(p.check_repeat_mode(), 0);
    p.set_repeat_mode(1);
    assert_eq!(p.check_repeat_mode(), 1);
    p.set_repeat_mode(2);
    assert_eq!(p.check_repeat_mode(), 2);
    // Every code outside the three known ones repeats the current track.
    p.set_repeat_mode(9);
    assert_eq!(p.check_repeat_mode(), 2);
}

#[test]
fn next_load_target_names_the_stream_to_open() {
    let mut p = player_with(&["a", "b", "c"]);
    p.set_repeat_mode(0);
    // Advancing from the front will want the look-ahead two steps on.
    assert_eq!(p.next_load_target(), Some(2));
    // From the second-to-last track the advance stops instead of loading.
    p.update_current_index(1).unwrap();
    assert_eq!(p.next_load_target(), None);
    // Repeating the queue always reloads the wrapped-to track.
    p.set_repeat_mode(1);
    p.update_current_index(2).unwrap();
    assert_eq!(p.next_load_target(), Some(0));
    // Repeating one track opens nothing.
    p.set_repeat_mode(2);
    assert_eq!(p.next_load_target(), None);
}

#[test]
fn previous_load_targets_name_both_streams() {
    let mut p = player_with(&["a", "b", "c"]);
    assert_eq!(p.previous_load_targets(), (Some(2), None));
    p.update_current_index(2).unwrap();
    assert_eq!(p.previous_load_targets(), (Some(1), Some(2)));
    let empty = MusicPlayer::new(Sink::new());
    assert_eq!(empty.previous_load_targets(), (None, None));
}

#[test]
fn previous_with_unreadable_current_still_queues_look_ahead() {
    let mut p = player_with(&["a", "b", "c"]);
    p.update_current_index(2).unwrap();
    p.previous_song(SourceOutcome::Unreadable, SourceOutcome::Ready);
    assert_eq!(p.get_current_position(), 1);
    assert_eq!(sink_paths(&p), vec!["c".to_string()]);
}

#[test]
fn failed_look_ahead_is_absorbed_on_advance() {
    // The advance still happens; only the look-ahead stream is missing
    // until a later reload restores it.
    let mut p = player_with(&["a", "b", "c", "d"]);
    p.set_repeat_mode(0);
    p.update_current_index(1).unwrap();
    p.previous_song(SourceOutcome::Ready, SourceOutcome::Ready);
    assert_eq!(sink_paths(&p), vec!["a".to_string(), "b".to_string()]);
    p.next_song(SourceOutcome::DecodeFailed);
    assert_eq!(p.get_current_position(), 1);
    assert_eq!(sink_paths(&p), vec!["b".to_string()]);
}

#[test]
fn repeat_queue_wraps_even_from_the_parked_cursor() {
    // A cursor parked one past the last track still wraps to the front.
    let mut p = player_with(&["a", "b"]);
    p.set_repeat_mode(1);
    p.update_current_index(2).unwrap();
    p.next_song(SourceOutcome::Ready);
    assert_eq!(p.get_current_position(), 0);
    assert_eq!(sink_paths(&p), vec!["a".to_string()]);
}

#[test]
fn empty_queue_accepts_only_position_zero() {
    let mut p = MusicPlayer::new(Sink::new());
    assert!(p.update_current_index(0).is_ok());
    assert_eq!(p.update_current_index(1).unwrap_err(), PlayerError::IndexOutOfRange);
}

#[test]
fn empty_queue_advances_are_safe() {
    let mut p = MusicPlayer::new(Sink::new());
    p.set_repeat_mode(0);
    p.next_song(SourceOutcome::Ready);
    assert_eq!(p.get_current_position(), 0);
    p.set_repeat_mode(1);
    p.next_song(SourceOutcome::Ready);
    assert_eq!(p.get_current_position(), 0);
    assert_eq!(p.get_sink_length(), 0);
    p.previous_song(SourceOutcome::Ready, SourceOutcome::Ready);
    assert_eq!(p.get_current_position(), 0);
}
