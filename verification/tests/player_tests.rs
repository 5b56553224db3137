use dir_player::{handle_chunk_event, ChunkEventHint, DirPlayer, MovieChunkConfig, PlanError};

fn config(video_id: &str, policy: &str, total: Option<u64>, size: Option<u64>) -> MovieChunkConfig {
    MovieChunkConfig {
        video_id: video_id.to_string(),
        chunk_policy: policy.to_string(),
        total_duration: total,
        chunk_size: size,
        quality: None,
    }
}

#[test]
fn create_plans_and_registers_the_list() {
    let mut player = DirPlayer::new();
    let chunks = player
        .create_movie_chunk_list(config("vid1", "linear", Some(12_000), Some(5_000)))
        .unwrap();
    assert_eq!(chunks.len(), 3);
    let stored = player.get_chunk_list("vid1").unwrap();
    assert_eq!(stored, &chunks);
    assert!(player.get_chunk_list("other").is_none());
}

#[test]
fn create_uses_defaults_when_unset() {
    let mut player = DirPlayer::new();
    let chunks = player
        .create_movie_chunk_list(config("vid1", "linear", None, None))
        .unwrap();
    assert_eq!(chunks.len(), 12);
    assert_eq!(chunks[0].duration, 5_000);
    assert_eq!(chunks[11].start_time, 55_000);
    assert_eq!(chunks[11].duration, 5_000);
}

#[test]
fn replanning_replaces_the_entry_wholesale() {
    let mut player = DirPlayer::new();
    player
        .create_movie_chunk_list(config("vid1", "linear", Some(12_000), Some(5_000)))
        .unwrap();
    player
        .create_movie_chunk_list(config("vid1", "adaptive", Some(20_000), Some(5_000)))
        .unwrap();
    let stored = player.get_chunk_list("vid1").unwrap();
    assert_eq!(stored.len(), 4);
    assert_eq!(stored[0].url, "/videos/vid1/adaptive/chunk_000_auto.mp4");
}

#[test]
fn zero_duration_is_rejected_and_registry_untouched() {
    let mut player = DirPlayer::new();
    let good = player
        .create_movie_chunk_list(config("vid1", "linear", Some(12_000), Some(5_000)))
        .unwrap();
    let err = player.create_movie_chunk_list(config("vid1", "linear", Some(0), Some(5_000)));
    assert_eq!(err, Err(PlanError::InvalidParameter));
    let stored = player.get_chunk_list("vid1").unwrap();
    assert_eq!(stored, &good);
}

#[test]
fn zero_chunk_size_is_rejected() {
    let mut player = DirPlayer::new();
    let err = player.create_movie_chunk_list(config("vid2", "linear", Some(12_000), Some(0)));
    assert_eq!(err, Err(PlanError::InvalidParameter));
    assert!(player.get_chunk_list("vid2").is_none());
}

#[test]
fn event_sequence_advances_the_index() {
    let mut player = DirPlayer::new();
    player.on_movie_chunk_list_changed("vid1", "chunk_started", Some(0));
    player.on_movie_chunk_list_changed("vid1", "chunk_ended", Some(0));
    player.on_movie_chunk_list_changed("vid1", "chunk_started", Some(1));
    let state = player.get_player_state();
    assert_eq!(state.current_chunk_index, 1);
    assert!(state.is_playing);
    assert_eq!(state.current_video_id.as_deref(), Some("vid1"));
}

#[test]
fn chunk_started_adopts_video_and_index() {
    let mut player = DirPlayer::new();
    player.on_movie_chunk_list_changed("vid9", "chunk_started", Some(7));
    let state = player.get_player_state();
    assert_eq!(state.current_video_id.as_deref(), Some("vid9"));
    assert_eq!(state.current_chunk_index, 7);
    assert!(state.is_playing);
}

#[test]
fn absent_chunk_index_defaults_to_zero() {
    let mut player = DirPlayer::new();
    player.on_movie_chunk_list_changed("vid1", "chunk_started", Some(4));
    player.on_movie_chunk_list_changed("vid1", "chunk_ended", None);
    let state = player.get_player_state();
    assert_eq!(state.current_chunk_index, 1);
}

#[test]
fn pause_and_resume_toggle_playing_only() {
    let mut player = DirPlayer::new();
    player.on_movie_chunk_list_changed("vid1", "chunk_started", Some(3));
    player.on_movie_chunk_list_changed("vid1", "playback_paused", None);
    let paused = player.get_player_state();
    assert!(!paused.is_playing);
    assert_eq!(paused.current_chunk_index, 3);
    assert_eq!(paused.current_video_id.as_deref(), Some("vid1"));
    player.on_movie_chunk_list_changed("vid1", "playback_resumed", None);
    let resumed = player.get_player_state();
    assert!(resumed.is_playing);
    assert_eq!(resumed.current_chunk_index, 3);
}

#[test]
fn completed_resets_index_and_stops_but_keeps_video() {
    let mut player = DirPlayer::new();
    player.on_movie_chunk_list_changed("vid1", "chunk_started", Some(41));
    player.on_movie_chunk_list_changed("vid1", "playback_completed", None);
    let state = player.get_player_state();
    assert_eq!(state.current_chunk_index, 0);
    assert!(!state.is_playing);
    assert_eq!(state.current_video_id.as_deref(), Some("vid1"));
}

#[test]
fn unrecognized_event_changes_nothing() {
    let mut player = DirPlayer::new();
    player.set_playback_speed(1_500);
    player.on_movie_chunk_list_changed("vid1", "chunk_started", Some(5));
    let before = player.get_player_state();
    let hint = player.on_movie_chunk_list_changed("vid1", "buffering_stalled", Some(9));
    assert_eq!(hint, ChunkEventHint::NoHint);
    let after = player.get_player_state();
    assert_eq!(after.current_video_id, before.current_video_id);
    assert_eq!(after.current_chunk_index, before.current_chunk_index);
    assert_eq!(after.is_playing, before.is_playing);
    assert_eq!(after.playback_speed, before.playback_speed);
}

#[test]
fn events_emit_their_advisory_hints() {
    let mut player = DirPlayer::new();
    let started = player.on_movie_chunk_list_changed("vid1", "chunk_started", Some(0));
    assert_eq!(started, ChunkEventHint::NotifyChunkStart);
    let ended = player.on_movie_chunk_list_changed("vid1", "chunk_ended", Some(0));
    assert_eq!(ended, ChunkEventHint::PrefetchNextChunk);
    let paused = player.on_movie_chunk_list_changed("vid1", "playback_paused", None);
    assert_eq!(paused, ChunkEventHint::NoHint);
    let completed = player.on_movie_chunk_list_changed("vid1", "playback_completed", None);
    assert_eq!(completed, ChunkEventHint::SessionCleanup);
}

#[test]
fn hint_function_matches_the_table() {
    assert_eq!(
        handle_chunk_event("v", "chunk_started", 0),
        ChunkEventHint::NotifyChunkStart
    );
    assert_eq!(
        handle_chunk_event("v", "chunk_ended", 3),
        ChunkEventHint::PrefetchNextChunk
    );
    assert_eq!(
        handle_chunk_event("v", "playback_completed", 9),
        ChunkEventHint::SessionCleanup
    );
    assert_eq!(handle_chunk_event("v", "playback_paused", 0), ChunkEventHint::NoHint);
    assert_eq!(handle_chunk_event("v", "whatever", 0), ChunkEventHint::NoHint);
}

#[test]
fn speed_is_stored_verbatim() {
    let mut player = DirPlayer::new();
    assert_eq!(player.get_player_state().playback_speed, 0);
    player.set_playback_speed(u64::MAX);
    assert_eq!(player.get_player_state().playback_speed, u64::MAX);
    player.set_playback_speed(0);
    assert_eq!(player.get_player_state().playback_speed, 0);
    let encoded = 1.75_f64.to_bits();
    player.set_playback_speed(encoded);
    assert_eq!(f64::from_bits(player.get_player_state().playback_speed), 1.75);
}

#[test]
fn initial_state_is_idle() {
    let player = DirPlayer::new();
    let state = player.get_player_state();
    assert!(state.current_video_id.is_none());
    assert_eq!(state.current_chunk_index, 0);
    assert!(!state.is_playing);
    assert_eq!(state.playback_speed, 0);
}

#[test]
fn events_do_not_touch_the_registry() {
    let mut player = DirPlayer::new();
    let chunks = player
        .create_movie_chunk_list(config("vid1", "linear", Some(12_000), Some(5_000)))
        .unwrap();
    player.on_movie_chunk_list_changed("vid1", "chunk_started", Some(0));
    player.on_movie_chunk_list_changed("vid1", "playback_completed", None);
    assert_eq!(player.get_chunk_list("vid1").unwrap(), &chunks);
}

#[test]
fn planning_does_not_touch_the_session() {
    let mut player = DirPlayer::new();
    player.set_playback_speed(77);
    player.on_movie_chunk_list_changed("vid1", "chunk_started", Some(2));
    player
        .create_movie_chunk_list(config("vid2", "linear", Some(10_000), Some(5_000)))
        .unwrap();
    let state = player.get_player_state();
    assert_eq!(state.current_video_id.as_deref(), Some("vid1"));
    assert_eq!(state.current_chunk_index, 2);
    assert!(state.is_playing);
    assert_eq!(state.playback_speed, 77);
}
