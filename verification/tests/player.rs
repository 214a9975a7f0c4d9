use bilibili_music::audio::player::{
    AudioPlayer, BackendCommand, PlaybackState, PlayerAction, RepeatMode, StateChange,
};
use bilibili_music::audio::song::{MediaCache, SongData};
use bilibili_music::audio::state::{PlayerState, Volume, FULL_VOLUME};

fn data(title: &str, bvid: &str, cid: u32) -> SongData {
    SongData::new(None, title.to_string(), 200, bvid.to_string(), cid, None)
}

fn three() -> AudioPlayer {
    AudioPlayer::new(vec![data("a", "BV1", 1), data("b", "BV1", 2), data("c", "BV2", 1)])
}

fn cache_of(names: &[&str]) -> MediaCache {
    let mut cache = MediaCache::new();
    for name in names {
        cache.insert(format!("{}.m4a", name), format!("file:///cache/{}.m4a", name));
    }
    cache
}

fn uri(name: &str) -> Option<String> {
    Some(format!("file:///cache/{}.m4a", name))
}

#[test]
fn new_player_is_stopped() {
    let player = three();
    assert!(player.state().playback_state() == PlaybackState::Stopped);
    assert!(player.state().current_song().is_none());
    assert_eq!(player.state().position(), 0);
    assert_eq!(player.state().volume(), Volume { bits: 1.0f64.to_bits() });
    assert_eq!(FULL_VOLUME, 1.0f64.to_bits());
    assert!(!player.state().playing());
    assert_eq!(player.queue().n_songs(), 3);
    assert_eq!(player.queue().current_song_index(), None);
    let state = PlayerState::default();
    assert!(state.playback_state() == PlaybackState::Stopped);
}

#[test]
fn skip_to_plays_a_cached_song() {
    let mut player = three();
    let effects = player.skip_to(1, &cache_of(&["b"]));
    assert_eq!(effects.backend, vec![BackendCommand::SetUri(uri("b")), BackendCommand::Play]);
    assert!(effects.download.is_none());
    assert!(effects.current_changed);
    assert!(!effects.save);
    assert!(player.state().playing());
    assert_eq!(player.state().current_song().unwrap().title(), "b");
    assert_eq!(player.queue().current_song_index(), Some(1));
}

#[test]
fn skip_to_fetches_a_song_that_is_not_cached() {
    let mut player = three();
    let effects = player.skip_to(0, &cache_of(&["b"]));
    assert_eq!(effects.backend, vec![]);
    assert_eq!(effects.download.unwrap().title(), "a");
    assert!(effects.current_changed);
    assert!(player.state().playback_state() == PlaybackState::Stopped);
    assert_eq!(player.state().current_song().unwrap().title(), "a");
}

#[test]
fn skip_to_the_current_position_does_nothing() {
    let mut player = three();
    let cache = cache_of(&["a", "b", "c"]);
    player.skip_to(2, &cache);
    assert!(player.state().playing());
    let effects = player.skip_to(2, &cache);
    assert_eq!(effects.backend, vec![]);
    assert!(effects.download.is_none());
    assert!(!effects.current_changed);
    assert!(!effects.save);
    assert!(player.state().playing());
    assert_eq!(player.state().current_song().unwrap().title(), "c");
    assert_eq!(player.queue().current_song_index(), Some(2));
    let again = player.skip_to(2, &MediaCache::new());
    assert_eq!(again.backend, vec![]);
    assert!(again.download.is_none());
    assert!(!again.current_changed);
}

#[test]
fn skip_to_beyond_the_end_stops() {
    let mut player = three();
    let cache = cache_of(&["a", "b", "c"]);
    player.skip_to(0, &cache);
    let effects = player.skip_to(5, &cache);
    assert_eq!(effects.backend, vec![BackendCommand::SetUri(None), BackendCommand::Stop]);
    assert!(effects.download.is_none());
    assert!(effects.current_changed);
    assert!(player.state().current_song().is_none());
    assert!(player.state().playback_state() == PlaybackState::Stopped);
    assert_eq!(player.queue().current_song_index(), Some(5));
}

#[test]
fn end_to_end_scenario() {
    let mut player = AudioPlayer::new(vec![]);
    let empty = MediaCache::new();
    for (title, cid) in [("a", 1), ("b", 2), ("c", 3)] {
        let effects = player.process_action(PlayerAction::AddSong(data(title, "BV1", cid)), &empty);
        assert!(effects.save);
        assert_eq!(effects.backend, vec![]);
    }
    assert_eq!(player.queue().n_songs(), 3);
    assert!(player.queue().repeat_mode == RepeatMode::Consecutive);

    let effects = player.skip_to(0, &empty);
    assert_eq!(effects.backend, vec![]);
    assert!(effects.download.unwrap() == data("a", "BV1", 1));
    assert!(player.state().playback_state() == PlaybackState::Stopped);
    assert_eq!(player.state().current_song().unwrap().title(), "a");

    let fetched = "file:///cache/a.m4a".to_string();
    let effects = player.process_action(PlayerAction::PlaySong(fetched.clone()), &empty);
    assert_eq!(effects.backend, vec![BackendCommand::SetUri(Some(fetched)), BackendCommand::Play]);
    assert!(player.state().playback_state() == PlaybackState::Playing);
    assert_eq!(player.state().current_song().unwrap().title(), "a");
    assert_eq!(player.state().current_song().unwrap().cid(), 1);

    let cache = cache_of(&["a", "b", "c"]);
    let effects = player.skip_next(&cache);
    assert_eq!(effects.backend, vec![BackendCommand::SetUri(uri("b")), BackendCommand::Play]);
    assert_eq!(player.state().current_song().unwrap().title(), "b");
    let effects = player.skip_next(&cache);
    assert_eq!(effects.backend, vec![BackendCommand::SetUri(uri("c")), BackendCommand::Play]);
    assert_eq!(player.state().current_song().unwrap().title(), "c");
    assert_eq!(player.queue().current_song_index(), Some(2));
    assert!(player.state().playing());

    let effects = player.skip_next(&cache);
    assert_eq!(effects.backend, vec![BackendCommand::Stop]);
    assert!(effects.current_changed);
    assert!(effects.download.is_none());
    assert!(player.state().playback_state() == PlaybackState::Stopped);
    assert!(player.state().current_song().is_none());
    assert_eq!(player.queue().current_song_index(), None);
}

#[test]
fn skip_next_on_an_empty_queue_stops() {
    let mut player = AudioPlayer::new(vec![]);
    let effects = player.skip_next(&MediaCache::new());
    assert_eq!(effects.backend, vec![BackendCommand::Stop]);
    assert!(!effects.current_changed);
    assert!(player.state().current_song().is_none());
    assert!(player.state().playback_state() == PlaybackState::Stopped);
}

#[test]
fn skip_next_clears_the_outgoing_playing_flag() {
    let mut player = three();
    let cache = cache_of(&["a", "b", "c"]);
    player.skip_to(1, &cache);
    player.skip_previous(&cache);
    assert!(player.queue().song_at(0).unwrap().playing());
    player.skip_next(&cache);
    assert!(!player.queue().song_at(0).unwrap().playing());
    assert_eq!(player.state().current_song().unwrap().title(), "b");
}

#[test]
fn skip_previous_steps_back_and_restarts() {
    let mut player = three();
    let cache = cache_of(&["a", "b", "c"]);
    player.skip_to(2, &cache);
    let effects = player.skip_previous(&cache);
    assert_eq!(
        effects.backend,
        vec![BackendCommand::Seek(0), BackendCommand::SetUri(uri("b")), BackendCommand::Play]
    );
    assert!(effects.current_changed);
    assert!(player.state().playing());
    let current = player.state().current_song().unwrap();
    assert_eq!(current.title(), "b");
    assert!(current.playing());
    assert!(player.queue().song_at(1).unwrap().playing());
    assert_eq!(player.queue().current_song_index(), Some(1));
}

#[test]
fn skip_previous_at_the_first_song_does_nothing() {
    let mut player = three();
    let cache = cache_of(&["a", "b", "c"]);
    player.skip_to(0, &cache);
    let effects = player.skip_previous(&cache);
    assert_eq!(effects.backend, vec![]);
    assert!(!effects.current_changed);
    assert!(effects.download.is_none());
    assert!(player.state().playing());
    assert_eq!(player.state().current_song().unwrap().title(), "a");
    assert_eq!(player.queue().current_song_index(), Some(0));
}

#[test]
fn skip_previous_without_a_position_does_nothing() {
    let mut player = three();
    let effects = player.skip_previous(&MediaCache::new());
    assert_eq!(effects.backend, vec![]);
    assert!(!effects.current_changed);
    assert!(player.state().current_song().is_none());
    assert_eq!(player.queue().current_song_index(), None);
}

#[test]
fn skip_previous_fetches_a_song_that_is_not_cached() {
    let mut player = three();
    player.skip_to(1, &cache_of(&["b"]));
    let effects = player.skip_previous(&cache_of(&["b"]));
    assert_eq!(effects.backend, vec![BackendCommand::Seek(0)]);
    assert_eq!(effects.download.unwrap().title(), "a");
    assert!(player.state().playback_state() == PlaybackState::Stopped);
    assert_eq!(player.state().current_song().unwrap().title(), "a");
}

#[test]
fn play_song_stops_a_playing_backend_first() {
    let mut player = three();
    let cache = cache_of(&["a"]);
    player.skip_to(0, &cache);
    assert!(player.state().playing());
    let effects = player.process_action(PlayerAction::PlaySong("file:///x".to_string()), &cache);
    assert_eq!(
        effects.backend,
        vec![
            BackendCommand::Stop,
            BackendCommand::SetUri(Some("file:///x".to_string())),
            BackendCommand::Play
        ]
    );
    assert!(player.state().playing());
    assert!(!effects.current_changed);
}

#[test]
fn play_next_action_is_skip_next() {
    let mut player = three();
    let cache = cache_of(&["a", "b", "c"]);
    let effects = player.process_action(PlayerAction::PlayNext, &cache);
    assert_eq!(effects.backend, vec![BackendCommand::SetUri(uri("a")), BackendCommand::Play]);
    assert!(effects.current_changed);
    assert_eq!(player.queue().current_song_index(), Some(0));
    assert_eq!(player.state().current_song().unwrap().title(), "a");
}

#[test]
fn add_song_action_skips_a_present_track() {
    let mut player = three();
    let cache = MediaCache::new();
    let effects = player.process_action(PlayerAction::AddSong(data("again", "BV1", 2)), &cache);
    assert!(!effects.save);
    assert_eq!(player.queue().n_songs(), 3);
    let effects = player.process_action(PlayerAction::AddSong(data("d", "BV3", 1)), &cache);
    assert!(effects.save);
    assert_eq!(player.queue().n_songs(), 4);
    assert_eq!(player.queue().song_at(3).unwrap().title(), "d");
}

#[test]
fn position_and_volume_actions_record_the_value() {
    let mut player = three();
    let cache = MediaCache::new();
    let effects = player.process_action(PlayerAction::UpdatePosition(42), &cache);
    assert_eq!(effects.backend, vec![]);
    assert_eq!(player.state().position(), 42);
    let level = Volume { bits: 0.25f64.to_bits() };
    let effects = player.process_action(PlayerAction::VolumeChanged(level), &cache);
    assert_eq!(effects.backend, vec![]);
    assert_eq!(player.state().volume(), level);
    assert_eq!(f64::from_bits(player.state().volume().bits), 0.25);
    assert_eq!(player.state().position(), 42);
}

#[test]
fn toggle_play_alternates_between_pause_and_play() {
    let mut player = three();
    let cache = cache_of(&["a"]);
    player.skip_to(0, &cache);
    let effects = player.toggle_play();
    assert_eq!(effects.backend, vec![BackendCommand::Pause]);
    assert!(player.state().playback_state() == PlaybackState::Paused);
    let effects = player.toggle_play();
    assert_eq!(effects.backend, vec![BackendCommand::Play]);
    assert!(player.state().playback_state() == PlaybackState::Playing);
}

#[test]
fn toggle_play_starts_a_stopped_player() {
    let mut player = three();
    let effects = player.toggle_play();
    assert_eq!(effects.backend, vec![BackendCommand::Play]);
    assert!(player.state().playing());
}

#[test]
fn seek_needs_a_current_song() {
    let mut player = three();
    assert_eq!(player.seek(30).backend, vec![]);
    player.skip_to(0, &MediaCache::new());
    assert_eq!(player.seek(30).backend, vec![BackendCommand::Seek(30)]);
}

#[test]
fn set_volume_goes_straight_to_the_backend() {
    let player = three();
    let level = Volume { bits: 0.5f64.to_bits() };
    let effects = player.set_volume(level);
    assert_eq!(effects.backend, vec![BackendCommand::SetVolume(level)]);
    assert_eq!(player.state().volume(), Volume { bits: FULL_VOLUME });
}

#[test]
fn state_setters_tell_whether_the_value_changed() {
    let mut state = PlayerState::default();
    assert!(!state.set_position(0));
    assert!(state.set_position(3));
    assert!(!state.set_playback_state(&PlaybackState::Stopped));
    assert!(state.set_playback_state(&PlaybackState::Paused));
    assert!(!state.set_volume(Volume { bits: FULL_VOLUME }));
    assert!(state.set_volume(Volume { bits: 0 }));
    assert!(!state.set_current_song(None));
    let a = bilibili_music::audio::song::Song::new(data("a", "BV1", 1));
    let same = bilibili_music::audio::song::Song::new(data("other", "BV1", 1));
    let b = bilibili_music::audio::song::Song::new(data("b", "BV1", 2));
    assert!(state.set_current_song(Some(a)));
    assert!(!state.set_current_song(Some(same)));
    assert!(state.set_current_song(Some(b)));
    assert!(state.set_current_song(None));
}

fn change(song: bool, playback_state: bool, position: bool, volume: bool) -> StateChange {
    StateChange { song, playback_state, position, volume }
}

#[test]
fn observers_hear_of_what_changed_only() {
    let mut player = three();
    let cache = cache_of(&["a", "b", "c"]);
    assert_eq!(player.skip_to(0, &cache).state_changed, change(true, true, false, false));
    assert_eq!(player.skip_to(0, &cache).state_changed, StateChange::none());
    assert_eq!(player.skip_to(1, &cache).state_changed, change(true, false, false, false));
    assert_eq!(player.toggle_play().state_changed, change(false, true, false, false));
    assert_eq!(player.seek(3).state_changed, StateChange::none());
    let tick = PlayerAction::UpdatePosition(3);
    assert_eq!(player.process_action(tick, &cache).state_changed, change(false, false, true, false));
    let tick = PlayerAction::UpdatePosition(3);
    assert_eq!(player.process_action(tick, &cache).state_changed, StateChange::none());
    let level = PlayerAction::VolumeChanged(Volume { bits: 0 });
    assert_eq!(player.process_action(level, &cache).state_changed, change(false, false, false, true));
    let play = PlayerAction::PlaySong("file:///x".to_string());
    assert_eq!(player.process_action(play, &cache).state_changed, change(false, true, false, false));
    let play = PlayerAction::PlaySong("file:///x".to_string());
    assert_eq!(player.process_action(play, &cache).state_changed, StateChange::none());
    let add = PlayerAction::AddSong(data("d", "BV3", 1));
    assert_eq!(player.process_action(add, &cache).state_changed, StateChange::none());
    assert_eq!(player.skip_previous(&cache).state_changed, change(true, false, false, false));
    assert_eq!(player.skip_previous(&cache).state_changed, StateChange::none());
    assert_eq!(player.skip_to(9, &cache).state_changed, change(true, true, false, false));
    assert_eq!(player.skip_next(&cache).state_changed, StateChange::none());
}

#[test]
fn a_late_fetch_is_played_whatever_is_current() {
    let mut player = three();
    let empty = MediaCache::new();
    let effects = player.skip_to(0, &empty);
    assert_eq!(effects.download.unwrap().title(), "a");
    player.skip_to(1, &cache_of(&["b"]));
    assert_eq!(player.state().current_song().unwrap().title(), "b");
    let late = PlayerAction::PlaySong("file:///cache/a.m4a".to_string());
    let effects = player.process_action(late, &empty);
    assert_eq!(
        effects.backend,
        vec![
            BackendCommand::Stop,
            BackendCommand::SetUri(Some("file:///cache/a.m4a".to_string())),
            BackendCommand::Play
        ]
    );
    assert_eq!(player.state().current_song().unwrap().title(), "b");
    assert!(player.state().playing());
}

#[test]
fn remove_selected_removes_what_is_selected() {
    let mut player = three();
    let cache = cache_of(&["a", "b", "c"]);
    player.queue.select_song_at(0);
    player.queue.select_song_at(2);
    let removal = player.remove_selected(&cache);
    assert!(removal.save);
    assert_eq!(removal.steps.len(), 0);
    assert_eq!(removal.removed.len(), 2);
    assert_eq!(removal.removed[0].title(), "a");
    assert_eq!(removal.removed[1].title(), "c");
    assert_eq!(player.queue().n_songs(), 1);
    assert_eq!(player.queue().song_at(0).unwrap().title(), "b");
    let again = player.remove_selected(&cache);
    assert!(!again.save);
    assert_eq!(again.removed.len(), 0);
    assert_eq!(player.queue().n_songs(), 1);
}

#[test]
fn remove_selected_steps_on_from_a_playing_song() {
    let mut player = three();
    let cache = cache_of(&["a", "b", "c"]);
    player.skip_to(1, &cache);
    player.skip_previous(&cache);
    assert!(player.queue().song_at(0).unwrap().playing());
    player.queue.select_song_at(0);
    let removal = player.remove_selected(&cache);
    assert!(removal.save);
    assert_eq!(removal.steps.len(), 1);
    assert_eq!(
        removal.steps[0].backend,
        vec![BackendCommand::SetUri(uri("b")), BackendCommand::Play]
    );
    assert!(removal.steps[0].current_changed);
    assert_eq!(removal.removed.len(), 1);
    assert_eq!(removal.removed[0].title(), "a");
    assert_eq!(player.state().current_song().unwrap().title(), "b");
    assert!(player.state().playing());
    assert_eq!(player.queue().n_songs(), 2);
    assert_eq!(player.queue().song_at(0).unwrap().title(), "b");
    assert_eq!(player.queue().current_song_index(), Some(1));
}

#[test]
fn remove_selected_on_an_empty_queue_does_nothing() {
    let mut player = AudioPlayer::new(vec![]);
    let removal = player.remove_selected(&MediaCache::new());
    assert!(!removal.save);
    assert_eq!(removal.steps.len(), 0);
    assert_eq!(removal.removed.len(), 0);
}
