use bilibili_music::audio::player::RepeatMode;
use bilibili_music::audio::queue::Queue;
use bilibili_music::audio::song::{Song, SongData};

fn data(title: &str, bvid: &str, cid: u32) -> SongData {
    SongData::new(None, title.to_string(), 100, bvid.to_string(), cid, None)
}

fn song(title: &str, bvid: &str, cid: u32) -> Song {
    Song::new(data(title, bvid, cid))
}

fn three() -> Queue {
    Queue::new(vec![data("a", "BV1", 1), data("b", "BV1", 2), data("c", "BV2", 1)])
}

fn titles(queue: &Queue) -> Vec<String> {
    queue.to_vec().iter().map(|d| d.title().to_string()).collect()
}

#[test]
fn default_queue_is_empty() {
    let queue = Queue::default();
    assert!(queue.is_empty());
    assert_eq!(queue.n_songs(), 0);
    assert_eq!(queue.current_song_index(), None);
    assert!(queue.current_song().is_none());
    assert!(!queue.is_first_song());
    assert!(queue.repeat_mode == RepeatMode::Consecutive);
    assert!(!queue.model().shuffled());
    assert!(queue.song_at(0).is_none());
}

#[test]
fn add_song_skips_a_track_that_is_present() {
    let mut queue = Queue::default();
    let a = song("first title", "BV1", 1);
    let b = song("second title", "BV1", 1);
    assert!(queue.add_song(&a));
    assert!(!queue.add_song(&b));
    assert_eq!(queue.n_songs(), 1);
    assert_eq!(titles(&queue), vec!["first title"]);
}

#[test]
fn add_song_scans_every_entry() {
    let mut queue = Queue::default();
    assert!(queue.add_song(&song("a", "BV1", 1)));
    assert!(queue.add_song(&song("b", "BV1", 2)));
    assert!(queue.add_song(&song("c", "BV2", 1)));
    assert!(!queue.add_song(&song("again", "BV1", 1)));
    assert!(!queue.add_song(&song("again", "BV1", 2)));
    assert!(!queue.add_song(&song("again", "BV2", 1)));
    assert_eq!(queue.n_songs(), 3);
    assert_eq!(titles(&queue), vec!["a", "b", "c"]);
}

#[test]
fn same_text_with_another_chapter_is_another_track() {
    let mut queue = Queue::default();
    assert!(queue.add_song(&song("same", "BV1", 1)));
    assert!(queue.add_song(&song("same", "BV1", 2)));
    assert_eq!(queue.n_songs(), 2);
}

#[test]
fn new_queue_keeps_each_track_once() {
    let queue = Queue::new(vec![
        data("a", "BV1", 1),
        data("b", "BV1", 2),
        data("a again", "BV1", 1),
        data("c", "BV2", 1),
    ]);
    assert_eq!(titles(&queue), vec!["a", "b", "c"]);
    assert_eq!(queue.current_song_index(), None);
}

#[test]
fn add_songs_appends_in_order_without_duplicates() {
    let mut queue = three();
    let batch = vec![song("d", "BV3", 1), song("b again", "BV1", 2), song("e", "BV3", 2)];
    assert!(queue.add_songs(&batch));
    assert_eq!(titles(&queue), vec!["a", "b", "c", "d", "e"]);
    assert!(!queue.add_songs(&batch));
    assert_eq!(queue.n_songs(), 5);
    assert!(!queue.add_songs(&vec![]));
}

#[test]
fn add_songs_keeps_a_shuffled_queue_shuffled() {
    let mut queue = three();
    queue.model.reshuffle();
    assert!(queue.add_songs(&vec![song("d", "BV3", 1), song("e", "BV3", 2)]));
    assert!(queue.model().shuffled());
    assert_eq!(queue.n_songs(), 5);
    let mut seen = titles(&queue);
    seen.sort();
    assert_eq!(seen, vec!["a", "b", "c", "d", "e"]);
    let mut positions = queue.model.shuffle.clone().unwrap();
    positions.sort();
    assert_eq!(positions, vec![0, 1, 2, 3, 4]);
}

#[test]
fn add_song_keeps_a_shuffled_queue_shuffled() {
    let mut queue = three();
    queue.model.reshuffle();
    assert!(queue.add_song(&song("d", "BV3", 1)));
    assert!(queue.model().shuffled());
    let mut seen = titles(&queue);
    seen.sort();
    assert_eq!(seen, vec!["a", "b", "c", "d"]);
    assert_eq!(queue.model.shuffle.clone().unwrap().len(), 4);
}

#[test]
fn remove_song_removes_by_identity() {
    let mut queue = three();
    assert!(queue.remove_song(&song("other text", "BV1", 2)));
    assert_eq!(titles(&queue), vec!["a", "c"]);
    assert!(!queue.remove_song(&song("b", "BV1", 2)));
    assert_eq!(queue.n_songs(), 2);
}

#[test]
fn remove_song_leaves_the_position_alone() {
    let mut queue = three();
    queue.skip_song(1);
    assert!(queue.remove_song(&song("c", "BV2", 1)));
    assert_eq!(queue.current_song_index(), Some(1));
    assert_eq!(queue.current_song().unwrap().title(), "b");
}

#[test]
fn remove_song_reshuffles_a_shuffled_queue() {
    let mut queue = three();
    queue.model.reshuffle();
    assert!(queue.remove_song(&song("a", "BV1", 1)));
    assert!(queue.model().shuffled());
    let mut positions = queue.model.shuffle.clone().unwrap();
    positions.sort();
    assert_eq!(positions, vec![0, 1]);
    let mut seen = titles(&queue);
    seen.sort();
    assert_eq!(seen, vec!["b", "c"]);
}

#[test]
fn remove_songs_removes_each_track() {
    let mut queue = three();
    let batch = vec![song("c", "BV2", 1), song("missing", "BV9", 9), song("a", "BV1", 1)];
    assert!(queue.remove_songs(&batch));
    assert_eq!(titles(&queue), vec!["b"]);
    assert!(!queue.remove_songs(&batch));
    assert_eq!(queue.n_songs(), 1);
}

#[test]
fn skip_song_sets_the_position_unconditionally() {
    let mut queue = three();
    let step = queue.skip_song(2);
    assert!(step.notify);
    assert_eq!(step.song.unwrap().title(), "c");
    assert_eq!(queue.current_song_index(), Some(2));
    let beyond = queue.skip_song(7);
    assert!(beyond.notify);
    assert!(beyond.song.is_none());
    assert_eq!(queue.current_song_index(), Some(7));
    assert!(queue.current_song().is_none());
}

#[test]
fn next_song_starts_at_the_first_song() {
    let mut queue = three();
    let step = queue.next_song();
    assert!(step.notify);
    assert_eq!(step.song.unwrap().title(), "a");
    assert_eq!(queue.current_song_index(), Some(0));
    assert!(queue.is_first_song());
}

#[test]
fn next_song_in_an_empty_queue_does_nothing() {
    let mut queue = Queue::default();
    let step = queue.next_song();
    assert!(step.song.is_none());
    assert!(!step.notify);
    assert_eq!(queue.current_song_index(), None);
}

#[test]
fn next_song_steps_forward_in_every_mode() {
    for mode in [RepeatMode::Consecutive, RepeatMode::RepeatAll] {
        let mut queue = three();
        queue.repeat_mode = mode;
        queue.skip_song(0);
        assert_eq!(queue.next_song().song.unwrap().title(), "b");
        assert_eq!(queue.current_song_index(), Some(1));
        assert_eq!(queue.next_song().song.unwrap().title(), "c");
        assert_eq!(queue.current_song_index(), Some(2));
    }
}

#[test]
fn consecutive_ends_after_the_last_song() {
    let mut queue = three();
    queue.repeat_mode = RepeatMode::Consecutive;
    queue.skip_song(2);
    let step = queue.next_song();
    assert!(step.song.is_none());
    assert!(step.notify);
    assert_eq!(queue.current_song_index(), None);
}

#[test]
fn repeat_all_wraps_to_the_first_song() {
    let mut queue = three();
    queue.repeat_mode = RepeatMode::RepeatAll;
    queue.skip_song(2);
    let step = queue.next_song();
    assert_eq!(step.song.unwrap().title(), "a");
    assert_eq!(queue.current_song_index(), Some(0));
}

#[test]
fn repeat_one_stays_on_the_song() {
    let mut queue = three();
    queue.repeat_mode = RepeatMode::RepeatOne;
    queue.skip_song(2);
    let step = queue.next_song();
    assert!(step.notify);
    assert_eq!(step.song.unwrap().title(), "c");
    assert_eq!(queue.current_song_index(), Some(2));
    queue.skip_song(0);
    assert_eq!(queue.next_song().song.unwrap().title(), "a");
    assert_eq!(queue.current_song_index(), Some(0));
}

#[test]
fn next_song_from_a_position_beyond_the_end() {
    let mut queue = three();
    queue.repeat_mode = RepeatMode::RepeatAll;
    queue.skip_song(9);
    assert_eq!(queue.next_song().song.unwrap().title(), "a");
    assert_eq!(queue.current_song_index(), Some(0));
    queue.repeat_mode = RepeatMode::Consecutive;
    queue.skip_song(u32::MAX);
    assert!(queue.next_song().song.is_none());
    assert_eq!(queue.current_song_index(), None);
}

#[test]
fn previous_song_stops_at_the_first_song() {
    for mode in [RepeatMode::Consecutive, RepeatMode::RepeatAll, RepeatMode::RepeatOne] {
        let mut queue = three();
        queue.repeat_mode = mode;
        queue.skip_song(0);
        let step = queue.previous_song();
        assert!(step.song.is_none());
        assert!(!step.notify);
        assert_eq!(queue.current_song_index(), Some(0));
    }
}

#[test]
fn previous_song_steps_back() {
    for mode in [RepeatMode::Consecutive, RepeatMode::RepeatAll, RepeatMode::RepeatOne] {
        let mut queue = three();
        queue.repeat_mode = mode;
        queue.skip_song(1);
        let step = queue.previous_song();
        assert!(step.notify);
        assert_eq!(step.song.unwrap().title(), "a");
        assert_eq!(queue.current_song_index(), Some(0));
    }
}

#[test]
fn previous_song_without_a_position_does_nothing() {
    let mut queue = three();
    let step = queue.previous_song();
    assert!(step.song.is_none());
    assert!(!step.notify);
    assert_eq!(queue.current_song_index(), None);
}

#[test]
fn selection_is_toggled_per_song() {
    let mut queue = three();
    assert_eq!(queue.n_selected_songs(), 0);
    assert!(queue.select_song_at(1));
    assert!(queue.select_song_at(2));
    assert_eq!(queue.n_selected_songs(), 2);
    assert!(queue.song_at(1).unwrap().selected());
    assert!(!queue.song_at(0).unwrap().selected());
    assert!(queue.select_song_at(1));
    assert_eq!(queue.n_selected_songs(), 1);
    assert!(!queue.song_at(1).unwrap().selected());
    assert!(!queue.select_song_at(3));
    assert_eq!(queue.n_selected_songs(), 1);
    queue.unselect_all_songs();
    assert_eq!(queue.n_selected_songs(), 0);
    assert_eq!(queue.n_songs(), 3);
}

#[test]
fn selection_follows_the_view_order_when_shuffled() {
    let mut queue = Queue::new((0..30).map(|i| data(&format!("t{}", i), "BV1", i)).collect());
    queue.model.reshuffle();
    let picked = queue.song_at(4).unwrap().cid();
    assert!(queue.select_song_at(4));
    assert_eq!(queue.n_selected_songs(), 1);
    let selected = queue.song_at(4).unwrap();
    assert!(selected.selected());
    assert_eq!(selected.cid(), picked);
    queue.model.unshuffle();
    assert!(queue.song_at(picked).unwrap().selected());
}

#[test]
fn playing_flag_is_set_by_identity() {
    let mut queue = three();
    assert!(queue.set_playing(&data("x", "BV1", 2), true));
    assert!(queue.song_at(1).unwrap().playing());
    assert!(!queue.song_at(0).unwrap().playing());
    assert!(!queue.set_playing(&data("x", "BV1", 2), true));
    assert!(!queue.set_playing(&data("x", "BV7", 2), true));
    assert!(queue.set_playing(&data("x", "BV1", 2), false));
    assert!(!queue.song_at(1).unwrap().playing());
}

#[test]
fn to_vec_lists_the_view_order() {
    let mut queue = three();
    assert_eq!(titles(&queue), vec!["a", "b", "c"]);
    queue.model.reshuffle();
    let positions = queue.model.shuffle.clone().unwrap();
    let base = ["a", "b", "c"];
    let expected: Vec<&str> = positions.iter().map(|p| base[*p as usize]).collect();
    assert_eq!(titles(&queue), expected);
}

#[test]
fn selected_songs_lists_the_selection_in_view_order() {
    assert!(Queue::default().selected_songs().is_none());
    let mut queue = three();
    assert_eq!(queue.selected_songs().unwrap().len(), 0);
    queue.select_song_at(2);
    queue.select_song_at(0);
    let selected = queue.selected_songs().unwrap();
    assert_eq!(selected.len(), 2);
    assert_eq!(selected[0].title(), "a");
    assert_eq!(selected[1].title(), "c");
    assert!(selected[0].selected());
}
