use bilibili_music::music::collectionlist::CollectionList;
use bilibili_music::music::data::{step_index, Song};

fn song(name: &str, duration: u32) -> Song {
    Song { name: name.to_string(), duration, play_url: format!("https://{}", name) }
}

fn names(list: &CollectionList, bvid: &str) -> Option<Vec<String>> {
    list.get_collection(&bvid.to_string())
        .map(|songs| songs.iter().map(|s| s.name.clone()).collect())
}

#[test]
fn new_list_shows_the_empty_collection_of_all_songs() {
    let list = CollectionList::new();
    assert_eq!(list.cur_bvid, "all");
    assert_eq!(list.get_collection_size(), 0);
    assert_eq!(names(&list, "all"), Some(vec![]));
    assert_eq!(names(&list, "BV1"), None);
}

#[test]
fn add_collection_keeps_an_existing_collection() {
    let mut list = CollectionList::new();
    list.add_collection(&"BV1".to_string());
    list.add_song(&"BV1".to_string(), &song("a", 1));
    list.add_collection(&"BV1".to_string());
    assert_eq!(names(&list, "BV1"), Some(vec!["a".to_string()]));
    assert_eq!(list.playlist_map.len(), 2);
}

#[test]
fn add_song_goes_to_its_video_and_to_all() {
    let mut list = CollectionList::new();
    list.add_collection(&"BV1".to_string());
    list.add_collection(&"BV2".to_string());
    list.add_song(&"BV1".to_string(), &song("a", 1));
    list.add_song(&"BV2".to_string(), &song("b", 2));
    list.add_song(&"BV1".to_string(), &song("c", 3));
    assert_eq!(names(&list, "BV1"), Some(vec!["a".to_string(), "c".to_string()]));
    assert_eq!(names(&list, "BV2"), Some(vec!["b".to_string()]));
    assert_eq!(
        names(&list, "all"),
        Some(vec!["a".to_string(), "b".to_string(), "c".to_string()])
    );
    assert_eq!(list.get_collection_size(), 3);
    assert_eq!(list.get_song(1).name, "b");
    assert_eq!(list.get_song(1).play_url, "https://b");
}

#[test]
fn add_song_to_all_appends_twice() {
    let mut list = CollectionList::new();
    list.add_song(&"all".to_string(), &song("a", 1));
    assert_eq!(names(&list, "all"), Some(vec!["a".to_string(), "a".to_string()]));
}

#[test]
fn shown_collection_decides_the_row() {
    let mut list = CollectionList::new();
    list.add_collection(&"BV1".to_string());
    list.add_collection(&"BV2".to_string());
    assert_eq!(list.add_song_shown(&"BV1".to_string(), &song("a", 1)), Some(0));
    assert_eq!(list.add_song_shown(&"BV2".to_string(), &song("b", 1)), Some(1));
    list.cur_bvid = "BV1".to_string();
    assert_eq!(list.add_song_shown(&"BV2".to_string(), &song("c", 1)), None);
    assert_eq!(list.add_song_shown(&"BV1".to_string(), &song("d", 1)), Some(1));
    assert_eq!(list.get_collection_size(), 2);
    assert_eq!(list.get_song(1).name, "d");
    assert_eq!(names(&list, "all").unwrap().len(), 4);
}

#[test]
fn duration_text_pads_minutes_and_seconds() {
    assert_eq!(song("a", 0).duration_text(), "00:00");
    assert_eq!(song("a", 65).duration_text(), "01:05");
    assert_eq!(song("a", 600).duration_text(), "10:00");
    assert_eq!(song("a", 6001).duration_text(), "100:01");
    assert_eq!(song("a", u32::MAX).duration_text(), "71582788:15");
}

#[test]
fn step_index_stays_within_the_list() {
    assert_eq!(step_index(0, 1, 3), Some(1));
    assert_eq!(step_index(1, 1, 3), Some(2));
    assert_eq!(step_index(2, 1, 3), None);
    assert_eq!(step_index(2, -1, 3), Some(1));
    assert_eq!(step_index(0, -1, 3), None);
    assert_eq!(step_index(0, 0, 0), None);
    assert_eq!(step_index(5, -3, 3), Some(2));
    assert_eq!(step_index(5, -2, 3), None);
    assert_eq!(step_index(usize::MAX, 1, usize::MAX), None);
    assert_eq!(step_index(usize::MAX, i32::MIN, usize::MAX), Some(usize::MAX - (1 << 31)));
    assert_eq!(step_index(0, i32::MIN, 3), None);
    assert_eq!(step_index(0, i32::MAX, usize::MAX), Some(i32::MAX as usize));
}
