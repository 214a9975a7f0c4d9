use bilibili_music::music::config::{Bv, Config};
use bilibili_music::music::data::{PageInfo, SongCollection, SongInfo};

#[test]
fn new_entry_hides_nothing() {
    let bv = Bv::new(&"BV16".to_string());
    assert_eq!(bv.bvid, "BV16");
    assert!(bv.blacklist.is_empty());
}

#[test]
fn new_config_is_empty() {
    assert!(Config::new().bv_list.is_empty());
}

#[test]
fn add_bv_follows_a_video_once() {
    let mut config = Config::new();
    assert!(config.add_bv(&"BV1".to_string()));
    assert!(config.add_bv(&"BV2".to_string()));
    assert!(!config.add_bv(&"BV1".to_string()));
    assert!(!config.add_bv(&"BV2".to_string()));
    let ids: Vec<&str> = config.bv_list.iter().map(|b| b.bvid.as_str()).collect();
    assert_eq!(ids, vec!["BV1", "BV2"]);
}

#[test]
fn collection_is_named_by_its_video() {
    assert_eq!(SongCollection::new("BV16").bvid, "BV16");
}

#[test]
fn page_plays_from_its_first_stream() {
    let page = PageInfo { cid: 4, part: "part".to_string(), duration: 61 };
    assert!(SongCollection::song_of_page(&page, &vec![]).is_none());
    let streams = vec![
        SongInfo { base_url: "https://one".to_string() },
        SongInfo { base_url: "https://two".to_string() },
    ];
    let song = SongCollection::song_of_page(&page, &streams).unwrap();
    assert_eq!(song.name, "part");
    assert_eq!(song.duration, 61);
    assert_eq!(song.play_url, "https://one");
}
