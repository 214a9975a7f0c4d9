//! Plain records of the collection view: a video's pages and their streams.

use crate::utils::{push_decimal, two_digits};
use vstd::prelude::*;
use vstd::string::*;

verus! {

/// A followed video, named by its id.
pub struct SongCollection {
    pub bvid: String,
}

/// One entry of a collection: a page with the stream it plays from.
pub struct Song {
    pub name: String,
    pub duration: u32,
    pub play_url: String,
}

/// Mathematical value of a [`Song`].
pub ghost struct SongEntry {
    pub name: Seq<char>,
    pub duration: u32,
    pub play_url: Seq<char>,
}

impl View for Song {
    type V = SongEntry;

    open spec fn view(&self) -> SongEntry {
        SongEntry { name: self.name@, duration: self.duration, play_url: self.play_url@ }
    }
}

impl Clone for Song {
    fn clone(&self) -> (copy: Self)
        ensures
            copy@ == self@,
    {
        Song {
            name: self.name.clone(),
            duration: self.duration,
            play_url: self.play_url.clone(),
        }
    }
}

/// A duration of `duration` seconds written as two or more digits of
/// minutes, a colon, and two digits of seconds.
pub open spec fn duration_text(duration: u32) -> Seq<char> {
    two_digits((duration / 60) as nat) + seq![':'] + two_digits((duration % 60) as nat)
}

/// The position `inc` steps from `cur` in a list of `len` entries, where
/// that is a position of the list.
pub open spec fn stepped(cur: usize, inc: i32, len: usize) -> Option<usize> {
    if 0 <= cur + inc < len {
        Some((cur + inc) as usize)
    } else {
        None
    }
}

/// The position to play after a step of `inc` from `cur`; nothing where the
/// step leaves the list.
pub fn step_index(cur: usize, inc: i32, len: usize) -> (next: Option<usize>)
    ensures
        next == stepped(cur, inc, len),
{
    if inc >= 0 {
        let forward = inc as usize;
        if cur < len && forward < len - cur {
            Some(cur + forward)
        } else {
            None
        }
    } else {
        let back = (-(inc as i64)) as usize;
        if back <= cur && cur - back < len {
            Some(cur - back)
        } else {
            None
        }
    }
}

/// One audio stream of a page.
pub struct SongInfo {
    pub base_url: String,
}

/// One page of a video.
pub struct PageInfo {
    pub cid: u32,
    pub part: String,
    pub duration: u32,
}

impl Song {
    /// The duration as shown in the list of songs.
    pub fn duration_text(&self) -> (text: String)
        ensures
            text@ == duration_text(self.duration),
    {
        let minutes: u32 = self.duration / 60;
        let seconds: u32 = self.duration % 60;
        let mut text = String::new();
        if minutes < 10 {
            text.append("0");
        }
        push_decimal(&mut text, minutes as u64);
        text.append(":");
        if seconds < 10 {
            text.append("0");
        }
        push_decimal(&mut text, seconds as u64);
        proof {
            reveal_strlit("0");
            reveal_strlit(":");
            assert(text@ =~= duration_text(self.duration));
        }
        text
    }
}

impl SongCollection {
    /// The collection of the video `bvid`.
    pub fn new(bvid: &str) -> (collection: Self)
        ensures
            collection.bvid@ == bvid@,
    {
        let bvid = String::from_str(bvid);
        SongCollection { bvid }
    }

    /// The entry that stands for `page`, played from the first of `streams`;
    /// nothing where the page has no stream.
    pub fn song_of_page(page: &PageInfo, streams: &Vec<SongInfo>) -> (song: Option<Song>)
        ensures
            song is Some == (streams@.len() > 0),
            song is Some ==> song.unwrap().name@ == page.part@ && song.unwrap().duration
                == page.duration && song.unwrap().play_url@ == streams@[0].base_url@,
    {
        if streams.len() > 0 {
            Some(
                Song {
                    name: page.part.clone(),
                    play_url: streams[0].base_url.clone(),
                    duration: page.duration,
                },
            )
        } else {
            None
        }
    }
}

} // verus!
