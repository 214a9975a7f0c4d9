//! Songs: the immutable description of a track and its playback flags.

use crate::bilibili::data::{
    all_episodes, pages_view, BvidInfo, BvidInfoView, EpisodeView, PageView,
};
use vstd::prelude::*;
use vstd::std_specs::cmp::PartialEqSpecImpl;
use vstd::string::*;

verus! {

/// Mathematical value of a [`SongData`].
pub ghost struct SongDataView {
    pub artist: Option<Seq<char>>,
    pub title: Seq<char>,
    pub duration: u64,
    pub bvid: Seq<char>,
    pub cid: u32,
    pub album: Option<Seq<char>>,
}

/// Two descriptions name the same track when video id and chapter id agree;
/// title, artist and album play no part.
pub open spec fn same_identity(a: SongDataView, b: SongDataView) -> bool {
    a.bvid == b.bvid && a.cid == b.cid
}

/// `text` with every path separator replaced by a comma.
pub open spec fn escaped(text: Seq<char>) -> Seq<char> {
    text.map_values(
        |c: char|
            if c == '/' {
                ','
            } else {
                c
            },
    )
}

/// The extension of every cached media file.
pub open spec fn media_suffix() -> Seq<char> {
    seq!['.', 'm', '4', 'a']
}

/// The cache key of a track: the escaped album and a hyphen where there is an
/// album, then the escaped title and the media extension.
pub open spec fn file_name_of(data: SongDataView) -> Seq<char> {
    match data.album {
        Some(album) => escaped(album) + seq!['-'] + escaped(data.title) + media_suffix(),
        None => escaped(data.title) + media_suffix(),
    }
}

/// The track that stands for a video of one page that belongs to no season.
pub open spec fn single_song(bvid: Seq<char>, info: BvidInfoView) -> SongDataView {
    SongDataView {
        artist: Some(info.author),
        title: info.title,
        duration: info.pages[0].duration,
        bvid,
        cid: info.pages[0].cid,
        album: None,
    }
}

/// The track that stands for one episode of a season.
pub open spec fn episode_song(info: BvidInfoView, episode: EpisodeView) -> SongDataView {
    SongDataView {
        artist: Some(info.author),
        title: episode.page.part,
        duration: episode.page.duration,
        bvid: episode.bvid,
        cid: episode.page.cid,
        album: None,
    }
}

/// The track that stands for one page of a video of several pages.
pub open spec fn page_song(bvid: Seq<char>, info: BvidInfoView, page: PageView) -> SongDataView {
    SongDataView {
        artist: Some(info.author),
        title: page.part,
        duration: page.duration,
        bvid,
        cid: page.cid,
        album: Some(info.title),
    }
}

/// The tracks of a video. A video of one page gives one track without album,
/// or, where it belongs to a season, one track without album per episode of
/// the season. Any other video gives one track per page, with the video's
/// title as album.
pub open spec fn songs_of(bvid: Seq<char>, info: BvidInfoView) -> Seq<SongDataView> {
    if info.pages.len() == 1 {
        match info.sections {
            Some(sections) => all_episodes(sections).map_values(
                |e: EpisodeView| episode_song(info, e),
            ),
            None => seq![single_song(bvid, info)],
        }
    } else {
        info.pages.map_values(|p: PageView| page_song(bvid, info, p))
    }
}

/// The description that stands in where no track is known yet.
pub open spec fn placeholder_data() -> SongDataView {
    SongDataView {
        artist: Some("Invalid Artist"@),
        title: "Invalid Title"@,
        duration: 0,
        bvid: "Invalid bvid"@,
        cid: 0,
        album: Some("Invalid Album"@),
    }
}

/// The values of a sequence of track descriptions.
pub open spec fn songs_view(songs: Seq<SongData>) -> Seq<SongDataView> {
    songs.map_values(|s: SongData| s@)
}

/// The value of an optional string.
pub open spec fn text_view(text: Option<String>) -> Option<Seq<char>> {
    match text {
        Some(t) => Some(t@),
        None => None,
    }
}

/// The value of an optional string slice.
pub open spec fn str_view(text: Option<&str>) -> Option<Seq<char>> {
    match text {
        Some(t) => Some(t@),
        None => None,
    }
}

fn clone_text(text: &Option<String>) -> (copy: Option<String>)
    ensures
        text_view(copy) == text_view(*text),
{
    match text {
        Some(t) => Some(t.clone()),
        None => None,
    }
}

/// Immutable description of one playable track.
#[derive(Debug)]
pub struct SongData {
    artist: Option<String>,
    title: String,
    duration: u64,
    bvid: String,
    cid: u32,
    album: Option<String>,
}

impl View for SongData {
    type V = SongDataView;

    closed spec fn view(&self) -> SongDataView {
        SongDataView {
            artist: text_view(self.artist),
            title: self.title@,
            duration: self.duration,
            bvid: self.bvid@,
            cid: self.cid,
            album: text_view(self.album),
        }
    }
}

impl Default for SongData {
    fn default() -> (data: Self)
        ensures
            data@ == placeholder_data(),
    {
        SongData {
            artist: Some(String::from_str("Invalid Artist")),
            title: String::from_str("Invalid Title"),
            duration: 0,
            bvid: String::from_str("Invalid bvid"),
            cid: 0,
            album: Some(String::from_str("Invalid Album")),
        }
    }
}

impl Clone for SongData {
    fn clone(&self) -> (copy: Self)
        ensures
            copy@ == self@,
    {
        SongData {
            artist: clone_text(&self.artist),
            title: self.title.clone(),
            duration: self.duration,
            bvid: self.bvid.clone(),
            cid: self.cid,
            album: clone_text(&self.album),
        }
    }
}

impl PartialEq for SongData {
    fn eq(&self, other: &Self) -> (equal: bool) {
        self.bvid == other.bvid && self.cid == other.cid
    }
}

impl PartialEqSpecImpl for SongData {
    open spec fn obeys_eq_spec() -> bool {
        true
    }

    open spec fn eq_spec(&self, other: &Self) -> bool {
        same_identity(self@, other@)
    }
}

impl SongData {
    /// Describes a track.
    pub fn new(
        artist: Option<String>,
        title: String,
        duration: u64,
        bvid: String,
        cid: u32,
        album: Option<String>,
    ) -> (data: Self)
        ensures
            data@ == (SongDataView {
                artist: text_view(artist),
                title: title@,
                duration,
                bvid: bvid@,
                cid,
                album: text_view(album),
            }),
    {
        SongData { artist, title, duration, bvid, cid, album }
    }

    /// The album, if the track has one.
    pub fn album(&self) -> (album: Option<&str>)
        ensures
            str_view(album) == self@.album,
    {
        match &self.album {
            Some(a) => Some(a.as_str()),
            None => None,
        }
    }

    /// The artist, if known.
    pub fn artist(&self) -> (artist: Option<&str>)
        ensures
            str_view(artist) == self@.artist,
    {
        match &self.artist {
            Some(a) => Some(a.as_str()),
            None => None,
        }
    }

    /// The title.
    pub fn title(&self) -> (title: &str)
        ensures
            title@ == self@.title,
    {
        self.title.as_str()
    }

    /// Replaces every path separator of `s` by a comma.
    pub fn escape(s: &str) -> (out: String)
        ensures
            out@ == escaped(s@),
    {
        let n = s.unicode_len();
        let mut out = String::new();
        let mut i: usize = 0;
        assert(out@ =~= escaped(s@).take(0));
        while i < n
            invariant
                i <= n,
                n == s@.len(),
                out@ == escaped(s@).take(i as int),
            decreases n - i,
        {
            let c = s.get_char(i);
            if c == '/' {
                proof {
                    reveal_strlit(",");
                }
                out.append(",");
            } else {
                out.append(s.substring_char(i, i + 1));
            }
            assert(out@ =~= escaped(s@).take(i + 1));
            i = i + 1;
        }
        assert(escaped(s@).take(i as int) =~= escaped(s@));
        out
    }

    /// The name under which the track's media file is cached.
    pub fn file_name(&self) -> (name: String)
        ensures
            name@ == file_name_of(self@),
    {
        proof {
            reveal_strlit(".m4a");
            reveal_strlit("-");
            assert(".m4a"@ =~= media_suffix());
        }
        let suffix: &str = ".m4a";
        match self.album() {
            Some(album) => {
                let mut s = Self::escape(album);
                s.append("-");
                let title = Self::escape(self.title());
                s.append(title.as_str());
                s.append(suffix);
                assert(s@ =~= file_name_of(self@));
                s
            },
            None => {
                let mut s = Self::escape(self.title());
                s.append(suffix);
                s
            },
        }
    }

    /// The duration in seconds.
    pub fn duration(&self) -> (duration: u64)
        ensures
            duration == self@.duration,
    {
        self.duration
    }

    /// The id of the video the track comes from.
    pub fn bvid(&self) -> (bvid: String)
        ensures
            bvid@ == self@.bvid,
    {
        self.bvid.clone()
    }

    /// The id of the track's chapter within its video.
    pub fn cid(&self) -> (cid: u32)
        ensures
            cid == self@.cid,
    {
        self.cid
    }

    /// The tracks of the video `bvid`, given what the metadata lookup told
    /// about it.
    pub fn from_bvid(bvid: &str, bvid_info: &BvidInfo) -> (songs: Vec<SongData>)
        ensures
            songs_view(songs@) == songs_of(bvid@, bvid_info@),
    {
        let mut songs: Vec<SongData> = Vec::new();
        let ghost info = bvid_info@;
        let pages = bvid_info.get_pages();
        assert(pages_view(pages@).len() == pages@.len());
        if pages.len() == 1 {
            match bvid_info.get_episodes() {
                Some(episodes) => {
                    let ghost target = all_episodes(info.sections.unwrap());
                    let mut i: usize = 0;
                    assert(songs_view(songs@) =~= songs_of(bvid@, info).take(0));
                    while i < episodes.len()
                        invariant
                            i <= episodes.len(),
                            info == bvid_info@,
                            info.pages.len() == 1,
                            info.sections is Some,
                            target == all_episodes(info.sections.unwrap()),
                            target.len() == episodes@.len(),
                            forall|k: int| 0 <= k < episodes@.len() ==> episodes@[k]@ == target[k],
                            songs_view(songs@) == songs_of(bvid@, info).take(i as int),
                        decreases episodes.len() - i,
                    {
                        let episode = &episodes[i];
                        let song_data = SongData {
                            artist: Some(bvid_info.get_author().clone()),
                            title: episode.page.part.clone(),
                            album: None,
                            duration: episode.page.duration,
                            bvid: episode.bvid.clone(),
                            cid: episode.page.cid,
                        };
                        let ghost prev = songs@;
                        songs.push(song_data);
                        proof {
                            assert(song_data@ == episode_song(info, target[i as int]));
                            assert(songs_view(songs@) =~= songs_view(prev).push(song_data@));
                            assert(songs_view(songs@) =~= songs_of(bvid@, info).take(i + 1));
                        }
                        i = i + 1;
                    }
                    assert(songs_of(bvid@, info).take(i as int) =~= songs_of(bvid@, info));
                },
                None => {
                    let page = &pages[0];
                    let song_data = SongData {
                        artist: Some(bvid_info.get_author().clone()),
                        title: bvid_info.get_titile().clone(),
                        album: None,
                        duration: page.duration,
                        bvid: String::from_str(bvid),
                        cid: page.cid,
                    };
                    songs.push(song_data);
                    proof {
                        assert(pages_view(pages@)[0] == pages@[0]@);
                        assert(song_data@ == single_song(bvid@, info));
                        assert(songs_view(songs@) =~= seq![single_song(bvid@, info)]);
                    }
                },
            }
        } else {
            let mut i: usize = 0;
            assert(songs_view(songs@) =~= songs_of(bvid@, info).take(0));
            while i < pages.len()
                invariant
                    i <= pages.len(),
                    info == bvid_info@,
                    info.pages.len() != 1,
                    pages_view(pages@) == info.pages,
                    songs_view(songs@) == songs_of(bvid@, info).take(i as int),
                decreases pages.len() - i,
            {
                let page = &pages[i];
                let song_data = SongData {
                    artist: Some(bvid_info.get_author().clone()),
                    title: page.part.clone(),
                    album: Some(bvid_info.get_titile().clone()),
                    duration: page.duration,
                    bvid: String::from_str(bvid),
                    cid: page.cid,
                };
                let ghost prev = songs@;
                songs.push(song_data);
                proof {
                    assert(pages_view(pages@)[i as int] == pages@[i as int]@);
                    assert(song_data@ == page_song(bvid@, info, info.pages[i as int]));
                    assert(songs_view(songs@) =~= songs_view(prev).push(song_data@));
                    assert(songs_view(songs@) =~= songs_of(bvid@, info).take(i + 1));
                }
                i = i + 1;
            }
            assert(songs_of(bvid@, info).take(i as int) =~= songs_of(bvid@, info));
        }
        songs
    }
}

/// Mathematical value of a [`Song`].
pub ghost struct SongView {
    pub data: SongDataView,
    pub playing: bool,
    pub selected: bool,
}

/// A track in the queue: its description and two independent flags.
#[derive(Debug)]
pub struct Song {
    pub data: SongData,
    pub playing: bool,
    pub selected: bool,
}

impl View for Song {
    type V = SongView;

    open spec fn view(&self) -> SongView {
        SongView { data: self.data@, playing: self.playing, selected: self.selected }
    }
}

impl Default for Song {
    fn default() -> (song: Self)
        ensures
            song@ == (SongView { data: placeholder_data(), playing: false, selected: false }),
    {
        Self::empty()
    }
}

impl Clone for Song {
    fn clone(&self) -> (copy: Self)
        ensures
            copy@ == self@,
    {
        Song { data: self.data.clone(), playing: self.playing, selected: self.selected }
    }
}

/// One media file of the local cache: the name it is stored under and the
/// locator a media backend opens it by.
pub struct CachedFile {
    pub file_name: String,
    pub uri: String,
}

/// The locator of the first of `files` stored under `name`, if there is one.
pub open spec fn cached_uri(files: Seq<CachedFile>, name: Seq<char>) -> Option<Seq<char>>
    decreases files.len(),
{
    if files.len() == 0 {
        None
    } else if files[0].file_name@ == name {
        Some(files[0].uri@)
    } else {
        cached_uri(files.drop_first(), name)
    }
}

/// A snapshot of the local media cache.
pub struct MediaCache {
    pub files: Vec<CachedFile>,
}

impl MediaCache {
    /// A cache that holds no file.
    pub fn new() -> (cache: Self)
        ensures
            cache.files@.len() == 0,
    {
        MediaCache { files: Vec::new() }
    }

    /// Records that the file `file_name` is present and opened by `uri`.
    pub fn insert(&mut self, file_name: String, uri: String)
        ensures
            final(self).files@ == old(self).files@.push(CachedFile { file_name, uri }),
    {
        self.files.push(CachedFile { file_name, uri });
    }

    /// The locator of the file stored under `file_name`, if the cache holds one.
    pub fn lookup(&self, file_name: &str) -> (uri: Option<String>)
        ensures
            text_view(uri) == cached_uri(self.files@, file_name@),
    {
        let name = String::from_str(file_name);
        let mut i: usize = 0;
        assert(self.files@.skip(0) =~= self.files@);
        while i < self.files.len()
            invariant
                i <= self.files.len(),
                name@ == file_name@,
                cached_uri(self.files@, name@) == cached_uri(self.files@.skip(i as int), name@),
            decreases self.files.len() - i,
        {
            assert(self.files@.skip(i as int).drop_first() =~= self.files@.skip(i + 1));
            if self.files[i].file_name == name {
                return Some(self.files[i].uri.clone());
            }
            i = i + 1;
        }
        None
    }
}

impl Song {
    /// Wraps a description into a song that is neither playing nor selected.
    pub fn new(data: SongData) -> (song: Self)
        ensures
            song@ == (SongView { data: data@, playing: false, selected: false }),
    {
        Song { data, playing: false, selected: false }
    }

    /// A song with the placeholder description.
    pub fn empty() -> (song: Self)
        ensures
            song@ == (SongView { data: placeholder_data(), playing: false, selected: false }),
    {
        Song { data: SongData::default(), playing: false, selected: false }
    }

    /// Whether the song is selected.
    pub fn selected(&self) -> (selected: bool)
        ensures
            selected == self@.selected,
    {
        self.selected
    }

    /// Sets the selection flag. The result tells whether the flag changed, and
    /// so whether observers of the flag are to be notified.
    pub fn set_selected(&mut self, selected: bool) -> (changed: bool)
        ensures
            final(self)@ == (SongView { selected, ..old(self)@ }),
            changed == (old(self)@.selected != selected),
    {
        let was_selected = self.selected;
        self.selected = selected;
        was_selected != selected
    }

    /// Sets the playing flag. The result tells whether the flag changed, and
    /// so whether observers of the flag are to be notified.
    pub fn set_playing(&mut self, playing: bool) -> (changed: bool)
        ensures
            final(self)@ == (SongView { playing, ..old(self)@ }),
            changed == (old(self)@.playing != playing),
    {
        let was_playing = self.playing;
        self.playing = playing;
        was_playing != playing
    }

    /// The artist, or a placeholder where none is known.
    pub fn artist(&self) -> (artist: String)
        ensures
            artist@ == match self@.data.artist {
                Some(a) => a,
                None => "Unknown artist"@,
            },
    {
        match self.data.artist() {
            Some(artist) => String::from_str(artist),
            None => String::from_str("Unknown artist"),
        }
    }

    /// The title.
    pub fn title(&self) -> (title: String)
        ensures
            title@ == self@.data.title,
    {
        String::from_str(self.data.title())
    }

    /// The name under which the song's media file is cached.
    pub fn file_name(&self) -> (name: String)
        ensures
            name@ == file_name_of(self@.data),
    {
        self.data.file_name()
    }

    /// The album, or a placeholder where the song has none.
    pub fn album(&self) -> (album: String)
        ensures
            album@ == match self@.data.album {
                Some(a) => a,
                None => "Unknown album"@,
            },
    {
        match self.data.album() {
            Some(album) => String::from_str(album),
            None => String::from_str("Unknown album"),
        }
    }

    /// The duration in seconds.
    pub fn duration(&self) -> (duration: u64)
        ensures
            duration == self@.data.duration,
    {
        self.data.duration()
    }

    /// The id of the video the song comes from.
    pub fn bvid(&self) -> (bvid: String)
        ensures
            bvid@ == self@.data.bvid,
    {
        self.data.bvid()
    }

    /// The id of the song's chapter within its video.
    pub fn cid(&self) -> (cid: u32)
        ensures
            cid == self@.data.cid,
    {
        self.data.cid()
    }

    /// The locator of the song's media file where `cache` holds it, and
    /// nothing otherwise.
    pub fn uri(&self, cache: &MediaCache) -> (uri: Option<String>)
        ensures
            text_view(uri) == cached_uri(cache.files@, file_name_of(self@.data)),
    {
        let name = self.file_name();
        cache.lookup(name.as_str())
    }

    /// A copy of the song's description.
    pub fn song_data(&self) -> (data: SongData)
        ensures
            data@ == self@.data,
    {
        self.data.clone()
    }

    /// Whether both songs are the same track.
    pub fn equals(&self, other: &Self) -> (equal: bool)
        ensures
            equal == same_identity(self@.data, other@.data),
    {
        self.data == other.data
    }

    /// Whether the song is playing.
    pub fn playing(&self) -> (playing: bool)
        ensures
            playing == self@.playing,
    {
        self.playing
    }
}

} // verus!
