//! The collections of the collection view: for every followed video its
//! songs, and under one reserved name the songs of all of them.

use crate::music::data::{Song, SongEntry};
use vstd::prelude::*;
use vstd::string::*;

verus! {

/// The songs of one video.
pub struct Collection {
    pub bvid: String,
    pub songs: Vec<Song>,
}

/// The values of a sequence of songs.
pub open spec fn entries(songs: Seq<Song>) -> Seq<SongEntry> {
    songs.map_values(|s: Song| s@)
}

/// The name of the collection that holds every song.
pub open spec fn first_key() -> Seq<char> {
    "all"@
}

/// The collection at `k` is that of the video `bvid`.
pub open spec fn key_at(list: Seq<Collection>, bvid: Seq<char>, k: int) -> bool {
    0 <= k < list.len() && list[k].bvid@ == bvid
}

/// The collection at `k` is the first that is that of the video `bvid`.
pub open spec fn is_first_key(list: Seq<Collection>, bvid: Seq<char>, k: int) -> bool {
    &&& key_at(list, bvid, k)
    &&& forall|j: int| 0 <= j < k ==> !#[trigger] key_at(list, bvid, j)
}

/// The index of the collection of the video `bvid`, if there is one.
pub open spec fn find(list: Seq<Collection>, bvid: Seq<char>) -> Option<int> {
    if exists|k: int| is_first_key(list, bvid, k) {
        Some(choose|k: int| is_first_key(list, bvid, k))
    } else {
        None
    }
}

/// Where `k` is the first collection of the video, `find` finds it.
pub proof fn lemma_find_found(list: Seq<Collection>, bvid: Seq<char>, k: int)
    requires
        is_first_key(list, bvid, k),
    ensures
        find(list, bvid) == Some(k),
{
    let c = choose|c: int| is_first_key(list, bvid, c);
    if c < k {
        assert(key_at(list, bvid, c));
    } else if k < c {
        assert(key_at(list, bvid, k));
    }
}

/// Two lists that name the same videos at the same indices find every video
/// at the same index.
pub proof fn lemma_same_keys(before: Seq<Collection>, after: Seq<Collection>, bvid: Seq<char>)
    requires
        before.len() == after.len(),
        forall|k: int| 0 <= k < before.len() ==> (#[trigger] before[k]).bvid == after[k].bvid,
    ensures
        find(after, bvid) == find(before, bvid),
{
    assert forall|k: int| key_at(after, bvid, k) == key_at(before, bvid, k) by {
        if 0 <= k < before.len() {
            assert(before[k].bvid == after[k].bvid);
        }
    }
    match find(before, bvid) {
        Some(k) => {
            assert(is_first_key(before, bvid, k));
            assert(is_first_key(after, bvid, k));
            lemma_find_found(after, bvid, k);
        },
        None => {
            if exists|k: int| is_first_key(after, bvid, k) {
                let k = choose|k: int| is_first_key(after, bvid, k);
                assert(is_first_key(before, bvid, k));
            }
        },
    }
}

/// The collections by video, and the video whose collection is shown.
pub struct CollectionList {
    pub playlist_map: Vec<Collection>,
    pub cur_bvid: String,
}

impl View for CollectionList {
    type V = Map<Seq<char>, Seq<SongEntry>>;

    /// The songs of every video that has a collection.
    open spec fn view(&self) -> Map<Seq<char>, Seq<SongEntry>> {
        Map::new(
            |bvid: Seq<char>| find(self.playlist_map@, bvid) is Some,
            |bvid: Seq<char>|
                entries(self.playlist_map@[find(self.playlist_map@, bvid).unwrap()].songs@),
        )
    }
}

impl CollectionList {
    fn position(&self, bvid: &String) -> (found: Option<usize>)
        ensures
            match found {
                Some(k) => find(self.playlist_map@, bvid@) == Some(k as int) && k
                    < self.playlist_map@.len(),
                None => find(self.playlist_map@, bvid@) is None,
            },
    {
        let mut i: usize = 0;
        while i < self.playlist_map.len()
            invariant
                i <= self.playlist_map.len(),
                forall|j: int| 0 <= j < i ==> !#[trigger] key_at(self.playlist_map@, bvid@, j),
            decreases self.playlist_map.len() - i,
        {
            if self.playlist_map[i].bvid == *bvid {
                proof {
                    lemma_find_found(self.playlist_map@, bvid@, i as int);
                }
                return Some(i);
            }
            i = i + 1;
        }
        None
    }

    /// The index of the collection that is shown.
    fn shown(&self) -> (k: usize)
        requires
            self@.contains_key(self.cur_bvid@),
        ensures
            find(self.playlist_map@, self.cur_bvid@) == Some(k as int),
            k < self.playlist_map@.len(),
    {
        let ghost goal = find(self.playlist_map@, self.cur_bvid@).unwrap();
        assert(is_first_key(self.playlist_map@, self.cur_bvid@, goal));
        let n = self.playlist_map.len();
        let mut k: usize = 0;
        while !(self.playlist_map[k].bvid == self.cur_bvid)
            invariant
                k <= goal < n,
                n == self.playlist_map@.len(),
                is_first_key(self.playlist_map@, self.cur_bvid@, goal),
            decreases goal - k,
        {
            k = k + 1;
        }
        assert(key_at(self.playlist_map@, self.cur_bvid@, k as int));
        k
    }

    /// The list that holds the empty collection of all songs, which is shown.
    pub fn new() -> (list: Self)
        ensures
            list@ == Map::<Seq<char>, Seq<SongEntry>>::empty().insert(first_key(), Seq::empty()),
            list.cur_bvid@ == first_key(),
    {
        let mut playlist_map: Vec<Collection> = Vec::new();
        playlist_map.push(Collection { bvid: String::from_str("all"), songs: Vec::new() });
        let list = CollectionList { playlist_map, cur_bvid: String::from_str("all") };
        proof {
            lemma_find_found(list.playlist_map@, first_key(), 0);
            assert forall|bvid: Seq<char>| bvid != first_key() implies find(
                list.playlist_map@,
                bvid,
            ) is None by {
                if exists|k: int| is_first_key(list.playlist_map@, bvid, k) {
                    let k = choose|k: int| is_first_key(list.playlist_map@, bvid, k);
                    assert(key_at(list.playlist_map@, bvid, k));
                }
            }
            assert(entries(list.playlist_map@[0].songs@) =~= Seq::empty());
            assert(list@ =~= Map::<Seq<char>, Seq<SongEntry>>::empty().insert(
                first_key(),
                Seq::empty(),
            ));
        }
        list
    }

    /// The song at `index` of the collection that is shown.
    pub fn get_song(&self, index: usize) -> (song: &Song)
        requires
            self@.contains_key(self.cur_bvid@),
            index < self@[self.cur_bvid@].len(),
        ensures
            song@ == self@[self.cur_bvid@][index as int],
    {
        let k = self.shown();
        &self.playlist_map[k].songs[index]
    }

    /// The songs of the video `bvid`, if it has a collection.
    pub fn get_collection(&self, bvid: &String) -> (songs: Option<&Vec<Song>>)
        ensures
            songs is Some == self@.contains_key(bvid@),
            songs is Some ==> entries(songs.unwrap()@) == self@[bvid@],
    {
        match self.position(bvid) {
            Some(k) => Some(&self.playlist_map[k].songs),
            None => None,
        }
    }

    /// The number of songs of the collection that is shown.
    pub fn get_collection_size(&self) -> (size: usize)
        requires
            self@.contains_key(self.cur_bvid@),
        ensures
            size == self@[self.cur_bvid@].len(),
    {
        let k = self.shown();
        self.playlist_map[k].songs.len()
    }

    /// Appends a copy of `song` to the collection of the video `bvid`, and
    /// then to the collection of all songs.
    pub fn add_song(&mut self, bvid: &String, song: &Song)
        requires
            old(self)@.contains_key(bvid@),
            old(self)@.contains_key(first_key()),
        ensures
            final(self).cur_bvid == old(self).cur_bvid,
            ({
                let once = old(self)@.insert(bvid@, old(self)@[bvid@].push(song@));
                final(self)@ == once.insert(first_key(), once[first_key()].push(song@))
            }),
    {
        let all = String::from_str("all");
        let ghost before = self.playlist_map@;
        match self.position(bvid) {
            Some(k) => {
                self.playlist_map[k].songs.push(song.clone());
            },
            None => {},
        }
        let ghost middle = self.playlist_map@;
        proof {
            assert forall|key: Seq<char>| find(middle, key) == find(before, key) by {
                lemma_same_keys(before, middle, key);
            }
        }
        match self.position(&all) {
            Some(a) => {
                self.playlist_map[a].songs.push(song.clone());
            },
            None => {},
        }
        proof {
            let after = self.playlist_map@;
            let k = find(before, bvid@).unwrap();
            let a = find(before, first_key()).unwrap();
            assert forall|key: Seq<char>| find(after, key) == find(before, key) by {
                lemma_same_keys(middle, after, key);
            }
            let once = old(self)@.insert(bvid@, old(self)@[bvid@].push(song@));
            let twice = once.insert(first_key(), once[first_key()].push(song@));
            assert(entries(middle[k].songs@) =~= entries(before[k].songs@).push(song@));
            assert(entries(after[a].songs@) =~= entries(middle[a].songs@).push(song@));
            assert forall|key: Seq<char>| #[trigger] self@.contains_key(key) implies self@[key]
                == twice[key] by {
                let i = find(before, key).unwrap();
                assert(is_first_key(before, key, i));
                assert(is_first_key(before, bvid@, k));
                assert(is_first_key(before, first_key(), a));
                if i != k && i != a {
                    assert(after[i] == before[i]);
                } else if i == a && i != k {
                    assert(middle[a] == before[a]);
                } else if i == k && i != a {
                    assert(after[k] == middle[k]);
                }
            }
            assert(self@ =~= twice);
        }
    }

    /// Gives the video `bvid` an empty collection, unless it has one.
    pub fn add_collection(&mut self, bvid: &String)
        ensures
            final(self).cur_bvid == old(self).cur_bvid,
            final(self)@ == if old(self)@.contains_key(bvid@) {
                old(self)@
            } else {
                old(self)@.insert(bvid@, Seq::empty())
            },
    {
        match self.position(bvid) {
            Some(_) => {},
            None => {
                let ghost before = self.playlist_map@;
                self.playlist_map.push(Collection { bvid: bvid.clone(), songs: Vec::new() });
                proof {
                    let after = self.playlist_map@;
                    let n = before.len() as int;
                    assert forall|j: int| 0 <= j < n implies !#[trigger] key_at(
                        after,
                        bvid@,
                        j,
                    ) by {
                        if key_at(before, bvid@, j) {
                            lemma_some_key(before, bvid@, j);
                        }
                    }
                    lemma_find_found(after, bvid@, n);
                    assert(entries(after[n].songs@) =~= Seq::empty());
                    assert forall|key: Seq<char>| key != bvid@ implies find(after, key) == find(
                        before,
                        key,
                    ) by {
                        lemma_extended(before, after, key);
                    }
                    assert(self@ =~= old(self)@.insert(bvid@, Seq::empty()));
                }
            },
        }
    }

    /// Adds `song` as `add_song` does and tells the row to show for it: the
    /// number of songs that the shown collection held before, unless the
    /// shown collection is neither that of all songs nor that of `bvid`.
    pub fn add_song_shown(&mut self, bvid: &String, song: &Song) -> (row: Option<usize>)
        requires
            old(self)@.contains_key(bvid@),
            old(self)@.contains_key(first_key()),
            old(self)@.contains_key(old(self).cur_bvid@),
        ensures
            final(self).cur_bvid == old(self).cur_bvid,
            ({
                let once = old(self)@.insert(bvid@, old(self)@[bvid@].push(song@));
                final(self)@ == once.insert(first_key(), once[first_key()].push(song@))
            }),
            row == if old(self).cur_bvid@ != first_key() && old(self).cur_bvid@ != bvid@ {
                None
            } else {
                Some(old(self)@[old(self).cur_bvid@].len() as usize)
            },
    {
        let index = self.get_collection_size();
        self.add_song(bvid, song);
        let all = String::from_str("all");
        if self.cur_bvid != all && self.cur_bvid != *bvid {
            None
        } else {
            Some(index)
        }
    }
}

/// Where some collection is that of the video, there is a first.
pub proof fn lemma_some_key(list: Seq<Collection>, bvid: Seq<char>, k: int)
    requires
        key_at(list, bvid, k),
    ensures
        find(list, bvid) is Some,
    decreases k,
{
    if forall|j: int| 0 <= j < k ==> !#[trigger] key_at(list, bvid, j) {
        lemma_find_found(list, bvid, k);
    } else {
        let j = choose|j: int| 0 <= j < k && key_at(list, bvid, j);
        lemma_some_key(list, bvid, j);
    }
}

/// A list extended by the collection of one video finds every other video
/// where it was.
pub proof fn lemma_extended(before: Seq<Collection>, after: Seq<Collection>, bvid: Seq<char>)
    requires
        after.len() == before.len() + 1,
        forall|k: int| 0 <= k < before.len() ==> (#[trigger] after[k]) == before[k],
        after.last().bvid@ != bvid,
    ensures
        find(after, bvid) == find(before, bvid),
{
    assert forall|k: int| key_at(after, bvid, k) == key_at(before, bvid, k) by {
        if 0 <= k < before.len() {
            assert(after[k] == before[k]);
        }
    }
    match find(before, bvid) {
        Some(k) => {
            assert(is_first_key(before, bvid, k));
            assert(is_first_key(after, bvid, k));
            lemma_find_found(after, bvid, k);
        },
        None => {
            if exists|k: int| is_first_key(after, bvid, k) {
                let k = choose|k: int| is_first_key(after, bvid, k);
                assert(is_first_key(before, bvid, k));
            }
        },
    }
}

} // verus!
