//! The song queue: an insertion-ordered collection of songs without
//! duplicates, seen through a shuffle overlay, with a cursor and a repeat mode.

use crate::audio::player::RepeatMode;
use crate::audio::shuffle::ShuffleListModel;
use crate::audio::song::{same_identity, songs_view, Song, SongData, SongDataView, SongView};
use vstd::prelude::*;

verus! {

/// The values of a sequence of songs.
pub open spec fn views(songs: Seq<Song>) -> Seq<SongView> {
    songs.map_values(|s: Song| s@)
}

/// The descriptions of a sequence of songs.
pub open spec fn descriptions(songs: Seq<SongView>) -> Seq<SongDataView> {
    songs.map_values(|s: SongView| s.data)
}

/// No two songs are the same track.
pub open spec fn distinct(songs: Seq<SongView>) -> bool {
    forall|i: int, j: int|
        0 <= i < j < songs.len() ==> !same_identity(
            (#[trigger] songs[i]).data,
            (#[trigger] songs[j]).data,
        )
}

/// The song at `k` is the track `data`.
pub open spec fn matches_at(songs: Seq<SongView>, data: SongDataView, k: int) -> bool {
    0 <= k < songs.len() && same_identity(songs[k].data, data)
}

/// The song at `k` is the first that is the track `data`.
pub open spec fn is_first_match(songs: Seq<SongView>, data: SongDataView, k: int) -> bool {
    &&& matches_at(songs, data, k)
    &&& forall|j: int| 0 <= j < k ==> !#[trigger] matches_at(songs, data, j)
}

/// The index of the first song that is the track `data`, if there is one.
pub open spec fn position_of(songs: Seq<SongView>, data: SongDataView) -> Option<int> {
    if exists|k: int| is_first_match(songs, data, k) {
        Some(choose|k: int| is_first_match(songs, data, k))
    } else {
        None
    }
}

/// Where `k` is the first match, `position_of` finds it.
pub proof fn lemma_position_found(songs: Seq<SongView>, data: SongDataView, k: int)
    requires
        is_first_match(songs, data, k),
    ensures
        position_of(songs, data) == Some(k),
{
    let c = choose|c: int| is_first_match(songs, data, c);
    if c < k {
        assert(matches_at(songs, data, c));
    } else if k < c {
        assert(matches_at(songs, data, k));
    }
}

/// Where no song matches, `position_of` finds nothing.
pub proof fn lemma_position_missing(songs: Seq<SongView>, data: SongDataView)
    requires
        forall|j: int| 0 <= j < songs.len() ==> !#[trigger] matches_at(songs, data, j),
    ensures
        position_of(songs, data) is None,
{
}

/// `songs` with `song` appended, unless it holds the same track already.
pub open spec fn with_song(songs: Seq<SongView>, song: SongView) -> Seq<SongView> {
    if position_of(songs, song.data) is Some {
        songs
    } else {
        songs.push(song)
    }
}

/// `songs` with each song of `batch` appended in turn, tracks already present
/// left out.
pub open spec fn with_songs(songs: Seq<SongView>, batch: Seq<SongView>) -> Seq<SongView>
    decreases batch.len(),
{
    if batch.len() == 0 {
        songs
    } else {
        with_song(with_songs(songs, batch.drop_last()), batch.last())
    }
}

/// `songs` without the first song that is the track `data`.
pub open spec fn without_song(songs: Seq<SongView>, data: SongDataView) -> Seq<SongView> {
    match position_of(songs, data) {
        Some(k) => songs.remove(k),
        None => songs,
    }
}

/// `songs` without the tracks of `batch`, removed in turn.
pub open spec fn without_songs(songs: Seq<SongView>, batch: Seq<SongView>) -> Seq<SongView>
    decreases batch.len(),
{
    if batch.len() == 0 {
        songs
    } else {
        without_song(without_songs(songs, batch.drop_last()), batch.last().data)
    }
}

/// The number of selected songs.
pub open spec fn selected_count(songs: Seq<SongView>) -> nat
    decreases songs.len(),
{
    if songs.len() == 0 {
        0
    } else {
        selected_count(songs.drop_last()) + if songs.last().selected {
            1nat
        } else {
            0nat
        }
    }
}

/// The selected songs, in order.
pub open spec fn selected_of(songs: Seq<SongView>) -> Seq<SongView>
    decreases songs.len(),
{
    if songs.len() == 0 {
        Seq::empty()
    } else if songs.last().selected {
        selected_of(songs.drop_last()).push(songs.last())
    } else {
        selected_of(songs.drop_last())
    }
}

/// `song` with the selection flag inverted.
pub open spec fn toggled(song: SongView) -> SongView {
    SongView { selected: !song.selected, ..song }
}

/// `songs` with no song selected.
pub open spec fn unselected(songs: Seq<SongView>) -> Seq<SongView> {
    songs.map_values(|s: SongView| SongView { selected: false, ..s })
}

/// `songs` with the playing flag of the track `data` set to `playing`.
pub open spec fn with_playing(songs: Seq<SongView>, data: SongDataView, playing: bool) -> Seq<
    SongView,
> {
    songs.map_values(
        |s: SongView|
            if same_identity(s.data, data) {
                SongView { playing, ..s }
            } else {
                s
            },
    )
}

/// The position that follows `current` in a queue of `n` songs, `n` not zero.
/// Without a current position the queue starts at its first song. Otherwise
/// `Consecutive` steps forward and ends after the last song, `RepeatOne`
/// stays, and `RepeatAll` steps forward and wraps to the first song.
pub open spec fn next_position(mode: RepeatMode, current: Option<u32>, n: nat) -> Option<u32> {
    match current {
        None => Some(0u32),
        Some(c) => match mode {
            RepeatMode::Consecutive => if c + 1 < n {
                Some((c + 1) as u32)
            } else {
                None
            },
            RepeatMode::RepeatOne => Some(c),
            RepeatMode::RepeatAll => if c + 1 < n {
                Some((c + 1) as u32)
            } else {
                Some(0u32)
            },
        },
    }
}

/// The value of an optional song.
pub open spec fn song_view(song: Option<Song>) -> Option<SongView> {
    match song {
        Some(s) => Some(s@),
        None => None,
    }
}

/// The first index of `store` that holds the track `data`.
fn find_song(store: &Vec<Song>, data: &SongData) -> (found: Option<usize>)
    ensures
        match found {
            Some(k) => position_of(views(store@), data@) == Some(k as int) && k < store@.len(),
            None => position_of(views(store@), data@) is None,
        },
{
    let mut i: usize = 0;
    while i < store.len()
        invariant
            i <= store.len(),
            forall|j: int| 0 <= j < i ==> !#[trigger] matches_at(views(store@), data@, j),
        decreases store.len() - i,
    {
        if store[i].data == *data {
            proof {
                lemma_position_found(views(store@), data@, i as int);
            }
            return Some(i);
        }
        i = i + 1;
    }
    proof {
        lemma_position_missing(views(store@), data@);
    }
    None
}

/// In a collection without duplicates, appending a track that is not present
/// leaves it without duplicates.
pub proof fn lemma_with_song_distinct(songs: Seq<SongView>, song: SongView)
    requires
        distinct(songs),
    ensures
        distinct(with_song(songs, song)),
{
    if position_of(songs, song.data) is None {
        let after = songs.push(song);
        assert forall|i: int, j: int| 0 <= i < j < after.len() implies !same_identity(
            (#[trigger] after[i]).data,
            (#[trigger] after[j]).data,
        ) by {
            if j == songs.len() {
                if same_identity(songs[i].data, song.data) {
                    lemma_some_match(songs, song.data, i);
                }
            }
        }
    }
}

/// Where some song matches, there is a first match.
pub proof fn lemma_some_match(songs: Seq<SongView>, data: SongDataView, k: int)
    requires
        matches_at(songs, data, k),
    ensures
        position_of(songs, data) is Some,
        position_of(songs, data).unwrap() <= k,
    decreases k,
{
    if forall|j: int| 0 <= j < k ==> !#[trigger] matches_at(songs, data, j) {
        lemma_position_found(songs, data, k);
    } else {
        let j = choose|j: int| 0 <= j < k && matches_at(songs, data, j);
        lemma_some_match(songs, data, j);
    }
}

/// Removing a song from a collection without duplicates leaves it without
/// duplicates.
pub proof fn lemma_without_song_distinct(songs: Seq<SongView>, data: SongDataView)
    requires
        distinct(songs),
    ensures
        distinct(without_song(songs, data)),
{
    match position_of(songs, data) {
        Some(k) => {
            let after = songs.remove(k);
            assert(is_first_match(songs, data, k));
            assert forall|i: int, j: int| 0 <= i < j < after.len() implies !same_identity(
                (#[trigger] after[i]).data,
                (#[trigger] after[j]).data,
            ) by {
                let a = if i < k {
                    i
                } else {
                    i + 1
                };
                let b = if j < k {
                    j
                } else {
                    j + 1
                };
                assert(after[i] == songs[a]);
                assert(after[j] == songs[b]);
            }
        },
        None => {},
    }
}

/// A track that was just added is not added again: whatever the collection
/// held, adding `a` and then a song `b` that is the same track gives what
/// adding `a` alone gives. Adding both to an empty collection leaves one song.
pub proof fn lemma_with_song_again(songs: Seq<SongView>, a: SongView, b: SongView)
    requires
        same_identity(a.data, b.data),
    ensures
        with_song(with_song(songs, a), b) == with_song(songs, a),
        with_song(with_song(Seq::empty(), a), b).len() == 1,
{
    let once = with_song(songs, a);
    match position_of(songs, a.data) {
        Some(k) => {
            assert(is_first_match(songs, a.data, k));
            assert(matches_at(once, b.data, k));
            lemma_some_match(once, b.data, k);
        },
        None => {
            assert(matches_at(once, b.data, songs.len() as int));
            lemma_some_match(once, b.data, songs.len() as int);
        },
    }
    let empty = Seq::<SongView>::empty();
    lemma_position_missing(empty, a.data);
    let first = with_song(empty, a);
    assert(matches_at(first, b.data, 0));
    lemma_some_match(first, b.data, 0);
}

/// After the last song of a queue of `n` songs, `Consecutive` ends the queue,
/// `RepeatAll` wraps to the first song and `RepeatOne` stays. Before the last
/// song `Consecutive` and `RepeatAll` step forward by one. Whatever the mode,
/// a position that follows a position within the queue is within the queue.
pub proof fn lemma_next_position(mode: RepeatMode, current: u32, n: nat)
    requires
        current < n,
    ensures
        current + 1 == n ==> next_position(RepeatMode::Consecutive, Some(current), n) is None,
        current + 1 == n ==> next_position(RepeatMode::RepeatAll, Some(current), n) == Some(0u32),
        next_position(RepeatMode::RepeatOne, Some(current), n) == Some(current),
        current + 1 < n ==> next_position(RepeatMode::Consecutive, Some(current), n) == Some(
            (current + 1) as u32,
        ),
        current + 1 < n ==> next_position(RepeatMode::RepeatAll, Some(current), n) == Some(
            (current + 1) as u32,
        ),
        next_position(mode, Some(current), n) is Some ==> next_position(
            mode,
            Some(current),
            n,
        ).unwrap() < n,
        next_position(mode, None, n) == Some(0u32),
{
}

/// Appends a copy of `song` unless `store` holds the same track already.
fn push_unique(store: &mut Vec<Song>, song: &Song) -> (added: bool)
    ensures
        views(final(store)@) == with_song(views(old(store)@), song@),
        added == (position_of(views(old(store)@), song@.data) is None),
        !added ==> final(store)@ == old(store)@,
{
    match find_song(store, &song.data) {
        Some(_) => false,
        None => {
            let copy = song.clone();
            store.push(copy);
            assert(views(store@) =~= views(old(store)@).push(song@));
            true
        },
    }
}

/// Clears the selection flag of every song.
fn clear_selection(store: &mut Vec<Song>)
    ensures
        views(final(store)@) == unselected(views(old(store)@)),
{
    let mut i: usize = 0;
    while i < store.len()
        invariant
            i <= store.len(),
            store@.len() == old(store)@.len(),
            forall|j: int|
                0 <= j < i ==> (#[trigger] store@[j])@ == (SongView {
                    selected: false,
                    ..old(store)@[j]@
                }),
            forall|j: int| i <= j < store@.len() ==> (#[trigger] store@[j])@ == old(store)@[j]@,
        decreases store.len() - i,
    {
        let _ = store[i].set_selected(false);
        i = i + 1;
    }
    assert(views(store@) =~= unselected(views(old(store)@)));
}

/// Sets the playing flag of every song that is the track `data`. Tells
/// whether a flag changed.
fn mark_playing(store: &mut Vec<Song>, data: &SongData, playing: bool) -> (changed: bool)
    ensures
        views(final(store)@) == with_playing(views(old(store)@), data@, playing),
        changed == (views(final(store)@) != views(old(store)@)),
{
    let mut changed = false;
    let mut i: usize = 0;
    let ghost target = with_playing(views(old(store)@), data@, playing);
    while i < store.len()
        invariant
            i <= store.len(),
            store@.len() == old(store)@.len(),
            target == with_playing(views(old(store)@), data@, playing),
            forall|j: int| 0 <= j < i ==> (#[trigger] store@[j])@ == target[j],
            forall|j: int| i <= j < store@.len() ==> (#[trigger] store@[j])@ == old(store)@[j]@,
            changed == exists|j: int| 0 <= j < i && #[trigger] target[j] != old(store)@[j]@,
        decreases store.len() - i,
    {
        if store[i].data == *data {
            let flipped = store[i].set_playing(playing);
            if flipped {
                assert(target[i as int] != old(store)@[i as int]@);
                changed = true;
            }
        }
        i = i + 1;
    }
    proof {
        assert(views(store@) =~= target);
        if changed {
            let j = choose|j: int| 0 <= j < i && #[trigger] target[j] != old(store)@[j]@;
            assert(views(old(store)@)[j] == old(store)@[j]@);
        } else {
            assert(target =~= views(old(store)@));
        }
    }
    changed
}

/// The song that a cursor movement landed on, and whether observers of the
/// current song are to be notified.
pub struct Step {
    pub song: Option<Song>,
    pub notify: bool,
}

/// The queue of songs.
pub struct Queue {
    /// What follows the last song.
    pub repeat_mode: RepeatMode,
    /// The view index of the current song, if any.
    pub current_pos: Option<u32>,
    /// The songs in insertion order, under the shuffle overlay.
    pub model: ShuffleListModel<Song>,
}

impl Default for Queue {
    fn default() -> (queue: Self)
        ensures
            queue.wf(),
            queue.store() == Seq::<SongView>::empty(),
            queue.songs() == Seq::<SongView>::empty(),
            queue.current_pos is None,
            queue.repeat_mode == RepeatMode::Consecutive,
            !queue.shuffled(),
    {
        let queue = Queue {
            repeat_mode: RepeatMode::Consecutive,
            current_pos: None,
            model: ShuffleListModel::new(Some(Vec::new())),
        };
        assert(queue.store() =~= Seq::<SongView>::empty());
        assert(queue.songs() =~= Seq::<SongView>::empty());
        queue
    }
}

impl Queue {
    /// The songs in insertion order.
    pub open spec fn store(&self) -> Seq<SongView> {
        views(self.model.base())
    }

    /// The songs in view order: insertion order, or shuffled.
    pub open spec fn songs(&self) -> Seq<SongView> {
        views(self.model@)
    }

    /// Whether the view is shuffled.
    pub open spec fn shuffled(&self) -> bool {
        self.model.shuffle is Some
    }

    /// The queue is well formed: the overlay is, a base collection is bound,
    /// and no two songs are the same track.
    pub open spec fn wf(&self) -> bool {
        &&& self.model.wf()
        &&& self.model.model is Some
        &&& distinct(self.store())
    }

    /// The songs of a queue made of the tracks `data`: each track once, in
    /// the order of first occurrence, neither playing nor selected.
    pub open spec fn loaded(data: Seq<SongData>) -> Seq<SongView> {
        with_songs(Seq::empty(), fresh_songs(songs_view(data)))
    }

    /// The song at the view index `pos`, if there is one.
    pub open spec fn song_at_spec(&self, pos: u32) -> Option<SongView> {
        if pos < self.songs().len() {
            Some(self.songs()[pos as int])
        } else {
            None
        }
    }

    /// The current position, where present, indexes a song of the view.
    pub open spec fn position_valid(&self) -> bool {
        self.current_pos is Some ==> self.current_pos.unwrap() < self.songs().len()
    }

    /// The queue holds the tracks of `other` in the same order, under the
    /// same permutation and repeat mode; the songs' flags and the current
    /// position may differ.
    pub open spec fn same_tracks(&self, other: &Queue) -> bool {
        &&& self.repeat_mode == other.repeat_mode
        &&& self.model.shuffle == other.model.shuffle
        &&& descriptions(self.store()) == descriptions(other.store())
    }

    /// A queue of the tracks `data`, in order, each track once: a track that
    /// occurs again is left out. Nothing is current, nothing is shuffled.
    pub fn new(data: Vec<SongData>) -> (queue: Self)
        requires
            data@.len() <= u32::MAX,
        ensures
            queue.wf(),
            queue.store() == Self::loaded(data@),
            queue.current_pos is None,
            queue.repeat_mode == RepeatMode::Consecutive,
            !queue.shuffled(),
    {
        let mut store: Vec<Song> = Vec::new();
        let ghost batch = fresh_songs(songs_view(data@));
        let mut i: usize = 0;
        assert(batch.take(0) =~= Seq::empty());
        assert(views(store@) =~= Seq::empty());
        while i < data.len()
            invariant
                i <= data.len(),
                batch == fresh_songs(songs_view(data@)),
                views(store@) == with_songs(Seq::empty(), batch.take(i as int)),
                distinct(views(store@)),
                store@.len() <= i,
            decreases data.len() - i,
        {
            let song = Song::new(data[i].clone());
            proof {
                assert(batch.take(i + 1).drop_last() =~= batch.take(i as int));
                assert(batch.take(i + 1).last() == song@);
                lemma_with_song_distinct(views(store@), song@);
                assert(views(store@).len() == store@.len());
            }
            let _ = push_unique(&mut store, &song);
            assert(views(store@).len() == store@.len());
            i = i + 1;
        }
        assert(batch.take(i as int) =~= batch);
        Queue {
            repeat_mode: RepeatMode::Consecutive,
            current_pos: None,
            model: ShuffleListModel::new(Some(store)),
        }
    }

    /// Inverts the selection flag of the song at the view index `index`.
    /// Beyond the end nothing happens. Tells whether a flag changed.
    pub fn select_song_at(&mut self, index: u32) -> (changed: bool)
        requires
            old(self).wf(),
        ensures
            final(self).wf(),
            changed == (index < old(self).songs().len()),
            !changed ==> *final(self) == *old(self),
            final(self).current_pos == old(self).current_pos,
            changed ==> final(self).same_tracks(old(self)),
            changed ==> final(self).songs() == old(self).songs().update(
                index as int,
                toggled(old(self).songs()[index as int]),
            ),
    {
        match self.model.base_index(index) {
            Some(base) => {
                match &mut self.model.model {
                    Some(store) => {
                        let is_selected = !store[base as usize].selected();
                        let _ = store[base as usize].set_selected(is_selected);
                    },
                    None => {},
                }
                proof {
                    assert(self.store() =~= old(self).store().update(
                        base as int,
                        toggled(old(self).store()[base as int]),
                    ));
                    assert(descriptions(self.store()) =~= descriptions(old(self).store()));
                    lemma_same_descriptions_distinct(old(self).store(), self.store());
                    assert(self.songs() =~= old(self).songs().update(
                        index as int,
                        toggled(old(self).songs()[index as int]),
                    ));
                }
                true
            },
            None => false,
        }
    }

    /// A copy of the song at the view index `pos`, if there is one.
    pub fn song_at(&self, pos: u32) -> (song: Option<Song>)
        requires
            self.wf(),
        ensures
            song_view(song) == self.song_at_spec(pos),
    {
        match self.model.item(pos) {
            Some(song) => Some(song.clone()),
            None => None,
        }
    }

    /// The number of songs.
    pub fn n_songs(&self) -> (n: u32)
        requires
            self.wf(),
        ensures
            n == self.songs().len(),
            n == self.store().len(),
    {
        self.model.n_items()
    }

    /// Whether the queue holds no song.
    pub fn is_empty(&self) -> (empty: bool)
        requires
            self.wf(),
        ensures
            empty == (self.songs().len() == 0),
    {
        self.model.n_items() == 0
    }

    /// Whether the current song is the first of the view.
    pub fn is_first_song(&self) -> (first: bool)
        ensures
            first == (self.current_pos == Some(0u32)),
    {
        match self.current_pos {
            Some(current_pos) => current_pos == 0,
            None => false,
        }
    }

    /// A copy of the current song, if there is one.
    pub fn current_song(&self) -> (song: Option<Song>)
        requires
            self.wf(),
        ensures
            song_view(song) == match self.current_pos {
                Some(pos) => self.song_at_spec(pos),
                None => None,
            },
    {
        match self.current_pos {
            Some(pos) => self.song_at(pos),
            None => None,
        }
    }

    /// The view index of the current song, if there is one.
    pub fn current_song_index(&self) -> (index: Option<u32>)
        ensures
            index == self.current_pos,
    {
        self.current_pos
    }

    /// The songs under their shuffle overlay.
    pub fn model(&self) -> (model: &ShuffleListModel<Song>)
        ensures
            *model == self.model,
    {
        &self.model
    }

    /// Appends a copy of `song`, unless the queue holds the same track
    /// already. Tells whether the queue grew, in which case the playlist is
    /// to be saved. A shuffled queue is shuffled anew.
    pub fn add_song(&mut self, song: &Song) -> (added: bool)
        requires
            old(self).wf(),
            old(self).store().len() < u32::MAX,
        ensures
            final(self).wf(),
            final(self).repeat_mode == old(self).repeat_mode,
            final(self).current_pos == old(self).current_pos,
            final(self).store() == with_song(old(self).store(), song@),
            added == (position_of(old(self).store(), song@.data) is None),
            !added ==> *final(self) == *old(self),
            final(self).shuffled() == old(self).shuffled(),
    {
        let present = match &self.model.model {
            Some(store) => find_song(store, &song.data).is_some(),
            None => false,
        };
        if present {
            return false;
        }
        let is_shuffled = self.model.shuffled();
        let _ = self.model.unshuffle();
        proof {
            lemma_with_song_distinct(old(self).store(), song@);
        }
        match &mut self.model.model {
            Some(store) => {
                let _ = push_unique(store, song);
            },
            None => {},
        }
        assert(self.store().len() == self.model.base().len());
        if is_shuffled {
            let _ = self.model.reshuffle();
        }
        true
    }

    /// Appends copies of the songs of `songs` in turn, leaving out each track
    /// that the queue holds already. A shuffled queue is shuffled anew. Tells
    /// whether the queue grew.
    pub fn add_songs(&mut self, songs: &Vec<Song>) -> (added: bool)
        requires
            old(self).wf(),
            old(self).store().len() + songs@.len() <= u32::MAX,
        ensures
            final(self).wf(),
            final(self).repeat_mode == old(self).repeat_mode,
            final(self).current_pos == old(self).current_pos,
            final(self).store() == with_songs(old(self).store(), views(songs@)),
            added == (final(self).store().len() != old(self).store().len()),
            final(self).shuffled() == old(self).shuffled(),
    {
        let is_shuffled = self.model.shuffled();
        let _ = self.model.unshuffle();
        let mut added = false;
        match &mut self.model.model {
            Some(store) => {
                let ghost batch = views(songs@);
                let ghost start = views(store@);
                let mut i: usize = 0;
                assert(batch.take(0) =~= Seq::empty());
                while i < songs.len()
                    invariant
                        i <= songs.len(),
                        batch == views(songs@),
                        start == old(self).store(),
                        views(store@) == with_songs(start, batch.take(i as int)),
                        distinct(views(store@)),
                        start.len() <= store@.len() <= start.len() + i,
                        added == (store@.len() != start.len()),
                    decreases songs.len() - i,
                {
                    proof {
                        assert(batch.take(i + 1).drop_last() =~= batch.take(i as int));
                        assert(batch.take(i + 1).last() == songs@[i as int]@);
                        lemma_with_song_distinct(views(store@), songs@[i as int]@);
                        assert(views(store@).len() == store@.len());
                    }
                    let pushed = push_unique(store, &songs[i]);
                    assert(views(store@).len() == store@.len());
                    if pushed {
                        added = true;
                    }
                    i = i + 1;
                }
                assert(batch.take(i as int) =~= batch);
            },
            None => {},
        }
        assert(self.store().len() == self.model.base().len());
        if is_shuffled {
            let _ = self.model.reshuffle();
        }
        added
    }

    /// Makes `pos` the current position, whether or not the view holds a song
    /// there, and returns a copy of the song at that position. Observers of
    /// the current song are always notified.
    pub fn skip_song(&mut self, pos: u32) -> (step: Step)
        requires
            old(self).wf(),
        ensures
            final(self).wf(),
            final(self).model == old(self).model,
            final(self).repeat_mode == old(self).repeat_mode,
            final(self).current_pos == Some(pos),
            final(self).position_valid() == (pos < old(self).songs().len()),
            song_view(step.song) == old(self).song_at_spec(pos),
            step.notify,
    {
        self.current_pos = Some(pos);
        Step { song: self.song_at(pos), notify: true }
    }

    /// The descriptions of the songs in view order.
    pub fn to_vec(&self) -> (data: Vec<SongData>)
        requires
            self.wf(),
        ensures
            songs_view(data@) == descriptions(self.songs()),
    {
        let mut v: Vec<SongData> = Vec::new();
        let n = self.model.n_items();
        let mut i: u32 = 0;
        assert(songs_view(v@) =~= descriptions(self.songs()).take(0));
        while i < n
            invariant
                i <= n,
                n == self.songs().len(),
                self.wf(),
                songs_view(v@) == descriptions(self.songs()).take(i as int),
            decreases n - i,
        {
            match self.model.item(i) {
                Some(song) => {
                    let ghost prev = v@;
                    let data = song.song_data();
                    v.push(data);
                    assert(songs_view(v@) =~= songs_view(prev).push(data@));
                    assert(songs_view(v@) =~= descriptions(self.songs()).take(i + 1));
                },
                None => {},
            }
            i = i + 1;
        }
        assert(descriptions(self.songs()).take(i as int) =~= descriptions(self.songs()));
        v
    }

    /// Steps back to the song before the current one and returns a copy of
    /// it. At the first song, or without a current position, nothing
    /// happens.
    pub fn previous_song(&mut self) -> (step: Step)
        requires
            old(self).wf(),
        ensures
            final(self).wf(),
            final(self).model == old(self).model,
            final(self).repeat_mode == old(self).repeat_mode,
            old(self).position_valid() ==> final(self).position_valid(),
            match old(self).current_pos {
                Some(current) if current > 0 => {
                    &&& final(self).current_pos == Some((current - 1) as u32)
                    &&& song_view(step.song) == old(self).song_at_spec((current - 1) as u32)
                    &&& step.notify
                },
                _ => {
                    &&& final(self).current_pos == old(self).current_pos
                    &&& step.song is None
                    &&& !step.notify
                },
            },
    {
        match self.current_pos {
            Some(current_pos) => {
                if current_pos > 0 {
                    let prev = current_pos - 1;
                    self.current_pos = Some(prev);
                    return Step { song: self.song_at(prev), notify: true };
                }
            },
            None => {},
        }
        Step { song: None, notify: false }
    }

    /// Moves on to the position that the repeat mode names and returns a copy
    /// of the song there. In an empty queue nothing happens. Otherwise the
    /// position becomes `next_position`, cleared where that is nothing, and
    /// observers of the current song are notified.
    pub fn next_song(&mut self) -> (step: Step)
        requires
            old(self).wf(),
        ensures
            final(self).wf(),
            final(self).model == old(self).model,
            final(self).repeat_mode == old(self).repeat_mode,
            old(self).position_valid() ==> final(self).position_valid(),
            old(self).songs().len() == 0 ==> final(self).current_pos == old(self).current_pos
                && step.song is None && !step.notify,
            old(self).songs().len() > 0 ==> final(self).current_pos == next_position(
                old(self).repeat_mode,
                old(self).current_pos,
                old(self).songs().len(),
            ) && step.notify && song_view(step.song) == match final(self).current_pos {
                Some(pos) => old(self).song_at_spec(pos),
                None => None,
            },
    {
        let n_songs = self.model.n_items();
        if n_songs == 0 {
            return Step { song: None, notify: false };
        }
        let next: Option<u32> = match self.current_pos {
            Some(current) => match self.repeat_mode {
                RepeatMode::Consecutive => if current < n_songs - 1 {
                    Some(current + 1)
                } else {
                    None
                },
                RepeatMode::RepeatOne => Some(current),
                RepeatMode::RepeatAll => if current < n_songs - 1 {
                    Some(current + 1)
                } else {
                    Some(0)
                },
            },
            None => Some(0),
        };
        self.current_pos = next;
        match next {
            Some(next) => Step { song: self.song_at(next), notify: true },
            None => Step { song: None, notify: true },
        }
    }

    /// Clears the selection flag of every song.
    pub fn unselect_all_songs(&mut self)
        requires
            old(self).wf(),
        ensures
            final(self).wf(),
            final(self).same_tracks(old(self)),
            final(self).current_pos == old(self).current_pos,
            final(self).store() == unselected(old(self).store()),
            final(self).songs() == unselected(old(self).songs()),
    {
        match &mut self.model.model {
            Some(store) => {
                clear_selection(store);
            },
            None => {},
        }
        proof {
            assert(descriptions(self.store()) =~= descriptions(old(self).store()));
            lemma_same_descriptions_distinct(old(self).store(), self.store());
            assert(self.songs().len() == old(self).songs().len());
            assert forall|i: int| 0 <= i < self.songs().len() implies self.songs()[i]
                == unselected(old(self).songs())[i] by {
                lemma_song_at_base(self.model, i);
                lemma_song_at_base(old(self).model, i);
            }
            assert(self.songs() =~= unselected(old(self).songs()));
        }
    }

    /// The number of selected songs.
    pub fn n_selected_songs(&self) -> (count: u32)
        requires
            self.wf(),
        ensures
            count == selected_count(self.store()),
    {
        let mut count: u32 = 0;
        match &self.model.model {
            Some(store) => {
                let mut i: usize = 0;
                assert(views(store@).take(0) =~= Seq::empty());
                while i < store.len()
                    invariant
                        i <= store.len(),
                        store@.len() <= u32::MAX,
                        count <= i,
                        count == selected_count(views(store@).take(i as int)),
                    decreases store.len() - i,
                {
                    proof {
                        assert(views(store@).take(i + 1).drop_last() =~= views(store@).take(
                            i as int,
                        ));
                    }
                    if store[i].selected() {
                        count = count + 1;
                    }
                    i = i + 1;
                }
                assert(views(store@).take(i as int) =~= views(store@));
            },
            None => {},
        }
        count
    }

    /// Copies of the selected songs in view order; nothing where the queue is
    /// empty.
    pub fn selected_songs(&self) -> (selected: Option<Vec<Song>>)
        requires
            self.wf(),
        ensures
            selected is None == (self.songs().len() == 0),
            selected is Some ==> views(selected.unwrap()@) == selected_of(self.songs()),
    {
        let n = self.model.n_items();
        if n == 0 {
            return None;
        }
        let mut data: Vec<Song> = Vec::new();
        let mut i: u32 = 0;
        assert(self.songs().take(0) =~= Seq::empty());
        assert(views(data@) =~= Seq::empty());
        while i < n
            invariant
                i <= n,
                n == self.songs().len(),
                self.wf(),
                views(data@) == selected_of(self.songs().take(i as int)),
            decreases n - i,
        {
            proof {
                assert(self.songs().take(i + 1).drop_last() =~= self.songs().take(i as int));
            }
            match self.model.item(i) {
                Some(song) => {
                    if song.selected() {
                        let ghost before = data@;
                        let copy = song.clone();
                        data.push(copy);
                        assert(views(data@) =~= views(before).push(copy@));
                    }
                },
                None => {},
            }
            i = i + 1;
        }
        assert(self.songs().take(i as int) =~= self.songs());
        Some(data)
    }

    /// Removes the song that is the same track as `song`, if the queue holds
    /// one. Tells whether it did, in which case the playlist is to be saved.
    /// A shuffled queue that lost a song is shuffled anew. The current
    /// position keeps its value.
    pub fn remove_song(&mut self, song: &Song) -> (removed: bool)
        requires
            old(self).wf(),
        ensures
            final(self).wf(),
            final(self).repeat_mode == old(self).repeat_mode,
            final(self).current_pos == old(self).current_pos,
            final(self).store() == without_song(old(self).store(), song@.data),
            removed == (position_of(old(self).store(), song@.data) is Some),
            !removed ==> *final(self) == *old(self),
            final(self).shuffled() == old(self).shuffled(),
    {
        let found = match &self.model.model {
            Some(store) => find_song(store, &song.data),
            None => None,
        };
        match found {
            Some(pos) => {
                let was_shuffled = self.model.shuffled();
                let _ = self.model.unshuffle();
                proof {
                    lemma_without_song_distinct(old(self).store(), song@.data);
                }
                match &mut self.model.model {
                    Some(store) => {
                        let _ = store.remove(pos);
                    },
                    None => {},
                }
                assert(self.store() =~= old(self).store().remove(pos as int));
                if was_shuffled {
                    let _ = self.model.reshuffle();
                }
                true
            },
            None => false,
        }
    }

    /// Removes the tracks of `songs` in turn. Tells whether the queue lost a
    /// song.
    pub fn remove_songs(&mut self, songs: &Vec<Song>) -> (removed: bool)
        requires
            old(self).wf(),
        ensures
            final(self).wf(),
            final(self).repeat_mode == old(self).repeat_mode,
            final(self).current_pos == old(self).current_pos,
            final(self).store() == without_songs(old(self).store(), views(songs@)),
            removed == (final(self).store().len() != old(self).store().len()),
            final(self).shuffled() == old(self).shuffled(),
    {
        let ghost batch = views(songs@);
        let mut removed = false;
        let mut i: usize = 0;
        assert(batch.take(0) =~= Seq::empty());
        while i < songs.len()
            invariant
                i <= songs.len(),
                batch == views(songs@),
                self.wf(),
                self.repeat_mode == old(self).repeat_mode,
                self.current_pos == old(self).current_pos,
                self.shuffled() == old(self).shuffled(),
                self.store() == without_songs(old(self).store(), batch.take(i as int)),
                self.store().len() <= old(self).store().len(),
                removed == (self.store().len() != old(self).store().len()),
            decreases songs.len() - i,
        {
            proof {
                assert(batch.take(i + 1).drop_last() =~= batch.take(i as int));
                assert(batch.take(i + 1).last() == songs@[i as int]@);
            }
            if self.remove_song(&songs[i]) {
                removed = true;
            }
            i = i + 1;
        }
        assert(batch.take(i as int) =~= batch);
        removed
    }

    /// Sets the playing flag of the song that is the track `data`, if the
    /// queue holds it. Tells whether the flag changed.
    pub fn set_playing(&mut self, data: &SongData, playing: bool) -> (changed: bool)
        requires
            old(self).wf(),
        ensures
            final(self).wf(),
            final(self).same_tracks(old(self)),
            final(self).current_pos == old(self).current_pos,
            final(self).store() == with_playing(old(self).store(), data@, playing),
            final(self).songs() == with_playing(old(self).songs(), data@, playing),
            changed == (final(self).store() != old(self).store()),
    {
        let mut changed = false;
        match &mut self.model.model {
            Some(store) => {
                changed = mark_playing(store, data, playing);
            },
            None => {},
        }
        proof {
            assert(descriptions(self.store()) =~= descriptions(old(self).store()));
            lemma_same_descriptions_distinct(old(self).store(), self.store());
            assert(self.songs().len() == old(self).songs().len());
            assert forall|i: int| 0 <= i < self.songs().len() implies self.songs()[i]
                == with_playing(old(self).songs(), data@, playing)[i] by {
                lemma_song_at_base(self.model, i);
                lemma_song_at_base(old(self).model, i);
            }
            assert(self.songs() =~= with_playing(old(self).songs(), data@, playing));
        }
        changed
    }
}

/// Every song of the view is the song that the base collection holds at the
/// base position of its view index.
pub proof fn lemma_song_at_base(model: ShuffleListModel<Song>, i: int)
    requires
        model.wf(),
        0 <= i < model@.len(),
    ensures
        model.base_position(i as u32) is Some,
        model.base_position(i as u32).unwrap() < model.base().len(),
        views(model@)[i] == views(model.base())[model.base_position(i as u32).unwrap() as int],
{
}

/// The songs that stand for `data`: neither playing nor selected.
pub open spec fn fresh_songs(data: Seq<SongDataView>) -> Seq<SongView> {
    data.map_values(|d: SongDataView| SongView { data: d, playing: false, selected: false })
}

/// Whether a collection is without duplicates depends on the descriptions of
/// its songs alone.
pub proof fn lemma_same_descriptions_distinct(before: Seq<SongView>, after: Seq<SongView>)
    requires
        distinct(before),
        descriptions(before) == descriptions(after),
    ensures
        distinct(after),
{
    assert(before.len() == descriptions(before).len());
    assert(after.len() == descriptions(after).len());
    assert forall|i: int, j: int| 0 <= i < j < after.len() implies !same_identity(
        (#[trigger] after[i]).data,
        (#[trigger] after[j]).data,
    ) by {
        assert(descriptions(before)[i] == before[i].data);
        assert(descriptions(after)[i] == after[i].data);
        assert(descriptions(before)[j] == before[j].data);
        assert(descriptions(after)[j] == after[j].data);
    }
}

} // verus!
