//! The player: playback state and the decisions taken on every action.

use crate::audio::queue::{
    descriptions, next_position, position_of, selected_of, views, with_playing, with_song,
    without_songs, Queue,
};
use crate::audio::song::{
    cached_uri, file_name_of, text_view, CachedFile, MediaCache, Song, SongData, SongDataView,
    SongView,
};
use crate::audio::state::{same_song, PlayerState, PlayerStateView, Volume};
use vstd::prelude::*;

verus! {

/// What the queue does when the current song ends.
#[derive(Clone, Copy, Debug, PartialEq, Eq, Structural)]
pub enum RepeatMode {
    /// Play on to the end of the queue, then stop.
    Consecutive,
    /// Play on, and start over after the last song.
    RepeatAll,
    /// Play the current song again.
    RepeatOne,
}

impl Default for RepeatMode {
    fn default() -> (mode: Self)
        ensures
            mode == RepeatMode::Consecutive,
    {
        RepeatMode::Consecutive
    }
}

/// Whether the player plays, pauses or has stopped.
#[derive(Clone, Copy, Debug, PartialEq, Eq, Structural)]
pub enum PlaybackState {
    Stopped,
    Playing,
    Paused,
}

impl Default for PlaybackState {
    fn default() -> (state: Self)
        ensures
            state == PlaybackState::Stopped,
    {
        PlaybackState::Stopped
    }
}

/// What reaches the player's control loop.
pub enum PlayerAction {
    /// A fetch has stored a song's media; play it from this locator.
    PlaySong(String),
    /// The current song has ended.
    PlayNext,
    /// A track was resolved and is to be queued.
    AddSong(SongData),
    /// The backend's clock has advanced to this many seconds.
    UpdatePosition(u64),
    /// The backend's volume has changed to this level.
    VolumeChanged(Volume),
}

/// One instruction to the media backend.
#[derive(Debug, PartialEq, Eq)]
pub enum BackendCommand {
    /// Point the backend at a locator, or at nothing.
    SetUri(Option<String>),
    Play,
    Pause,
    Stop,
    /// Seek to a position in seconds.
    Seek(u64),
    SetVolume(Volume),
}

/// Mathematical value of a [`BackendCommand`].
pub ghost enum CommandView {
    SetUri(Option<Seq<char>>),
    Play,
    Pause,
    Stop,
    Seek(u64),
    SetVolume(Volume),
}

impl View for BackendCommand {
    type V = CommandView;

    open spec fn view(&self) -> CommandView {
        match self {
            BackendCommand::SetUri(uri) => CommandView::SetUri(text_view(*uri)),
            BackendCommand::Play => CommandView::Play,
            BackendCommand::Pause => CommandView::Pause,
            BackendCommand::Stop => CommandView::Stop,
            BackendCommand::Seek(position) => CommandView::Seek(*position),
            BackendCommand::SetVolume(volume) => CommandView::SetVolume(*volume),
        }
    }
}

/// The values of a sequence of backend commands.
pub open spec fn commands_view(commands: Seq<BackendCommand>) -> Seq<CommandView> {
    commands.map_values(|c: BackendCommand| c@)
}

/// The value of an optional track description.
pub open spec fn data_view(data: Option<SongData>) -> Option<SongDataView> {
    match data {
        Some(d) => Some(d@),
        None => None,
    }
}

/// Which parts of the playback state changed, each to be told to the
/// observers of that part. The current song counts as changed when it is
/// another track than before, or present where it was absent or the reverse.
#[derive(Clone, Copy, Debug, PartialEq, Eq, Structural)]
pub struct StateChange {
    pub song: bool,
    pub playback_state: bool,
    pub position: bool,
    pub volume: bool,
}

impl StateChange {
    /// No part changed.
    pub fn none() -> (change: Self)
        ensures
            change == unchanged(),
    {
        StateChange { song: false, playback_state: false, position: false, volume: false }
    }
}

/// The parts in which the playback state `after` differs from `before`.
pub open spec fn state_change(before: PlayerStateView, after: PlayerStateView) -> StateChange {
    StateChange {
        song: !same_song(before.current_song, after.current_song),
        playback_state: before.playback_state != after.playback_state,
        position: before.position != after.position,
        volume: before.volume != after.volume,
    }
}

/// No part of the playback state changed.
pub open spec fn unchanged() -> StateChange {
    StateChange { song: false, playback_state: false, position: false, volume: false }
}

/// Mathematical value of an [`Effects`].
pub ghost struct EffectsView {
    pub backend: Seq<CommandView>,
    pub download: Option<SongDataView>,
    pub current_changed: bool,
    pub save: bool,
    pub state_changed: StateChange,
}

/// What the surrounding program is to do after a step of the player.
pub struct Effects {
    /// The instructions to the media backend, in order.
    pub backend: Vec<BackendCommand>,
    /// The track whose media is to be fetched in the background; once it is
    /// stored, the fetch posts `PlayerAction::PlaySong`.
    pub download: Option<SongData>,
    /// Whether observers of the queue's current song are to be notified.
    pub current_changed: bool,
    /// Whether the playlist is to be saved.
    pub save: bool,
    /// The parts of the playback state whose observers are to be notified.
    pub state_changed: StateChange,
}

impl View for Effects {
    type V = EffectsView;

    open spec fn view(&self) -> EffectsView {
        EffectsView {
            backend: commands_view(self.backend@),
            download: data_view(self.download),
            current_changed: self.current_changed,
            save: self.save,
            state_changed: self.state_changed,
        }
    }
}

/// Nothing to do.
pub open spec fn no_effects() -> EffectsView {
    EffectsView {
        backend: Seq::empty(),
        download: None,
        current_changed: false,
        save: false,
        state_changed: unchanged(),
    }
}

/// The status to take, the backend commands to issue and the track to fetch
/// on a change of status.
pub ghost struct Plan {
    pub playback_state: PlaybackState,
    pub backend: Seq<CommandView>,
    pub download: Option<SongDataView>,
}

/// What a change to the status `target` asks for, with `current` the current
/// song. Pausing and stopping tell the backend so. Playing a song whose
/// media is cached points the backend at it and starts it. Playing a song
/// whose media is not cached leaves the backend alone, takes the status
/// `Stopped` and asks for the fetch. Playing without a current song starts
/// the backend on what it has.
pub open spec fn plan(target: PlaybackState, current: Option<SongView>, files: Seq<CachedFile>)
    -> Plan {
    match target {
        PlaybackState::Paused => Plan {
            playback_state: PlaybackState::Paused,
            backend: seq![CommandView::Pause],
            download: None,
        },
        PlaybackState::Stopped => Plan {
            playback_state: PlaybackState::Stopped,
            backend: seq![CommandView::Stop],
            download: None,
        },
        PlaybackState::Playing => match current {
            None => Plan {
                playback_state: PlaybackState::Playing,
                backend: seq![CommandView::Play],
                download: None,
            },
            Some(song) => match cached_uri(files, file_name_of(song.data)) {
                Some(uri) => Plan {
                    playback_state: PlaybackState::Playing,
                    backend: seq![CommandView::SetUri(Some(uri)), CommandView::Play],
                    download: None,
                },
                None => Plan {
                    playback_state: PlaybackState::Stopped,
                    backend: Seq::empty(),
                    download: Some(song.data),
                },
            },
        },
    }
}

/// The songs of a queue once the playing flag of the outgoing song is
/// cleared.
pub open spec fn outgoing_cleared(songs: Seq<SongView>, outgoing: Option<SongView>) -> Seq<
    SongView,
> {
    match outgoing {
        Some(song) => with_playing(songs, song.data, false),
        None => songs,
    }
}

/// The song at `pos` of `songs`, if there is one.
pub open spec fn song_at(songs: Seq<SongView>, pos: Option<u32>) -> Option<SongView> {
    match pos {
        Some(p) => if p < songs.len() {
            Some(songs[p as int])
        } else {
            None
        },
        None => None,
    }
}

/// The values of a sequence of effects.
pub open spec fn effects_views(steps: Seq<Effects>) -> Seq<EffectsView> {
    steps.map_values(|e: Effects| e@)
}

/// What the operations of a player read and write: the songs in insertion
/// order and in view order, the queue's position and repeat mode, and the
/// playback state.
pub ghost struct PlayerModel {
    pub store: Seq<SongView>,
    pub songs: Seq<SongView>,
    pub current_pos: Option<u32>,
    pub repeat_mode: RepeatMode,
    pub state: PlayerStateView,
}

/// The player after a step to the next song: the outgoing song's playing
/// flag is cleared and the position moves as the repeat mode says, unless
/// there is no song. The song at the new position is the current song, and
/// the status is what `plan` gives for playing it; without such a song no
/// song is current and the player has stopped.
pub open spec fn next_model(m: PlayerModel, files: Seq<CachedFile>) -> PlayerModel {
    let songs = outgoing_cleared(m.songs, m.state.current_song);
    let next = if songs.len() == 0 {
        m.current_pos
    } else {
        next_position(m.repeat_mode, m.current_pos, songs.len())
    };
    let target = if songs.len() == 0 {
        None
    } else {
        song_at(songs, next)
    };
    PlayerModel {
        store: outgoing_cleared(m.store, m.state.current_song),
        songs,
        current_pos: next,
        repeat_mode: m.repeat_mode,
        state: PlayerStateView {
            current_song: target,
            playback_state: if target is Some {
                plan(PlaybackState::Playing, target, files).playback_state
            } else {
                PlaybackState::Stopped
            },
            ..m.state
        },
    }
}

/// What is to be done after a step to the next song.
pub open spec fn next_effects(m: PlayerModel, files: Seq<CachedFile>) -> EffectsView {
    let after = next_model(m, files);
    let goal = plan(PlaybackState::Playing, after.state.current_song, files);
    EffectsView {
        backend: if after.state.current_song is Some {
            goal.backend
        } else {
            seq![CommandView::Stop]
        },
        download: if after.state.current_song is Some {
            goal.download
        } else {
            None
        },
        current_changed: m.songs.len() > 0,
        save: false,
        state_changed: state_change(m.state, after.state),
    }
}

/// The player after a skip to the view index `pos`. Where `pos` is the
/// current position already, the player is as before. Otherwise the outgoing
/// song's playing flag is cleared and the position becomes `pos`. The song
/// there is the current song, and the status is what `plan` gives for
/// playing it; without such a song no song is current and the player has
/// stopped.
pub open spec fn skip_model(m: PlayerModel, pos: u32, files: Seq<CachedFile>) -> PlayerModel {
    if m.current_pos == Some(pos) {
        m
    } else {
        let songs = outgoing_cleared(m.songs, m.state.current_song);
        let target = song_at(songs, Some(pos));
        PlayerModel {
            store: outgoing_cleared(m.store, m.state.current_song),
            songs,
            current_pos: Some(pos),
            repeat_mode: m.repeat_mode,
            state: PlayerStateView {
                current_song: target,
                playback_state: if target is Some {
                    plan(PlaybackState::Playing, target, files).playback_state
                } else {
                    PlaybackState::Stopped
                },
                ..m.state
            },
        }
    }
}

/// What is to be done after a skip to the view index `pos`: nothing where
/// `pos` is the current position already; otherwise observers of the current
/// position are notified, and the backend plays the song as `plan` says or,
/// without a song at `pos`, is pointed at nothing and stopped.
pub open spec fn skip_effects(m: PlayerModel, pos: u32, files: Seq<CachedFile>) -> EffectsView {
    if m.current_pos == Some(pos) {
        no_effects()
    } else {
        let after = skip_model(m, pos, files);
        let goal = plan(PlaybackState::Playing, after.state.current_song, files);
        EffectsView {
            backend: if after.state.current_song is Some {
                goal.backend
            } else {
                seq![CommandView::SetUri(None), CommandView::Stop]
            },
            download: if after.state.current_song is Some {
                goal.download
            } else {
                None
            },
            current_changed: true,
            save: false,
            state_changed: state_change(m.state, after.state),
        }
    }
}

/// The position is above the first, so that there is one to step back to.
pub open spec fn has_previous(current_pos: Option<u32>) -> bool {
    current_pos is Some && current_pos.unwrap() > 0
}

/// The player after a step to the previous song. Without a position above
/// the first the player is as before. Otherwise the position moves back by
/// one. With a song there, the outgoing song's playing flag is cleared, that
/// song's is set, it is the current song, and the status is what `plan`
/// gives for playing it. Without a song there, nothing else changes.
pub open spec fn previous_model(m: PlayerModel, files: Seq<CachedFile>) -> PlayerModel {
    if has_previous(m.current_pos) {
        let prev = (m.current_pos.unwrap() - 1) as u32;
        match song_at(m.songs, Some(prev)) {
            Some(song) => {
                let target = SongView { playing: true, ..song };
                PlayerModel {
                    store: with_playing(
                        outgoing_cleared(m.store, m.state.current_song),
                        song.data,
                        true,
                    ),
                    songs: with_playing(
                        outgoing_cleared(m.songs, m.state.current_song),
                        song.data,
                        true,
                    ),
                    current_pos: Some(prev),
                    repeat_mode: m.repeat_mode,
                    state: PlayerStateView {
                        current_song: Some(target),
                        playback_state: plan(
                            PlaybackState::Playing,
                            Some(target),
                            files,
                        ).playback_state,
                        ..m.state
                    },
                }
            },
            None => PlayerModel { current_pos: Some(prev), ..m },
        }
    } else {
        m
    }
}

/// What is to be done after a step to the previous song: nothing without a
/// position above the first; otherwise observers of the current position are
/// notified and, with a song at the new position, the backend seeks to the
/// start and plays the song as `plan` says.
pub open spec fn previous_effects(m: PlayerModel, files: Seq<CachedFile>) -> EffectsView {
    if has_previous(m.current_pos) {
        let after = previous_model(m, files);
        let prev = (m.current_pos.unwrap() - 1) as u32;
        if song_at(m.songs, Some(prev)) is Some {
            let goal = plan(PlaybackState::Playing, after.state.current_song, files);
            EffectsView {
                backend: seq![CommandView::Seek(0)] + goal.backend,
                download: goal.download,
                current_changed: true,
                save: false,
                state_changed: state_change(m.state, after.state),
            }
        } else {
            EffectsView { current_changed: true, ..no_effects() }
        }
    } else {
        no_effects()
    }
}

/// The player after a walk over the songs from the view index `i` on that
/// steps to the next song at every song that is selected and playing when
/// the walk reaches it.
pub open spec fn sweep(m: PlayerModel, files: Seq<CachedFile>, i: nat) -> PlayerModel
    decreases m.songs.len() - i,
{
    if i >= m.songs.len() {
        m
    } else if m.songs[i as int].selected && m.songs[i as int].playing {
        sweep(next_model(m, files), files, i + 1)
    } else {
        sweep(m, files, i + 1)
    }
}

/// What is to be done after each step of that walk, in order.
pub open spec fn sweep_effects(m: PlayerModel, files: Seq<CachedFile>, i: nat) -> Seq<
    EffectsView,
>
    decreases m.songs.len() - i,
{
    if i >= m.songs.len() {
        Seq::empty()
    } else if m.songs[i as int].selected && m.songs[i as int].playing {
        seq![next_effects(m, files)] + sweep_effects(next_model(m, files), files, i + 1)
    } else {
        sweep_effects(m, files, i + 1)
    }
}

/// Both sequences hold the same tracks with the same selection.
pub open spec fn same_selection(a: Seq<SongView>, b: Seq<SongView>) -> bool {
    &&& a.len() == b.len()
    &&& forall|k: int|
        0 <= k < a.len() ==> (#[trigger] a[k]).data == b[k].data && a[k].selected == b[k].selected
}

/// What the removal of the selected songs leaves to do.
pub struct Removal {
    /// What is to be done after each step to the next song, in order.
    pub steps: Vec<Effects>,
    /// Copies of the songs that were selected, whose cached media may go.
    pub removed: Vec<Song>,
    /// Whether the playlist is to be saved.
    pub save: bool,
}

/// The player: the queue and the playback state, without the media backend.
/// Every operation takes the decisions and returns the work that is left to
/// the surrounding program.
pub struct AudioPlayer {
    pub state: PlayerState,
    pub queue: Queue,
}

impl AudioPlayer {
    /// The player is well formed when its queue is.
    pub open spec fn wf(&self) -> bool {
        self.queue.wf()
    }

    /// `self` and `effects` are what a step to the next song makes of
    /// `before`: the player is as `next_model` says, there is to be done
    /// what `next_effects` says, and the queue holds the same tracks under
    /// the same permutation.
    pub open spec fn stepped_next(
        &self,
        before: &AudioPlayer,
        effects: EffectsView,
        files: Seq<CachedFile>,
    ) -> bool {
        &&& self.queue.same_tracks(&before.queue)
        &&& self.model() == next_model(before.model(), files)
        &&& effects == next_effects(before.model(), files)
    }

    /// `self` and `effects` are what a skip to the view index `pos` makes of
    /// `before`: the player is as `skip_model` says, there is to be done
    /// what `skip_effects` says, and the queue holds the same tracks under
    /// the same permutation. Where `pos` is the current position already,
    /// nothing at all changes.
    pub open spec fn skipped_to(
        &self,
        before: &AudioPlayer,
        pos: u32,
        effects: EffectsView,
        files: Seq<CachedFile>,
    ) -> bool {
        &&& before.queue.current_pos == Some(pos) ==> *self == *before
        &&& self.queue.same_tracks(&before.queue)
        &&& self.model() == skip_model(before.model(), pos, files)
        &&& effects == skip_effects(before.model(), pos, files)
    }

    /// `self` and `effects` are what a step to the previous song makes of
    /// `before`: the player is as `previous_model` says, there is to be done
    /// what `previous_effects` says, and the queue holds the same tracks
    /// under the same permutation. Where the queue has no position above the
    /// first, nothing at all changes.
    pub open spec fn stepped_previous(
        &self,
        before: &AudioPlayer,
        effects: EffectsView,
        files: Seq<CachedFile>,
    ) -> bool {
        &&& !has_previous(before.queue.current_pos) ==> *self == *before
        &&& self.queue.same_tracks(&before.queue)
        &&& self.model() == previous_model(before.model(), files)
        &&& effects == previous_effects(before.model(), files)
    }

    /// What the operations read and write of this player.
    pub open spec fn model(&self) -> PlayerModel {
        PlayerModel {
            store: self.queue.store(),
            songs: self.queue.songs(),
            current_pos: self.queue.current_pos,
            repeat_mode: self.queue.repeat_mode,
            state: self.state@,
        }
    }

    /// A stopped player over a queue of the tracks `data`.
    pub fn new(data: Vec<SongData>) -> (player: Self)
        requires
            data@.len() <= u32::MAX,
        ensures
            player.wf(),
            player.state@ == PlayerState::default_view(),
            player.queue.current_pos is None,
            player.queue.repeat_mode == RepeatMode::Consecutive,
            !player.queue.shuffled(),
            player.queue.store() == Queue::loaded(data@),
    {
        AudioPlayer { state: PlayerState::default(), queue: Queue::new(data) }
    }

    /// The queue.
    pub fn queue(&self) -> (queue: &Queue)
        ensures
            *queue == self.queue,
    {
        &self.queue
    }

    /// The playback state.
    pub fn state(&self) -> (state: &PlayerState)
        ensures
            *state == self.state,
    {
        &self.state
    }

    /// The change to report after a step that left position and volume
    /// alone: `song` tells whether the current song changed, `before` is the
    /// status before the step.
    fn change_since(&self, song: bool, before: PlaybackState) -> (change: StateChange)
        ensures
            change == (StateChange {
                song,
                playback_state: before != self.state.playback_state,
                position: false,
                volume: false,
            }),
    {
        StateChange {
            song,
            playback_state: before != self.state.playback_state,
            position: false,
            volume: false,
        }
    }

    /// Takes the status `target` as `plan` says, and appends the backend
    /// commands to `backend`. Returns the track to fetch, if any.
    fn set_playback_state(
        &mut self,
        target: PlaybackState,
        cache: &MediaCache,
        backend: &mut Vec<BackendCommand>,
    ) -> (download: Option<SongData>)
        ensures
            final(self).queue == old(self).queue,
            final(self).state@ == (PlayerStateView {
                playback_state: plan(
                    target,
                    old(self).state@.current_song,
                    cache.files@,
                ).playback_state,
                ..old(self).state@
            }),
            commands_view(final(backend)@) == commands_view(old(backend)@) + plan(
                target,
                old(self).state@.current_song,
                cache.files@,
            ).backend,
            data_view(download) == plan(
                target,
                old(self).state@.current_song,
                cache.files@,
            ).download,
    {
        let ghost goal = plan(target, old(self).state@.current_song, cache.files@);
        let mut download: Option<SongData> = None;
        match target {
            PlaybackState::Playing => {
                let mut fetch = false;
                match &self.state.current_song {
                    Some(song) => {
                        match song.uri(cache) {
                            Some(uri) => {
                                backend.push(BackendCommand::SetUri(Some(uri)));
                                backend.push(BackendCommand::Play);
                            },
                            None => {
                                download = Some(song.song_data());
                                fetch = true;
                            },
                        }
                    },
                    None => {
                        backend.push(BackendCommand::Play);
                    },
                }
                if fetch {
                    let _ = self.state.set_playback_state(&PlaybackState::Stopped);
                } else {
                    let _ = self.state.set_playback_state(&PlaybackState::Playing);
                }
            },
            PlaybackState::Paused => {
                backend.push(BackendCommand::Pause);
                let _ = self.state.set_playback_state(&PlaybackState::Paused);
            },
            PlaybackState::Stopped => {
                backend.push(BackendCommand::Stop);
                let _ = self.state.set_playback_state(&PlaybackState::Stopped);
            },
        }
        assert(commands_view(backend@) =~= commands_view(old(backend)@) + goal.backend);
        download
    }

    /// Clears the playing flag of the current song in the queue.
    fn clear_outgoing(&mut self)
        requires
            old(self).wf(),
        ensures
            final(self).wf(),
            final(self).state == old(self).state,
            final(self).queue.same_tracks(&old(self).queue),
            final(self).queue.current_pos == old(self).queue.current_pos,
            final(self).queue.songs() == outgoing_cleared(
                old(self).queue.songs(),
                old(self).state@.current_song,
            ),
            final(self).queue.store() == outgoing_cleared(
                old(self).queue.store(),
                old(self).state@.current_song,
            ),
    {
        match &self.state.current_song {
            Some(current_song) => {
                let _ = self.queue.set_playing(&current_song.data, false);
            },
            None => {},
        }
    }

    /// Makes the song at the view index `pos` the current song and plays it.
    /// Where `pos` is the current position already, nothing happens.
    /// Otherwise the outgoing song's playing flag is cleared and the queue's
    /// position becomes `pos`. With a song there, it becomes the current song
    /// and the player starts playing as `plan` says; without one, the backend
    /// is pointed at nothing and stopped, and no song is current.
    pub fn skip_to(&mut self, pos: u32, cache: &MediaCache) -> (effects: Effects)
        requires
            old(self).wf(),
        ensures
            final(self).wf(),
            final(self).skipped_to(old(self), pos, effects@, cache.files@),
    {
        let mut backend: Vec<BackendCommand> = Vec::new();
        if Some(pos) == self.queue.current_song_index() {
            assert(commands_view(backend@) =~= Seq::empty());
            return Effects {
                backend,
                download: None,
                current_changed: false,
                save: false,
                state_changed: StateChange::none(),
            };
        }
        let before = self.state.playback_state;
        self.clear_outgoing();
        let step = self.queue.skip_song(pos);
        let mut download: Option<SongData> = None;
        let song_changed: bool;
        match step.song {
            Some(song) => {
                song_changed = self.state.set_current_song(Some(song));
                download = self.set_playback_state(PlaybackState::Playing, cache, &mut backend);
                assert(commands_view(backend@) =~= plan(
                    PlaybackState::Playing,
                    self.state@.current_song,
                    cache.files@,
                ).backend);
            },
            None => {
                backend.push(BackendCommand::SetUri(None));
                song_changed = self.state.set_current_song(None);
                let _ = self.set_playback_state(PlaybackState::Stopped, cache, &mut backend);
                assert(commands_view(backend@) =~= seq![
                    CommandView::SetUri(None),
                    CommandView::Stop,
                ]);
            },
        }
        let state_changed = self.change_since(song_changed, before);
        Effects { backend, download, current_changed: step.notify, save: false, state_changed }
    }

    /// Moves on to the song that the queue's repeat mode names. The outgoing
    /// song's playing flag is cleared. With a next song, it becomes the
    /// current song and the player starts playing as `plan` says; without
    /// one, no song is current and the backend is stopped.
    pub fn skip_next(&mut self, cache: &MediaCache) -> (effects: Effects)
        requires
            old(self).wf(),
        ensures
            final(self).wf(),
            final(self).stepped_next(old(self), effects@, cache.files@),
    {
        let mut backend: Vec<BackendCommand> = Vec::new();
        let before = self.state.playback_state;
        self.clear_outgoing();
        let step = self.queue.next_song();
        let mut download: Option<SongData> = None;
        let song_changed: bool;
        match step.song {
            Some(next_song) => {
                song_changed = self.state.set_current_song(Some(next_song));
                download = self.set_playback_state(PlaybackState::Playing, cache, &mut backend);
                assert(commands_view(backend@) =~= plan(
                    PlaybackState::Playing,
                    self.state@.current_song,
                    cache.files@,
                ).backend);
            },
            None => {
                song_changed = self.state.set_current_song(None);
                let _ = self.set_playback_state(PlaybackState::Stopped, cache, &mut backend);
                assert(commands_view(backend@) =~= seq![CommandView::Stop]);
            },
        }
        let state_changed = self.change_since(song_changed, before);
        Effects { backend, download, current_changed: step.notify, save: false, state_changed }
    }

    /// Steps back to the song before the current one. At the first song of
    /// the queue, with a song current, nothing happens; nor where the queue
    /// has no position to step back from. Otherwise the queue's position
    /// moves back by one. With a song there, the outgoing song's playing flag
    /// is cleared, that song's is set, it becomes the current song, the
    /// backend seeks to the start and the player starts playing as `plan`
    /// says.
    pub fn skip_previous(&mut self, cache: &MediaCache) -> (effects: Effects)
        requires
            old(self).wf(),
        ensures
            final(self).wf(),
            final(self).stepped_previous(old(self), effects@, cache.files@),
    {
        let mut backend: Vec<BackendCommand> = Vec::new();
        assert(commands_view(backend@) =~= Seq::empty());
        if self.state.current_song.is_some() && self.queue.is_first_song() {
            return Effects {
                backend,
                download: None,
                current_changed: false,
                save: false,
                state_changed: StateChange::none(),
            };
        }
        let before = self.state.playback_state;
        let step = self.queue.previous_song();
        let mut download: Option<SongData> = None;
        let mut song_changed = false;
        match step.song {
            Some(song) => {
                let mut prev_song = song;
                self.clear_outgoing();
                let _ = self.queue.set_playing(&prev_song.data, true);
                let _ = prev_song.set_playing(true);
                song_changed = self.state.set_current_song(Some(prev_song));
                backend.push(BackendCommand::Seek(0));
                download = self.set_playback_state(PlaybackState::Playing, cache, &mut backend);
                assert(commands_view(backend@) =~= seq![CommandView::Seek(0)] + plan(
                    PlaybackState::Playing,
                    self.state@.current_song,
                    cache.files@,
                ).backend);
            },
            None => {},
        }
        let state_changed = self.change_since(song_changed, before);
        Effects { backend, download, current_changed: step.notify, save: false, state_changed }
    }

    /// Removes the selected songs from the queue. Before that the player
    /// walks over the songs in view order and steps to the next song, as
    /// `skip_next` does, at every song that is selected and playing when the
    /// walk reaches it. The queue's position keeps the value that the walk
    /// left.
    pub fn remove_selected(&mut self, cache: &MediaCache) -> (removal: Removal)
        requires
            old(self).wf(),
        ensures
            final(self).wf(),
            final(self).queue.shuffled() == old(self).queue.shuffled(),
            effects_views(removal.steps@) == sweep_effects(old(self).model(), cache.files@, 0),
            descriptions(views(removal.removed@)) == descriptions(
                selected_of(old(self).queue.songs()),
            ),
            removal.save == (final(self).queue.store().len() != old(self).queue.store().len()),
            ({
                let swept = sweep(old(self).model(), cache.files@, 0);
                &&& final(self).state@ == swept.state
                &&& final(self).queue.current_pos == swept.current_pos
                &&& final(self).queue.repeat_mode == swept.repeat_mode
                &&& final(self).queue.store() == without_songs(
                    swept.store,
                    views(removal.removed@),
                )
            }),
    {
        let ghost start = self.model();
        let ghost files = cache.files@;
        let n = self.queue.n_songs();
        let mut steps: Vec<Effects> = Vec::new();
        let mut removed: Vec<Song> = Vec::new();
        let mut i: u32 = 0;
        proof {
            assert(effects_views(steps@) =~= Seq::empty());
            assert(views(removed@) =~= Seq::empty());
            assert(start.songs.take(0) =~= Seq::empty());
            assert(descriptions(views(removed@)) =~= descriptions(
                selected_of(start.songs.take(0)),
            ));
        }
        while i < n
            invariant
                i <= n,
                n == self.queue.songs().len(),
                self.wf(),
                files == cache.files@,
                start == old(self).model(),
                self.queue.shuffled() == old(self).queue.shuffled(),
                self.queue.store().len() == old(self).queue.store().len(),
                same_selection(self.queue.songs(), start.songs),
                sweep(self.model(), files, i as nat) == sweep(start, files, 0),
                effects_views(steps@) + sweep_effects(self.model(), files, i as nat)
                    == sweep_effects(start, files, 0),
                descriptions(views(removed@)) == descriptions(
                    selected_of(start.songs.take(i as int)),
                ),
            decreases n - i,
        {
            let ghost before = self.model();
            let ghost done = effects_views(steps@);
            let ghost listed = views(removed@);
            proof {
                assert(start.songs.take(i + 1).drop_last() =~= start.songs.take(i as int));
                assert(start.songs.take(i + 1).last() == start.songs[i as int]);
                assert(before.songs[i as int].data == start.songs[i as int].data);
            }
            match self.queue.song_at(i) {
                Some(song) => {
                    if song.selected() {
                        if song.playing() {
                            let effects = self.skip_next(cache);
                            steps.push(effects);
                            proof {
                                assert(effects_views(steps@) =~= done.push(effects@));
                                assert(effects_views(steps@) + sweep_effects(
                                    self.model(),
                                    files,
                                    (i + 1) as nat,
                                ) =~= done + sweep_effects(before, files, i as nat));
                            }
                        }
                        removed.push(song);
                        proof {
                            assert(views(removed@) =~= listed.push(song@));
                            assert(descriptions(views(removed@)) =~= descriptions(listed).push(
                                song@.data,
                            ));
                            assert(descriptions(selected_of(start.songs.take(i + 1)))
                                =~= descriptions(selected_of(start.songs.take(i as int))).push(
                                start.songs[i as int].data,
                            ));
                        }
                    }
                },
                None => {},
            }
            i = i + 1;
        }
        proof {
            assert(start.songs.take(i as int) =~= start.songs);
            assert(effects_views(steps@) + Seq::<EffectsView>::empty() =~= effects_views(steps@));
        }
        let save = self.queue.remove_songs(&removed);
        Removal { steps, removed, save }
    }

    /// Takes one action off the control loop.
    ///
    /// `AddSong` queues the track unless the queue holds it, and asks for the
    /// playlist to be saved where the queue grew. `PlaySong` stops the
    /// backend if the player is playing, points it at the locator, starts it
    /// and takes the status `Playing`. `PlayNext` is `skip_next`.
    /// `UpdatePosition` and `VolumeChanged` record the value.
    pub fn process_action(&mut self, action: PlayerAction, cache: &MediaCache) -> (effects:
        Effects)
        requires
            old(self).wf(),
            action is AddSong ==> old(self).queue.store().len() < u32::MAX,
        ensures
            final(self).wf(),
            effects@.state_changed == state_change(old(self).state@, final(self).state@),
            match action {
                PlayerAction::AddSong(data) => {
                    let song = SongView { data: data@, playing: false, selected: false };
                    &&& final(self).state == old(self).state
                    &&& final(self).queue.repeat_mode == old(self).queue.repeat_mode
                    &&& final(self).queue.current_pos == old(self).queue.current_pos
                    &&& final(self).queue.shuffled() == old(self).queue.shuffled()
                    &&& final(self).queue.store() == with_song(old(self).queue.store(), song)
                    &&& effects@ == (EffectsView {
                        save: position_of(old(self).queue.store(), data@) is None,
                        ..no_effects()
                    })
                },
                PlayerAction::PlaySong(uri) => {
                    &&& final(self).queue == old(self).queue
                    &&& final(self).state@ == (PlayerStateView {
                        playback_state: PlaybackState::Playing,
                        ..old(self).state@
                    })
                    &&& effects@ == (EffectsView {
                        backend: if old(self).state.playback_state == PlaybackState::Playing {
                            seq![
                                CommandView::Stop,
                                CommandView::SetUri(Some(uri@)),
                                CommandView::Play,
                            ]
                        } else {
                            seq![CommandView::SetUri(Some(uri@)), CommandView::Play]
                        },
                        state_changed: effects@.state_changed,
                        ..no_effects()
                    })
                },
                PlayerAction::PlayNext => final(self).stepped_next(
                    old(self),
                    effects@,
                    cache.files@,
                ),
                PlayerAction::UpdatePosition(position) => {
                    &&& final(self).queue == old(self).queue
                    &&& final(self).state@ == (PlayerStateView { position, ..old(self).state@ })
                    &&& effects@ == (EffectsView {
                        state_changed: effects@.state_changed,
                        ..no_effects()
                    })
                },
                PlayerAction::VolumeChanged(volume) => {
                    &&& final(self).queue == old(self).queue
                    &&& final(self).state@ == (PlayerStateView { volume, ..old(self).state@ })
                    &&& effects@ == (EffectsView {
                        state_changed: effects@.state_changed,
                        ..no_effects()
                    })
                },
            },
    {
        let mut backend: Vec<BackendCommand> = Vec::new();
        assert(commands_view(backend@) =~= Seq::empty());
        match action {
            PlayerAction::AddSong(data) => {
                let song = Song::new(data);
                let added = self.queue.add_song(&song);
                Effects {
                    backend,
                    download: None,
                    current_changed: false,
                    save: added,
                    state_changed: StateChange::none(),
                }
            },
            PlayerAction::PlaySong(uri) => {
                let was_playing = self.state.playing();
                if was_playing {
                    backend.push(BackendCommand::Stop);
                }
                backend.push(BackendCommand::SetUri(Some(uri)));
                backend.push(BackendCommand::Play);
                let started = self.state.set_playback_state(&PlaybackState::Playing);
                assert(commands_view(backend@) =~= if was_playing {
                    seq![CommandView::Stop, CommandView::SetUri(Some(uri@)), CommandView::Play]
                } else {
                    seq![CommandView::SetUri(Some(uri@)), CommandView::Play]
                });
                Effects {
                    backend,
                    download: None,
                    current_changed: false,
                    save: false,
                    state_changed: StateChange {
                        song: false,
                        playback_state: started,
                        position: false,
                        volume: false,
                    },
                }
            },
            PlayerAction::UpdatePosition(position) => {
                let moved = self.state.set_position(position);
                Effects {
                    backend,
                    download: None,
                    current_changed: false,
                    save: false,
                    state_changed: StateChange {
                        song: false,
                        playback_state: false,
                        position: moved,
                        volume: false,
                    },
                }
            },
            PlayerAction::PlayNext => self.skip_next(cache),
            PlayerAction::VolumeChanged(volume) => {
                let turned = self.state.set_volume(volume);
                Effects {
                    backend,
                    download: None,
                    current_changed: false,
                    save: false,
                    state_changed: StateChange {
                        song: false,
                        playback_state: false,
                        position: false,
                        volume: turned,
                    },
                }
            },
        }
    }

    /// Pauses a playing player, and starts any other.
    pub fn toggle_play(&mut self) -> (effects: Effects)
        ensures
            final(self).queue == old(self).queue,
            final(self).state@ == (PlayerStateView {
                playback_state: if old(self).state.playback_state == PlaybackState::Playing {
                    PlaybackState::Paused
                } else {
                    PlaybackState::Playing
                },
                ..old(self).state@
            }),
            effects@ == (EffectsView {
                backend: if old(self).state.playback_state == PlaybackState::Playing {
                    seq![CommandView::Pause]
                } else {
                    seq![CommandView::Play]
                },
                state_changed: state_change(old(self).state@, final(self).state@),
                ..no_effects()
            }),
    {
        let mut backend: Vec<BackendCommand> = Vec::new();
        let before = self.state.playback_state;
        if self.state.playing() {
            backend.push(BackendCommand::Pause);
            let _ = self.state.set_playback_state(&PlaybackState::Paused);
            assert(commands_view(backend@) =~= seq![CommandView::Pause]);
        } else {
            backend.push(BackendCommand::Play);
            let _ = self.state.set_playback_state(&PlaybackState::Playing);
            assert(commands_view(backend@) =~= seq![CommandView::Play]);
        }
        let state_changed = self.change_since(false, before);
        Effects { backend, download: None, current_changed: false, save: false, state_changed }
    }

    /// Hands a volume level on to the backend.
    pub fn set_volume(&self, volume: Volume) -> (effects: Effects)
        ensures
            effects@ == (EffectsView { backend: seq![CommandView::SetVolume(volume)], ..no_effects() }),
    {
        let mut backend: Vec<BackendCommand> = Vec::new();
        backend.push(BackendCommand::SetVolume(volume));
        assert(commands_view(backend@) =~= seq![CommandView::SetVolume(volume)]);
        Effects {
            backend,
            download: None,
            current_changed: false,
            save: false,
            state_changed: StateChange::none(),
        }
    }

    /// Seeks to `position` seconds within the current song. Without a current
    /// song nothing happens.
    pub fn seek(&self, position: u64) -> (effects: Effects)
        ensures
            effects@ == (EffectsView {
                backend: if self.state.current_song is Some {
                    seq![CommandView::Seek(position)]
                } else {
                    Seq::empty()
                },
                ..no_effects()
            }),
    {
        let mut backend: Vec<BackendCommand> = Vec::new();
        if self.state.current_song.is_some() {
            backend.push(BackendCommand::Seek(position));
            assert(commands_view(backend@) =~= seq![CommandView::Seek(position)]);
        } else {
            assert(commands_view(backend@) =~= Seq::empty());
        }
        Effects {
            backend,
            download: None,
            current_changed: false,
            save: false,
            state_changed: StateChange::none(),
        }
    }
}

} // verus!
