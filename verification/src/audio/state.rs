//! The observable snapshot of playback.

use crate::audio::player::PlaybackState;
use crate::audio::queue::song_view;
use crate::audio::song::{same_identity, Song, SongView};
use vstd::prelude::*;

verus! {

/// The bit pattern of the level 1.0.
pub const FULL_VOLUME: u64 = 0x3FF0_0000_0000_0000u64;

/// A volume level, held as the bit pattern of its 64-bit IEEE 754 value. The
/// engine stores and hands on levels and never computes with them.
#[derive(Clone, Copy, Debug, PartialEq, Eq, Structural)]
pub struct Volume {
    pub bits: u64,
}

/// Mathematical value of a [`PlayerState`].
pub ghost struct PlayerStateView {
    pub current_song: Option<SongView>,
    pub playback_state: PlaybackState,
    pub position: u64,
    pub volume: Volume,
}

/// Current song, status, position in seconds, and volume. The current song
/// is a copy taken when the song became current; the queue holds the song
/// whose flags change.
pub struct PlayerState {
    pub current_song: Option<Song>,
    pub playback_state: PlaybackState,
    pub position: u64,
    pub volume: Volume,
}

impl View for PlayerState {
    type V = PlayerStateView;

    open spec fn view(&self) -> PlayerStateView {
        PlayerStateView {
            current_song: song_view(self.current_song),
            playback_state: self.playback_state,
            position: self.position,
            volume: self.volume,
        }
    }
}

/// Both are absent, or both are the same track.
pub open spec fn same_song(a: Option<SongView>, b: Option<SongView>) -> bool {
    match (a, b) {
        (Some(x), Some(y)) => same_identity(x.data, y.data),
        (None, None) => true,
        _ => false,
    }
}

impl Default for PlayerState {
    fn default() -> (state: Self)
        ensures
            state@ == PlayerState::default_view(),
    {
        PlayerState {
            current_song: None,
            playback_state: PlaybackState::Stopped,
            position: 0,
            volume: Volume { bits: FULL_VOLUME },
        }
    }
}

impl PlayerState {
    /// The state of a player that has not played yet: no song, stopped, at
    /// second 0 and full volume.
    pub open spec fn default_view() -> PlayerStateView {
        PlayerStateView {
            current_song: None,
            playback_state: PlaybackState::Stopped,
            position: 0,
            volume: Volume { bits: FULL_VOLUME },
        }
    }

    /// The current song, if there is one.
    pub fn current_song(&self) -> (song: Option<&Song>)
        ensures
            song is Some == self.current_song is Some,
            song is Some ==> *song.unwrap() == self.current_song.unwrap(),
    {
        self.current_song.as_ref()
    }

    /// Whether the player plays, pauses or has stopped.
    pub fn playback_state(&self) -> (playback_state: PlaybackState)
        ensures
            playback_state == self.playback_state,
    {
        self.playback_state
    }

    /// Whether the player is playing.
    pub fn playing(&self) -> (playing: bool)
        ensures
            playing == (self.playback_state == PlaybackState::Playing),
    {
        self.playback_state == PlaybackState::Playing
    }

    /// The position within the current song, in seconds.
    pub fn position(&self) -> (position: u64)
        ensures
            position == self.position,
    {
        self.position
    }

    /// The volume level.
    pub fn volume(&self) -> (volume: Volume)
        ensures
            volume == self.volume,
    {
        self.volume
    }

    /// Makes `song` the current song. Tells whether the current song is now
    /// another track, or present where it was absent or the reverse, in which
    /// case observers are to be notified.
    pub fn set_current_song(&mut self, song: Option<Song>) -> (changed: bool)
        ensures
            final(self)@ == (PlayerStateView { current_song: song_view(song), ..old(self)@ }),
            changed == !same_song(old(self)@.current_song, song_view(song)),
    {
        let changed = match (&self.current_song, &song) {
            (Some(before), Some(after)) => !before.equals(after),
            (None, None) => false,
            _ => true,
        };
        self.current_song = song;
        changed
    }

    /// Sets the status. Tells whether it changed.
    pub fn set_playback_state(&mut self, playback_state: &PlaybackState) -> (changed: bool)
        ensures
            final(self)@ == (PlayerStateView { playback_state: *playback_state, ..old(self)@ }),
            changed == (old(self).playback_state != *playback_state),
    {
        let changed = self.playback_state != *playback_state;
        self.playback_state = *playback_state;
        changed
    }

    /// Sets the position. Tells whether it changed.
    pub fn set_position(&mut self, position: u64) -> (changed: bool)
        ensures
            final(self)@ == (PlayerStateView { position, ..old(self)@ }),
            changed == (old(self).position != position),
    {
        let changed = self.position != position;
        self.position = position;
        changed
    }

    /// Sets the volume. Tells whether it changed.
    pub fn set_volume(&mut self, volume: Volume) -> (changed: bool)
        ensures
            final(self)@ == (PlayerStateView { volume, ..old(self)@ }),
            changed == (old(self).volume != volume),
    {
        let changed = self.volume != volume;
        self.volume = volume;
        changed
    }
}

} // verus!
