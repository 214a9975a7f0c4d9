//! Playback engine of a streaming music player: song metadata, the song queue
//! with its shuffle overlay and repeat modes, and the player state machine.

pub mod utils;
pub mod audio;
pub mod bilibili;
pub mod music;
