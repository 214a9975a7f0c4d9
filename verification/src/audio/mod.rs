//! The playback engine: songs, the queue and its shuffle overlay, and the player.

pub mod player;
pub mod queue;
pub mod shuffle;
pub mod song;
pub mod state;

pub use player::{AudioPlayer, PlayerAction, RepeatMode};
pub use queue::Queue;
pub use song::{Song, SongData};
