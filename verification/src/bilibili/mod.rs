//! What the video platform tells about a video: its pages, episodes and streams.

pub mod api;
pub mod data;
