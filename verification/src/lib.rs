//! A video-timeline segmentation engine paired with a playback-state tracker.
//!
//! The planner partitions a video's timeline into contiguous chunks and
//! attaches policy-derived metadata to each; the tracker holds the single
//! current playback session and a registry of previously planned chunk
//! lists, and applies discrete playback events to the session state.
//!
//! All times are integer milliseconds.

pub mod chunk;
pub mod planner;
pub mod player;
pub mod registry;
pub mod text;

pub use chunk::{
    clone_chunk, clone_chunk_list, MovieChunk, MovieChunkConfig, PlanError, DEFAULT_CHUNK_SIZE,
    DEFAULT_TOTAL_DURATION,
};
pub use planner::{
    generate_chunk_url, generate_chunks, get_adaptive_quality, get_emotion_hint_for_chunk,
};
pub use player::{handle_chunk_event, ChunkEventHint, DirPlayer, PlayerState};
pub use registry::ChunkListRegistry;
pub use text::{str_eq, u64_to_padded3_string, u64_to_string};
