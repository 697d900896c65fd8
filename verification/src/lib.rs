//! Playback core of a terminal audio player: a per-track timeline that
//! tracks elapsed play time across pause/resume/seek without a live counter,
//! a play-queue engine that drives the timeline together with an external
//! audio sink, a lyric cursor that picks the active lyric line for a given
//! position, and an LRC lyric-text parser.

pub mod config;
pub mod engine;
pub mod list_nav;
pub mod lyric_cursor;
pub mod lyrics;
pub mod media;
pub mod play_item;
pub mod timeline;
pub mod utils;
