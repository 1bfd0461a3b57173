//! Randomized preview playlists: a clip window is sampled for every video of
//! a folder and the whole set is written out as an mpv edit-decision list.

pub mod builder;
pub mod config;
pub mod decimal;
pub mod discovery;
pub mod edl;
pub mod entry;
pub mod probe;
pub mod random;
pub mod reader;
pub mod round_trip;
pub mod sampler;
pub mod shuffle;
