pub mod lyrics;
pub mod media;
pub mod netease;
pub mod text;

pub use netease::{current_position_ms, current_track, current_track_id, TrackSnapshot};
