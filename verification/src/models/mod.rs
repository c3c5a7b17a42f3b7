//! Data models of recording tasks.
pub mod elapsed;
pub mod recording;
pub mod recording_status;
pub mod video_quality;
