//! Recording: input options, progress tracking, file naming and the
//! decisions taken around a recording session.
pub mod error;
pub mod input_options;
pub mod post_processor;
pub mod recording_controller;
pub mod remux_engine;
pub mod segment_collector;
pub mod stream_recorder;
