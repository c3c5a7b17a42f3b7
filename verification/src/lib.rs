//! StreamCap: live-stream recording helpers with verified contracts.
pub mod commands;
pub mod config;
pub mod format;
pub mod i18n;
pub mod models;
pub mod notifications;
pub mod platform;
pub mod recording;
pub mod text;
pub mod utils;
pub mod web_api;
