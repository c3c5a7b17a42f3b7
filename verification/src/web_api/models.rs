//! Request and response bodies of the HTTP API.
use vstd::prelude::*;

verus! {

/// One recording task as the API shows it.
#[derive(Debug, Clone)]
pub struct RecordingResponse {
    pub rec_id: String,
    pub url: String,
    pub streamer_name: String,
    pub title: String,
    pub quality: String,
    pub monitor_status: bool,
    pub is_recording: bool,
    pub status_info: String,
    pub speed: String,
    pub platform: Option<String>,
}

/// All recording tasks.
#[derive(Debug, Clone)]
pub struct RecordingListResponse {
    pub total: usize,
    pub recordings: Vec<RecordingResponse>,
}

/// A request to add a recording task; only the URL is required.
#[derive(Debug, Clone)]
pub struct AddRecordingRequest {
    pub url: String,
    pub streamer_name: Option<String>,
    pub quality: Option<String>,
    pub record_format: Option<String>,
    pub monitor_status: Option<bool>,
    pub segment_record: Option<bool>,
    pub segment_time: Option<String>,
    pub recording_dir: Option<String>,
    pub platform: Option<String>,
    pub platform_key: Option<String>,
}

/// A request to change some fields of a recording task.
#[derive(Debug, Clone)]
pub struct UpdateRecordingRequest {
    pub url: Option<String>,
    pub streamer_name: Option<String>,
    pub quality: Option<String>,
    pub monitor_status: Option<bool>,
    pub segment_record: Option<bool>,
}

impl Default for UpdateRecordingRequest {
    fn default() -> (r: UpdateRecordingRequest)
        ensures
            r.url is None,
            r.streamer_name is None,
            r.quality is None,
            r.monitor_status is None,
            r.segment_record is None,
    {
        UpdateRecordingRequest {
            url: None,
            streamer_name: None,
            quality: None,
            monitor_status: None,
            segment_record: None,
        }
    }
}

/// Whether one task is recording.
#[derive(Debug, Clone)]
pub struct StatusItem {
    pub rec_id: String,
    pub url: String,
    pub is_recording: bool,
}

/// A request to switch monitoring on or off.
#[derive(Debug, Clone, Copy)]
pub struct MonitorToggleRequest {
    pub enabled: bool,
}

/// A message in answer to a request.
#[derive(Debug, Clone)]
pub struct ApiMessage {
    pub message: String,
}

/// The body of an error answer.
#[derive(Debug, Clone)]
pub struct ApiError {
    pub error: String,
}

} // verus!
