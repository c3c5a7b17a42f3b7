//! Recording tasks and their runtime state.
use vstd::prelude::*;

use super::elapsed::Elapsed;
use super::recording_status::RecordingStatus;
use super::video_quality::VideoQuality;
use crate::text::copy_str;

verus! {

/// `time::OffsetDateTime`, carried through unchanged.
#[verifier::external_type_specification]
#[verifier::external_body]
pub struct ExOffsetDateTime(time::OffsetDateTime);

/// `time::Time`, carried through unchanged.
#[verifier::external_type_specification]
#[verifier::external_body]
pub struct ExTime(time::Time);

/// A requested quality: a preset or a free-form text.
#[derive(Debug, Clone)]
pub enum QualityInput {
    Quality(VideoQuality),
    Custom(String),
}

impl QualityInput {
    /// The text shown for the quality: the preset's description or the text.
    pub open spec fn spec_text(self) -> Seq<char> {
        match self {
            QualityInput::Quality(q) => q.spec_description(),
            QualityInput::Custom(s) => s@,
        }
    }

    pub fn to_string(&self) -> (r: String)
        ensures
            r@ == self.spec_text(),
    {
        match self {
            QualityInput::Quality(q) => copy_str(q.description()),
            QualityInput::Custom(s) => copy_str(s.as_str()),
        }
    }

    /// A preset quality.
    pub fn from_quality(q: VideoQuality) -> (r: QualityInput)
        ensures
            r == QualityInput::Quality(q),
    {
        QualityInput::Quality(q)
    }

    /// A free-form quality.
    pub fn from_text(s: &str) -> (r: QualityInput)
        ensures
            r matches QualityInput::Custom(t) && t@ == s@,
    {
        QualityInput::Custom(copy_str(s))
    }
}

/// A recording task as stored in the configuration.
#[derive(Debug, Clone)]
pub struct Recording {
    pub rec_id: String,
    pub url: String,
    pub quality: String,
    pub record_format: String,
    pub monitor_status: bool,
    pub segment_record: bool,
    pub segment_time: String,
    pub streamer_name: String,
    pub scheduled_recording: bool,
    pub scheduled_start_time: String,
    pub monitor_hours: String,
    pub recording_dir: String,
    pub enabled_message_push: bool,
    pub only_notify_no_record: bool,
    pub flv_use_direct_download: bool,
    pub video_bitrate: Option<u32>,
    pub platform: Option<String>,
    pub platform_key: Option<String>,
    pub title: String,
    pub display_title: String,
    pub last_duration: String,
}

/// A recording task with its runtime state.
#[derive(Debug, Clone)]
pub struct RecordingFormatted {
    pub base: Recording,
    pub is_live: bool,
    pub is_recording: bool,
    pub is_checking: bool,
    pub status: RecordingStatus,
    pub status_info: String,
    pub cumulative_duration: Elapsed,
    pub last_duration: Elapsed,
    pub start_time: Option<time::OffsetDateTime>,
    pub live_title: Option<String>,
    pub speed: String,
    pub selected: bool,
    pub showed_checking_status: bool,
    pub force_stop: bool,
    pub stopping_in_progress: bool,
    pub manually_stopped: bool,
    pub notified_live_start: bool,
    pub notified_live_end: bool,
    pub detection_time: Option<time::Time>,
    pub loop_time_seconds: u64,
    pub use_proxy: bool,
    pub record_url: Option<String>,
    pub preview_url: Option<String>,
    pub scheduled_time_range: Option<Vec<String>>,
}

impl Recording {
    /// The task with every text empty, every switch off and no optional
    /// value, except the format `mp4` and the segment length `1800`.
    pub open spec fn is_blank(self) -> bool {
        &&& self.rec_id@ == Seq::<char>::empty()
        &&& self.url@ == Seq::<char>::empty()
        &&& self.quality@ == Seq::<char>::empty()
        &&& self.record_format@ == "mp4"@
        &&& !self.monitor_status
        &&& !self.segment_record
        &&& self.segment_time@ == "1800"@
        &&& self.streamer_name@ == Seq::<char>::empty()
        &&& !self.scheduled_recording
        &&& self.scheduled_start_time@ == Seq::<char>::empty()
        &&& self.monitor_hours@ == Seq::<char>::empty()
        &&& self.recording_dir@ == Seq::<char>::empty()
        &&& !self.enabled_message_push
        &&& !self.only_notify_no_record
        &&& !self.flv_use_direct_download
        &&& self.video_bitrate is None
        &&& self.platform is None
        &&& self.platform_key is None
        &&& self.title@ == Seq::<char>::empty()
        &&& self.display_title@ == Seq::<char>::empty()
        &&& self.last_duration@ == Seq::<char>::empty()
    }
}

impl RecordingFormatted {
    /// The runtime state of a task that has just been registered.
    pub open spec fn is_default(self) -> bool {
        &&& self.base.is_blank()
        &&& !self.is_live
        &&& !self.is_recording
        &&& !self.is_checking
        &&& self.status == RecordingStatus::Monitoring
        &&& self.status_info@ == RecordingStatus::Monitoring.spec_description()
        &&& self.cumulative_duration.secs == 0 && self.cumulative_duration.nanos == 0
        &&& self.last_duration.secs == 0 && self.last_duration.nanos == 0
        &&& self.start_time is None
        &&& self.live_title is None
        &&& self.speed@ == "0 KB/s"@
        &&& !self.selected
        &&& !self.showed_checking_status
        &&& !self.force_stop
        &&& !self.stopping_in_progress
        &&& !self.manually_stopped
        &&& !self.notified_live_start
        &&& !self.notified_live_end
        &&& self.detection_time is None
        &&& self.loop_time_seconds == 300
        &&& !self.use_proxy
        &&& self.record_url is None
        &&& self.preview_url is None
        &&& self.scheduled_time_range is None
    }
}

impl Default for RecordingFormatted {
    fn default() -> (r: RecordingFormatted)
        ensures
            r.is_default(),
    {
        RecordingFormatted {
            base: Recording {
                rec_id: String::new(),
                url: String::new(),
                quality: String::new(),
                record_format: copy_str("mp4"),
                monitor_status: false,
                segment_record: false,
                segment_time: copy_str("1800"),
                streamer_name: String::new(),
                scheduled_recording: false,
                scheduled_start_time: String::new(),
                monitor_hours: String::new(),
                recording_dir: String::new(),
                enabled_message_push: false,
                only_notify_no_record: false,
                flv_use_direct_download: false,
                video_bitrate: None,
                platform: None,
                platform_key: None,
                title: String::new(),
                display_title: String::new(),
                last_duration: String::new(),
            },
            is_live: false,
            is_recording: false,
            is_checking: false,
            status: RecordingStatus::Monitoring,
            status_info: copy_str(RecordingStatus::Monitoring.description()),
            cumulative_duration: Elapsed::zero(),
            last_duration: Elapsed::zero(),
            start_time: None,
            live_title: None,
            speed: copy_str("0 KB/s"),
            selected: false,
            showed_checking_status: false,
            force_stop: false,
            stopping_in_progress: false,
            manually_stopped: false,
            notified_live_start: false,
            notified_live_end: false,
            detection_time: None,
            loop_time_seconds: 300,
            use_proxy: false,
            record_url: None,
            preview_url: None,
            scheduled_time_range: None,
        }
    }
}

} // verus!
