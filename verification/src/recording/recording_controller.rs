//! Speed tracking and the decisions of the automatic recording scheduler.
use vstd::prelude::*;

use super::input_options::{is_overseas_url, is_selection_for, InputOptions, StreamSelection, select_stream_source};
use super::stream_recorder::RecorderConfig;
use crate::format::OutputFormat;
use crate::models::elapsed::Elapsed;
use crate::text::{copy_str, opt_view, push_char, trim_end_char, trim_end_matches};
use crate::utils::{format_duration, spec_format_duration};

verus! {

// ---------------------------------------------------------------------------
// Speed tracking
// ---------------------------------------------------------------------------

/// `std::time::Instant`, carried through unchanged.
#[verifier::external_type_specification]
#[verifier::external_body]
pub struct ExInstant(std::time::Instant);

/// Calls `std::time::Instant::now`. The result depends on the clock, so
/// nothing is stated of it.
#[verifier::external_body]
fn instant_now() -> std::time::Instant {
    std::time::Instant::now()
}

/// The speed and the totals of a recording in progress.
#[derive(Debug, Clone)]
pub struct SpeedTracker {
    /// Bytes per second over the last update that spanned a whole second.
    pub bytes_per_sec: u64,
    pub cumulative_bytes: u64,
    pub cumulative_duration: Elapsed,
    /// When the last update happened.
    pub last_update: Option<std::time::Instant>,
}

impl Default for SpeedTracker {
    fn default() -> (r: SpeedTracker)
        ensures
            r.bytes_per_sec == 0,
            r.cumulative_bytes == 0,
            r.cumulative_duration == Elapsed::spec_zero(),
            r.last_update is None,
    {
        SpeedTracker {
            bytes_per_sec: 0,
            cumulative_bytes: 0,
            cumulative_duration: Elapsed::zero(),
            last_update: None,
        }
    }
}

impl SpeedTracker {
    /// Whether an update by these amounts keeps the totals in range (the
    /// sums panic otherwise).
    pub open spec fn can_update(self, bytes_delta: u64, duration_delta: Elapsed) -> bool {
        &&& self.cumulative_bytes + bytes_delta <= u64::MAX
        &&& self.cumulative_duration.can_add(duration_delta)
    }

    /// Adds a chunk of recording to the totals; when the chunk lasted at
    /// least a second, its average speed becomes the current speed.
    pub fn update(&mut self, bytes_delta: u64, duration_delta: Elapsed)
        requires
            old(self).cumulative_duration.wf(),
            duration_delta.wf(),
            old(self).can_update(bytes_delta, duration_delta),
        ensures
            final(self).cumulative_bytes == old(self).cumulative_bytes + bytes_delta,
            final(self).cumulative_duration.wf(),
            final(self).cumulative_duration.total_nanos() == old(
                self,
            ).cumulative_duration.total_nanos() + duration_delta.total_nanos(),
            final(self).bytes_per_sec == (if duration_delta.secs > 0 {
                bytes_delta / duration_delta.secs
            } else {
                old(self).bytes_per_sec
            }),
            final(self).last_update is Some,
    {
        self.cumulative_bytes = self.cumulative_bytes + bytes_delta;
        self.cumulative_duration = self.cumulative_duration.add(&duration_delta);
        let secs = duration_delta.as_secs();
        if secs > 0 {
            self.bytes_per_sec = bytes_delta / secs;
        }
        self.last_update = Some(instant_now());
    }

    /// The unit the current speed is shown in.
    pub fn speed_unit(&self) -> (r: &'static str)
        ensures
            r@ == spec_speed_unit(self.bytes_per_sec as nat),
    {
        speed_unit(self.bytes_per_sec)
    }

    /// The recorded time as `HH:MM:SS`.
    pub fn cumulative_duration_string(&self) -> (r: String)
        ensures
            r@ == spec_format_duration(self.cumulative_duration.secs as nat),
    {
        format_duration(self.cumulative_duration.as_secs())
    }
}

/// The unit a speed in bytes per second is shown in: `MB/s` from one MiB
/// per second, `KB/s` from one KiB per second, `B/s` below.
pub open spec fn spec_speed_unit(bytes_per_sec: nat) -> Seq<char> {
    if bytes_per_sec >= 1024 * 1024 {
        "MB/s"@
    } else if bytes_per_sec >= 1024 {
        "KB/s"@
    } else {
        "B/s"@
    }
}

/// The unit a speed in bytes per second is shown in.
pub fn speed_unit(bytes_per_sec: u64) -> (r: &'static str)
    ensures
        r@ == spec_speed_unit(bytes_per_sec as nat),
{
    if bytes_per_sec >= 1024 * 1024 {
        "MB/s"
    } else if bytes_per_sec >= 1024 {
        "KB/s"
    } else {
        "B/s"
    }
}

// ---------------------------------------------------------------------------
// Live status and the scheduler
// ---------------------------------------------------------------------------

/// What a live check found out about a source.
#[derive(Debug, Clone)]
pub struct StreamInfo {
    pub anchor_name: String,
    pub platform_name: String,
    pub title: String,
    pub flv_url: Option<String>,
    pub record_url: String,
    pub m3u8_url: Option<String>,
    pub is_live: bool,
}

impl Default for StreamInfo {
    fn default() -> (r: StreamInfo)
        ensures
            r.anchor_name@.len() == 0,
            r.platform_name@.len() == 0,
            r.title@.len() == 0,
            r.flv_url is None,
            r.record_url@.len() == 0,
            r.m3u8_url is None,
            !r.is_live,
    {
        StreamInfo {
            anchor_name: String::new(),
            platform_name: String::new(),
            title: String::new(),
            flv_url: None,
            record_url: String::new(),
            m3u8_url: None,
            is_live: false,
        }
    }
}

/// What the scheduler does with one source after checking it.
pub enum AutoRecordAction {
    /// Start recording with this configuration.
    Start(RecorderConfig),
    /// Stop the recording in progress.
    Stop,
    /// Leave the source as it is.
    Nothing,
}

/// The file a scheduled recording is saved to:
/// `<dir without trailing '/'>/<anchor>_<platform>.<ext>`.
pub open spec fn spec_auto_save_path(
    output_dir: Seq<char>,
    anchor: Seq<char>,
    platform_key: Seq<char>,
    ext: Seq<char>,
) -> Seq<char> {
    trim_end_char(output_dir, '/') + seq!['/'] + anchor + seq!['_'] + platform_key + seq!['.']
        + ext
}

/// `c` is the configuration the scheduler starts a recording with, for the
/// source `url` found live as `info`: the stream is chosen as
/// `select_stream_source` chooses it; a direct download is saved as ts,
/// anything else as mp4; the input options are the preset for the URL's
/// domain; nothing is segmented and three retries are allowed.
pub open spec fn is_auto_record_config(
    c: RecorderConfig,
    info: StreamInfo,
    url: Seq<char>,
    platform_key: Seq<char>,
    output_dir: Seq<char>,
) -> bool {
    let direct = c.use_direct_download;
    &&& exists|sel: StreamSelection| #[trigger]
        is_selection_for(sel, info.record_url@, platform_key) && (sel is FlvDirectDownload <==> direct)
    &&& c.record_url@ == info.record_url@
    &&& c.output_path@ == spec_auto_save_path(
        output_dir,
        info.anchor_name@,
        platform_key,
        if direct {
            "ts"@
        } else {
            "mp4"@
        },
    )
    &&& c.format == (if direct {
        OutputFormat::Ts
    } else {
        OutputFormat::Mp4
    })
    &&& !c.segment_record
    &&& c.segment_time == 1800
    &&& !c.is_overseas
    &&& c.headers is None
    &&& c.proxy is None
    &&& c.input_options matches Some(o) && (if is_overseas_url(url) {
        o.is_overseas_preset()
    } else {
        o.is_cn_preset()
    })
    &&& c.max_retries == 3
}

/// The configuration the scheduler starts a recording with.
pub fn auto_record_config(info: &StreamInfo, url: &str, platform_key: &str, output_dir: &str) -> (c:
    RecorderConfig)
    ensures
        is_auto_record_config(c, *info, url@, platform_key@, output_dir@),
{
    let sel = select_stream_source(info.record_url.as_str(), platform_key);
    let ghost chosen = sel;
    let (record_url, direct) = match sel {
        StreamSelection::FlvDirectDownload { url, .. } => (url, true),
        StreamSelection::HlsRemux { url } => (url, false),
        StreamSelection::UnknownRemux { url } => (url, false),
    };
    let ext = if direct {
        "ts"
    } else {
        "mp4"
    };
    assert(is_selection_for(chosen, info.record_url@, platform_key@));
    assert(chosen is FlvDirectDownload <==> direct);
    let mut save_path = copy_str(trim_end_matches(output_dir, '/'));
    push_char(&mut save_path, '/');
    save_path.append(info.anchor_name.as_str());
    push_char(&mut save_path, '_');
    save_path.append(platform_key);
    push_char(&mut save_path, '.');
    save_path.append(ext);
    assert(save_path@ =~= spec_auto_save_path(output_dir@, info.anchor_name@, platform_key@, ext@));
    let input_opts = if InputOptions::is_overseas_domain(url) {
        InputOptions::default_overseas()
    } else {
        InputOptions::default_cn()
    };
    RecorderConfig {
        record_url,
        output_path: save_path,
        format: if direct {
            OutputFormat::Ts
        } else {
            OutputFormat::Mp4
        },
        segment_record: false,
        segment_time: 1800,
        is_overseas: false,
        headers: None,
        proxy: None,
        use_direct_download: direct,
        input_options: Some(input_opts),
        max_retries: 3,
    }
}

/// Decides what to do with a source after a live check (`None` means the
/// room is not live): a source found live that is not recording starts
/// recording; a source that is recording and has gone off air (no stream
/// found, or a stream that is not live) is stopped; anything else is left
/// as it is.
pub fn plan_auto_record(
    is_recording: bool,
    status: Option<StreamInfo>,
    url: &str,
    platform_key: &str,
    output_dir: &str,
) -> (r: AutoRecordAction)
    ensures
        (status matches Some(i) && i.is_live && !is_recording) ==> (r matches AutoRecordAction::Start(
            c,
        ) && is_auto_record_config(c, status->0, url@, platform_key@, output_dir@)),
        (is_recording && (status is None || (status matches Some(i) && !i.is_live))) ==> r is Stop,
        !(status matches Some(i) && i.is_live && !is_recording) && !(is_recording && (status is None
            || (status matches Some(i) && !i.is_live))) ==> r is Nothing,
{
    match status {
        Some(info) => {
            if info.is_live && !is_recording {
                AutoRecordAction::Start(auto_record_config(&info, url, platform_key, output_dir))
            } else if !info.is_live && is_recording {
                AutoRecordAction::Stop
            } else {
                AutoRecordAction::Nothing
            }
        },
        None => if is_recording {
            AutoRecordAction::Stop
        } else {
            AutoRecordAction::Nothing
        },
    }
}

} // verus!
