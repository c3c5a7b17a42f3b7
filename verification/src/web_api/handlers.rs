//! What the API handlers compute: response bodies, new tasks, messages and
//! the recording configuration started from the API.
use vstd::prelude::*;

use super::models::{
    AddRecordingRequest, ApiMessage, RecordingListResponse, RecordingResponse, StatusItem,
    UpdateRecordingRequest,
};
use crate::format::OutputFormat;
use crate::models::elapsed::Elapsed;
use crate::models::recording::{Recording, RecordingFormatted};
use crate::models::recording_status::RecordingStatus;
use crate::recording::stream_recorder::RecorderConfig;
use crate::text::{
    concat2, concat3, copy_opt, copy_str, hex_digits, opt_view, push_char, push_hex_digits,
    str_eq,
};

verus! {

/// A task's status text: `Recording`, else `Monitoring` when monitored,
/// else `Idle`.
pub open spec fn spec_status_text(is_recording: bool, monitor_status: bool) -> Seq<char> {
    if is_recording {
        "Recording"@
    } else if monitor_status {
        "Monitoring"@
    } else {
        "Idle"@
    }
}

fn status_text(is_recording: bool, monitor_status: bool) -> (r: &'static str)
    ensures
        r@ == spec_status_text(is_recording, monitor_status),
{
    if is_recording {
        "Recording"
    } else if monitor_status {
        "Monitoring"
    } else {
        "Idle"
    }
}

/// The response for a stored task.
pub fn build_response(rec_id: &str, recording: &Recording, is_recording: bool) -> (r:
    RecordingResponse)
    ensures
        r.rec_id@ == rec_id@,
        r.url@ == recording.url@,
        r.streamer_name@ == recording.streamer_name@,
        r.title@ == recording.title@,
        r.quality@ == recording.quality@,
        r.monitor_status == recording.monitor_status,
        r.is_recording == is_recording,
        r.status_info@ == spec_status_text(is_recording, recording.monitor_status),
        r.speed@ == "0 KB/s"@,
        opt_view(r.platform) == opt_view(recording.platform),
{
    RecordingResponse {
        rec_id: copy_str(rec_id),
        url: copy_str(recording.url.as_str()),
        streamer_name: copy_str(recording.streamer_name.as_str()),
        title: copy_str(recording.title.as_str()),
        quality: copy_str(recording.quality.as_str()),
        monitor_status: recording.monitor_status,
        is_recording,
        status_info: copy_str(status_text(is_recording, recording.monitor_status)),
        speed: copy_str("0 KB/s"),
        platform: copy_opt(&recording.platform),
    }
}

/// A response built from a status summary entry, with the given status text.
pub open spec fn is_summary_response(
    r: RecordingResponse,
    rec_id: Seq<char>,
    url: Seq<char>,
    is_recording: bool,
    status: Seq<char>,
) -> bool {
    &&& r.rec_id@ == rec_id
    &&& r.url@ == url
    &&& r.streamer_name@.len() == 0
    &&& r.title@.len() == 0
    &&& r.quality@ == "OD"@
    &&& r.monitor_status
    &&& r.is_recording == is_recording
    &&& r.status_info@ == status
    &&& r.speed@ == "0 KB/s"@
    &&& r.platform is None
}

fn summary_response(rec_id: String, url: String, is_recording: bool, status: &str) -> (r:
    RecordingResponse)
    ensures
        is_summary_response(r, rec_id@, url@, is_recording, status@),
{
    RecordingResponse {
        rec_id,
        url,
        streamer_name: String::new(),
        title: String::new(),
        quality: copy_str("OD"),
        monitor_status: true,
        is_recording,
        status_info: copy_str(status),
        speed: copy_str("0 KB/s"),
        platform: None,
    }
}

/// A status summary entry by its view: id, URL and whether it is recording.
pub open spec fn entries_view(v: Seq<(String, String, bool)>) -> Seq<(Seq<char>, Seq<char>, bool)> {
    v.map_values(|e: (String, String, bool)| (e.0@, e.1@, e.2))
}

/// The list of all tasks from a status summary: each entry shown as
/// monitored, with the status `Recording` or `Idle`.
pub fn list_response(summary: Vec<(String, String, bool)>) -> (r: RecordingListResponse)
    ensures
        r.total == summary@.len(),
        r.recordings@.len() == summary@.len(),
        forall|i: int|
            0 <= i < summary@.len() ==> is_summary_response(
                #[trigger] r.recordings@[i],
                summary@[i].0@,
                summary@[i].1@,
                summary@[i].2,
                if summary@[i].2 {
                    "Recording"@
                } else {
                    "Idle"@
                },
            ),
{
    let mut recordings: Vec<RecordingResponse> = Vec::new();
    let n = summary.len();
    let mut i: usize = 0;
    while i < n
        invariant
            n == summary@.len(),
            i <= n,
            recordings@.len() == i,
            forall|j: int|
                0 <= j < i ==> is_summary_response(
                    #[trigger] recordings@[j],
                    summary@[j].0@,
                    summary@[j].1@,
                    summary@[j].2,
                    if summary@[j].2 {
                        "Recording"@
                    } else {
                        "Idle"@
                    },
                ),
        decreases n - i,
    {
        let e = &summary[i];
        let status = if e.2 {
            "Recording"
        } else {
            "Idle"
        };
        let item = summary_response(copy_str(e.0.as_str()), copy_str(e.1.as_str()), e.2, status);
        recordings.push(item);
        i += 1;
    }
    let total = recordings.len();
    RecordingListResponse { total, recordings }
}

/// The first entry of a summary with the given id, if any.
pub open spec fn find_entry(s: Seq<(Seq<char>, Seq<char>, bool)>, rec_id: Seq<char>) -> Option<
    (Seq<char>, Seq<char>, bool),
>
    decreases s.len(),
{
    if s.len() == 0 {
        None
    } else if s[0].0 == rec_id {
        Some(s[0])
    } else {
        find_entry(s.subrange(1, s.len() as int), rec_id)
    }
}

/// The first entry of a status summary with the given id.
pub fn find_in_summary(summary: &Vec<(String, String, bool)>, rec_id: &str) -> (r: Option<
    (String, String, bool),
>)
    ensures
        match r {
            Some(e) => find_entry(entries_view(summary@), rec_id@) == Some((e.0@, e.1@, e.2)),
            None => find_entry(entries_view(summary@), rec_id@) is None,
        },
{
    let ghost full = entries_view(summary@);
    let n = summary.len();
    let mut i: usize = 0;
    assert(full.subrange(0, n as int) =~= full);
    while i < n
        invariant
            n == summary@.len(),
            full == entries_view(summary@),
            i <= n,
            find_entry(full, rec_id@) == find_entry(full.subrange(i as int, n as int), rec_id@),
        decreases n - i,
    {
        let ghost rest = full.subrange(i as int, n as int);
        assert(rest.subrange(1, rest.len() as int) =~= full.subrange(i + 1, n as int));
        let e = &summary[i];
        if str_eq(e.0.as_str(), rec_id) {
            return Some((copy_str(e.0.as_str()), copy_str(e.1.as_str()), e.2));
        }
        i += 1;
    }
    None
}

/// The response for a task found by id: shown as monitored, with the
/// status `Found`.
pub fn found_response(entry: (String, String, bool)) -> (r: RecordingResponse)
    ensures
        is_summary_response(r, entry.0@, entry.1@, entry.2, "Found"@),
{
    let (rec_id, url, is_recording) = entry;
    summary_response(rec_id, url, is_recording, "Found")
}

/// The status items of a summary, in order.
pub fn status_items(summary: Vec<(String, String, bool)>) -> (r: Vec<StatusItem>)
    ensures
        r@.len() == summary@.len(),
        forall|i: int|
            0 <= i < summary@.len() ==> (#[trigger] r@[i]).rec_id@ == summary@[i].0@ && r@[i].url@
                == summary@[i].1@ && r@[i].is_recording == summary@[i].2,
{
    let mut r: Vec<StatusItem> = Vec::new();
    let n = summary.len();
    let mut i: usize = 0;
    while i < n
        invariant
            n == summary@.len(),
            i <= n,
            r@.len() == i,
            forall|j: int|
                0 <= j < i ==> (#[trigger] r@[j]).rec_id@ == summary@[j].0@ && r@[j].url@
                    == summary@[j].1@ && r@[j].is_recording == summary@[j].2,
        decreases n - i,
    {
        let e = &summary[i];
        r.push(
            StatusItem {
                rec_id: copy_str(e.0.as_str()),
                url: copy_str(e.1.as_str()),
                is_recording: e.2,
            },
        );
        i += 1;
    }
    r
}

// ---------------------------------------------------------------------------
// Adding and updating tasks
// ---------------------------------------------------------------------------

/// The error of an add request that lacks a URL.
pub fn add_request_error(req: &AddRecordingRequest) -> (r: Option<&'static str>)
    ensures
        r is None <==> req.url@.len() > 0,
        r matches Some(m) ==> m@ == "URL is required"@,
{
    if req.url.unicode_len() == 0 {
        Some("URL is required")
    } else {
        None
    }
}

fn text_or(o: Option<String>, default: &str) -> (r: String)
    ensures
        r@ == match o {
            Some(s) => s@,
            None => default@,
        },
{
    match o {
        Some(s) => s,
        None => copy_str(default),
    }
}

/// The task an add request describes, with id `rec_id`: quality `OD`,
/// format `mp4`, monitored, not segmented, segments of `1800` seconds,
/// empty name and directory unless the request gives them; everything
/// else off or empty.
pub fn recording_from_request(rec_id: &str, req: AddRecordingRequest) -> (r: Recording)
    ensures
        r.rec_id@ == rec_id@,
        r.url@ == req.url@,
        r.quality@ == (match req.quality {
            Some(q) => q@,
            None => "OD"@,
        }),
        r.record_format@ == (match req.record_format {
            Some(f) => f@,
            None => "mp4"@,
        }),
        r.monitor_status == (match req.monitor_status {
            Some(b) => b,
            None => true,
        }),
        r.segment_record == (match req.segment_record {
            Some(b) => b,
            None => false,
        }),
        r.segment_time@ == (match req.segment_time {
            Some(t) => t@,
            None => "1800"@,
        }),
        r.streamer_name@ == (match req.streamer_name {
            Some(n) => n@,
            None => Seq::<char>::empty(),
        }),
        r.recording_dir@ == (match req.recording_dir {
            Some(d) => d@,
            None => Seq::<char>::empty(),
        }),
        opt_view(r.platform) == opt_view(req.platform),
        opt_view(r.platform_key) == opt_view(req.platform_key),
        !r.scheduled_recording,
        r.scheduled_start_time@.len() == 0,
        r.monitor_hours@.len() == 0,
        !r.enabled_message_push,
        !r.only_notify_no_record,
        !r.flv_use_direct_download,
        r.video_bitrate is None,
        r.title@.len() == 0,
        r.display_title@.len() == 0,
        r.last_duration@.len() == 0,
{
    proof {
        reveal_strlit("");
        assert(""@ =~= Seq::<char>::empty());
    }
    let AddRecordingRequest {
        url,
        streamer_name,
        quality,
        record_format,
        monitor_status,
        segment_record,
        segment_time,
        recording_dir,
        platform,
        platform_key,
    } = req;
    Recording {
        rec_id: copy_str(rec_id),
        url,
        quality: text_or(quality, "OD"),
        record_format: text_or(record_format, "mp4"),
        monitor_status: match monitor_status {
            Some(b) => b,
            None => true,
        },
        segment_record: match segment_record {
            Some(b) => b,
            None => false,
        },
        segment_time: text_or(segment_time, "1800"),
        streamer_name: text_or(streamer_name, ""),
        scheduled_recording: false,
        scheduled_start_time: String::new(),
        monitor_hours: String::new(),
        recording_dir: text_or(recording_dir, ""),
        enabled_message_push: false,
        only_notify_no_record: false,
        flv_use_direct_download: false,
        video_bitrate: None,
        platform,
        platform_key,
        title: String::new(),
        display_title: String::new(),
        last_duration: String::new(),
    }
}

/// A newly registered task: monitored, with its runtime state at rest.
pub open spec fn is_registered(f: RecordingFormatted, base: Recording) -> bool {
    &&& f.base == base
    &&& f == (RecordingFormatted { base: f.base, ..f })
    &&& !f.is_live
    &&& !f.is_recording
    &&& !f.is_checking
    &&& f.status == RecordingStatus::Monitoring
    &&& f.status_info@ == RecordingStatus::Monitoring.spec_description()
    &&& f.cumulative_duration == Elapsed::spec_zero()
    &&& f.last_duration == Elapsed::spec_zero()
    &&& f.start_time is None
    &&& f.live_title is None
    &&& f.speed@ == "0 KB/s"@
    &&& !f.selected
    &&& !f.showed_checking_status
    &&& !f.force_stop
    &&& !f.stopping_in_progress
    &&& !f.manually_stopped
    &&& !f.notified_live_start
    &&& !f.notified_live_end
    &&& f.detection_time is None
    &&& f.loop_time_seconds == 300
    &&& !f.use_proxy
    &&& f.record_url is None
    &&& f.preview_url is None
    &&& f.scheduled_time_range is None
}

/// The runtime entry of a task added through the API.
pub fn registered_recording(recording: Recording) -> (r: RecordingFormatted)
    ensures
        is_registered(r, recording),
{
    RecordingFormatted {
        base: recording,
        is_live: false,
        is_recording: false,
        is_checking: false,
        status: RecordingStatus::Monitoring,
        status_info: copy_str(RecordingStatus::Monitoring.description()),
        cumulative_duration: Elapsed::zero(),
        last_duration: Elapsed::zero(),
        start_time: None,
        live_title: None,
        speed: copy_str("0 KB/s"),
        selected: false,
        showed_checking_status: false,
        force_stop: false,
        stopping_in_progress: false,
        manually_stopped: false,
        notified_live_start: false,
        notified_live_end: false,
        detection_time: None,
        loop_time_seconds: 300,
        use_proxy: false,
        record_url: None,
        preview_url: None,
        scheduled_time_range: None,
    }
}

/// Whether an update request names any field.
pub fn update_has_fields(req: &UpdateRecordingRequest) -> (r: bool)
    ensures
        r == (req.url is Some || req.monitor_status is Some || req.quality is Some
            || req.segment_record is Some || req.streamer_name is Some),
{
    req.url.is_some() || req.monitor_status.is_some() || req.quality.is_some()
        || req.segment_record.is_some() || req.streamer_name.is_some()
}

// ---------------------------------------------------------------------------
// Messages
// ---------------------------------------------------------------------------

fn message(text: String) -> (r: ApiMessage)
    ensures
        r.message@ == text@,
{
    ApiMessage { message: text }
}

/// `Recording <id> update queued`.
pub fn update_queued_message(rec_id: &str) -> (r: ApiMessage)
    ensures
        r.message@ == "Recording "@ + rec_id@ + " update queued"@,
{
    message(concat3("Recording ", rec_id, " update queued"))
}

/// `Recording <id> deleted`.
pub fn deleted_message(rec_id: &str) -> (r: ApiMessage)
    ensures
        r.message@ == "Recording "@ + rec_id@ + " deleted"@,
{
    message(concat3("Recording ", rec_id, " deleted"))
}

/// `Recording <id> not found`.
pub fn not_found_text(rec_id: &str) -> (r: String)
    ensures
        r@ == "Recording "@ + rec_id@ + " not found"@,
{
    concat3("Recording ", rec_id, " not found")
}

/// `Recording started: <id>`.
pub fn started_message(rec_id: &str) -> (r: ApiMessage)
    ensures
        r.message@ == "Recording started: "@ + rec_id@,
{
    message(concat2("Recording started: ", rec_id))
}

/// `Recording stopped: <id>`.
pub fn stopped_message(rec_id: &str) -> (r: ApiMessage)
    ensures
        r.message@ == "Recording stopped: "@ + rec_id@,
{
    message(concat2("Recording stopped: ", rec_id))
}

/// `Monitor <id>: enabled` or `... disabled`.
pub fn monitor_message(rec_id: &str, enabled: bool) -> (r: ApiMessage)
    ensures
        r.message@ == "Monitor "@ + rec_id@ + ": "@ + (if enabled {
            "enabled"@
        } else {
            "disabled"@
        }),
{
    let mut s = concat3("Monitor ", rec_id, ": ");
    s.append(
        if enabled {
            "enabled"
        } else {
            "disabled"
        },
    );
    message(s)
}

/// `All monitoring started` or `All monitoring stopped`.
pub fn all_monitoring_message(started: bool) -> (r: ApiMessage)
    ensures
        r.message@ == (if started {
            "All monitoring started"@
        } else {
            "All monitoring stopped"@
        }),
{
    message(
        copy_str(
            if started {
                "All monitoring started"
            } else {
                "All monitoring stopped"
            },
        ),
    )
}

// ---------------------------------------------------------------------------
// Starting a recording from the API
// ---------------------------------------------------------------------------

/// The number of bytes of a character in UTF-8.
pub open spec fn utf8_width(c: char) -> nat {
    if (c as u32) < 0x80 {
        1
    } else if (c as u32) < 0x800 {
        2
    } else if (c as u32) < 0x10000 {
        3
    } else {
        4
    }
}

/// The number of bytes of a text in UTF-8.
pub open spec fn utf8_size(s: Seq<char>) -> nat
    decreases s.len(),
{
    if s.len() == 0 {
        0
    } else {
        utf8_size(s.drop_last()) + utf8_width(s.last())
    }
}

/// The first `min(8, size)` bytes of `rec_id` end on a character boundary
/// (slicing there is what the file name needs; elsewhere it panics).
pub open spec fn short_id_cut_ok(rec_id: Seq<char>) -> bool {
    exists|k: int|
        0 <= k <= rec_id.len() && #[trigger] utf8_size(rec_id.take(k)) == (if utf8_size(rec_id)
            < 8 {
            utf8_size(rec_id)
        } else {
            8
        })
}

proof fn lemma_utf8_size_grows(s: Seq<char>, j: int, k: int)
    requires
        0 <= j < k <= s.len(),
    ensures
        utf8_size(s.take(j)) < utf8_size(s.take(k)),
    decreases k - j,
{
    assert(s.take(k).drop_last() =~= s.take(k - 1));
    if j < k - 1 {
        lemma_utf8_size_grows(s, j, k - 1);
    }
}

fn char_utf8_width(c: char) -> (r: u64)
    ensures
        r == utf8_width(c),
{
    let v = c as u32;
    if v < 0x80 {
        1
    } else if v < 0x800 {
        2
    } else if v < 0x10000 {
        3
    } else {
        4
    }
}

/// The first eight bytes of a task id (all of it when shorter), as the
/// file name of a recording started from the API uses them.
pub fn short_id(rec_id: &str) -> (r: String)
    requires
        short_id_cut_ok(rec_id@),
    ensures
        r@ == rec_id@.take(r@.len() as int),
        utf8_size(r@) == (if utf8_size(rec_id@) < 8 {
            utf8_size(rec_id@)
        } else {
            8
        }),
{
    let ghost s = rec_id@;
    let ghost target: nat = if utf8_size(s) < 8 {
        utf8_size(s)
    } else {
        8
    };
    let ghost k = choose|k: int|
        0 <= k <= s.len() && #[trigger] utf8_size(s.take(k)) == target;
    let mut r = String::new();
    let mut size: u64 = 0;
    let mut done = false;
    assert(s.take(0) =~= Seq::<char>::empty());
    for c in it: rec_id.chars()
        invariant
            it.seq() == s,
            0 <= k <= s.len(),
            utf8_size(s.take(k)) == target,
            target == (if utf8_size(s) < 8 {
                utf8_size(s)
            } else {
                8
            }),
            !done ==> r@ == s.take(it.index() as int) && size == utf8_size(r@) && size < 8
                && it.index() <= k,
            done ==> r@ == s.take(k),
    {
        let ghost i = it.index() as int;
        if !done {
            proof {
                assert(s.take(i + 1).drop_last() =~= s.take(i));
                assert(s.take(i + 1).last() == c);
                assert(s.take(s.len() as int) =~= s);
                if i == k {
                    assert(utf8_size(s.take(i)) < 8);
                    assert(target < 8);
                    assert(target == utf8_size(s));
                    lemma_utf8_size_grows(s, k, s.len() as int);
                    assert(false);
                }
            }
            let w = char_utf8_width(c);
            push_char(&mut r, c);
            size = size + w;
            assert(r@ =~= s.take(i + 1));
            if size >= 8 {
                proof {
                    if utf8_size(s) < 8 {
                        if i + 1 < s.len() {
                            lemma_utf8_size_grows(s, i + 1, s.len() as int);
                        } else {
                            assert(s.take(i + 1) =~= s);
                        }
                        assert(false);
                    }
                    assert(target == 8);
                    if k < i + 1 {
                        if k < i {
                            lemma_utf8_size_grows(s, k, i);
                        }
                        assert(false);
                    } else if k > i + 1 {
                        lemma_utf8_size_grows(s, i + 1, k);
                        assert(false);
                    }
                    assert(k == i + 1);
                }
                done = true;
            }
        }
    }
    proof {
        if !done {
            assert(s.take(s.len() as int) =~= s);
            if k < s.len() {
                lemma_utf8_size_grows(s, k, s.len() as int);
            }
        }
    }
    r
}

/// `./recordings/<short id>.mp4`.
pub open spec fn api_output_path(short: Seq<char>) -> Seq<char> {
    "./recordings/"@ + short + ".mp4"@
}

/// The configuration of a recording started through the API: the task's
/// URL into `./recordings/<first 8 bytes of the id>.mp4`, as mp4, with
/// three retries and everything else at its default.
pub fn api_recorder_config(url: String, rec_id: &str) -> (c: RecorderConfig)
    requires
        short_id_cut_ok(rec_id@),
    ensures
        c.record_url@ == url@,
        exists|short: Seq<char>|
            #![trigger api_output_path(short)]
            short == rec_id@.take(short.len() as int) && utf8_size(short) == (if utf8_size(rec_id@)
                < 8 {
                utf8_size(rec_id@)
            } else {
                8
            }) && c.output_path@ == api_output_path(short),
        c.format == OutputFormat::Mp4,
        !c.segment_record,
        c.segment_time == 1800,
        !c.is_overseas,
        c.headers is None,
        c.proxy is None,
        !c.use_direct_download,
        c.input_options is None,
        c.max_retries == 3,
{
    let short = short_id(rec_id);
    let path = concat3("./recordings/", short.as_str(), ".mp4");
    assert(path@ == api_output_path(short@));
    RecorderConfig {
        record_url: url,
        output_path: path,
        format: OutputFormat::Mp4,
        segment_record: false,
        segment_time: 1800,
        is_overseas: false,
        headers: None,
        proxy: None,
        use_direct_download: false,
        input_options: None,
        max_retries: 3,
    }
}

// ---------------------------------------------------------------------------
// Serving files and naming tasks
// ---------------------------------------------------------------------------

/// The content type served for a file extension.
pub open spec fn spec_content_type(ext: Seq<char>) -> Seq<char> {
    if ext == "mp4"@ || ext == "m4v"@ {
        "video/mp4"@
    } else if ext == "webm"@ {
        "video/webm"@
    } else if ext == "ts"@ {
        "video/mp2t"@
    } else if ext == "flv"@ {
        "video/x-flv"@
    } else if ext == "mkv"@ {
        "video/x-matroska"@
    } else if ext == "m3u8"@ {
        "application/vnd.apple.mpegurl"@
    } else if ext == "srt"@ || ext == "vtt"@ {
        "text/plain"@
    } else {
        "application/octet-stream"@
    }
}

/// The content type served for a file extension.
pub fn content_type_for(ext: &str) -> (r: &'static str)
    ensures
        r@ == spec_content_type(ext@),
{
    if str_eq(ext, "mp4") || str_eq(ext, "m4v") {
        "video/mp4"
    } else if str_eq(ext, "webm") {
        "video/webm"
    } else if str_eq(ext, "ts") {
        "video/mp2t"
    } else if str_eq(ext, "flv") {
        "video/x-flv"
    } else if str_eq(ext, "mkv") {
        "video/x-matroska"
    } else if str_eq(ext, "m3u8") {
        "application/vnd.apple.mpegurl"
    } else if str_eq(ext, "srt") || str_eq(ext, "vtt") {
        "text/plain"
    } else {
        "application/octet-stream"
    }
}

/// Each recording and subtitle extension is served with the MIME type of
/// its own format: mp4 and m4v as `video/mp4`, webm as `video/webm`, ts as
/// `video/mp2t`, flv as `video/x-flv`, mkv as `video/x-matroska`, m3u8 as
/// `application/vnd.apple.mpegurl`, srt and vtt as `text/plain`; any other
/// extension as `application/octet-stream`.
pub proof fn law_content_types(ext: Seq<char>)
    ensures
        spec_content_type("mp4"@) == "video/mp4"@,
        spec_content_type("m4v"@) == "video/mp4"@,
        spec_content_type("webm"@) == "video/webm"@,
        spec_content_type("ts"@) == "video/mp2t"@,
        spec_content_type("flv"@) == "video/x-flv"@,
        spec_content_type("mkv"@) == "video/x-matroska"@,
        spec_content_type("m3u8"@) == "application/vnd.apple.mpegurl"@,
        spec_content_type("srt"@) == "text/plain"@,
        spec_content_type("vtt"@) == "text/plain"@,
        (ext != "mp4"@ && ext != "m4v"@ && ext != "webm"@ && ext != "ts"@ && ext != "flv"@ && ext
            != "mkv"@ && ext != "m3u8"@ && ext != "srt"@ && ext != "vtt"@) ==> spec_content_type(
            ext,
        ) == "application/octet-stream"@,
{
    reveal_strlit("mp4");
    reveal_strlit("m4v");
    reveal_strlit("webm");
    reveal_strlit("ts");
    reveal_strlit("flv");
    reveal_strlit("mkv");
    reveal_strlit("m3u8");
    reveal_strlit("srt");
    reveal_strlit("vtt");
    assert("webm"@.len() != "mp4"@.len() && "webm"@.len() != "m4v"@.len());
    assert("ts"@.len() != "mp4"@.len() && "ts"@.len() != "m4v"@.len() && "ts"@.len()
        != "webm"@.len());
    assert("webm"@ != "mp4"@ && "webm"@ != "m4v"@);
    assert("ts"@ != "mp4"@ && "ts"@ != "m4v"@ && "ts"@ != "webm"@);
    assert("flv"@[0] != "mp4"@[0] && "flv"@[0] != "m4v"@[0]);
    assert("flv"@ != "mp4"@ && "flv"@ != "m4v"@ && "flv"@ != "webm"@ && "flv"@ != "ts"@);
    assert("mkv"@[1] != "mp4"@[1] && "mkv"@[1] != "m4v"@[1] && "mkv"@[0] != "flv"@[0]);
    assert("mkv"@ != "mp4"@ && "mkv"@ != "m4v"@ && "mkv"@ != "webm"@ && "mkv"@ != "ts"@ && "mkv"@
        != "flv"@);
    assert("m3u8"@[0] != "webm"@[0]);
    assert("m3u8"@ != "mp4"@ && "m3u8"@ != "m4v"@ && "m3u8"@ != "webm"@ && "m3u8"@ != "ts"@
        && "m3u8"@ != "flv"@ && "m3u8"@ != "mkv"@);
    assert("srt"@[0] != "mp4"@[0] && "srt"@[0] != "m4v"@[0] && "srt"@[0] != "flv"@[0] && "srt"@[0]
        != "mkv"@[0]);
    assert("srt"@ != "mp4"@ && "srt"@ != "m4v"@ && "srt"@ != "webm"@ && "srt"@ != "ts"@ && "srt"@
        != "flv"@ && "srt"@ != "mkv"@ && "srt"@ != "m3u8"@);
    assert("vtt"@[0] != "mp4"@[0] && "vtt"@[0] != "m4v"@[0] && "vtt"@[0] != "flv"@[0] && "vtt"@[0]
        != "mkv"@[0] && "vtt"@[0] != "srt"@[0]);
    assert("vtt"@ != "mp4"@ && "vtt"@ != "m4v"@ && "vtt"@ != "webm"@ && "vtt"@ != "ts"@ && "vtt"@
        != "flv"@ && "vtt"@ != "mkv"@ && "vtt"@ != "m3u8"@ && "vtt"@ != "srt"@);
}

/// A task id: the milliseconds since the epoch and a sequence number, each
/// as sixteen lower-case hexadecimal digits.
pub fn uuid_text(millis: u64, seq: u64) -> (r: String)
    ensures
        r@ == hex_digits(millis as nat, 16) + hex_digits(seq as nat, 16),
{
    let mut r = String::new();
    push_hex_digits(&mut r, millis, 16);
    push_hex_digits(&mut r, seq, 16);
    r
}

} // verus!
