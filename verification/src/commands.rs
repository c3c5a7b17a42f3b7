//! What the command-line commands compute: the platform and URL to record,
//! the output path, the recorder configuration, the task saved afterwards
//! and the lines of the task list.
use vstd::prelude::*;

use crate::config::{join_path, path_join};
use crate::format::OutputFormat;
use crate::models::recording::Recording;
use crate::models::recording_status::RecordingStatus;
use crate::platform::base::{
    generic_id, only_generic_accepts, PlatformHandler, PlatformRegistry, StreamData,
};
use crate::recording::stream_recorder::RecorderConfig;
use crate::text::{
    copy_str, decimal, has_prefix, hex_digits, push_char, push_decimal, push_hex_digits,
    starts_with,
};
use crate::utils::{clean_filename, local_now, spec_clean_filename, CalendarTime};
use crate::web_api::handlers::{short_id, short_id_cut_ok, utf8_size};

verus! {

/// The name of the platform whose handler `resolve` picks for `url`: a
/// specific handler before the fallback one; `未知` when none accepts it.
pub fn detected_platform_name<H: PlatformHandler>(registry: &PlatformRegistry<H>, url: &str) -> (r:
    String)
    ensures
        (forall|i: int|
            0 <= i < registry.spec_handlers().len() ==> !#[trigger] registry.spec_handlers()[i].spec_matches(
                url@,
            )) ==> r@ == "未知"@,
        (exists|i: int|
            0 <= i < registry.spec_handlers().len() && #[trigger] registry.spec_handlers()[i].spec_matches(
                url@,
            )) ==> exists|i: int|
            0 <= i < registry.spec_handlers().len() && #[trigger] registry.spec_handlers()[i].spec_matches(
                url@,
            ) && r@ == registry.spec_handlers()[i].spec_platform_name() && (
            registry.spec_handlers()[i].spec_platform_id() == generic_id() ==> only_generic_accepts(
                registry.spec_handlers(),
                url@,
                registry.spec_handlers().len() as int,
            )),
{
    match registry.resolve(url) {
        Some(h) => copy_str(h.platform_name()),
        None => copy_str("未知"),
    }
}

/// The URL to record: the best URL of the stream found, else the live URL.
pub open spec fn spec_chosen_record_url(stream: Option<StreamData>, url: Seq<char>) -> Seq<char> {
    match stream {
        Some(sd) => match sd.spec_best_record_url() {
            Some(u) => u,
            None => url,
        },
        None => url,
    }
}

/// The URL to record, given what the platform told about the stream.
pub fn chosen_record_url(stream: Option<&StreamData>, url: &str) -> (r: String)
    ensures
        r@ == spec_chosen_record_url(
            match stream {
                Some(s) => Some(*s),
                None => None,
            },
            url@,
        ),
{
    match stream {
        Some(sd) => match sd.best_record_url() {
            Some(u) => copy_str(u),
            None => copy_str(url),
        },
        None => copy_str(url),
    }
}

/// `<base_dir>/record_<YYYY-MM-DD_hh-mm-ss>.<ext>`.
pub open spec fn spec_default_output(base_dir: Seq<char>, format: OutputFormat, now: CalendarTime) -> Seq<
    char,
> {
    path_join(base_dir, "record_"@ + now.spec_stamp() + seq!['.'] + format.spec_as_str())
}

/// The default output file of a recording made at the time `now`.
pub fn default_output_at(base_dir: &str, format: &OutputFormat, now: &CalendarTime) -> (r: String)
    ensures
        r@ == spec_default_output(base_dir@, *format, *now),
{
    let mut name = copy_str("record_");
    name.append(now.stamp().as_str());
    push_char(&mut name, '.');
    name.append(format.file_extension());
    proof {
        reveal_strlit("record_");
    }
    join_path(base_dir, name.as_str())
}

/// The default output file of a recording made now, at the local time; the
/// path is the one some valid clock reading gives.
pub fn generate_default_output(base_dir: &str, url: &str, format: &OutputFormat) -> (r: String)
    ensures
        exists|now: CalendarTime|
            #![trigger now.spec_stamp()]
            now.is_valid() && r@ == spec_default_output(base_dir@, *format, now),
{
    let now = local_now();
    default_output_at(base_dir, format, &now)
}

/// Failed sessions are retried five times abroad, three times at home.
pub fn record_retries(overseas: bool) -> (r: u32)
    ensures
        r == (if overseas {
            5u32
        } else {
            3u32
        }),
{
    if overseas {
        5
    } else {
        3
    }
}

/// The configuration of a recording asked for on the command line.
pub fn cli_recorder_config(
    record_url: String,
    output_path: String,
    format: OutputFormat,
    segment: bool,
    segment_time: u32,
    overseas: bool,
    direct_download: bool,
    headers: Option<String>,
    proxy: Option<String>,
) -> (c: RecorderConfig)
    ensures
        c.record_url == record_url,
        c.output_path == output_path,
        c.format == format,
        c.segment_record == segment,
        c.segment_time == segment_time,
        c.is_overseas == overseas,
        c.headers == headers,
        c.proxy == proxy,
        c.use_direct_download == direct_download,
        c.input_options is None,
        c.max_retries == (if overseas {
            5u32
        } else {
            3u32
        }),
{
    RecorderConfig {
        record_url,
        output_path,
        format,
        segment_record: segment,
        segment_time,
        is_overseas: overseas,
        headers,
        proxy,
        use_direct_download: direct_download,
        input_options: None,
        max_retries: record_retries(overseas),
    }
}

/// The number of hexadecimal digits of `n` without leading zeros.
pub open spec fn hex_len(n: nat) -> nat
    decreases n,
{
    if n < 16 {
        1
    } else {
        1 + hex_len(n / 16)
    }
}

/// `n` in lower-case hexadecimal, padded with zeros to at least eight digits.
pub open spec fn hex8(n: nat) -> Seq<char> {
    hex_digits(
        n,
        if hex_len(n) < 8 {
            8
        } else {
            hex_len(n)
        },
    )
}

fn hex_len_exec(n: u64) -> (r: u64)
    ensures
        r == hex_len(n as nat),
        r <= 16,
    decreases n,
{
    if n < 16 {
        1
    } else {
        proof {
            lemma_hex_len_bound(n as nat);
        }
        1 + hex_len_exec(n / 16)
    }
}

proof fn lemma_hex_len_bound(n: nat)
    requires
        n <= u64::MAX,
    ensures
        hex_len(n) <= 16,
    decreases n,
{
    if n >= 16 {
        lemma_hex_len_bound(n / 16);
        if hex_len(n / 16) == 16 {
            lemma_hex_len_big(n / 16, 16);
            reveal_with_fuel(pow16, 16);
            assert(pow16(15) == 0x1000000000000000);
            assert(n >= 16 * (n / 16));
            assert(false);
        }
    }
}

/// Sixteen to the power `k`.
spec fn pow16(k: nat) -> nat
    decreases k,
{
    if k == 0 {
        1
    } else {
        16 * pow16((k - 1) as nat)
    }
}

/// A number with at least `k >= 2` digits is at least `16^(k-1)`.
proof fn lemma_hex_len_big(n: nat, k: nat)
    requires
        hex_len(n) >= k,
        k >= 2,
    ensures
        n >= pow16((k - 1) as nat),
    decreases k,
{
    reveal_with_fuel(pow16, 2);
    if k > 2 {
        lemma_hex_len_big(n / 16, (k - 1) as nat);
        assert(pow16((k - 1) as nat) == 16 * pow16((k - 2) as nat));
        assert(n >= 16 * (n / 16));
    }
}

/// A task id made from the seconds since the epoch (`{:08x}`).
pub fn epoch_id(secs: u64) -> (r: String)
    ensures
        r@ == hex8(secs as nat),
{
    let len = hex_len_exec(secs);
    let mut r = String::new();
    push_hex_digits(
        &mut r,
        secs,
        if len < 8 {
            8
        } else {
            len
        },
    );
    r
}

/// The task saved after a recording from the command line.
pub fn finished_recording(
    rec_id: String,
    url: &str,
    format_str: &str,
    segment: bool,
    segment_time: u32,
    platform_name: &str,
    total_secs: u64,
) -> (r: Recording)
    ensures
        r.rec_id == rec_id,
        r.url@ == url@,
        r.quality@ == "OD"@,
        r.record_format@ == format_str@,
        !r.monitor_status,
        r.segment_record == segment,
        r.segment_time@ == decimal(segment_time as nat),
        r.streamer_name@.len() == 0,
        !r.scheduled_recording,
        r.scheduled_start_time@.len() == 0,
        r.monitor_hours@.len() == 0,
        r.recording_dir@.len() == 0,
        !r.enabled_message_push,
        !r.only_notify_no_record,
        !r.flv_use_direct_download,
        r.video_bitrate is None,
        r.platform matches Some(p) && p@ == platform_name@,
        r.platform_key is None,
        r.title@.len() == 0,
        r.display_title@.len() == 0,
        r.last_duration@ == decimal(total_secs as nat) + seq!['s'],
{
    let mut segment_text = String::new();
    push_decimal(&mut segment_text, segment_time as u64);
    let mut last = String::new();
    push_decimal(&mut last, total_secs);
    push_char(&mut last, 's');
    Recording {
        rec_id,
        url: copy_str(url),
        quality: copy_str("OD"),
        record_format: copy_str(format_str),
        monitor_status: false,
        segment_record: segment,
        segment_time: segment_text,
        streamer_name: String::new(),
        scheduled_recording: false,
        scheduled_start_time: String::new(),
        monitor_hours: String::new(),
        recording_dir: String::new(),
        enabled_message_push: false,
        only_notify_no_record: false,
        flv_use_direct_download: false,
        video_bitrate: None,
        platform: Some(copy_str(platform_name)),
        platform_key: None,
        title: String::new(),
        display_title: String::new(),
        last_duration: last,
    }
}

/// A line of the task list:
/// `  [<first 8 bytes of id>] <clean name> [<status>] - <url> (<quality>)`.
pub open spec fn spec_list_line(short: Seq<char>, rec: Recording) -> Seq<char> {
    "  ["@ + short + "] "@ + spec_clean_filename(rec.streamer_name@) + " ["@ + (if rec.monitor_status {
        RecordingStatus::Monitoring.spec_description()
    } else {
        RecordingStatus::StoppedMonitoring.spec_description()
    }) + "] - "@ + rec.url@ + " ("@ + rec.quality@ + ")"@
}

/// A line of the task list.
pub fn list_line(rec: &Recording) -> (r: String)
    requires
        short_id_cut_ok(rec.rec_id@),
    ensures
        exists|short: Seq<char>|
            #![trigger spec_list_line(short, *rec)]
            short == rec.rec_id@.take(short.len() as int) && utf8_size(short) == (if utf8_size(
                rec.rec_id@,
            ) < 8 {
                utf8_size(rec.rec_id@)
            } else {
                8
            }) && r@ == spec_list_line(short, *rec),
{
    let short = short_id(rec.rec_id.as_str());
    let status = if rec.monitor_status {
        RecordingStatus::Monitoring.description()
    } else {
        RecordingStatus::StoppedMonitoring.description()
    };
    let mut r = copy_str("  [");
    r.append(short.as_str());
    r.append("] ");
    r.append(clean_filename(rec.streamer_name.as_str()).as_str());
    r.append(" [");
    r.append(status);
    r.append("] - ");
    r.append(rec.url.as_str());
    r.append(" (");
    r.append(rec.quality.as_str());
    r.append(")");
    assert(r@ =~= spec_list_line(short@, *rec));
    r
}

/// Whether the configured language is English (its code begins with `en`).
pub fn is_english_setting(language: &str) -> (r: bool)
    ensures
        r == has_prefix(language@, "en"@),
{
    starts_with(language, "en")
}

} // verus!
