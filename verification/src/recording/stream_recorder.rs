//! What a recorder is configured with and what it reports.
use vstd::prelude::*;

use super::input_options::{header_text, platform_headers_table, InputOptions};
use crate::format::{FormatConfig, OutputFormat};
use crate::text::{concat3, contains, copy_str, lowercase_of, opt_view, seq_contains, to_lowercase};

verus! {

/// The configuration of one recording.
#[derive(Debug, Clone)]
pub struct RecorderConfig {
    pub record_url: String,
    pub output_path: String,
    pub format: OutputFormat,
    pub segment_record: bool,
    pub segment_time: u32,
    pub is_overseas: bool,
    /// HTTP headers to send, one `name: value` per line.
    pub headers: Option<String>,
    pub proxy: Option<String>,
    pub use_direct_download: bool,
    /// Input options; chosen from `is_overseas` when not given.
    pub input_options: Option<InputOptions>,
    /// How many times a failed session is retried.
    pub max_retries: u32,
}

impl Default for RecorderConfig {
    fn default() -> (r: RecorderConfig)
        ensures
            r.record_url@.len() == 0,
            r.output_path@.len() == 0,
            r.format == OutputFormat::Mp4,
            !r.segment_record,
            r.segment_time == 1800,
            !r.is_overseas,
            r.headers is None,
            r.proxy is None,
            !r.use_direct_download,
            r.input_options is None,
            r.max_retries == 3,
    {
        RecorderConfig {
            record_url: String::new(),
            output_path: String::new(),
            format: OutputFormat::Mp4,
            segment_record: false,
            segment_time: 1800,
            is_overseas: false,
            headers: None,
            proxy: None,
            use_direct_download: false,
            input_options: None,
            max_retries: 3,
        }
    }
}

/// What a finished recording reports.
#[derive(Debug, Clone)]
pub struct RecorderStats {
    pub total_packets: u64,
    pub duration_secs: u64,
    pub bytes_written: u64,
    /// Average speed in bytes per second.
    pub bytes_per_sec: u64,
    pub cumulative_bytes: u64,
    /// The speed for people to read, such as `1.2 MB/s`.
    pub speed_string: String,
}

impl Default for RecorderStats {
    fn default() -> (r: RecorderStats)
        ensures
            r.total_packets == 0,
            r.duration_secs == 0,
            r.bytes_written == 0,
            r.bytes_per_sec == 0,
            r.cumulative_bytes == 0,
            r.speed_string@.len() == 0,
    {
        RecorderStats {
            total_packets: 0,
            duration_secs: 0,
            bytes_written: 0,
            bytes_per_sec: 0,
            cumulative_bytes: 0,
            speed_string: String::new(),
        }
    }
}


/// What the recorder hands the remux engine.
pub struct RemuxJob {
    pub record_url: String,
    pub output_path: String,
    pub format_config: FormatConfig,
    pub input_options: InputOptions,
    pub max_retries: u32,
}

/// The headers after the user's are added: after a CR LF behind those
/// already there, or alone.
pub open spec fn with_user_headers(existing: Option<Seq<char>>, user: Option<Seq<char>>) -> Option<
    Seq<char>,
> {
    match user {
        Some(u) => Some(
            match existing {
                Some(e) => e + "\r\n"@ + u,
                None => u,
            },
        ),
        None => existing,
    }
}

/// The header text of Bilibili's table entry.
pub open spec fn bilibili_header_text() -> Option<Seq<char>> {
    match platform_headers_table("bilibili"@) {
        Some(h) => header_text(h),
        None => None,
    }
}

/// `r` are the input options a remux of `c` runs with: the configured
/// options (or the preset `is_overseas` chooses); the configured proxy when
/// the options name none; the user's headers added to the options' own; and,
/// when there are still no headers and the URL names Bilibili (in any case),
/// Bilibili's referer.
pub open spec fn is_prepared_options(r: InputOptions, c: RecorderConfig) -> bool {
    let base_headers = match c.input_options {
        Some(o) => opt_view(o.headers),
        None => None,
    };
    let base_proxy = match c.input_options {
        Some(o) => opt_view(o.http_proxy),
        None => None,
    };
    let h1 = with_user_headers(base_headers, opt_view(c.headers));
    let auto = h1 is None && c.headers is None && seq_contains(
        lowercase_of(c.record_url@),
        "bilibili"@,
    );
    &&& match c.input_options {
        Some(o) => r == (InputOptions { headers: r.headers, http_proxy: r.http_proxy, ..o }),
        None => r.has_chosen_settings(c.is_overseas),
    }
    &&& opt_view(r.http_proxy) == (if base_proxy is None && c.proxy is Some {
        opt_view(c.proxy)
    } else {
        base_proxy
    })
    &&& opt_view(r.headers) == (if auto {
        bilibili_header_text()
    } else {
        h1
    })
}

/// Prepares the remux of a recording: its URL, output, muxer settings,
/// input options and retry budget.
pub fn prepare_remux(config: RecorderConfig) -> (job: RemuxJob)
    ensures
        job.record_url@ == config.record_url@,
        job.output_path@ == config.output_path@,
        job.format_config.format == config.format,
        job.format_config.segment_record == config.segment_record,
        job.format_config.segment_time == config.segment_time,
        job.format_config.video_bitrate is None,
        job.format_config.movflags is None,
        job.format_config.mpegts_flags is None,
        is_prepared_options(job.input_options, config),
        job.max_retries == config.max_retries,
{
    let ghost c = config;
    let RecorderConfig {
        record_url,
        output_path,
        format,
        segment_record,
        segment_time,
        is_overseas,
        headers,
        proxy,
        use_direct_download: _,
        input_options,
        max_retries,
    } = config;
    let mut opts = match input_options {
        Some(o) => o,
        None => InputOptions::auto_select(is_overseas),
    };
    if let Some(p) = &proxy {
        if opts.http_proxy.is_none() {
            opts.http_proxy = Some(copy_str(p.as_str()));
        }
    }
    if let Some(u) = &headers {
        let merged = match &opts.headers {
            Some(e) => concat3(e.as_str(), "\r\n", u.as_str()),
            None => copy_str(u.as_str()),
        };
        opts.headers = Some(merged);
    }
    if opts.headers.is_none() && headers.is_none() {
        let lower = to_lowercase(record_url.as_str());
        if contains(lower.as_str(), "bilibili") {
            proof {
                reveal_strlit("bilibili");
                reveal_strlit("shopee");
            }
            opts.merge_platform_headers("bilibili");
        }
    }
    RemuxJob {
        record_url,
        output_path,
        format_config: FormatConfig {
            format,
            segment_record,
            segment_time,
            video_bitrate: None,
            movflags: None,
            mpegts_flags: None,
        },
        input_options: opts,
        max_retries,
    }
}

} // verus!
