use streamcap::format::OutputFormat;
use streamcap::models::elapsed::Elapsed;
use streamcap::recording::error::RecordingError;
use streamcap::recording::input_options::{
    select_stream_source, InputOptions, PlatformHeaders, StreamSelection,
};
use streamcap::recording::post_processor::FFmpegPostProcessor;
use streamcap::recording::recording_controller::{
    auto_record_config, plan_auto_record, speed_unit, AutoRecordAction, SpeedTracker, StreamInfo,
};
use streamcap::recording::remux_engine::{
    finish_stats, retry_delay_secs, FilenameTemplate, PtsOffsets, RemuxEngine, RemuxSession,
    RemuxStep, RetryState, SessionAction, SessionEvent, SessionOutcome, NO_PTS, PROBE_PACKETS,
};
use streamcap::recording::segment_collector::{
    DefaultPostProcessHook, PlatformProxyConfig, PostProcessPlan, SegmentCollector,
};
use streamcap::recording::stream_recorder::{prepare_remux, RecorderConfig, RecorderStats};
use streamcap::utils::CalendarTime;

#[test]
fn test_platform_headers_for_platform() {
    let h = PlatformHeaders::for_platform("pandalive").unwrap();
    assert_eq!(h.origin.as_deref(), Some("https://www.pandalive.co.kr"));
    let h = PlatformHeaders::for_platform("unknown");
    assert!(h.is_none());
}

#[test]
fn test_platform_headers_for_shopee() {
    let h = PlatformHeaders::for_shopee("https://live.shopee.co.th/stream").unwrap();
    assert_eq!(h.origin.as_deref(), Some("https://live.shopee.co.th"));
}

#[test]
fn shopee_origin_needs_three_pieces() {
    assert!(PlatformHeaders::for_shopee("live.shopee.co.th").is_none());
    let h = PlatformHeaders::for_shopee("a/b/c/d").unwrap();
    assert_eq!(h.origin.as_deref(), Some("a//c"));
}

#[test]
fn header_string_joins_with_crlf() {
    let h = PlatformHeaders {
        origin: Some("https://o".to_string()),
        referer: Some("https://r".to_string()),
    };
    assert_eq!(h.to_header_string(), Some("origin: https://o\r\nreferer: https://r".to_string()));
    assert_eq!(PlatformHeaders::default().to_header_string(), None);
    let b = PlatformHeaders::for_platform("bilibili").unwrap();
    assert_eq!(b.to_header_string(), Some("referer: https://live.bilibili.com/".to_string()));
}

#[test]
fn test_stream_selection_douyin() {
    match select_stream_source("https://xxx", "douyin") {
        StreamSelection::FlvDirectDownload { .. } => {}
        _ => panic!("Expected FlvDirectDownload for douyin"),
    }
}

#[test]
fn test_stream_selection_bilibili() {
    match select_stream_source("https://xxx", "bilibili") {
        StreamSelection::HlsRemux { .. } => {}
        _ => panic!("Expected HlsRemux for bilibili"),
    }
}

#[test]
fn selection_of_other_platforms_follows_scheme() {
    match select_stream_source("rtmp://host/live", "huya") {
        StreamSelection::HlsRemux { url } => assert_eq!(url, "rtmp://host/live"),
        _ => panic!("rtmp is remuxed as HLS"),
    }
    match select_stream_source("https://host/live", "huya") {
        StreamSelection::UnknownRemux { url } => assert_eq!(url, "https://host/live"),
        _ => panic!("https is an unknown remux"),
    }
}

#[test]
fn test_input_options_default_cn() {
    let opts = InputOptions::default_cn();
    assert_eq!(opts.rw_timeout, Some(15_000_000));
    assert_eq!(opts.reconnect, Some(1));
    assert_eq!(opts.fflags.as_deref(), Some("+discardcorrupt+igndts"));
    assert_eq!(opts.thread_queue_size, Some(1024));
    assert_eq!(opts.correct_ts_overflow, Some(1));
}

#[test]
fn test_input_options_different_timeouts() {
    let cn = InputOptions::default_cn();
    let oversea = InputOptions::default_overseas();
    assert_ne!(cn.rw_timeout, oversea.rw_timeout);
    assert_ne!(cn.probesize, oversea.probesize);
    assert_ne!(cn.bufsize, oversea.bufsize);
}

#[test]
fn test_is_overseas_domain() {
    assert!(InputOptions::is_overseas_domain("https://www.pandalive.co.kr/live"));
    assert!(!InputOptions::is_overseas_domain("https://live.douyin.com/stream"));
}

#[test]
fn test_merge_platform_headers() {
    let mut opts = InputOptions::default_cn();
    opts.merge_platform_headers("pandalive");
    assert!(opts.headers.as_ref().unwrap().contains("origin:"));
}

#[test]
fn merge_shopee_headers_from_live_url_option() {
    let mut opts = InputOptions::default_cn();
    opts.extra_options.push(("live_url".to_string(), "https://live.shopee.sg/x".to_string()));
    opts.merge_platform_headers("shopee");
    assert_eq!(opts.headers.as_deref(), Some("origin: https://live.shopee.sg"));
    let mut plain = InputOptions::default_cn();
    plain.merge_platform_headers("douyin");
    assert_eq!(plain.headers, None);
}

#[test]
fn test_auto_select() {
    let opts = InputOptions::auto_select(true);
    assert_eq!(opts.rw_timeout, InputOptions::default_overseas().rw_timeout);

    let opts = InputOptions::auto_select(false);
    assert_eq!(opts.rw_timeout, InputOptions::default_cn().rw_timeout);
}

#[test]
fn collected_pairs_in_order() {
    let mut opts = InputOptions::default();
    opts.rw_timeout = Some(5);
    opts.correct_ts_overflow = Some(-1);
    opts.reconnect = Some(0);
    opts.extra_options.push(("k".to_string(), "v".to_string()));
    let pairs = opts.collect_pairs();
    let expected: Vec<(String, String)> = vec![
        ("rw_timeout", "5"),
        ("correct_ts_overflow", "-1"),
        ("reconnect", "1"),
        ("reconnect_streamed", "1"),
        ("reconnect_delay_max", "5"),
        ("reconnect_at_eof", "1"),
        ("k", "v"),
    ]
    .into_iter()
    .map(|(a, b)| (a.to_string(), b.to_string()))
    .collect();
    assert_eq!(pairs, expected);
    assert_eq!(InputOptions::default_cn().collect_pairs().len(), 15);
}

#[test]
fn prepared_remux_merges_proxy_and_headers() {
    let config = RecorderConfig {
        record_url: "https://LIVE.BILIBILI.com/1".to_string(),
        proxy: Some("http://p".to_string()),
        ..Default::default()
    };
    let job = prepare_remux(config);
    assert_eq!(job.input_options.http_proxy.as_deref(), Some("http://p"));
    assert_eq!(job.input_options.headers.as_deref(), Some("referer: https://live.bilibili.com/"));
    assert_eq!(job.input_options.rw_timeout, Some(15_000_000));
    assert_eq!(job.max_retries, 3);

    let mut opts = InputOptions::default_overseas();
    opts.headers = Some("a: 1".to_string());
    let config = RecorderConfig {
        record_url: "https://x".to_string(),
        headers: Some("b: 2".to_string()),
        input_options: Some(opts),
        ..Default::default()
    };
    let job = prepare_remux(config);
    assert_eq!(job.input_options.headers.as_deref(), Some("a: 1\r\nb: 2"));
    assert_eq!(job.input_options.rw_timeout, Some(50_000_000));
}

#[test]
fn test_engine_creation() {
    let engine = RemuxEngine::new();
    assert!(!engine.is_stop_requested());
    engine.request_stop();
    assert!(engine.is_stop_requested());
}

#[test]
fn retry_waits_grow_and_cap() {
    assert_eq!(retry_delay_secs(1), 5);
    assert_eq!(retry_delay_secs(3), 15);
    assert_eq!(retry_delay_secs(6), 30);
    assert_eq!(retry_delay_secs(100), 30);
}

#[test]
fn retries_give_up_after_budget() {
    let mut s = RetryState::new();
    assert_eq!(s.on_session_end(SessionOutcome::Failed, 2), RemuxStep::Wait { delay_secs: 5 });
    assert_eq!(s.on_session_end(SessionOutcome::Failed, 2), RemuxStep::Wait { delay_secs: 10 });
    assert_eq!(s.on_session_end(SessionOutcome::Failed, 2), RemuxStep::GiveUp);
    assert_eq!(s.retry_count, 2);
    assert_eq!(
        s.on_session_end(SessionOutcome::Completed { packets: 42 }, 2),
        RemuxStep::Finish { total_packets: 42 }
    );
    assert_eq!(
        s.on_session_end(SessionOutcome::Interrupted, 2),
        RemuxStep::Finish { total_packets: 42 }
    );
}

#[test]
fn finished_stats_average_speed() {
    let s = finish_stats(10, 4, 4096);
    assert_eq!(s.bytes_per_sec, 1024);
    assert_eq!(s.cumulative_bytes, 4096);
    let z = finish_stats(1, 0, 99);
    assert_eq!(z.bytes_per_sec, 0);
    let d = RecorderStats::default();
    assert_eq!(d.total_packets, 0);
}

#[test]
fn pts_offsets_shift_to_zero() {
    let mut p = PtsOffsets::new();
    p.observe(0, 900);
    p.observe(0, 300);
    p.observe(0, 600);
    p.observe(1, NO_PTS);
    assert_eq!(p.shift(0, 300, 250), (0, -50));
    assert_eq!(p.shift(0, NO_PTS, 400), (NO_PTS, 100));
    assert_eq!(p.shift(1, 77, 88), (77, 88));
}

#[test]
fn test_filename_template() {
    let tpl = FilenameTemplate::new("{anchor_name}/{time}");
    let path = tpl.render("Test主播", "Title", "douyin", "/tmp/recordings", "mp4");
    assert!(path.contains("Test"));
    assert!(path.ends_with(".mp4"));
    assert!(path.contains("/tmp/recordings/"));
}

#[test]
fn template_renders_at_given_time() {
    let now = CalendarTime { year: 2024, month: 3, day: 9, hour: 7, minute: 5, second: 1 };
    let tpl = FilenameTemplate::default_template();
    assert_eq!(
        tpl.render_at("A B", "t", "抖音", "/rec/", "ts", &now),
        "/rec/A_B/抖音_2024-03-09_07-05-01.ts"
    );
    let dated = FilenameTemplate::new("{date}/{title}");
    assert_eq!(dated.render_at("a", "x.y", "p", "out", "", &now), "out/2024-03-09/x_y");
    let absolute = FilenameTemplate::new("/abs/{platform}");
    assert_eq!(absolute.render_at("a", "t", "p", "out", "flv", &now), "/abs/p.flv");
}

#[test]
fn test_speed_tracker() {
    let mut st = SpeedTracker::default();
    st.update(1024 * 1024, Elapsed::from_secs(1));
    assert_eq!(st.bytes_per_sec, 1024 * 1024);
    assert!(st.speed_unit().contains("MB/s"));
}

#[test]
fn test_cumulative_duration() {
    let mut st = SpeedTracker::default();
    st.update(0, Elapsed::from_secs(3661));
    let dur_str = st.cumulative_duration_string();
    assert_eq!(dur_str, "01:01:01");
}

#[test]
fn speed_keeps_last_whole_second_rate() {
    let mut st = SpeedTracker::default();
    st.update(4000, Elapsed::from_secs(2));
    st.update(10, Elapsed::new(0, 500_000_000));
    assert_eq!(st.bytes_per_sec, 2000);
    assert_eq!(st.cumulative_bytes, 4010);
    assert_eq!(st.cumulative_duration, Elapsed::new(2, 500_000_000));
    assert_eq!(speed_unit(1023), "B/s");
    assert_eq!(speed_unit(1024), "KB/s");
}

fn live_info() -> StreamInfo {
    StreamInfo {
        anchor_name: "主播".to_string(),
        record_url: "https://cdn/live.flv".to_string(),
        is_live: true,
        ..Default::default()
    }
}

#[test]
fn scheduler_starts_stops_and_waits() {
    match plan_auto_record(false, Some(live_info()), "https://live.douyin.com/1", "douyin", "/rec/") {
        AutoRecordAction::Start(c) => {
            assert!(c.use_direct_download);
            assert_eq!(c.format, OutputFormat::Ts);
            assert_eq!(c.output_path, "/rec/主播_douyin.ts");
            assert_eq!(c.max_retries, 3);
        }
        _ => panic!("a live source that is not recording starts"),
    }
    assert!(matches!(
        plan_auto_record(true, Some(live_info()), "u", "", "/rec"),
        AutoRecordAction::Nothing
    ));
    let offline = StreamInfo { is_live: false, ..live_info() };
    assert!(matches!(plan_auto_record(false, Some(offline.clone()), "u", "", "/rec"), AutoRecordAction::Nothing));
    assert!(matches!(plan_auto_record(true, Some(offline), "u", "", "/rec"), AutoRecordAction::Stop));
    assert!(matches!(plan_auto_record(true, None, "u", "", "/rec"), AutoRecordAction::Stop));
    assert!(matches!(plan_auto_record(false, None, "u", "", "/rec"), AutoRecordAction::Nothing));
}

#[test]
fn scheduled_config_for_overseas_source() {
    let c = auto_record_config(&live_info(), "https://www.pandalive.co.kr/x", "", "out");
    assert!(!c.use_direct_download);
    assert_eq!(c.format, OutputFormat::Mp4);
    assert_eq!(c.output_path, "out/主播_.mp4");
    assert_eq!(c.input_options.unwrap().rw_timeout, Some(50_000_000));
}

#[test]
fn test_platform_proxy_config_default() {
    let mut config = PlatformProxyConfig::default();
    config.set_proxy(Some("http://127.0.0.1:7890"));
    assert!(config.should_use_proxy("pandalive"));
    assert!(!config.should_use_proxy("douyin"));
}

#[test]
fn test_platform_proxy_custom_address() {
    let mut config = PlatformProxyConfig::default();
    config.set_proxy(Some("http://127.0.0.1:7890"));
    assert_eq!(config.build_proxy("pandalive"), Some("http://127.0.0.1:7890".to_string()));
    assert_eq!(config.build_proxy("douyin"), None);
}

#[test]
fn test_platform_proxy_add_remove() {
    let mut config = PlatformProxyConfig::default();
    config.set_proxy(Some("http://127.0.0.1:7890"));
    config.add_platform("my_platform");
    assert!(config.should_use_proxy("my_platform"));
    config.remove_platform("my_platform");
    assert!(!config.should_use_proxy("my_platform"));
}

#[test]
fn test_platform_proxy_no_addr() {
    let config = PlatformProxyConfig::default();
    assert_eq!(config.build_proxy("pandalive"), None);
}

#[test]
fn proxy_list_has_no_duplicates_after_add() {
    let mut config = PlatformProxyConfig::default();
    config.add_platform("lang");
    assert_eq!(config.platforms_with_proxy.len(), 5);
    config.remove_platform("lang");
    assert_eq!(config.platforms_with_proxy.len(), 4);
}

#[test]
fn test_segment_collector_basic() {
    let mut collector = SegmentCollector::new("/tmp/test", "stream");
    collector.register_segment("/tmp/test/stream_001.mp4", 0, 60, 1024);
    collector.register_segment("/tmp/test/stream_002.mp4", 1, 60, 2048);

    assert_eq!(collector.next_index(), 2);
    assert_eq!(collector.total_bytes(), 3072);
    assert_eq!(collector.total_duration(), 120);
    assert_eq!(collector.get_segments().len(), 2);
}

#[test]
fn segment_names_need_more_than_the_prefix() {
    let collector = SegmentCollector::new("/tmp/test", "stream");
    assert!(collector.is_segment_name("stream_001"));
    assert!(!collector.is_segment_name("stream"));
    assert!(!collector.is_segment_name("other"));
    assert_eq!(SegmentCollector::new("d", "p").next_index(), 0);
    assert!(FFmpegPostProcessor::is_segment_file_name("p1.ts", "p"));
}

#[test]
fn segment_file_names_are_filtered_and_sorted() {
    let names = vec![
        "rec_010.ts".to_string(),
        "other.ts".to_string(),
        "rec".to_string(),
        "rec_002.ts".to_string(),
        "rec_001.ts".to_string(),
        "rec_00.ts".to_string(),
    ];
    assert_eq!(
        FFmpegPostProcessor::segment_file_names(names, "rec"),
        vec!["rec_00.ts", "rec_001.ts", "rec_002.ts", "rec_010.ts"]
    );
    assert!(FFmpegPostProcessor::segment_file_names(Vec::new(), "test").is_empty());
}

#[test]
fn segment_file_names_order_by_characters() {
    let names = vec!["pB".to_string(), "pa".to_string(), "pé".to_string(), "pA".to_string()];
    assert_eq!(FFmpegPostProcessor::segment_file_names(names, "p"), vec!["pA", "pB", "pa", "pé"]);
}

#[test]
fn post_process_converts_only_ts() {
    let hook = DefaultPostProcessHook { convert_to_mp4: true, delete_original: true };
    match hook.plan("/rec/a.ts") {
        PostProcessPlan::ConvertToMp4 { mp4_path, delete_original } => {
            assert_eq!(mp4_path, "/rec/a.mp4");
            assert!(delete_original);
        }
        PostProcessPlan::Keep => panic!("a ts recording is converted"),
    }
    assert!(matches!(hook.plan("/rec/a.flv"), PostProcessPlan::Keep));
    let off = DefaultPostProcessHook { convert_to_mp4: false, delete_original: true };
    assert!(matches!(off.plan("/rec/a.ts"), PostProcessPlan::Keep));
}

#[test]
fn ffmpeg_arguments() {
    assert_eq!(
        FFmpegPostProcessor::remux_args("in.ts", "out.mp4"),
        vec!["-i", "in.ts", "-c", "copy", "-y", "out.mp4"]
    );
    let aac = FFmpegPostProcessor::aac_args("in.flv", "out.mp4");
    assert_eq!(aac.len(), 14);
    assert_eq!(aac[7], "aac");
}

#[test]
fn error_messages() {
    assert_eq!(RecordingError::NoStreamFound.message(), "No stream found");
    assert_eq!(RecordingError::InvalidUrl("x".to_string()).message(), "Invalid URL: x");
    let io: RecordingError = std::io::Error::new(std::io::ErrorKind::Other, "boom").into();
    assert!(io.message().starts_with("IO error: "));
}

#[test]
fn session_without_streams_is_refused() {
    assert!(matches!(RemuxSession::start(0, 0), Err(RecordingError::NoStreamFound)));
    assert!(RemuxSession::start(7, 2).is_ok());
}

#[test]
fn session_holds_back_the_probe_then_writes() {
    let mut s = RemuxSession::start(10, 2).unwrap();
    for i in 0..PROBE_PACKETS - 1 {
        let a = s.on_event(SessionEvent::Packet { stream: (i % 2) as i32, pts: 1000 + i as i64 });
        assert_eq!(a, SessionAction::Buffer);
    }
    assert_eq!(s.on_event(SessionEvent::Packet { stream: 0, pts: 5 }), SessionAction::BufferThenFlush);
    assert_eq!(s.offsets().min_of(0), Some(5));
    assert_eq!(s.offsets().min_of(1), Some(1001));
    assert_eq!(s.on_event(SessionEvent::Packet { stream: 1, pts: 1 }), SessionAction::Write);
    assert_eq!(s.offsets().min_of(1), Some(1001));
    assert_eq!(s.total(), 10 + PROBE_PACKETS + 1);
    assert_eq!(
        s.on_event(SessionEvent::EndOfStream),
        SessionAction::Finish { flush: false, total: 10 + PROBE_PACKETS + 1 }
    );
}

#[test]
fn session_ending_in_probe_flushes() {
    let mut s = RemuxSession::start(0, 1).unwrap();
    assert_eq!(s.on_event(SessionEvent::Packet { stream: 0, pts: 3 }), SessionAction::Buffer);
    assert_eq!(
        s.on_event(SessionEvent::ReadFailed { interrupted: true }),
        SessionAction::Fail { flush: true, interrupted: true }
    );
    assert_eq!(s.on_event(SessionEvent::EndOfStream), SessionAction::Finish { flush: true, total: 1 });
}
