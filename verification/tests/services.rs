use streamcap::commands::{
    chosen_record_url, cli_recorder_config, default_output_at, detected_platform_name, epoch_id,
    finished_recording, is_english_setting, list_line, record_retries,
};
use streamcap::config::{default_video_save_path, join_path};
use streamcap::format::OutputFormat;
use streamcap::models::recording::RecordingFormatted;
use streamcap::models::recording_status::RecordingStatus;
use streamcap::notifications::{
    live_end_title, live_start_body, live_start_title, low_disk_title, message_text,
    missing_target_result, recording_failed_body, recording_failed_title, PushChannel, PushConfig,
    PushTransport, WebhookPayload,
};
use streamcap::platform::base::{PlatformRegistry, StreamData};
use streamcap::platform::builtin::BuiltinHandler;
use streamcap::utils::{
    clean_filename, format_duration, generate_filename, generate_filename_at, get_query_params,
    CalendarTime,
};
use streamcap::web_api::handlers::{
    add_request_error, api_recorder_config, build_response, content_type_for, find_in_summary,
    found_response, list_response, monitor_message, recording_from_request, registered_recording,
    short_id, update_has_fields, uuid_text,
};
use streamcap::web_api::models::{AddRecordingRequest, UpdateRecordingRequest};

#[test]
fn test_push_config_default() {
    let config = PushConfig::default();
    assert!(!config.has_any_enabled());
}

#[test]
fn test_push_config_with_channel() {
    let config = PushConfig {
        enabled_channels: vec![PushChannel::Dingtalk],
        dingtalk_url: Some("https://example.com/hook".to_string()),
        ..Default::default()
    };
    assert!(config.has_any_enabled());
    assert_eq!(
        config.channel_url(&PushChannel::Dingtalk),
        Some("https://example.com/hook".to_string())
    );
}

#[test]
fn test_push_channel_display() {
    assert_eq!(PushChannel::Dingtalk.to_string(), "dingtalk");
    assert_eq!(PushChannel::Wechat.to_string(), "wechat");
}

#[test]
fn channel_urls_with_defaults() {
    let mut config = PushConfig::default();
    assert_eq!(config.channel_url(&PushChannel::Bark), Some("https://api.day.app/".to_string()));
    assert_eq!(config.channel_url(&PushChannel::Ntfy), Some("https://ntfy.sh/".to_string()));
    assert_eq!(config.channel_url(&PushChannel::Telegram), None);
    config.telegram_token = Some("T".to_string());
    config.serverchan_sendkey = Some("K".to_string());
    config.ntfy_topic = Some("topic".to_string());
    assert_eq!(
        config.channel_url(&PushChannel::Telegram),
        Some("https://api.telegram.org/botT/sendMessage".to_string())
    );
    assert_eq!(
        config.channel_url(&PushChannel::ServerChan),
        Some("https://sctapi.ftqq.com/K.send".to_string())
    );
    assert_eq!(config.channel_url(&PushChannel::Ntfy), Some("https://ntfy.sh/topic".to_string()));
    assert_eq!(PushChannel::ServerChan.to_string(), "server_chan");
}

#[test]
fn channel_transports_and_failures() {
    assert_eq!(PushChannel::Feishu.transport(), PushTransport::Webhook);
    assert_eq!(PushChannel::Bark.transport(), PushTransport::JsonPost);
    let r = missing_target_result(PushChannel::Email);
    assert!(!r.success);
    assert_eq!(r.message, "Email sending not implemented");
    assert_eq!(message_text("t", "b"), "t\nb");
}

#[test]
fn webhook_payload_shapes() {
    assert_eq!(PushChannel::Dingtalk.webhook_payload(), WebhookPayload::MsgtypeText);
    assert_eq!(PushChannel::Wechat.webhook_payload(), WebhookPayload::MsgtypeText);
    assert_eq!(PushChannel::Feishu.webhook_payload(), WebhookPayload::MsgTypeContent);
    assert_eq!(PushChannel::Webhook.webhook_payload(), WebhookPayload::TitleBody);
}

#[test]
fn responses_and_summaries() {
    let req = AddRecordingRequest {
        url: "https://live.douyin.com/1".to_string(),
        streamer_name: None,
        quality: None,
        record_format: None,
        monitor_status: None,
        segment_record: None,
        segment_time: None,
        recording_dir: None,
        platform: Some("抖音".to_string()),
        platform_key: None,
    };
    assert_eq!(add_request_error(&req), None);
    let rec = recording_from_request("abc", req);
    assert_eq!(rec.quality, "OD");
    assert_eq!(rec.record_format, "mp4");
    assert!(rec.monitor_status);
    assert_eq!(rec.segment_time, "1800");
    let resp = build_response("abc", &rec, false);
    assert_eq!(resp.status_info, "Monitoring");
    assert_eq!(resp.speed, "0 KB/s");
    assert_eq!(resp.platform.as_deref(), Some("抖音"));
    let f: RecordingFormatted = registered_recording(rec);
    assert_eq!(f.status, RecordingStatus::Monitoring);
    assert_eq!(f.loop_time_seconds, 300);

    let summary = vec![
        ("1".to_string(), "u1".to_string(), true),
        ("2".to_string(), "u2".to_string(), false),
    ];
    let found = find_in_summary(&summary, "2").unwrap();
    assert_eq!(found.1, "u2");
    assert!(find_in_summary(&summary, "3").is_none());
    assert_eq!(found_response(found).status_info, "Found");
    let list = list_response(summary);
    assert_eq!(list.total, 2);
    assert_eq!(list.recordings[0].status_info, "Recording");
    assert_eq!(list.recordings[1].status_info, "Idle");
}

#[test]
fn request_checks_and_messages() {
    let empty = AddRecordingRequest {
        url: String::new(),
        streamer_name: None,
        quality: None,
        record_format: None,
        monitor_status: None,
        segment_record: None,
        segment_time: None,
        recording_dir: None,
        platform: None,
        platform_key: None,
    };
    assert_eq!(add_request_error(&empty), Some("URL is required"));
    assert!(!update_has_fields(&UpdateRecordingRequest::default()));
    let upd = UpdateRecordingRequest { quality: Some("HD".to_string()), ..Default::default() };
    assert!(update_has_fields(&upd));
    assert_eq!(monitor_message("7", false).message, "Monitor 7: disabled");
    assert_eq!(content_type_for("m4v"), "video/mp4");
    assert_eq!(content_type_for("exe"), "application/octet-stream");
    assert_eq!(uuid_text(255, 1), "00000000000000ff0000000000000001");
}

#[test]
fn api_start_config_uses_short_id() {
    assert_eq!(short_id("0123456789abcdef"), "01234567");
    assert_eq!(short_id("abc"), "abc");
    assert_eq!(short_id("ab录制x"), "ab录制");
    let c = api_recorder_config("https://u".to_string(), "0123456789");
    assert_eq!(c.output_path, "./recordings/01234567.mp4");
    assert_eq!(c.max_retries, 3);
}

#[test]
fn command_helpers() {
    let registry = PlatformRegistry::<BuiltinHandler>::with_defaults();
    assert_eq!(detected_platform_name(&registry, "https://www.huya.com/1"), "虎牙");
    let mut sd = StreamData::default();
    sd.m3u8_url = Some("https://h/x.m3u8".to_string());
    assert_eq!(chosen_record_url(Some(&sd), "https://live"), "https://h/x.m3u8");
    assert_eq!(chosen_record_url(None, "https://live"), "https://live");
    let now = CalendarTime { year: 2023, month: 12, day: 31, hour: 23, minute: 59, second: 58 };
    assert_eq!(
        default_output_at("/videos", &OutputFormat::Ts, &now),
        "/videos/record_2023-12-31_23-59-58.ts"
    );
    assert_eq!(record_retries(true), 5);
    let c = cli_recorder_config(
        "u".to_string(),
        "o".to_string(),
        OutputFormat::Flv,
        true,
        60,
        false,
        false,
        None,
        None,
    );
    assert_eq!(c.max_retries, 3);
    assert_eq!(epoch_id(0x1a2b), "00001a2b");
    assert_eq!(epoch_id(0x1234567890), "1234567890");
    let rec = finished_recording("id".to_string(), "u", "ts", false, 1800, "抖音", 42);
    assert_eq!(rec.last_duration, "42s");
    assert_eq!(rec.segment_time, "1800");
    let mut named = rec.clone();
    named.streamer_name = "A B".to_string();
    named.rec_id = "0123456789".to_string();
    assert_eq!(list_line(&named), "  [01234567] A_B [已停止监控] - u (OD)");
    assert!(is_english_setting("en_US"));
    assert!(!is_english_setting("zh_CN"));
}

#[test]
fn utility_functions() {
    assert_eq!(format_duration(3661), "01:01:01");
    assert_eq!(clean_filename(" 主播（A）/B "), "主播(A)_B");
    assert_eq!(join_path("/a", "b"), "/a/b");
    assert_eq!(join_path("/a/", "b"), "/a/b");
    assert_eq!(join_path("/a", "/b"), "/b");
    assert_eq!(default_video_save_path(Some("/home/u")), "/home/u/Videos/StreamCap");
    assert_eq!(default_video_save_path(None), "./Videos");
    assert_eq!(get_query_params("https://x/?lang=zh_CN&a=1", "lang"), Some("zh_CN".to_string()));
    assert_eq!(get_query_params("lang=zh_CN", "lang"), None);
    let now = CalendarTime { year: 2024, month: 1, day: 2, hour: 3, minute: 4, second: 5 };
    assert_eq!(
        generate_filename_at("主播", Some("标题"), None, None, &now),
        "主播_标题_2024-01-02_03-04-05"
    );
    assert_eq!(
        generate_filename_at("a", None, Some("p"), Some("__{platform}__{anchor_name}_"), &now),
        "p_a"
    );
    assert!(generate_filename("a", None, None, None).starts_with("a_"));
}

#[test]
fn notification_texts() {
    let body = live_start_body("主播A", "直播标题", "https://live.douyin.com/123");
    assert!(body.contains("主播A"));
    assert!(body.contains("直播标题"));
    assert_eq!(body, "主播: 主播A\n标题: 直播标题\n链接: https://live.douyin.com/123");
    assert_eq!(live_start_title("抖音"), "抖音 直播开始");
    assert_eq!(live_end_title("抖音"), "抖音 直播结束");
    assert_eq!(recording_failed_title(), "录制失败");
    assert_eq!(low_disk_title(), "磁盘空间不足");
    assert_eq!(recording_failed_body("A", "断流"), "主播: A\n原因: 断流");
}
