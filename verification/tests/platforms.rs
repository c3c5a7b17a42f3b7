use streamcap::platform::base::{FetchCandidates, PlatformHandler, PlatformRegistry, StreamData};
use streamcap::platform::bilibili::BilibiliHandler;
use streamcap::platform::builtin::BuiltinHandler;
use streamcap::platform::douyin::DouyinHandler;
use streamcap::platform::douyu::DouyuHandler;
use streamcap::platform::huya::{HuyaHandler, HuyaStreamInfo};
use streamcap::platform::kuaishou::{
    KuaishouHandler, KuaishouLiveStream, KuaishouPlayUrl, KuaishouStreamDetail,
};
use streamcap::platform::yy::YYHandler;

#[test]
fn test_stream_data_default() {
    let data = StreamData::default();
    assert!(!data.is_recordable());
}

#[test]
fn test_stream_data_recordable() {
    let mut data = StreamData::default();
    data.is_live = true;
    data.record_url = "https://example.com/live.flv".to_string();
    assert!(data.is_recordable());
}

#[test]
fn test_stream_data_best_url() {
    let mut data = StreamData::default();
    data.flv_url = Some("https://example.com/live.flv".to_string());
    data.m3u8_url = Some("https://example.com/live.m3u8".to_string());
    assert_eq!(data.best_record_url(), data.flv_url.as_deref());
}

#[test]
fn best_url_skips_empty_candidates() {
    let mut data = StreamData::default();
    data.flv_url = Some(String::new());
    data.record_url = "https://example.com/r".to_string();
    assert_eq!(data.best_record_url(), Some("https://example.com/r"));
}

#[test]
fn test_registry_register_and_resolve() {
    let mut registry = PlatformRegistry::<DouyinHandler>::new();
    registry.register(DouyinHandler::new());

    let handler = registry.get("douyin");
    assert!(handler.is_some());
    assert_eq!(handler.unwrap().platform_name(), "抖音");
}

#[test]
fn test_registry_with_defaults() {
    let registry = PlatformRegistry::<BuiltinHandler>::with_defaults();
    assert_eq!(registry.all_handlers().len(), 7);
}

#[test]
fn test_resolve_douyin_url() {
    let registry = PlatformRegistry::<BuiltinHandler>::with_defaults();
    let url = "https://live.douyin.com/12345";
    let handler = registry.resolve(url);
    assert!(handler.is_some());
    assert_eq!(handler.unwrap().platform_id(), "douyin");
}

#[test]
fn test_resolve_bilibili_url() {
    let registry = PlatformRegistry::<BuiltinHandler>::with_defaults();
    let url = "https://live.bilibili.com/67890";
    let handler = registry.resolve(url);
    assert!(handler.is_some());
    assert_eq!(handler.unwrap().platform_id(), "bilibili");
}

#[test]
fn unknown_url_falls_back_to_generic() {
    let registry = PlatformRegistry::<BuiltinHandler>::with_defaults();
    let handler = registry.resolve("https://example.com/stream.m3u8");
    assert_eq!(handler.unwrap().platform_id(), "generic");
}

#[test]
fn registering_twice_keeps_one_handler() {
    let mut registry = PlatformRegistry::<DouyinHandler>::new();
    registry.register(DouyinHandler::new());
    registry.register(DouyinHandler::new());
    assert_eq!(registry.all_handlers().len(), 1);
}

#[test]
fn proxy_reaches_every_handler() {
    let mut registry = PlatformRegistry::<BuiltinHandler>::with_defaults();
    assert!(!registry.is_using_proxy());
    registry.set_proxy(Some("http://127.0.0.1:7890".to_string()));
    assert!(registry.is_using_proxy());
    for h in registry.all_handlers() {
        assert_eq!(h.proxy(), Some("http://127.0.0.1:7890"));
    }
}

#[test]
fn bilibili_test_platform_id() {
    let handler = BilibiliHandler::new();
    assert_eq!(handler.platform_id(), "bilibili");
}

#[test]
fn test_matches_bilibili_urls() {
    let handler = BilibiliHandler::new();
    assert!(handler.matches("https://live.bilibili.com/12345"));
    assert!(handler.matches("https://live.bilibili.com/h5/12345"));
    assert!(!handler.matches("https://live.douyin.com/12345"));
}

#[test]
fn bilibili_test_parse_room_id() {
    let handler = BilibiliHandler::new();
    assert_eq!(handler.parse_room_id("https://live.bilibili.com/12345"), Some("12345".to_string()));
    assert_eq!(
        handler.parse_room_id("https://live.bilibili.com/99999?broadcast_type=0"),
        Some("99999".to_string())
    );
    assert_eq!(handler.parse_room_id("https://live.bilibili.com/h5/54321"), Some("54321".to_string()));
    assert_eq!(handler.parse_room_id("https://www.bilibili.com/video/BV123"), None);
}

#[test]
fn douyin_test_platform_id() {
    let handler = DouyinHandler::new();
    assert_eq!(handler.platform_id(), "douyin");
}

#[test]
fn test_matches_douyin_urls() {
    let handler = DouyinHandler::new();
    assert!(handler.matches("https://live.douyin.com/12345"));
    assert!(handler.matches("https://v.douyin.com/AbCdEf"));
    assert!(!handler.matches("https://live.bilibili.com/12345"));
}

#[test]
fn douyin_test_parse_room_id() {
    let handler = DouyinHandler::new();
    assert_eq!(handler.parse_room_id("https://live.douyin.com/12345"), Some("12345".to_string()));
    assert_eq!(handler.parse_room_id("https://live.douyin.com/abcDEF123"), Some("abcDEF123".to_string()));
    assert_eq!(handler.parse_room_id("https://live.bilibili.com/12345"), None);
}

#[test]
fn test_build_api_url() {
    let handler = DouyinHandler::new();
    let url = handler.build_api_url("12345");
    assert!(url.contains("12345"));
    assert!(url.contains("webcast"));
}

#[test]
fn douyu_test_platform_id() {
    let handler = DouyuHandler::new();
    assert_eq!(handler.platform_id(), "douyu");
    assert_eq!(handler.platform_name(), "斗鱼");
}

#[test]
fn test_matches_douyu_urls() {
    let handler = DouyuHandler::new();
    assert!(handler.matches("https://www.douyu.com/12345"));
    assert!(handler.matches("https://m.douyu.com/12345"));
    assert!(!handler.matches("https://live.bilibili.com/12345"));
}

#[test]
fn douyu_test_parse_room_id() {
    let handler = DouyuHandler::new();
    assert_eq!(handler.parse_room_id("https://www.douyu.com/12345"), Some("12345".to_string()));
    assert_eq!(handler.parse_room_id("https://m.douyu.com/lol"), Some("lol".to_string()));
    assert_eq!(handler.parse_room_id("https://m.douyu.com/topic/wzry"), Some("wzry".to_string()));
}

#[test]
fn test_compute_sign() {
    let handler = DouyuHandler::new();
    let sign1 = handler.compute_sign("123", 1700000000);
    let sign2 = handler.compute_sign("123", 1700000000);
    assert_eq!(sign1, sign2);
    assert_eq!(sign1.len(), 32);
    let sign3 = handler.compute_sign("456", 1700000000);
    assert_ne!(sign1, sign3);
}

#[test]
fn douyu_sign_is_md5_of_room_time_and_salt() {
    let handler = DouyuHandler::new();
    let sign = handler.compute_sign("123", 1700000000);
    let expected = format!("{:x}", md5::compute(b"12310000000000000000000000000015011700000000r5*^5}B4_BE"));
    assert_eq!(sign, expected);
}

#[test]
fn douyu_room_roundtrip() {
    let handler = DouyuHandler::new();
    let page = handler.build_page_url("9999");
    assert_eq!(handler.parse_room_id(&page), Some("9999".to_string()));
}

#[test]
fn huya_test_platform_id() {
    let handler = HuyaHandler::new();
    assert_eq!(handler.platform_id(), "huya");
    assert_eq!(handler.platform_name(), "虎牙");
}

#[test]
fn test_matches_huya_urls() {
    let handler = HuyaHandler::new();
    assert!(handler.matches("https://www.huya.com/12345"));
    assert!(handler.matches("https://m.huya.com/lpl"));
    assert!(!handler.matches("https://live.bilibili.com/12345"));
}

#[test]
fn huya_test_parse_room_id() {
    let handler = HuyaHandler::new();
    assert_eq!(handler.parse_room_id("https://www.huya.com/12345"), Some("12345".to_string()));
    assert_eq!(handler.parse_room_id("https://m.huya.com/lpl"), Some("lpl".to_string()));
    assert_eq!(handler.parse_room_id("http://huya.com/test"), Some("test".to_string()));
    assert_eq!(handler.parse_room_id("https://live.bilibili.com/123"), None);
}

fn huya_info(live_line: Option<&str>) -> HuyaStreamInfo {
    HuyaStreamInfo {
        s_flv_url: "https://ms.flv.huya.com/src".to_string(),
        s_stream_name: "test123".to_string(),
        s_flv_url_suffix: "flv".to_string(),
        s_hls_url: None,
        s_room_name: None,
        s_nick: None,
        live_line_url: live_line.map(|s| s.to_string()),
    }
}

#[test]
fn test_build_flv_url() {
    let handler = HuyaHandler::new();
    let info = huya_info(None);
    let url = handler.build_flv_url(&info).unwrap();
    assert_eq!(url, "https://ms.flv.huya.com/src/test123.flv");
}

#[test]
fn test_build_m3u8_url_with_live_line() {
    let handler = HuyaHandler::new();
    let info = huya_info(Some("https://hw.hls.huya.com/src/test123.m3u8?wsSecret=abc"));
    let url = handler.build_m3u8_url(&info).unwrap();
    assert_eq!(url, "https://hw.hls.huya.com/src/test123.m3u8?wsSecret=abc");
}

#[test]
fn huya_m3u8_falls_back_to_flv_base() {
    let handler = HuyaHandler::new();
    let mut info = huya_info(None);
    info.s_flv_url = "https://ms.flv.huya.com/src/".to_string();
    assert_eq!(
        handler.build_m3u8_url(&info),
        Some("https://ms.flv.huya.com/src/test123.m3u8".to_string())
    );
}

#[test]
fn huya_stream_data_is_live_with_flv() {
    let handler = HuyaHandler::new();
    let sd = handler.stream_data_from_info(&huya_info(None), "12345");
    assert!(sd.is_live);
    assert_eq!(sd.record_url, "https://ms.flv.huya.com/src/test123.flv");
    assert_eq!(sd.room_id, Some("12345".to_string()));
}

#[test]
fn kuaishou_test_platform_id() {
    let handler = KuaishouHandler::new();
    assert_eq!(handler.platform_id(), "kuaishou");
    assert_eq!(handler.platform_name(), "快手");
}

#[test]
fn test_matches_kuaishou_urls() {
    let handler = KuaishouHandler::new();
    assert!(handler.matches("https://live.kuaishou.com/u/abc123"));
    assert!(handler.matches("https://live.kuailv.com/u/xyz"));
    assert!(!handler.matches("https://live.bilibili.com/12345"));
}

#[test]
fn kuaishou_test_parse_room_id() {
    let handler = KuaishouHandler::new();
    assert_eq!(handler.parse_room_id("https://live.kuaishou.com/u/abc123"), Some("abc123".to_string()));
    assert_eq!(handler.parse_room_id("https://live.kuaishou.com/u/ABC_xyz"), Some("ABC_xyz".to_string()));
    assert_eq!(handler.parse_room_id("http://live.kuaishou.com/u/test"), Some("test".to_string()));
    assert_eq!(handler.parse_room_id("https://live.bilibili.com/12345"), None);
}

#[test]
fn yy_test_platform_id() {
    let handler = YYHandler::new();
    assert_eq!(handler.platform_id(), "yy");
    assert_eq!(handler.platform_name(), "YY直播");
}

#[test]
fn test_matches_yy_urls() {
    let handler = YYHandler::new();
    assert!(handler.matches("https://www.yy.com/12345"));
    assert!(handler.matches("https://yy.com/live/test"));
    assert!(!handler.matches("https://www.youtube.com/watch?v=123"));
}

#[test]
fn yy_test_parse_room_id() {
    let handler = YYHandler::new();
    assert_eq!(handler.parse_room_id("https://www.yy.com/12345"), Some("12345".to_string()));
    assert_eq!(handler.parse_room_id("http://www.yy.com/test_room"), Some("test_room".to_string()));
    assert_eq!(handler.parse_room_id("https://live.bilibili.com/123"), None);
}

#[test]
fn yy_page_stream_kind_follows_url() {
    let handler = YYHandler::new();
    let sd = handler.stream_data_from_page("https://cdn.yy.com/a.m3u8", "主播", true, "1");
    assert!(sd.is_live);
    assert_eq!(sd.m3u8_url, Some("https://cdn.yy.com/a.m3u8".to_string()));
    assert_eq!(sd.flv_url, None);
    let off = handler.stream_data_from_page("", "主播", true, "1");
    assert!(!off.is_live);
}

#[test]
fn test_extract_from_html_stream_url() {
    let handler = DouyuHandler::new();
    let html = r#"<script>var live_room = "https://flv.douyucdn.cn/live/test123.flv?wsSecret=abc";</script>"#;
    let result = handler.extract_from_html(html);
    assert_eq!(result.unwrap(), "https://flv.douyucdn.cn/live/test123.flv?wsSecret=abc");
}

#[test]
fn test_extract_from_html_hls() {
    let handler = DouyuHandler::new();
    let html = r#"<script>window.hlsUrl = "https://hls.douyucdn.cn/live/test123.m3u8?token=xyz";</script>"#;
    let result = handler.extract_from_html(html);
    assert!(result.unwrap().contains(".m3u8"));
}

#[test]
fn test_extract_from_html_room_json() {
    let handler = DouyuHandler::new();
    let html = r#"<script>window._$room = {"room_id": 12345, "room_src": "https://cdn.douyu.cn/live/123.flv"};</script>"#;
    let result = handler.extract_from_html(html);
    assert_eq!(result.unwrap(), "https://cdn.douyu.cn/live/123.flv");
}

#[test]
fn douyu_reply_accepted_only_with_code_zero_and_url() {
    let handler = DouyuHandler::new();
    let hls = "https://hls.douyucdn.cn/live/1.m3u8".to_string();
    let sd = handler.stream_from_reply(Some(0), Some(hls.clone()), "9999").unwrap();
    assert_eq!(sd.platform_name, "斗鱼");
    assert!(sd.is_live);
    assert_eq!(sd.record_url, hls);
    assert_eq!(sd.m3u8_url, Some(hls.clone()));
    assert_eq!(sd.flv_url, None);
    assert_eq!(sd.room_id, Some("9999".to_string()));
    let flv = "https://flv.douyucdn.cn/live/1.flv".to_string();
    let sd = handler.stream_from_reply(Some(0), Some(flv.clone()), "9999").unwrap();
    assert_eq!(sd.flv_url, Some(flv.clone()));
    assert_eq!(sd.m3u8_url, None);
    assert!(handler.stream_from_reply(Some(0), Some(String::new()), "9999").is_none());
    assert!(handler.stream_from_reply(Some(0), None, "9999").is_none());
    assert!(handler.stream_from_reply(Some(-5), Some(flv.clone()), "9999").is_none());
    assert!(handler.stream_from_reply(None, Some(flv), "9999").is_none());
}

#[test]
fn douyu_page_stream_needs_a_non_empty_url() {
    let handler = DouyuHandler::new();
    let html = r#"<script>var live_room = "https://flv.douyucdn.cn/live/test123.flv";</script>"#;
    let sd = handler.stream_from_page(html, "123").unwrap();
    assert_eq!(sd.record_url, "https://flv.douyucdn.cn/live/test123.flv");
    assert_eq!(sd.room_id, Some("123".to_string()));
    assert!(handler.stream_from_page("<html></html>", "123").is_none());
    let empty = r#"<script>window._$room = {"room_src": ""};</script>"#;
    assert!(handler.stream_from_page(empty, "123").is_none());
}

#[test]
fn douyu_page_without_stream() {
    let handler = DouyuHandler::new();
    assert_eq!(handler.extract_from_html("<html></html>"), None);
}

#[test]
fn test_extract_stream_info() {
    let handler = HuyaHandler::new();
    let html = r#"<script>
var sStreamName = "test123";
var sFlvUrl = "https://ms.flv.huya.com/src";
var sFlvUrlSuffix = "flv";
var sNick = "主播名字";
var sRoomName = "房间标题";
</script>"#;

    let info = handler.extract_stream_info(html).unwrap();
    assert_eq!(info.s_stream_name, "test123");
    assert_eq!(info.s_flv_url, "https://ms.flv.huya.com/src");
    assert_eq!(info.s_flv_url_suffix, "flv");
    assert_eq!(info.s_nick, Some("主播名字".to_string()));
}

#[test]
fn test_extract_live_line_url() {
    let handler = HuyaHandler::new();
    let html = r#"<script>
var liveLineUrl = "https://hw.hls.huya.com/src/test.flv?wsSecret=abc123";
var sStreamName = "test";
</script>"#;

    let info = handler.extract_stream_info(html).unwrap();
    assert!(info.live_line_url.is_some());
}

#[test]
fn huya_page_defaults_and_absence() {
    let handler = HuyaHandler::new();
    let info = handler.extract_stream_info(r#"<script>var sRoomName = "room";</script>"#).unwrap();
    assert_eq!(info.s_stream_name, "room");
    assert_eq!(info.s_flv_url, "https://ms.flv.huya.com/src");
    assert_eq!(info.s_flv_url_suffix, "flv");
    assert!(handler.extract_stream_info("<html></html>").is_none());
    assert_eq!(
        handler.extract_string_field(r#"{"sNick": "n"}"#, "sNick"),
        Some("n".to_string())
    );
}

fn ks_detail() -> KuaishouStreamDetail {
    KuaishouStreamDetail {
        play_url_infos: None,
        hls_play_url: None,
        flv_play_url: None,
        play_url: None,
        user: None,
    }
}

#[test]
fn test_extract_stream_data_flv() {
    let handler = KuaishouHandler::new();
    let html = r#"<html><script>window.__data__ = {"liveStream":{"playUrl":"https://flv.example.com/live/test.flv?token=abc"}};</script></html>"#;
    assert_eq!(
        handler.window_data_text(html).as_deref(),
        Some(r#"{"liveStream":{"playUrl":"https://flv.example.com/live/test.flv?token=abc"}}"#)
    );
    let data = KuaishouLiveStream {
        live_stream: Some(KuaishouStreamDetail {
            play_url: Some("https://flv.example.com/live/test.flv?token=abc".to_string()),
            ..ks_detail()
        }),
    };
    let result = handler.extract_stream_data(html, Some(data), None);
    assert!(result.is_some());
    let (url, _, is_live) = result.unwrap();
    assert_eq!(url, "https://flv.example.com/live/test.flv?token=abc");
    assert!(is_live);
}

#[test]
fn test_extract_stream_data_hls() {
    let handler = KuaishouHandler::new();
    let html = r#"<script>window.__data__ = {"liveStream":{"hlsPlayUrl":"https://hls.example.com/live/test.m3u8"}};</script>"#;
    assert!(handler.window_data_text(html).is_some());
    let data = KuaishouLiveStream {
        live_stream: Some(KuaishouStreamDetail {
            hls_play_url: Some("https://hls.example.com/live/test.m3u8".to_string()),
            ..ks_detail()
        }),
    };
    let result = handler.extract_stream_data(html, Some(data), None);
    assert!(result.is_some());
    let (url, _, is_live) = result.unwrap();
    assert!(url.contains(".m3u8"));
    assert!(is_live);
}

#[test]
fn kuaishou_test_extract_stream_data_not_live() {
    let handler = KuaishouHandler::new();
    let html = r#"<html><body>No live stream here</body></html>"#;
    assert!(handler.window_data_text(html).is_none());
    assert!(handler.live_stream_text(html).is_none());
    let result = handler.extract_stream_data(html, None, None);
    assert!(result.is_none());
}

#[test]
fn test_extract_stream_play_url_infos() {
    let handler = KuaishouHandler::new();
    let html = r#"<script>window.__data__ = {"liveStream":{"playUrlInfos":[{"quality":"FULL_HD","url":"https://example.com/hd.flv"},{"quality":"SD","url":"https://example.com/sd.flv"}]}};</script>"#;
    let data = KuaishouLiveStream {
        live_stream: Some(KuaishouStreamDetail {
            play_url_infos: Some(vec![
                KuaishouPlayUrl {
                    quality: Some("FULL_HD".to_string()),
                    url: Some("https://example.com/hd.flv".to_string()),
                },
                KuaishouPlayUrl {
                    quality: Some("SD".to_string()),
                    url: Some("https://example.com/sd.flv".to_string()),
                },
            ]),
            ..ks_detail()
        }),
    };
    let result = handler.extract_stream_data(html, Some(data), None);
    assert!(result.is_some());
    let (url, _, _) = result.unwrap();
    assert_eq!(url, "https://example.com/hd.flv");
}

#[test]
fn kuaishou_falls_back_to_assignments() {
    let handler = KuaishouHandler::new();
    let html = r#"<script>var flvPlayUrl = "https://a/b.flv?x=1";</script>"#;
    let (url, anchor, live) = handler.extract_stream_data(html, None, None).unwrap();
    assert_eq!(url, "https://a/b.flv?x=1");
    assert_eq!(anchor, "");
    assert!(live);
}

#[test]
fn test_extract_stream_data_json() {
    let handler = YYHandler::new();
    let html = r#"<script>
window.roomInfo = {"liveUrl": "https://yy-live.example.com/stream.m3u8", "anchorName": "主播A", "status": 1};
</script>"#;

    assert!(handler.room_data_text(html).is_none());
    let result = handler.extract_stream_data(html, None);
    assert!(result.is_some());
    let (url, anchor, is_live) = result.unwrap();
    assert_eq!(url, "https://yy-live.example.com/stream.m3u8");
    assert_eq!(anchor, "主播A");
    assert!(is_live);
}

#[test]
fn test_extract_stream_data_live_url_field() {
    let handler = YYHandler::new();
    let html = r#"<script>var liveUrl = "https://cdn.yy.com/live/12345.m3u8?token=abc";</script>"#;
    let result = handler.extract_stream_data(html, None);
    let (url, _, _) = result.unwrap();
    assert_eq!(url, "https://cdn.yy.com/live/12345.m3u8?token=abc");
}

#[test]
fn test_extract_stream_data_direct_m3u8() {
    let handler = YYHandler::new();
    let html = r#"<html><video src="https://cdn.yy.com/live/test123.m3u8?token=xyz"></html>"#;
    let result = handler.extract_stream_data(html, None);
    let (url, _, _) = result.unwrap();
    assert!(url.contains("test123.m3u8"));
}

#[test]
fn yy_test_extract_stream_data_not_live() {
    let handler = YYHandler::new();
    let html = r#"<html><body>No live content</body></html>"#;
    let result = handler.extract_stream_data(html, None);
    assert!(result.is_none());
}

#[test]
fn kuaishou_prefers_full_hd_then_hd() {
    let handler = KuaishouHandler::new();
    let html = r#"<script>window.__data__ = {"liveStream":1};</script>"#;
    let entry = |q: &str, u: &str| KuaishouPlayUrl {
        quality: Some(q.to_string()),
        url: Some(u.to_string()),
    };
    let data = |infos: Vec<KuaishouPlayUrl>| KuaishouLiveStream {
        live_stream: Some(KuaishouStreamDetail { play_url_infos: Some(infos), ..ks_detail() }),
    };
    let r = handler.extract_stream_data(
        html,
        Some(data(vec![entry("SD", "sd"), entry("HD", "hd"), entry("FULL_HD", "fhd")])),
        None,
    );
    assert_eq!(r.unwrap().0, "fhd");
    let r = handler.extract_stream_data(html, Some(data(vec![entry("SD", "sd"), entry("HD", "hd")])), None);
    assert_eq!(r.unwrap().0, "hd");
    let r = handler.extract_stream_data(html, Some(data(vec![entry("SD", "")])), None);
    assert_eq!(r.unwrap(), (String::new(), String::new(), false));
}

#[test]
fn field_names_are_escaped_for_patterns() {
    assert_eq!(streamcap::platform::html::escape("a.b*c"), "a\\.b\\*c");
    assert_eq!(streamcap::platform::html::escape("room_id"), "room_id");
    assert_eq!(streamcap::platform::html::escape("x-y~z#"), "x\\-y\\~z\\#");
}

#[test]
fn fetch_asks_specific_then_fallback() {
    let both = FetchCandidates { specific: Some("douyu".to_string()), generic: Some("generic".to_string()) };
    assert_eq!(both.order(), vec!["douyu", "generic"]);
    let only_generic = FetchCandidates { specific: None, generic: Some("generic".to_string()) };
    assert_eq!(only_generic.order(), vec!["generic"]);
    let none = FetchCandidates { specific: None, generic: None };
    assert!(none.order().is_empty());
    let registry = PlatformRegistry::<BuiltinHandler>::with_defaults();
    let c = registry.fetch_candidates("https://www.douyu.com/9999");
    assert_eq!(c.order()[0], "douyu");
}

#[test]
fn bilibili_api_url() {
    let h = BilibiliHandler::new();
    assert_eq!(
        h.build_api_url("123"),
        "https://api.live.bilibili.com/xlive/web-room/v2/index/getRoomPlayInfo?room_id=123&protocol=0,1&format=0,1,2&codec=0,1&qn=10000&platform=web&ptype=8&dolby=5&panorama=1"
    );
}
