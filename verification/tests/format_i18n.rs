use streamcap::format::{FormatConfig, OutputFormat};
use streamcap::i18n::{t, t_f, Language};

#[test]
fn test_output_format_parse() {
    assert_eq!("mp4".parse::<OutputFormat>().unwrap(), OutputFormat::Mp4);
    assert_eq!("ts".parse::<OutputFormat>().unwrap(), OutputFormat::Ts);
    assert_eq!("mkv".parse::<OutputFormat>().unwrap(), OutputFormat::Mkv);
    assert_eq!("flv".parse::<OutputFormat>().unwrap(), OutputFormat::Flv);
    assert!("xyz".parse::<OutputFormat>().is_err());
}

#[test]
fn test_output_format_extension() {
    assert_eq!(OutputFormat::Mp4.file_extension(), "mp4");
    assert_eq!(OutputFormat::Ts.file_extension(), "ts");
}

#[test]
fn test_segment_options_dict() {
    let config = FormatConfig {
        segment_record: true,
        segment_time: 3600,
        format: OutputFormat::Mp4,
        ..Default::default()
    };
    let opts = config.segment_option_pairs();
    assert!(opts.is_some());
    let s = format!("{:?}", opts.unwrap());
    assert!(s.contains("segment"));
}

#[test]
fn test_no_segment_options_when_disabled() {
    let config = FormatConfig {
        segment_record: false,
        ..Default::default()
    };
    assert!(config.segment_option_pairs().is_none());
}

#[test]
fn segment_pairs_use_default_length() {
    let config = FormatConfig {
        segment_record: true,
        segment_time: 0,
        format: OutputFormat::Ts,
        ..Default::default()
    };
    let pairs = config.segment_option_pairs().unwrap();
    assert_eq!(pairs[1], ("segment_time".to_string(), "1800".to_string()));
    assert_eq!(pairs[5], ("segment_format".to_string(), "ts".to_string()));
}

#[test]
fn header_pairs_of_plain_mp4() {
    let config = FormatConfig::default();
    let pairs = config.write_header_pairs().unwrap();
    assert_eq!(
        pairs,
        vec![("movflags".to_string(), "+frag_keyframe+empty_moov+default_base_moof".to_string())]
    );
    let ts = FormatConfig { format: OutputFormat::Ts, ..Default::default() };
    assert!(ts.write_header_pairs().is_none());
}

#[test]
fn format_name_roundtrip() {
    for f in [OutputFormat::Mp4, OutputFormat::Ts, OutputFormat::Flv, OutputFormat::Mkv] {
        assert_eq!(f.as_str().parse::<OutputFormat>().unwrap(), f);
    }
}

#[test]
fn test_language_parse() {
    assert_eq!("zh_cn".parse::<Language>(), Ok(Language::Chinese));
    assert_eq!("en".parse::<Language>(), Ok(Language::English));
    assert_eq!("中文".parse::<Language>(), Ok(Language::Chinese));
    assert_eq!("unknown".parse::<Language>(), Err("Unsupported language: unknown".to_string()));
}

#[test]
fn test_translate_zh() {
    assert_eq!(t(Language::Chinese, "online"), "在线");
    assert_eq!(t(Language::Chinese, "offline"), "未开播");
}

#[test]
fn test_translate_en() {
    assert_eq!(t(Language::Chinese, "non_existent_key"), "non_existent_key");
    assert_eq!(t(Language::English, "online"), "Online");
}

#[test]
fn test_translate_with_args() {
    let msg = t_f(Language::Chinese, "recording_failed", &[("reason", "low disk")]);
    assert_eq!(msg, "录制失败: low disk");
}

#[test]
fn language_parse_is_case_insensitive() {
    assert_eq!("ENGLISH".parse::<Language>(), Ok(Language::English));
    assert_eq!(Language::English.as_str(), "en");
    assert_eq!(Language::default(), Language::Chinese);
}

#[test]
fn replace_agrees_with_std() {
    for (s, p, r) in [("abc", "", "-"), ("", "", "x"), ("a__b__", "__", "_"), ("aaa", "aa", "b")] {
        assert_eq!(streamcap::text::replace(s, p, r), s.replace(p, r));
    }
}
