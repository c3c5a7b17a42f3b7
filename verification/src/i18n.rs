//! Chinese and English message dictionaries.
use vstd::prelude::*;

use crate::text::{
    all_ascii, ascii_lowercase, concat2, concat3, copy_str, lowercase_of, replace, replace_all, str_eq,
    to_lowercase,
};

verus! {

/// Supported interface languages.
#[derive(Debug, Clone, Copy, PartialEq, Eq, Hash, Structural)]
pub enum Language {
    Chinese,
    English,
}

impl Language {
    /// The locale code of the language.
    pub open spec fn spec_as_str(self) -> Seq<char> {
        match self {
            Language::Chinese => "zh_CN"@,
            Language::English => "en"@,
        }
    }

    pub fn as_str(&self) -> (r: &'static str)
        ensures
            r@ == self.spec_as_str(),
    {
        match self {
            Language::Chinese => "zh_CN",
            Language::English => "en",
        }
    }

    /// The language named by an already lower-cased name: `zh_cn`, `zh`,
    /// `chinese` or `中文` for Chinese; `en`, `english` or `英文` for English.
    pub open spec fn spec_from_lower(name: Seq<char>) -> Option<Language> {
        if name == "zh_cn"@ || name == "zh"@ || name == "chinese"@ || name == "中文"@ {
            Some(Language::Chinese)
        } else if name == "en"@ || name == "english"@ || name == "英文"@ {
            Some(Language::English)
        } else {
            None
        }
    }

    /// The language named by an already lower-cased name.
    pub fn from_lower_name(name: &str) -> (r: Option<Language>)
        ensures
            r == Language::spec_from_lower(name@),
    {
        if str_eq(name, "zh_cn") || str_eq(name, "zh") || str_eq(name, "chinese") || str_eq(
            name,
            "中文",
        ) {
            Some(Language::Chinese)
        } else if str_eq(name, "en") || str_eq(name, "english") || str_eq(name, "英文") {
            Some(Language::English)
        } else {
            None
        }
    }

    /// Parses a language name, ignoring case; anything else is refused with
    /// the message `Unsupported language: <text>`.
    pub fn parse(s: &str) -> (r: Result<Language, String>)
        ensures
            all_ascii(s@) ==> lowercase_of(s@) == ascii_lowercase(s@),
            match Language::spec_from_lower(lowercase_of(s@)) {
                Some(l) => r == Ok::<Language, String>(l),
                None => r matches Err(e) && e@ == "Unsupported language: "@ + s@,
            },
    {
        let lower = to_lowercase(s);
        match Language::from_lower_name(lower.as_str()) {
            Some(l) => Ok(l),
            None => Err(concat2("Unsupported language: ", s)),
        }
    }
}

impl Default for Language {
    fn default() -> (r: Language)
        ensures
            r == Language::Chinese,
    {
        Language::Chinese
    }
}

impl core::str::FromStr for Language {
    type Err = String;

    fn from_str(s: &str) -> (r: Result<Language, String>)
        ensures
            all_ascii(s@) ==> lowercase_of(s@) == ascii_lowercase(s@),
            match Language::spec_from_lower(lowercase_of(s@)) {
                Some(l) => r == Ok::<Language, String>(l),
                None => r matches Err(e) && e@ == "Unsupported language: "@ + s@,
            },
    {
        Language::parse(s)
    }
}

/// The first entry of `table` whose key is `key`.
pub open spec fn lookup(table: Seq<(Seq<char>, Seq<char>)>, key: Seq<char>) -> Option<Seq<char>>
    decreases table.len(),
{
    if table.len() == 0 {
        None
    } else if table[0].0 == key {
        Some(table[0].1)
    } else {
        lookup(table.subrange(1, table.len() as int), key)
    }
}

/// The Chinese dictionary.
pub open spec fn zh_cn_table() -> Seq<(Seq<char>, Seq<char>)> {
    seq![
        ("app_name"@, "StreamCap 录播助手"@),
        ("recording_started"@, "开始录制"@),
        ("recording_stopped"@, "录制结束"@),
        ("recording_failed"@, "录制失败: {reason}"@),
        ("stream_ended"@, "直播结束"@),
        ("live_started"@, "直播开始: {anchor}"@),
        ("low_disk_space"@, "磁盘空间不足: {free_gb:.2f} GB"@),
        ("checking"@, "检测中..."@),
        ("recording"@, "录制中..."@),
        ("online"@, "在线"@),
        ("offline"@, "未开播"@),
        ("error"@, "错误: {reason}"@),
        ("settings"@, "设置"@),
        ("recordings"@, "录制列表"@),
        ("home"@, "首页"@),
        ("about"@, "关于"@),
        ("start_record"@, "开始录制"@),
        ("stop_record"@, "停止录制"@),
        ("retry"@, "重试"@),
        ("refresh"@, "刷新"@),
        ("url"@, "直播链接"@),
        ("save_path"@, "保存路径"@),
        ("quality"@, "画质"@),
        ("format"@, "格式"@),
        ("monitor_status"@, "监控状态"@),
        ("platform"@, "平台"@),
        ("status"@, "状态"@),
        ("duration"@, "时长"@),
        ("operations"@, "操作"@),
        ("extension_installed"@, "扩展已安装，请重启软件"@),
        ("empty_recordings_list"@, "请输入直播链接后点击右上角的 + 添加录制"@),
    ]
}

/// The English dictionary.
pub open spec fn en_table() -> Seq<(Seq<char>, Seq<char>)> {
    seq![
        ("app_name"@, "StreamCap Live Recorder"@),
        ("recording_started"@, "Recording started"@),
        ("recording_stopped"@, "Recording stopped"@),
        ("recording_failed"@, "Recording failed: {reason}"@),
        ("stream_ended"@, "Stream ended"@),
        ("live_started"@, "Live started: {anchor}"@),
        ("low_disk_space"@, "Low disk space: {free_gb:.2f} GB"@),
        ("checking"@, "Checking..."@),
        ("recording"@, "Recording..."@),
        ("online"@, "Online"@),
        ("offline"@, "Offline"@),
        ("error"@, "Error: {reason}"@),
        ("settings"@, "Settings"@),
        ("recordings"@, "Recordings"@),
        ("home"@, "Home"@),
        ("about"@, "About"@),
        ("start_record"@, "Start Recording"@),
        ("stop_record"@, "Stop Recording"@),
        ("retry"@, "Retry"@),
        ("refresh"@, "Refresh"@),
        ("url"@, "Live URL"@),
        ("save_path"@, "Save Path"@),
        ("quality"@, "Quality"@),
        ("format"@, "Format"@),
        ("monitor_status"@, "Monitor Status"@),
        ("platform"@, "Platform"@),
        ("status"@, "Status"@),
        ("duration"@, "Duration"@),
        ("operations"@, "Actions"@),
        ("extension_installed"@, "Extension installed, please restart"@),
        ("empty_recordings_list"@, "Add a URL and click + to start recording"@),
    ]
}

/// The dictionary of a language.
pub open spec fn table_of(lang: Language) -> Seq<(Seq<char>, Seq<char>)> {
    match lang {
        Language::Chinese => zh_cn_table(),
        Language::English => en_table(),
    }
}

/// A table of string pairs by their views.
pub open spec fn table_view(t: Seq<(&str, &str)>) -> Seq<(Seq<char>, Seq<char>)> {
    t.map_values(|p: (&str, &str)| (p.0@, p.1@))
}

/// Looks `key` up in a table of pairs.
fn lookup_exec(table: &[(&'static str, &'static str)], key: &str) -> (r: Option<&'static str>)
    ensures
        match r {
            Some(v) => lookup(table_view(table@), key@) == Some(v@),
            None => lookup(table_view(table@), key@) is None,
        },
{
    let n = table.len();
    let ghost full = table_view(table@);
    let mut i: usize = 0;
    assert(full.subrange(0, full.len() as int) =~= full);
    while i < n
        invariant
            n == table@.len(),
            full == table_view(table@),
            i <= n,
            lookup(full, key@) == lookup(full.subrange(i as int, n as int), key@),
        decreases n - i,
    {
        let (k, v) = table[i];
        let ghost rest = full.subrange(i as int, n as int);
        assert(rest[0] == (k@, v@));
        assert(rest.subrange(1, rest.len() as int) =~= full.subrange(i + 1, n as int));
        if str_eq(k, key) {
            return Some(v);
        }
        i += 1;
    }
    None
}

/// The Chinese dictionary entry for `key`.
pub fn zh_cn(key: &str) -> (r: Option<&'static str>)
    ensures
        match r {
            Some(v) => lookup(zh_cn_table(), key@) == Some(v@),
            None => lookup(zh_cn_table(), key@) is None,
        },
{
    let table = [
        ("app_name", "StreamCap 录播助手"),
        ("recording_started", "开始录制"),
        ("recording_stopped", "录制结束"),
        ("recording_failed", "录制失败: {reason}"),
        ("stream_ended", "直播结束"),
        ("live_started", "直播开始: {anchor}"),
        ("low_disk_space", "磁盘空间不足: {free_gb:.2f} GB"),
        ("checking", "检测中..."),
        ("recording", "录制中..."),
        ("online", "在线"),
        ("offline", "未开播"),
        ("error", "错误: {reason}"),
        ("settings", "设置"),
        ("recordings", "录制列表"),
        ("home", "首页"),
        ("about", "关于"),
        ("start_record", "开始录制"),
        ("stop_record", "停止录制"),
        ("retry", "重试"),
        ("refresh", "刷新"),
        ("url", "直播链接"),
        ("save_path", "保存路径"),
        ("quality", "画质"),
        ("format", "格式"),
        ("monitor_status", "监控状态"),
        ("platform", "平台"),
        ("status", "状态"),
        ("duration", "时长"),
        ("operations", "操作"),
        ("extension_installed", "扩展已安装，请重启软件"),
        ("empty_recordings_list", "请输入直播链接后点击右上角的 + 添加录制"),
    ];
    assert(table_view(table@) =~= zh_cn_table());
    lookup_exec(&table, key)
}

/// The English dictionary entry for `key`.
pub fn en(key: &str) -> (r: Option<&'static str>)
    ensures
        match r {
            Some(v) => lookup(en_table(), key@) == Some(v@),
            None => lookup(en_table(), key@) is None,
        },
{
    let table = [
        ("app_name", "StreamCap Live Recorder"),
        ("recording_started", "Recording started"),
        ("recording_stopped", "Recording stopped"),
        ("recording_failed", "Recording failed: {reason}"),
        ("stream_ended", "Stream ended"),
        ("live_started", "Live started: {anchor}"),
        ("low_disk_space", "Low disk space: {free_gb:.2f} GB"),
        ("checking", "Checking..."),
        ("recording", "Recording..."),
        ("online", "Online"),
        ("offline", "Offline"),
        ("error", "Error: {reason}"),
        ("settings", "Settings"),
        ("recordings", "Recordings"),
        ("home", "Home"),
        ("about", "About"),
        ("start_record", "Start Recording"),
        ("stop_record", "Stop Recording"),
        ("retry", "Retry"),
        ("refresh", "Refresh"),
        ("url", "Live URL"),
        ("save_path", "Save Path"),
        ("quality", "Quality"),
        ("format", "Format"),
        ("monitor_status", "Monitor Status"),
        ("platform", "Platform"),
        ("status", "Status"),
        ("duration", "Duration"),
        ("operations", "Actions"),
        ("extension_installed", "Extension installed, please restart"),
        ("empty_recordings_list", "Add a URL and click + to start recording"),
    ];
    assert(table_view(table@) =~= en_table());
    lookup_exec(&table, key)
}

/// The message for `key` in `lang`, or `key` itself when the dictionary has
/// no entry for it.
pub open spec fn spec_t(lang: Language, key: Seq<char>) -> Seq<char> {
    match lookup(table_of(lang), key) {
        Some(v) => v,
        None => key,
    }
}

/// Translates `key` into `lang`; unknown keys are returned unchanged.
pub fn t<'a>(lang: Language, key: &'a str) -> (r: &'a str)
    ensures
        r@ == spec_t(lang, key@),
{
    let found = match lang {
        Language::Chinese => zh_cn(key),
        Language::English => en(key),
    };
    match found {
        Some(v) => v,
        None => key,
    }
}

/// The placeholder `{name}`.
pub open spec fn placeholder(name: Seq<char>) -> Seq<char> {
    seq!['{'] + name + seq!['}']
}

/// Replaces each placeholder `{k}` by `v`, one argument after the other.
pub open spec fn fill_args(s: Seq<char>, args: Seq<(Seq<char>, Seq<char>)>) -> Seq<char>
    decreases args.len(),
{
    if args.len() == 0 {
        s
    } else {
        fill_args(
            replace_all(s, placeholder(args[0].0), args[0].1),
            args.subrange(1, args.len() as int),
        )
    }
}

/// Translates `key` into `lang` and fills in the placeholders named by `args`.
pub fn t_f(lang: Language, key: &str, args: &[(&str, &str)]) -> (r: String)
    ensures
        r@ == fill_args(spec_t(lang, key@), table_view(args@)),
{
    let mut result = copy_str(t(lang, key));
    let n = args.len();
    let ghost all = table_view(args@);
    assert(all.subrange(0, n as int) =~= all);
    for i in 0..n
        invariant
            n == args@.len(),
            all == table_view(args@),
            fill_args(spec_t(lang, key@), all) == fill_args(
                result@,
                all.subrange(i as int, n as int),
            ),
    {
        let (k, v) = args[i];
        let pat = concat3("{", k, "}");
        proof {
            reveal_strlit("{");
            reveal_strlit("}");
            assert(pat@ =~= placeholder(k@));
            let rest = all.subrange(i as int, n as int);
            assert(rest[0] == (k@, v@));
            assert(rest.subrange(1, rest.len() as int) =~= all.subrange(i + 1, n as int));
        }
        result = replace(result.as_str(), pat.as_str(), v);
    }
    assert(all.subrange(n as int, n as int) =~= Seq::<(Seq<char>, Seq<char>)>::empty());
    result
}

} // verus!
