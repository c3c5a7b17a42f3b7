//! Input options for opening a live stream, with per-platform headers.
use vstd::prelude::*;

use crate::i18n::lookup;
use crate::text::{
    concat2, concat3, contains, copy_str, decimal, has_prefix, opt_view, push_char, push_decimal,
    seq_contains, starts_with, str_eq,
};
use crate::utils::{find_query_param, owned_pairs_view, push_signed_padded, signed_padded};

verus! {

// ---------------------------------------------------------------------------
// Per-platform request headers
// ---------------------------------------------------------------------------

/// The `origin` and `referer` headers some platforms check.
#[derive(Debug, Clone)]
pub struct PlatformHeaders {
    pub origin: Option<String>,
    pub referer: Option<String>,
}

/// Headers by their views: `(origin, referer)`.
pub type HeadersView = (Option<Seq<char>>, Option<Seq<char>>);

impl PlatformHeaders {
    /// The headers by their views.
    pub open spec fn view_pair(self) -> HeadersView {
        (opt_view(self.origin), opt_view(self.referer))
    }
}

impl Default for PlatformHeaders {
    fn default() -> (r: PlatformHeaders)
        ensures
            r.origin is None,
            r.referer is None,
    {
        PlatformHeaders { origin: None, referer: None }
    }
}

/// The table of platform headers: `None` for a platform that needs none.
/// Shopee is known but its origin depends on the live URL, so its entry is empty.
pub open spec fn platform_headers_table(key: Seq<char>) -> Option<HeadersView> {
    if key == "pandalive"@ {
        Some((Some("https://www.pandalive.co.kr"@), None))
    } else if key == "winktv"@ {
        Some((Some("https://www.winktv.co.kr"@), None))
    } else if key == "popkontv"@ {
        Some((Some("https://www.popkontv.com"@), None))
    } else if key == "flextv"@ {
        Some((Some("https://www.flextv.co.kr"@), None))
    } else if key == "qiandurebo"@ {
        Some((None, Some("https://qiandurebo.com"@)))
    } else if key == "17live"@ {
        Some((None, Some("https://17.live/en/live/6302408"@)))
    } else if key == "lang"@ {
        Some((None, Some("https://www.lang.live"@)))
    } else if key == "shopee"@ {
        Some((None, None))
    } else if key == "blued"@ {
        Some((None, Some("https://app.blued.cn"@)))
    } else if key == "xindongrebo"@ {
        Some((None, Some("https://xcqrkj.com"@)))
    } else if key == "bilibili"@ {
        Some((None, Some("https://live.bilibili.com/"@)))
    } else {
        None
    }
}

/// The pieces of `s` between occurrences of `c` (what `str::split(c)` yields).
pub open spec fn split_on(s: Seq<char>, c: char) -> Seq<Seq<char>>
    decreases s.len(),
{
    if s.len() == 0 {
        seq![Seq::<char>::empty()]
    } else {
        let p = split_on(s.drop_last(), c);
        if s.last() == c {
            p.push(Seq::<char>::empty())
        } else {
            p.update(p.len() - 1, p.last().push(s.last()))
        }
    }
}

/// `split_on` always yields at least one piece.
pub proof fn lemma_split_nonempty(s: Seq<char>, c: char)
    ensures
        split_on(s, c).len() >= 1,
    decreases s.len(),
{
    if s.len() > 0 {
        lemma_split_nonempty(s.drop_last(), c);
    }
}

/// The origin of a URL: its first and third `/`-separated pieces joined by
/// `//` (`https://host/...` gives `https://host`); `None` when the URL has
/// fewer than three pieces.
pub open spec fn url_origin(url: Seq<char>) -> Option<Seq<char>> {
    let parts = split_on(url, '/');
    if parts.len() >= 3 {
        Some(parts[0] + "//"@ + parts[2])
    } else {
        None
    }
}

/// The header text FFmpeg expects: `origin: ..` and `referer: ..` lines
/// joined by CR LF, or `None` when neither header is set.
pub open spec fn header_text(h: HeadersView) -> Option<Seq<char>> {
    match (h.0, h.1) {
        (None, None) => None,
        (Some(o), None) => Some("origin: "@ + o),
        (None, Some(r)) => Some("referer: "@ + r),
        (Some(o), Some(r)) => Some("origin: "@ + o + "\r\n"@ + "referer: "@ + r),
    }
}

fn headers_with_origin(origin: &str) -> (r: PlatformHeaders)
    ensures
        r.view_pair() == (Some(origin@), None::<Seq<char>>),
{
    PlatformHeaders { origin: Some(copy_str(origin)), referer: None }
}

fn headers_with_referer(referer: &str) -> (r: PlatformHeaders)
    ensures
        r.view_pair() == (None::<Seq<char>>, Some(referer@)),
{
    PlatformHeaders { origin: None, referer: Some(copy_str(referer)) }
}

impl PlatformHeaders {
    /// The headers a platform needs, or `None` for a platform not in the table.
    pub fn for_platform(platform_key: &str) -> (r: Option<PlatformHeaders>)
        ensures
            r is None <==> platform_headers_table(platform_key@) is None,
            r matches Some(h) ==> Some(h.view_pair()) == platform_headers_table(platform_key@),
    {
        if str_eq(platform_key, "pandalive") {
            Some(headers_with_origin("https://www.pandalive.co.kr"))
        } else if str_eq(platform_key, "winktv") {
            Some(headers_with_origin("https://www.winktv.co.kr"))
        } else if str_eq(platform_key, "popkontv") {
            Some(headers_with_origin("https://www.popkontv.com"))
        } else if str_eq(platform_key, "flextv") {
            Some(headers_with_origin("https://www.flextv.co.kr"))
        } else if str_eq(platform_key, "qiandurebo") {
            Some(headers_with_referer("https://qiandurebo.com"))
        } else if str_eq(platform_key, "17live") {
            Some(headers_with_referer("https://17.live/en/live/6302408"))
        } else if str_eq(platform_key, "lang") {
            Some(headers_with_referer("https://www.lang.live"))
        } else if str_eq(platform_key, "shopee") {
            Some(PlatformHeaders::default())
        } else if str_eq(platform_key, "blued") {
            Some(headers_with_referer("https://app.blued.cn"))
        } else if str_eq(platform_key, "xindongrebo") {
            Some(headers_with_referer("https://xcqrkj.com"))
        } else if str_eq(platform_key, "bilibili") {
            Some(headers_with_referer("https://live.bilibili.com/"))
        } else {
            None
        }
    }

    /// Shopee's headers: the origin of its live URL, or `None` when the URL
    /// has fewer than three `/`-separated pieces.
    pub fn for_shopee(live_url: &str) -> (r: Option<PlatformHeaders>)
        ensures
            r is None <==> url_origin(live_url@) is None,
            r matches Some(h) ==> h.view_pair() == (url_origin(live_url@), None::<Seq<char>>),
    {
        // The number of pieces so far, counted up to 4 ("more than three").
        let mut count: u8 = 1;
        let mut first = String::new();
        let mut third = String::new();
        let ghost s = live_url@;
        for ch in it: live_url.chars()
            invariant
                it.seq() == s,
                count as int == if split_on(s.take(it.index() as int), '/').len() < 4 {
                    split_on(s.take(it.index() as int), '/').len() as int
                } else {
                    4
                },
                first@ == split_on(s.take(it.index() as int), '/')[0],
                count >= 3 ==> third@ == split_on(s.take(it.index() as int), '/')[2],
        {
            let ghost i = it.index() as int;
            proof {
                lemma_split_nonempty(s.take(i), '/');
                assert(s.take(i + 1).drop_last() == s.take(i));
                assert(s.take(i + 1).last() == ch);
            }
            if ch == '/' {
                if count < 4 {
                    count = count + 1;
                }
                if count == 3 {
                    assert(split_on(s.take(i + 1), '/')[2] == Seq::<char>::empty());
                    third = String::new();
                }
            } else {
                if count == 1 {
                    push_char(&mut first, ch);
                } else if count == 3 {
                    push_char(&mut third, ch);
                }
            }
        }
        assert(s.take(s.len() as int) == s);
        if count >= 3 {
            let origin = concat3(first.as_str(), "//", third.as_str());
            Some(PlatformHeaders { origin: Some(origin), referer: None })
        } else {
            None
        }
    }

    /// The headers as FFmpeg's `headers` option text, or `None` when empty.
    pub fn to_header_string(&self) -> (r: Option<String>)
        ensures
            opt_view(r) == header_text(self.view_pair()),
    {
        match (&self.origin, &self.referer) {
            (None, None) => None,
            (Some(o), None) => Some(concat2("origin: ", o.as_str())),
            (None, Some(rf)) => Some(concat2("referer: ", rf.as_str())),
            (Some(o), Some(rf)) => {
                let mut s = concat3("origin: ", o.as_str(), "\r\n");
                s.append("referer: ");
                s.append(rf.as_str());
                Some(s)
            },
        }
    }
}


// ---------------------------------------------------------------------------
// Input options
// ---------------------------------------------------------------------------

/// Options for opening an input stream; each one that is set becomes one
/// (or, for `reconnect`, four) FFmpeg option pairs.
#[derive(Debug, Clone)]
pub struct InputOptions {
    /// Read timeout in microseconds.
    pub rw_timeout: Option<u64>,
    /// How long to analyse the stream, in microseconds.
    pub analyzeduration: Option<u64>,
    /// How many bytes to probe.
    pub probesize: Option<u64>,
    /// Buffer size in bytes.
    pub bufsize: Option<u64>,
    /// Input format flags.
    pub fflags: Option<String>,
    /// Depth of the thread queue.
    pub thread_queue_size: Option<u32>,
    pub correct_ts_overflow: Option<i32>,
    pub avoid_negative_ts: Option<i32>,
    pub flush_packets: Option<i32>,
    pub user_agent: Option<String>,
    /// HTTP headers, one `name: value` per line.
    pub headers: Option<String>,
    /// HTTP proxy address, such as `http://127.0.0.1:7890`.
    pub http_proxy: Option<String>,
    /// When set, the reconnect options are switched on.
    pub reconnect: Option<i32>,
    pub max_muxing_queue_size: Option<u64>,
    /// Further options, passed on as they are.
    pub extra_options: Vec<(String, String)>,
}

impl Default for InputOptions {
    fn default() -> (r: InputOptions)
        ensures
            r.is_empty(),
    {
        InputOptions {
            rw_timeout: None,
            analyzeduration: None,
            probesize: None,
            bufsize: None,
            fflags: None,
            thread_queue_size: None,
            correct_ts_overflow: None,
            avoid_negative_ts: None,
            flush_packets: None,
            user_agent: None,
            headers: None,
            http_proxy: None,
            reconnect: None,
            max_muxing_queue_size: None,
            extra_options: Vec::new(),
        }
    }
}

/// The option pair of an unsigned number, if set.
pub open spec fn num_pair(key: Seq<char>, v: Option<nat>) -> Seq<(Seq<char>, Seq<char>)> {
    match v {
        Some(x) => seq![(key, decimal(x))],
        None => Seq::empty(),
    }
}

/// The option pair of a signed number, if set.
pub open spec fn signed_pair(key: Seq<char>, v: Option<i32>) -> Seq<(Seq<char>, Seq<char>)> {
    match v {
        Some(x) => seq![(key, signed_padded(x as int, 0))],
        None => Seq::empty(),
    }
}

/// The option pair of a text, if set.
pub open spec fn text_pair(key: Seq<char>, v: Option<String>) -> Seq<(Seq<char>, Seq<char>)> {
    match v {
        Some(x) => seq![(key, x@)],
        None => Seq::empty(),
    }
}

pub open spec fn opt_u64(v: Option<u64>) -> Option<nat> {
    match v {
        Some(x) => Some(x as nat),
        None => None,
    }
}

pub open spec fn opt_u32(v: Option<u32>) -> Option<nat> {
    match v {
        Some(x) => Some(x as nat),
        None => None,
    }
}

/// The four options that switch reconnecting on.
pub open spec fn reconnect_pairs() -> Seq<(Seq<char>, Seq<char>)> {
    seq![
        ("reconnect"@, "1"@),
        ("reconnect_streamed"@, "1"@),
        ("reconnect_delay_max"@, "5"@),
        ("reconnect_at_eof"@, "1"@),
    ]
}

/// The user agent of the presets.
pub open spec fn preset_user_agent() -> Seq<char> {
    "Mozilla/5.0 (Windows NT 10.0; Win64; x64) AppleWebKit/537.36 (KHTML, like Gecko) Chrome/120.0.0.0 Safari/537.36"@
}

/// The domains of platforms abroad.
pub open spec fn is_overseas_url(url: Seq<char>) -> bool {
    ||| seq_contains(url, "pandalive.co.kr"@)
    ||| seq_contains(url, "winktv.co.kr"@)
    ||| seq_contains(url, "popkontv.com"@)
    ||| seq_contains(url, "flextv.co.kr"@)
    ||| seq_contains(url, "17.live"@)
    ||| seq_contains(url, "shopee."@)
}

impl InputOptions {
    /// No option is set.
    pub open spec fn is_empty(self) -> bool {
        &&& self.rw_timeout is None
        &&& self.analyzeduration is None
        &&& self.probesize is None
        &&& self.bufsize is None
        &&& self.fflags is None
        &&& self.thread_queue_size is None
        &&& self.correct_ts_overflow is None
        &&& self.avoid_negative_ts is None
        &&& self.flush_packets is None
        &&& self.user_agent is None
        &&& self.headers is None
        &&& self.http_proxy is None
        &&& self.reconnect is None
        &&& self.max_muxing_queue_size is None
        &&& self.extra_options@.len() == 0
    }

    /// The option pairs, in the order in which they are handed to FFmpeg.
    pub open spec fn spec_pairs(self) -> Seq<(Seq<char>, Seq<char>)> {
        num_pair("rw_timeout"@, opt_u64(self.rw_timeout))
            + num_pair("analyzeduration"@, opt_u64(self.analyzeduration))
            + num_pair("probesize"@, opt_u64(self.probesize))
            + num_pair("bufsize"@, opt_u64(self.bufsize))
            + text_pair("fflags"@, self.fflags)
            + num_pair("thread_queue_size"@, opt_u32(self.thread_queue_size))
            + signed_pair("correct_ts_overflow"@, self.correct_ts_overflow)
            + signed_pair("avoid_negative_ts"@, self.avoid_negative_ts)
            + signed_pair("flush_packets"@, self.flush_packets)
            + text_pair("user-agent"@, self.user_agent)
            + text_pair("headers"@, self.headers)
            + text_pair("http_proxy"@, self.http_proxy)
            + (if self.reconnect is Some {
            reconnect_pairs()
        } else {
            Seq::empty()
        }) + num_pair("max_muxing_queue_size"@, opt_u64(self.max_muxing_queue_size))
            + owned_pairs_view(self.extra_options@)
    }

    /// The settings of a preset other than its headers and proxy: the given
    /// timeout and sizes, and the settings both presets share.
    pub open spec fn has_preset_settings(self, rw_timeout: u64, probesize: u64, bufsize: u64) -> bool {
        &&& self.rw_timeout == Some(rw_timeout)
        &&& self.analyzeduration == Some(10_000_000u64)
        &&& self.probesize == Some(probesize)
        &&& self.bufsize == Some(bufsize)
        &&& opt_view(self.fflags) == Some("+discardcorrupt+igndts"@)
        &&& self.thread_queue_size == Some(1024u32)
        &&& self.correct_ts_overflow == Some(1i32)
        &&& self.avoid_negative_ts == Some(1i32)
        &&& self.flush_packets == Some(1i32)
        &&& opt_view(self.user_agent) == Some(preset_user_agent())
        &&& self.reconnect == Some(1i32)
        &&& self.max_muxing_queue_size == Some(1024u64)
        &&& self.extra_options@.len() == 0
    }

    /// A preset: its settings, with no headers and no proxy.
    pub open spec fn is_preset(self, rw_timeout: u64, probesize: u64, bufsize: u64) -> bool {
        &&& self.has_preset_settings(rw_timeout, probesize, bufsize)
        &&& self.headers is None
        &&& self.http_proxy is None
    }

    /// The settings of the preset chosen by `is_overseas`.
    pub open spec fn has_chosen_settings(self, is_overseas: bool) -> bool {
        if is_overseas {
            self.has_preset_settings(50_000_000, 20_000_000, 15_728_640)
        } else {
            self.has_preset_settings(15_000_000, 10_000_000, 8_388_608)
        }
    }

    /// The preset for platforms at home: 15 s timeout, 10 MB probe, 8 MiB buffer.
    pub open spec fn is_cn_preset(self) -> bool {
        self.is_preset(15_000_000, 10_000_000, 8_388_608)
    }

    /// The preset for platforms abroad: 50 s timeout, 20 MB probe, 15 MiB buffer.
    pub open spec fn is_overseas_preset(self) -> bool {
        self.is_preset(50_000_000, 20_000_000, 15_728_640)
    }

    /// The option pairs, in the order in which they are handed to FFmpeg.
    pub fn collect_pairs(&self) -> (v: Vec<(String, String)>)
        ensures
            owned_pairs_view(v@) == self.spec_pairs(),
    {
        let mut v: Vec<(String, String)> = Vec::new();
        push_num_pair(&mut v, "rw_timeout", self.rw_timeout);
        push_num_pair(&mut v, "analyzeduration", self.analyzeduration);
        push_num_pair(&mut v, "probesize", self.probesize);
        push_num_pair(&mut v, "bufsize", self.bufsize);
        push_text_pair(&mut v, "fflags", &self.fflags);
        push_num_pair(
            &mut v,
            "thread_queue_size",
            match self.thread_queue_size {
                Some(x) => Some(x as u64),
                None => None,
            },
        );
        push_signed_pair(&mut v, "correct_ts_overflow", self.correct_ts_overflow);
        push_signed_pair(&mut v, "avoid_negative_ts", self.avoid_negative_ts);
        push_signed_pair(&mut v, "flush_packets", self.flush_packets);
        push_text_pair(&mut v, "user-agent", &self.user_agent);
        push_text_pair(&mut v, "headers", &self.headers);
        push_text_pair(&mut v, "http_proxy", &self.http_proxy);
        let ghost before_reconnect = owned_pairs_view(v@);
        if self.reconnect.is_some() {
            v.push((copy_str("reconnect"), copy_str("1")));
            v.push((copy_str("reconnect_streamed"), copy_str("1")));
            v.push((copy_str("reconnect_delay_max"), copy_str("5")));
            v.push((copy_str("reconnect_at_eof"), copy_str("1")));
            assert(owned_pairs_view(v@) =~= before_reconnect + reconnect_pairs());
        } else {
            assert(owned_pairs_view(v@) =~= before_reconnect + Seq::empty());
        }
        push_num_pair(&mut v, "max_muxing_queue_size", self.max_muxing_queue_size);
        let ghost before_extra = owned_pairs_view(v@);
        let n = self.extra_options.len();
        for i in 0..n
            invariant
                n == self.extra_options@.len(),
                owned_pairs_view(v@) == before_extra + owned_pairs_view(
                    self.extra_options@.take(i as int),
                ),
        {
            let k = copy_str(self.extra_options[i].0.as_str());
            let val = copy_str(self.extra_options[i].1.as_str());
            let ghost prev = v@;
            v.push((k, val));
            assert(owned_pairs_view(v@) =~= owned_pairs_view(prev).push(
                (self.extra_options@[i as int].0@, self.extra_options@[i as int].1@),
            ));
            assert(owned_pairs_view(self.extra_options@.take(i + 1)) =~= owned_pairs_view(
                self.extra_options@.take(i as int),
            ).push((self.extra_options@[i as int].0@, self.extra_options@[i as int].1@)));
            assert(owned_pairs_view(v@) =~= before_extra + owned_pairs_view(
                self.extra_options@.take(i + 1),
            ));
        }
        assert(self.extra_options@.take(n as int) =~= self.extra_options@);
        assert(owned_pairs_view(v@) =~= self.spec_pairs());
        v
    }
}

impl InputOptions {
    fn preset(rw_timeout: u64, probesize: u64, bufsize: u64) -> (r: InputOptions)
        ensures
            r.is_preset(rw_timeout, probesize, bufsize),
    {
        InputOptions {
            rw_timeout: Some(rw_timeout),
            analyzeduration: Some(10_000_000),
            probesize: Some(probesize),
            bufsize: Some(bufsize),
            fflags: Some(copy_str("+discardcorrupt+igndts")),
            thread_queue_size: Some(1024),
            correct_ts_overflow: Some(1),
            avoid_negative_ts: Some(1),
            flush_packets: Some(1),
            user_agent: Some(
                copy_str(
                    "Mozilla/5.0 (Windows NT 10.0; Win64; x64) AppleWebKit/537.36 (KHTML, like Gecko) Chrome/120.0.0.0 Safari/537.36",
                ),
            ),
            headers: None,
            http_proxy: None,
            reconnect: Some(1),
            max_muxing_queue_size: Some(1024),
            extra_options: Vec::new(),
        }
    }

    /// The options for platforms at home.
    pub fn default_cn() -> (r: InputOptions)
        ensures
            r.is_cn_preset(),
    {
        Self::preset(15_000_000, 10_000_000, 8_388_608)
    }

    /// The options for platforms abroad: longer timeout, larger probe and buffer.
    pub fn default_overseas() -> (r: InputOptions)
        ensures
            r.is_overseas_preset(),
    {
        Self::preset(50_000_000, 20_000_000, 15_728_640)
    }

    /// The preset for platforms abroad when `is_overseas`, else the one for home.
    pub fn auto_select(is_overseas: bool) -> (r: InputOptions)
        ensures
            is_overseas ==> r.is_overseas_preset(),
            !is_overseas ==> r.is_cn_preset(),
    {
        if is_overseas {
            Self::default_overseas()
        } else {
            Self::default_cn()
        }
    }

    /// Whether `url` names a domain of a platform abroad.
    pub fn is_overseas_domain(url: &str) -> (r: bool)
        ensures
            r == is_overseas_url(url@),
    {
        contains(url, "pandalive.co.kr") || contains(url, "winktv.co.kr") || contains(
            url,
            "popkontv.com",
        ) || contains(url, "flextv.co.kr") || contains(url, "17.live") || contains(url, "shopee.")
    }

    /// The header text that merging the headers of `platform_key` would set:
    /// for Shopee, the origin of the first `live_url` extra option; else the
    /// entry of the header table. `None` leaves the headers as they are.
    pub open spec fn merged_header_text(self, platform_key: Seq<char>) -> Option<Seq<char>> {
        let source = if platform_key == "shopee"@ {
            match lookup(owned_pairs_view(self.extra_options@), "live_url"@) {
                Some(u) => match url_origin(u) {
                    Some(o) => Some((Some(o), None::<Seq<char>>)),
                    None => None,
                },
                None => None,
            }
        } else {
            platform_headers_table(platform_key)
        };
        match source {
            Some(h) => header_text(h),
            None => None,
        }
    }

    /// Sets the headers that `platform_key` needs; every other option stays.
    pub fn merge_platform_headers(&mut self, platform_key: &str)
        ensures
            (*final(self)) == (InputOptions { headers: final(self).headers, ..*old(self) }),
            opt_view(final(self).headers) == match old(self).merged_header_text(platform_key@) {
                Some(t) => Some(t),
                None => opt_view(old(self).headers),
            },
    {
        let headers_opt = if str_eq(platform_key, "shopee") {
            match find_query_param(&self.extra_options, "live_url") {
                Some(url) => PlatformHeaders::for_shopee(url.as_str()),
                None => None,
            }
        } else {
            PlatformHeaders::for_platform(platform_key)
        };
        if let Some(hdrs) = headers_opt {
            if let Some(header_str) = hdrs.to_header_string() {
                self.headers = Some(header_str);
            }
        }
    }
}

// ---------------------------------------------------------------------------
// Choosing how a stream is recorded
// ---------------------------------------------------------------------------

/// A platform and the live URL being recorded, from which the presets are chosen.
#[derive(Debug, Clone)]
pub struct StreamSourceInfo {
    pub platform_key: String,
    pub live_url: String,
}

/// How a stream is recorded.
#[derive(Debug, Clone)]
pub enum StreamSelection {
    /// Download the FLV stream directly (saved as ts).
    FlvDirectDownload { url: String, platform_headers: PlatformHeaders },
    /// Remux an HLS or HTTP stream into mp4.
    HlsRemux { url: String },
    /// A platform without a rule of its own, remuxed as well.
    UnknownRemux { url: String },
}

/// Whether `url` is remuxed as HLS by a platform without a rule of its own.
pub open spec fn plain_remux_url(url: Seq<char>) -> bool {
    has_prefix(url, "rtmp://"@) || has_prefix(url, "http://"@)
}

/// `r` is the selection for `url` on `key`: Douyin downloads FLV directly
/// (with its table headers, empty when it has none); Bilibili remuxes HLS;
/// any other platform remuxes, as `HlsRemux` when the URL is `rtmp://` or
/// `http://` and as `UnknownRemux` otherwise. The URL is kept as it is.
pub open spec fn is_selection_for(r: StreamSelection, url: Seq<char>, key: Seq<char>) -> bool {
    match r {
        StreamSelection::FlvDirectDownload { url: u, platform_headers: h } => {
            &&& key == "douyin"@
            &&& u@ == url
            &&& h.view_pair() == match platform_headers_table(key) {
                Some(t) => t,
                None => (None, None),
            }
        },
        StreamSelection::HlsRemux { url: u } => {
            &&& key != "douyin"@
            &&& u@ == url
            &&& (key == "bilibili"@ || plain_remux_url(url))
        },
        StreamSelection::UnknownRemux { url: u } => {
            &&& key != "douyin"@
            &&& key != "bilibili"@
            &&& !plain_remux_url(url)
            &&& u@ == url
        },
    }
}

/// Chooses how to record `stream_url` from platform `platform_key`.
pub fn select_stream_source(stream_url: &str, platform_key: &str) -> (r: StreamSelection)
    ensures
        is_selection_for(r, stream_url@, platform_key@),
{
    if str_eq(platform_key, "douyin") {
        let headers = match PlatformHeaders::for_platform(platform_key) {
            Some(h) => h,
            None => PlatformHeaders::default(),
        };
        StreamSelection::FlvDirectDownload { url: copy_str(stream_url), platform_headers: headers }
    } else if str_eq(platform_key, "bilibili") {
        StreamSelection::HlsRemux { url: copy_str(stream_url) }
    } else if starts_with(stream_url, "rtmp://") || starts_with(stream_url, "http://") {
        StreamSelection::HlsRemux { url: copy_str(stream_url) }
    } else {
        StreamSelection::UnknownRemux { url: copy_str(stream_url) }
    }
}

fn push_num_pair(v: &mut Vec<(String, String)>, key: &str, x: Option<u64>)
    ensures
        owned_pairs_view(final(v)@) == owned_pairs_view(old(v)@) + num_pair(key@, opt_u64(x)),
{
    if let Some(n) = x {
        let mut s = String::new();
        push_decimal(&mut s, n);
        v.push((copy_str(key), s));
    }
    assert(owned_pairs_view(v@) =~= owned_pairs_view(old(v)@) + num_pair(key@, opt_u64(x)));
}

fn push_signed_pair(v: &mut Vec<(String, String)>, key: &str, x: Option<i32>)
    ensures
        owned_pairs_view(final(v)@) == owned_pairs_view(old(v)@) + signed_pair(key@, x),
{
    if let Some(n) = x {
        let mut s = String::new();
        push_signed_padded(&mut s, n as i64, 0);
        v.push((copy_str(key), s));
    }
    assert(owned_pairs_view(v@) =~= owned_pairs_view(old(v)@) + signed_pair(key@, x));
}

fn push_text_pair(v: &mut Vec<(String, String)>, key: &str, x: &Option<String>)
    ensures
        owned_pairs_view(final(v)@) == owned_pairs_view(old(v)@) + text_pair(key@, *x),
{
    if let Some(t) = x {
        v.push((copy_str(key), copy_str(t.as_str())));
    }
    assert(owned_pairs_view(v@) =~= owned_pairs_view(old(v)@) + text_pair(key@, *x));
}

} // verus!
