//! Bilibili live rooms.
use vstd::prelude::*;

use super::base::{PlatformHandler, StreamData, StreamView};
use super::room::segment;
use crate::text::{
    all_ascii_digits, borrow_opt, concat3, contains, copy_str, has_prefix, is_all_ascii_digits,
    is_segment, opt_view, seq_contains, segment_before, strip_prefix,
};
use super::room::lemma_segment_unique;

verus! {

/// One CDN host of a codec, with the query that completes its URL.
#[derive(Debug, Clone)]
pub struct BiliUrlInfo {
    pub host: String,
    pub extra: String,
}

/// One codec of a format: a path shared by the hosts that serve it.
#[derive(Debug, Clone)]
pub struct BiliCodec {
    pub base_url: String,
    pub url_info: Vec<BiliUrlInfo>,
}

#[derive(Debug, Clone)]
pub struct BiliFormat {
    pub codec: Vec<BiliCodec>,
}

#[derive(Debug, Clone)]
pub struct BiliStream {
    pub format: Vec<BiliFormat>,
}

/// The play URLs of a Bilibili room (the `playurl` object of the API).
#[derive(Debug, Clone)]
pub struct BiliPlayUrlNew {
    pub stream: Vec<BiliStream>,
}

/// The URLs of a codec: host, path and query of each of its hosts.
pub open spec fn codec_urls(c: BiliCodec) -> Seq<Seq<char>> {
    c.url_info@.map_values(|i: BiliUrlInfo| i.host@ + c.base_url@ + i.extra@)
}

/// The URLs of a list of codecs, in order.
pub open spec fn codecs_urls(cs: Seq<BiliCodec>) -> Seq<Seq<char>>
    decreases cs.len(),
{
    if cs.len() == 0 {
        seq![]
    } else {
        codecs_urls(cs.drop_last()) + codec_urls(cs.last())
    }
}

/// The URLs of a list of formats, in order.
pub open spec fn formats_urls(fs: Seq<BiliFormat>) -> Seq<Seq<char>>
    decreases fs.len(),
{
    if fs.len() == 0 {
        seq![]
    } else {
        formats_urls(fs.drop_last()) + codecs_urls(fs.last().codec@)
    }
}

/// The URLs of a list of streams, in order.
pub open spec fn streams_urls(ss: Seq<BiliStream>) -> Seq<Seq<char>>
    decreases ss.len(),
{
    if ss.len() == 0 {
        seq![]
    } else {
        streams_urls(ss.drop_last()) + formats_urls(ss.last().format@)
    }
}

/// A list of owned strings by their views.
pub open spec fn strings_view(v: Seq<String>) -> Seq<Seq<char>> {
    v.map_values(|s: String| s@)
}

/// The first URL that contains both `a` and `b`.
pub open spec fn first_with_both(urls: Seq<Seq<char>>, a: Seq<char>, b: Seq<char>) -> Option<
    Seq<char>,
>
    decreases urls.len(),
{
    if urls.len() == 0 {
        None
    } else if seq_contains(urls[0], a) && seq_contains(urls[0], b) {
        Some(urls[0])
    } else {
        first_with_both(urls.subrange(1, urls.len() as int), a, b)
    }
}

/// Whether a URL is an HLS one.
pub open spec fn is_hls_url(u: Seq<char>) -> bool {
    seq_contains(u, ".m3u8"@) || seq_contains(u, "index.m3u8"@)
}

/// The first URL that is HLS and contains `b`.
pub open spec fn first_hls_with(urls: Seq<Seq<char>>, b: Seq<char>) -> Option<Seq<char>>
    decreases urls.len(),
{
    if urls.len() == 0 {
        None
    } else if is_hls_url(urls[0]) && seq_contains(urls[0], b) {
        Some(urls[0])
    } else {
        first_hls_with(urls.subrange(1, urls.len() as int), b)
    }
}

impl BiliPlayUrlNew {
    /// All URLs offered, stream by stream, format by format, codec by codec.
    pub open spec fn spec_all_urls(self) -> Seq<Seq<char>> {
        streams_urls(self.stream@)
    }

    /// The FLV URL chosen: the first FLV URL signed with `sign=`, else the
    /// first signed with `upsig=` (which external players are refused on).
    pub open spec fn spec_first_flv(self) -> Option<Seq<char>> {
        match first_with_both(self.spec_all_urls(), ".flv"@, "sign="@) {
            Some(u) => Some(u),
            None => first_with_both(self.spec_all_urls(), ".flv"@, "upsig="@),
        }
    }

    /// The HLS URL chosen, by the same preference as the FLV one.
    pub open spec fn spec_first_hls(self) -> Option<Seq<char>> {
        match first_hls_with(self.spec_all_urls(), "sign="@) {
            Some(u) => Some(u),
            None => first_hls_with(self.spec_all_urls(), "upsig="@),
        }
    }

    /// All URLs offered, in order.
    pub fn collect_all_urls(&self) -> (r: Vec<String>)
        ensures
            strings_view(r@) == self.spec_all_urls(),
    {
        let mut urls: Vec<String> = Vec::new();
        let n = self.stream.len();
        for i in 0..n
            invariant
                n == self.stream@.len(),
                strings_view(urls@) == streams_urls(self.stream@.take(i as int)),
        {
            let ghost before = urls@;
            collect_formats(&self.stream[i].format, &mut urls);
            proof {
                let t = self.stream@.take(i + 1);
                assert(t.drop_last() =~= self.stream@.take(i as int));
                assert(strings_view(urls@) =~= strings_view(before) + formats_urls(
                    self.stream@[i as int].format@,
                ));
            }
        }
        assert(self.stream@.take(n as int) =~= self.stream@);
        urls
    }

    /// The FLV URL to record, if any.
    pub fn first_flv_url(&self) -> (r: Option<String>)
        ensures
            opt_view(r) == self.spec_first_flv(),
    {
        let all = self.collect_all_urls();
        match first_both(&all, ".flv", "sign=") {
            Some(u) => Some(u),
            None => first_both(&all, ".flv", "upsig="),
        }
    }

    /// The HLS URL to record, if any.
    pub fn first_hls_url(&self) -> (r: Option<String>)
        ensures
            opt_view(r) == self.spec_first_hls(),
    {
        let all = self.collect_all_urls();
        match first_hls(&all, "sign=") {
            Some(u) => Some(u),
            None => first_hls(&all, "upsig="),
        }
    }
}

/// Appends the URLs of a codec.
fn collect_codec(c: &BiliCodec, urls: &mut Vec<String>)
    ensures
        strings_view(final(urls)@) == strings_view(old(urls)@) + codec_urls(*c),
{
    let ghost start = strings_view(urls@);
    let n = c.url_info.len();
    for i in 0..n
        invariant
            n == c.url_info@.len(),
            strings_view(urls@) == start + c.url_info@.take(i as int).map_values(
                |info: BiliUrlInfo| info.host@ + c.base_url@ + info.extra@,
            ),
    {
        let info = &c.url_info[i];
        let u = concat3(info.host.as_str(), c.base_url.as_str(), info.extra.as_str());
        let ghost before = urls@;
        urls.push(u);
        proof {
            assert(strings_view(urls@) =~= strings_view(before).push(u@));
            assert(c.url_info@.take(i + 1).map_values(
                |info: BiliUrlInfo| info.host@ + c.base_url@ + info.extra@,
            ) =~= c.url_info@.take(i as int).map_values(
                |info: BiliUrlInfo| info.host@ + c.base_url@ + info.extra@,
            ).push(u@));
        }
    }
    assert(c.url_info@.take(n as int) =~= c.url_info@);
}

/// Appends the URLs of a list of codecs.
fn collect_codecs(cs: &Vec<BiliCodec>, urls: &mut Vec<String>)
    ensures
        strings_view(final(urls)@) == strings_view(old(urls)@) + codecs_urls(cs@),
{
    let ghost start = strings_view(urls@);
    let n = cs.len();
    for i in 0..n
        invariant
            n == cs@.len(),
            strings_view(urls@) == start + codecs_urls(cs@.take(i as int)),
    {
        let ghost before = strings_view(urls@);
        collect_codec(&cs[i], urls);
        proof {
            let t = cs@.take(i + 1);
            assert(t.drop_last() =~= cs@.take(i as int));
            assert(strings_view(urls@) =~= start + codecs_urls(t));
        }
    }
    assert(cs@.take(n as int) =~= cs@);
}

/// Appends the URLs of a list of formats.
fn collect_formats(fs: &Vec<BiliFormat>, urls: &mut Vec<String>)
    ensures
        strings_view(final(urls)@) == strings_view(old(urls)@) + formats_urls(fs@),
{
    let ghost start = strings_view(urls@);
    let n = fs.len();
    for i in 0..n
        invariant
            n == fs@.len(),
            strings_view(urls@) == start + formats_urls(fs@.take(i as int)),
    {
        collect_codecs(&fs[i].codec, urls);
        proof {
            let t = fs@.take(i + 1);
            assert(t.drop_last() =~= fs@.take(i as int));
            assert(strings_view(urls@) =~= start + formats_urls(t));
        }
    }
    assert(fs@.take(n as int) =~= fs@);
}

/// The first URL containing both patterns.
fn first_both(urls: &Vec<String>, a: &str, b: &str) -> (r: Option<String>)
    ensures
        opt_view(r) == first_with_both(strings_view(urls@), a@, b@),
{
    let n = urls.len();
    let ghost all = strings_view(urls@);
    assert(all.subrange(0, n as int) =~= all);
    for i in 0..n
        invariant
            n == urls@.len(),
            all == strings_view(urls@),
            first_with_both(all, a@, b@) == first_with_both(
                all.subrange(i as int, n as int),
                a@,
                b@,
            ),
    {
        let ghost rest = all.subrange(i as int, n as int);
        assert(rest[0] == urls@[i as int]@);
        assert(rest.subrange(1, rest.len() as int) =~= all.subrange(i + 1, n as int));
        if contains(urls[i].as_str(), a) && contains(urls[i].as_str(), b) {
            return Some(copy_str(urls[i].as_str()));
        }
    }
    None
}

/// The first HLS URL containing the pattern.
fn first_hls(urls: &Vec<String>, b: &str) -> (r: Option<String>)
    ensures
        opt_view(r) == first_hls_with(strings_view(urls@), b@),
{
    let n = urls.len();
    let ghost all = strings_view(urls@);
    assert(all.subrange(0, n as int) =~= all);
    for i in 0..n
        invariant
            n == urls@.len(),
            all == strings_view(urls@),
            first_hls_with(all, b@) == first_hls_with(all.subrange(i as int, n as int), b@),
    {
        let ghost rest = all.subrange(i as int, n as int);
        assert(rest[0] == urls@[i as int]@);
        assert(rest.subrange(1, rest.len() as int) =~= all.subrange(i + 1, n as int));
        let u = urls[i].as_str();
        if (contains(u, ".m3u8") || contains(u, "index.m3u8")) && contains(u, b) {
            return Some(copy_str(u));
        }
    }
    None
}

/// The room id of a Bilibili URL: after `…/h5/`, `…/blanc/` or the bare
/// host (the first that begins the URL), up to `/` or `?`; it must be a
/// non-empty run of digits.
pub open spec fn bilibili_room_id(url: Seq<char>) -> Option<Seq<char>> {
    let p1 = "https://live.bilibili.com/h5/"@;
    let p2 = "https://live.bilibili.com/blanc/"@;
    let p3 = "https://live.bilibili.com/"@;
    let rest = if has_prefix(url, p1) {
        Some(url.subrange(p1.len() as int, url.len() as int))
    } else if has_prefix(url, p2) {
        Some(url.subrange(p2.len() as int, url.len() as int))
    } else if has_prefix(url, p3) {
        Some(url.subrange(p3.len() as int, url.len() as int))
    } else {
        None
    };
    match rest {
        None => None,
        Some(r) => {
            let id = segment(r, seq!['/', '?']);
            if all_ascii_digits(id) && id.len() > 0 {
                Some(id)
            } else {
                None
            }
        },
    }
}

/// What the Bilibili handler reports for an API answer: nothing unless the
/// code is 0; live when an FLV or HLS URL is offered, FLV preferred.
pub open spec fn bilibili_stream(code: i32, playurl: Option<BiliPlayUrlNew>, room_id: Seq<char>) -> Option<
    StreamView,
> {
    if code != 0 {
        None
    } else {
        let flv = match playurl {
            Some(p) => p.spec_first_flv(),
            None => None,
        };
        let hls = match playurl {
            Some(p) => p.spec_first_hls(),
            None => None,
        };
        Some(
            StreamView {
                platform_name: "哔哩哔哩"@,
                anchor_name: seq![],
                title: seq![],
                is_live: flv is Some || hls is Some,
                record_url: match flv {
                    Some(u) => u,
                    None => match hls {
                        Some(u) => u,
                        None => seq![],
                    },
                },
                flv_url: flv,
                m3u8_url: hls,
                room_id: Some(room_id),
            },
        )
    }
}

/// Bilibili live rooms (`https://live.bilibili.com/<room>`).
pub struct BilibiliHandler {
    proxy: Option<String>,
}

impl BilibiliHandler {
    pub fn new() -> (r: BilibiliHandler)
        ensures
            r.spec_proxy() is None,
    {
        BilibiliHandler { proxy: None }
    }

    /// The numeric room id of a live URL.
    pub fn parse_room_id(&self, url: &str) -> (r: Option<String>)
        ensures
            opt_view(r) == bilibili_room_id(url@),
    {
        let rest = match strip_prefix(url, "https://live.bilibili.com/h5/") {
            Some(r) => r,
            None => match strip_prefix(url, "https://live.bilibili.com/blanc/") {
                Some(r) => r,
                None => match strip_prefix(url, "https://live.bilibili.com/") {
                    Some(r) => r,
                    None => return None,
                },
            },
        };
        let stops = ['/', '?'];
        let id = segment_before(rest, &stops);
        proof {
            assert(stops@ =~= seq!['/', '?']);
            lemma_segment_unique(rest@, stops@, id@);
        }
        if is_all_ascii_digits(id) && id.unicode_len() > 0 {
            Some(copy_str(id))
        } else {
            None
        }
    }

    /// The URL of the play-info API for room `room_id`, asking for every
    /// protocol, format and codec at the best quality.
    pub fn build_api_url(&self, room_id: &str) -> (r: String)
        ensures
            r@ == "https://api.live.bilibili.com/xlive/web-room/v2/index/getRoomPlayInfo?room_id="@
                + room_id@
                + "&protocol=0,1&format=0,1,2&codec=0,1&qn=10000&platform=web&ptype=8&dolby=5&panorama=1"@,
    {
        concat3(
            "https://api.live.bilibili.com/xlive/web-room/v2/index/getRoomPlayInfo?room_id=",
            room_id,
            "&protocol=0,1&format=0,1,2&codec=0,1&qn=10000&platform=web&ptype=8&dolby=5&panorama=1",
        )
    }

    /// The stream data for an API answer about `room_id`.
    pub fn stream_data_from_response(
        &self,
        code: i32,
        playurl: Option<BiliPlayUrlNew>,
        room_id: &str,
    ) -> (r: Option<StreamData>)
        ensures
            match bilibili_stream(code, playurl, room_id@) {
                None => r is None,
                Some(v) => r matches Some(sd) && sd@ == v,
            },
    {
        if code != 0 {
            return None;
        }
        let flv = match &playurl {
            Some(p) => p.first_flv_url(),
            None => None,
        };
        let hls = match &playurl {
            Some(p) => p.first_hls_url(),
            None => None,
        };
        let is_live = flv.is_some() || hls.is_some();
        let record_url = match &flv {
            Some(u) => copy_str(u.as_str()),
            None => match &hls {
                Some(u) => copy_str(u.as_str()),
                None => String::new(),
            },
        };
        Some(
            StreamData {
                platform_name: copy_str("哔哩哔哩"),
                anchor_name: String::new(),
                title: String::new(),
                is_live,
                record_url,
                flv_url: flv,
                m3u8_url: hls,
                room_id: Some(copy_str(room_id)),
            },
        )
    }
}

impl PlatformHandler for BilibiliHandler {
    open spec fn spec_platform_id(&self) -> Seq<char> {
        "bilibili"@
    }

    open spec fn spec_platform_name(&self) -> Seq<char> {
        "哔哩哔哩"@
    }

    open spec fn spec_matches(&self, url: Seq<char>) -> bool {
        seq_contains(url, "bilibili.com"@) && seq_contains(url, "live"@)
    }

    closed spec fn spec_proxy(&self) -> Option<Seq<char>> {
        opt_view(self.proxy)
    }

    fn platform_id(&self) -> (r: &str) {
        "bilibili"
    }

    fn platform_name(&self) -> (r: &str) {
        "哔哩哔哩"
    }

    fn matches(&self, url: &str) -> (r: bool) {
        contains(url, "bilibili.com") && contains(url, "live")
    }

    fn proxy(&self) -> (r: Option<&str>) {
        borrow_opt(&self.proxy)
    }

    fn set_proxy(&mut self, proxy: Option<String>) {
        self.proxy = proxy;
    }
}

} // verus!
