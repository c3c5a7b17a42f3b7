//! Kuaishou live rooms.
use vstd::prelude::*;

use super::base::{
    PlatformHandler, StreamData, StreamView, make_offline_stream, make_single_url_stream,
    offline_stream, single_url_stream,
};
use super::room::{lemma_room_after_first_prefix, room_after_prefixes, room_from_prefixes, strs_view};
use super::html::{first_group, regex_compiles, regex_group1};
use crate::text::{avoids, borrow_opt, concat2, contains, copy_str, opt_view, seq_contains, str_eq};

verus! {

/// The prefixes a Kuaishou room id follows, tried in this order.
pub open spec fn kuaishou_prefixes() -> Seq<Seq<char>> {
    seq!["https://live.kuaishou.com/u/"@, "http://live.kuaishou.com/u/"@, "https://live.kuailv.com/u/"@]
}

/// The stream data of a room from what its page gave: the stream URL, the
/// anchor and whether the room is live. A live room with a URL is recorded
/// from that URL (HLS when it mentions `.m3u8`); otherwise it is offline.
pub open spec fn page_stream(
    platform_name: Seq<char>,
    found: (Seq<char>, Seq<char>, bool),
    room_id: Seq<char>,
) -> StreamView {
    if found.2 && found.0.len() > 0 {
        single_url_stream(
            platform_name,
            found.1,
            found.0,
            seq_contains(found.0, ".m3u8"@),
            Some(room_id),
        )
    } else {
        offline_stream(platform_name, found.1, Some(room_id))
    }
}

/// Builds `page_stream` for a platform.
pub fn make_page_stream(
    platform_name: &str,
    url: &str,
    anchor: &str,
    is_live: bool,
    room_id: &str,
) -> (r: StreamData)
    ensures
        r@ == page_stream(platform_name@, (url@, anchor@, is_live), room_id@),
{
    if is_live && url.unicode_len() > 0 {
        make_single_url_stream(platform_name, anchor, url, contains(url, ".m3u8"), Some(copy_str(room_id)))
    } else {
        make_offline_stream(platform_name, anchor, Some(copy_str(room_id)))
    }
}

/// One stream URL of a Kuaishou room, with its quality label.
#[derive(Debug, Clone)]
pub struct KuaishouPlayUrl {
    pub quality: Option<String>,
    pub url: Option<String>,
}

/// The streamer of a Kuaishou room.
#[derive(Debug, Clone)]
pub struct KuaishouUser {
    pub name: Option<String>,
}

/// The stream object a Kuaishou page embeds.
#[derive(Debug, Clone)]
pub struct KuaishouStreamDetail {
    pub play_url_infos: Option<Vec<KuaishouPlayUrl>>,
    pub hls_play_url: Option<String>,
    pub flv_play_url: Option<String>,
    pub play_url: Option<String>,
    pub user: Option<KuaishouUser>,
}

/// The page data a Kuaishou page embeds (`window.__data__`).
#[derive(Debug, Clone)]
pub struct KuaishouLiveStream {
    pub live_stream: Option<KuaishouStreamDetail>,
}

/// The pattern of the page data (`window.__data__ = {...}` before `</script>`).
pub open spec fn window_data_pattern() -> Seq<char> {
    "window\\.__data__\\s*=\\s*(\\{.+?\\});?</script>"@
}

/// The pattern of a `liveStream: {...}` object (nested at most one level).
pub open spec fn live_stream_pattern() -> Seq<char> {
    "liveStream\\s*:\\s*(\\{[^{}]*(?:\\{[^{}]*\\}[^{}]*)*\\})"@
}

/// The pattern of an `flvPlayUrl` assignment of an `.flv` URL.
pub open spec fn flv_play_pattern() -> Seq<char> {
    "flvPlayUrl[\"']?\\s*[:=]\\s*[\"']([^\"']+\\.flv[^\"']*)"@
}

/// The pattern of an `hlsPlayUrl` assignment of an `.m3u8` URL.
pub open spec fn hls_play_pattern() -> Seq<char> {
    "hlsPlayUrl[\"']?\\s*[:=]\\s*[\"']([^\"']+\\.m3u8[^\"']*)"@
}

/// `a`, or else `b`.
pub open spec fn or_else(a: Option<Seq<char>>, b: Option<Seq<char>>) -> Option<Seq<char>> {
    match a {
        Some(t) => Some(t),
        None => b,
    }
}

/// `o`'s text, or the empty text.
pub open spec fn text_or_empty(o: Option<Seq<char>>) -> Seq<char> {
    match o {
        Some(t) => t,
        None => Seq::empty(),
    }
}

/// `o` when it holds a non-empty text.
pub open spec fn nonempty_text(o: Option<Seq<char>>) -> Option<Seq<char>> {
    match o {
        Some(t) => if t.len() > 0 {
            Some(t)
        } else {
            None
        },
        None => None,
    }
}

/// The first entry of `infos` with the quality label `q`.
pub open spec fn first_with_quality(infos: Seq<KuaishouPlayUrl>, q: Seq<char>) -> Option<int>
    decreases infos.len(),
{
    if infos.len() == 0 {
        None
    } else if opt_view(infos[0].quality) == Some(q) {
        Some(0)
    } else {
        match first_with_quality(infos.subrange(1, infos.len() as int), q) {
            Some(i) => Some(i + 1),
            None => None,
        }
    }
}

/// The entry to record: the first `FULL_HD` one, else the first `HD` one,
/// else the first of all.
pub open spec fn preferred_info(infos: Seq<KuaishouPlayUrl>) -> Option<int> {
    match first_with_quality(infos, "FULL_HD"@) {
        Some(i) => Some(i),
        None => match first_with_quality(infos, "HD"@) {
            Some(i) => Some(i),
            None => if infos.len() > 0 {
                Some(0)
            } else {
                None
            },
        },
    }
}

/// The direct URLs of a stream object: play URL, else FLV, else HLS.
pub open spec fn direct_url(d: KuaishouStreamDetail) -> Option<Seq<char>> {
    or_else(opt_view(d.play_url), or_else(opt_view(d.flv_play_url), opt_view(d.hls_play_url)))
}

/// The URL of the page data's stream: a direct URL, else the non-empty URL
/// of the preferred entry.
pub open spec fn page_data_url(d: KuaishouStreamDetail) -> Option<Seq<char>> {
    or_else(
        direct_url(d),
        match d.play_url_infos {
            Some(v) => match preferred_info(v@) {
                Some(i) => nonempty_text(opt_view(v@[i].url)),
                None => None,
            },
            None => None,
        },
    )
}

/// The URL of a `liveStream` object: a direct URL, else the URL of the
/// first entry.
pub open spec fn stream_object_url(d: KuaishouStreamDetail) -> Option<Seq<char>> {
    or_else(
        direct_url(d),
        match d.play_url_infos {
            Some(v) => if v@.len() > 0 {
                opt_view(v@[0].url)
            } else {
                None
            },
            None => None,
        },
    )
}

/// The streamer's name, or the empty text.
pub open spec fn detail_anchor(d: KuaishouStreamDetail) -> Seq<char> {
    match d.user {
        Some(u) => text_or_empty(opt_view(u.name)),
        None => Seq::empty(),
    }
}

/// What a room page gives: URL, streamer and whether the room is live.
/// `page_data` and `stream_object` are the parses of the texts the first
/// two patterns capture. The page data is used when it has a stream
/// object, then the `liveStream` object, then an `.flv` or `.m3u8`
/// assignment (live, no streamer); nothing when a pattern on the way is
/// rejected or none of them gives anything.
pub open spec fn spec_kuaishou_extract(
    html: Seq<char>,
    page_data: Option<KuaishouLiveStream>,
    stream_object: Option<KuaishouStreamDetail>,
) -> Option<(Seq<char>, Seq<char>, bool)> {
    let from_page = match regex_group1(window_data_pattern(), html) {
        Some(_) => match page_data {
            Some(w) => match w.live_stream {
                Some(d) => Some(
                    (
                        text_or_empty(page_data_url(d)),
                        detail_anchor(d),
                        nonempty_text(page_data_url(d)) is Some,
                    ),
                ),
                None => None,
            },
            None => None,
        },
        None => None,
    };
    let from_object = match regex_group1(live_stream_pattern(), html) {
        Some(_) => match stream_object {
            Some(d) => Some(
                (
                    text_or_empty(stream_object_url(d)),
                    detail_anchor(d),
                    nonempty_text(stream_object_url(d)) is Some,
                ),
            ),
            None => None,
        },
        None => None,
    };
    if !regex_compiles(window_data_pattern()) {
        None
    } else if from_page is Some {
        from_page
    } else if !regex_compiles(live_stream_pattern()) {
        None
    } else if from_object is Some {
        from_object
    } else if !regex_compiles(flv_play_pattern()) {
        None
    } else if regex_group1(flv_play_pattern(), html) is Some {
        Some((regex_group1(flv_play_pattern(), html).unwrap(), Seq::empty(), true))
    } else if !regex_compiles(hls_play_pattern()) {
        None
    } else if regex_group1(hls_play_pattern(), html) is Some {
        Some((regex_group1(hls_play_pattern(), html).unwrap(), Seq::empty(), true))
    } else {
        None
    }
}

/// A triple of texts and a flag by its views.
pub open spec fn triple_view(t: (String, String, bool)) -> (Seq<char>, Seq<char>, bool) {
    (t.0@, t.1@, t.2)
}

fn clone_text(o: &Option<String>) -> (r: Option<String>)
    ensures
        opt_view(r) == opt_view(*o),
{
    match o {
        Some(s) => Some(copy_str(s.as_str())),
        None => None,
    }
}

fn direct_url_exec(d: &KuaishouStreamDetail) -> (r: Option<String>)
    ensures
        opt_view(r) == direct_url(*d),
{
    if d.play_url.is_some() {
        clone_text(&d.play_url)
    } else if d.flv_play_url.is_some() {
        clone_text(&d.flv_play_url)
    } else {
        clone_text(&d.hls_play_url)
    }
}

fn first_with_quality_exec(infos: &Vec<KuaishouPlayUrl>, q: &str) -> (r: Option<usize>)
    ensures
        match r {
            Some(i) => first_with_quality(infos@, q@) == Some(i as int),
            None => first_with_quality(infos@, q@) is None,
        },
        r matches Some(i) ==> i < infos@.len(),
{
    let n = infos.len();
    let mut i: usize = 0;
    assert(infos@.subrange(0, n as int) =~= infos@);
    while i < n
        invariant
            n == infos@.len(),
            i <= n,
            first_with_quality(infos@, q@) == match first_with_quality(
                infos@.subrange(i as int, n as int),
                q@,
            ) {
                Some(j) => Some(j + i),
                None => None,
            },
        decreases n - i,
    {
        let ghost rest = infos@.subrange(i as int, n as int);
        assert(rest.subrange(1, rest.len() as int) =~= infos@.subrange(i + 1, n as int));
        let hit = match &infos[i].quality {
            Some(x) => str_eq(x.as_str(), q),
            None => false,
        };
        if hit {
            return Some(i);
        }
        i += 1;
    }
    None
}

fn anchor_exec(d: &KuaishouStreamDetail) -> (r: String)
    ensures
        r@ == detail_anchor(*d),
{
    match &d.user {
        Some(u) => match &u.name {
            Some(n) => copy_str(n.as_str()),
            None => String::new(),
        },
        None => String::new(),
    }
}

fn text_result(u: Option<String>, anchor: String) -> (r: (String, String, bool))
    ensures
        triple_view(r) == (text_or_empty(opt_view(u)), anchor@, nonempty_text(opt_view(u)) is Some),
{
    match u {
        Some(s) => {
            let live = s.unicode_len() > 0;
            (s, anchor, live)
        },
        None => (String::new(), anchor, false),
    }
}

/// Kuaishou live rooms (`https://live.kuaishou.com/u/<room>`).
pub struct KuaishouHandler {
    proxy: Option<String>,
}

impl KuaishouHandler {
    pub fn new() -> (r: KuaishouHandler)
        ensures
            r.spec_proxy() is None,
    {
        KuaishouHandler { proxy: None }
    }

    /// The room id of a live URL: after the first known prefix that leaves
    /// a non-empty id, up to `/` or `?`.
    pub fn parse_room_id(&self, url: &str) -> (r: Option<String>)
        ensures
            opt_view(r) == room_from_prefixes(url@, kuaishou_prefixes(), seq!['/', '?']),
    {
        let prefixes = [
            "https://live.kuaishou.com/u/",
            "http://live.kuaishou.com/u/",
            "https://live.kuailv.com/u/",
        ];
        let stops = ['/', '?'];
        assert(strs_view(prefixes@) =~= kuaishou_prefixes());
        assert(stops@ =~= seq!['/', '?']);
        room_after_prefixes(url, &prefixes, &stops)
    }

    /// The page of a room.
    pub fn build_page_url(&self, room_id: &str) -> (r: String)
        ensures
            r@ == "https://live.kuaishou.com/u/"@ + room_id@,
    {
        concat2("https://live.kuaishou.com/u/", room_id)
    }

    /// The text of the page data, when the page has one.
    pub fn window_data_text(&self, html: &str) -> (r: Option<String>)
        ensures
            opt_view(r) == (if regex_compiles(window_data_pattern()) {
                regex_group1(window_data_pattern(), html@)
            } else {
                None
            }),
    {
        match first_group("window\\.__data__\\s*=\\s*(\\{.+?\\});?</script>", html) {
            Ok(g) => g,
            Err(_) => None,
        }
    }

    /// The text of the page's `liveStream` object, when it has one.
    pub fn live_stream_text(&self, html: &str) -> (r: Option<String>)
        ensures
            opt_view(r) == (if regex_compiles(live_stream_pattern()) {
                regex_group1(live_stream_pattern(), html@)
            } else {
                None
            }),
    {
        match first_group("liveStream\\s*:\\s*(\\{[^{}]*(?:\\{[^{}]*\\}[^{}]*)*\\})", html) {
            Ok(g) => g,
            Err(_) => None,
        }
    }

    /// What a room page gives: stream URL, streamer and whether the room is
    /// live. `page_data` and `stream_object` are what the texts of
    /// `window_data_text` and `live_stream_text` parse to, when they parse.
    pub fn extract_stream_data(
        &self,
        html: &str,
        page_data: Option<KuaishouLiveStream>,
        stream_object: Option<KuaishouStreamDetail>,
    ) -> (r: Option<(String, String, bool)>)
        ensures
            match r {
                Some(t) => spec_kuaishou_extract(html@, page_data, stream_object) == Some(
                    triple_view(t),
                ),
                None => spec_kuaishou_extract(html@, page_data, stream_object) is None,
            },
    {
        let g1 = match first_group("window\\.__data__\\s*=\\s*(\\{.+?\\});?</script>", html) {
            Ok(g) => g,
            Err(_) => return None,
        };
        if g1.is_some() {
            if let Some(w) = &page_data {
                if let Some(d) = &w.live_stream {
                    let direct = direct_url_exec(d);
                    let url = if direct.is_some() {
                        direct
                    } else {
                        match &d.play_url_infos {
                            Some(v) => {
                                let pick = match first_with_quality_exec(v, "FULL_HD") {
                                    Some(i) => Some(i),
                                    None => match first_with_quality_exec(v, "HD") {
                                        Some(i) => Some(i),
                                        None => if v.len() > 0 {
                                            Some(0)
                                        } else {
                                            None
                                        },
                                    },
                                };
                                match pick {
                                    Some(i) => match &v[i].url {
                                        Some(u) => if u.unicode_len() > 0 {
                                            Some(copy_str(u.as_str()))
                                        } else {
                                            None
                                        },
                                        None => None,
                                    },
                                    None => None,
                                }
                            },
                            None => None,
                        }
                    };
                    return Some(text_result(url, anchor_exec(d)));
                }
            }
        }
        let g2 = match first_group("liveStream\\s*:\\s*(\\{[^{}]*(?:\\{[^{}]*\\}[^{}]*)*\\})", html) {
            Ok(g) => g,
            Err(_) => return None,
        };
        if g2.is_some() {
            if let Some(d) = &stream_object {
                let direct = direct_url_exec(d);
                let url = if direct.is_some() {
                    direct
                } else {
                    match &d.play_url_infos {
                        Some(v) => if v.len() > 0 {
                            clone_text(&v[0].url)
                        } else {
                            None
                        },
                        None => None,
                    }
                };
                return Some(text_result(url, anchor_exec(d)));
            }
        }
        match first_group("flvPlayUrl[\"']?\\s*[:=]\\s*[\"']([^\"']+\\.flv[^\"']*)", html) {
            Err(_) => return None,
            Ok(Some(u)) => return Some((u, String::new(), true)),
            Ok(None) => {},
        }
        match first_group("hlsPlayUrl[\"']?\\s*[:=]\\s*[\"']([^\"']+\\.m3u8[^\"']*)", html) {
            Err(_) => None,
            Ok(Some(u)) => Some((u, String::new(), true)),
            Ok(None) => None,
        }
    }

    /// The stream data of a room from what its page gave.
    pub fn stream_data_from_page(&self, url: &str, anchor: &str, is_live: bool, room_id: &str) -> (r:
        StreamData)
        ensures
            r@ == page_stream("快手"@, (url@, anchor@, is_live), room_id@),
    {
        make_page_stream("快手", url, anchor, is_live, room_id)
    }
}

impl PlatformHandler for KuaishouHandler {
    open spec fn spec_platform_id(&self) -> Seq<char> {
        "kuaishou"@
    }

    open spec fn spec_platform_name(&self) -> Seq<char> {
        "快手"@
    }

    open spec fn spec_matches(&self, url: Seq<char>) -> bool {
        seq_contains(url, "kuaishou.com"@) || seq_contains(url, "kuailv.com"@)
    }

    closed spec fn spec_proxy(&self) -> Option<Seq<char>> {
        opt_view(self.proxy)
    }

    fn platform_id(&self) -> (r: &str) {
        "kuaishou"
    }

    fn platform_name(&self) -> (r: &str) {
        "快手"
    }

    fn matches(&self, url: &str) -> (r: bool) {
        contains(url, "kuaishou.com") || contains(url, "kuailv.com")
    }

    fn proxy(&self) -> (r: Option<&str>) {
        borrow_opt(&self.proxy)
    }

    fn set_proxy(&mut self, proxy: Option<String>) {
        self.proxy = proxy;
    }
}


/// The room id of a room's page URL is the room's id, for every non-empty
/// id without `/` or `?`.
pub proof fn law_room_id_roundtrip(id: Seq<char>)
    requires
        id.len() > 0,
        avoids(id, seq!['/', '?']),
    ensures
        room_from_prefixes("https://live.kuaishou.com/u/"@ + id, kuaishou_prefixes(), seq!['/', '?']) == Some(id),
{
    lemma_room_after_first_prefix(kuaishou_prefixes(), id, seq!['/', '?']);
}

} // verus!
