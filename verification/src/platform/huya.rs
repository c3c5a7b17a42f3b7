//! Huya live rooms.
use vstd::prelude::*;

use super::base::{PlatformHandler, StreamData, StreamView, make_offline_stream, offline_stream};
use super::html::{extract_string_field, first_group, regex_compiles, regex_group1, spec_string_field};
use super::room::{lemma_room_after_first_prefix, room_after_prefixes, room_from_prefixes, strs_view};
use crate::text::{avoids, 
    borrow_opt, concat2, contains, copy_opt, copy_str, opt_view, push_char, seq_contains,
    trim_end_char, trim_end_matches,
};

verus! {

/// What a Huya room page tells about its stream.
#[derive(Debug, Clone)]
pub struct HuyaStreamInfo {
    pub s_flv_url: String,
    pub s_stream_name: String,
    pub s_flv_url_suffix: String,
    pub s_hls_url: Option<String>,
    pub s_room_name: Option<String>,
    pub s_nick: Option<String>,
    pub live_line_url: Option<String>,
}

/// The prefixes a Huya room id follows, tried in this order.
pub open spec fn huya_prefixes() -> Seq<Seq<char>> {
    seq![
        "https://m.huya.com/"@,
        "http://m.huya.com/"@,
        "https://www.huya.com/"@,
        "http://www.huya.com/"@,
        "https://huya.com/"@,
        "http://huya.com/"@,
    ]
}

/// The FLV URL of a stream: `<flv base>/<stream name>.<suffix>`, the base
/// without trailing `/`; none without a stream name.
pub open spec fn huya_flv_url(info: HuyaStreamInfo) -> Option<Seq<char>> {
    if info.s_stream_name@.len() == 0 {
        None
    } else {
        Some(
            trim_end_char(info.s_flv_url@, '/') + seq!['/'] + info.s_stream_name@ + seq!['.']
                + info.s_flv_url_suffix@,
        )
    }
}

/// The HLS URL of a stream: the live-line URL when the page gives one;
/// otherwise `<hls or flv base>/<stream name>.m3u8`, none when there is
/// neither a stream name nor an HLS base.
pub open spec fn huya_m3u8_url(info: HuyaStreamInfo) -> Option<Seq<char>> {
    match info.live_line_url {
        Some(u) => Some(u@),
        None => if info.s_stream_name@.len() == 0 && info.s_hls_url is None {
            None
        } else {
            let base = match info.s_hls_url {
                Some(h) => h@,
                None => info.s_flv_url@,
            };
            Some(trim_end_char(base, '/') + seq!['/'] + info.s_stream_name@ + ".m3u8"@)
        },
    }
}

/// The stream data of a Huya room page: live when a URL can be built and
/// the stream has a name; the anchor is the nick, else the room name.
pub open spec fn huya_stream(info: HuyaStreamInfo, room_id: Seq<char>) -> StreamView {
    let flv = huya_flv_url(info);
    let m3u8 = huya_m3u8_url(info);
    let anchor = match info.s_nick {
        Some(n) => n@,
        None => match info.s_room_name {
            Some(n) => n@,
            None => seq![],
        },
    };
    let best = match flv {
        Some(u) => u,
        None => match m3u8 {
            Some(u) => u,
            None => seq![],
        },
    };
    if best.len() > 0 && info.s_stream_name@.len() > 0 {
        StreamView {
            platform_name: "虎牙"@,
            anchor_name: anchor,
            title: seq![],
            is_live: true,
            record_url: best,
            flv_url: flv,
            m3u8_url: m3u8,
            room_id: Some(room_id),
        }
    } else {
        offline_stream("虎牙"@, anchor, Some(room_id))
    }
}

/// The pattern of the live-line URL in a Huya page.
pub open spec fn live_line_pattern() -> Seq<char> {
    "liveLineUrl\\s*[:=]\\s*[\"']([^\"']+)[\"']"@
}

/// `o`'s text, or `d`.
pub open spec fn text_or(o: Option<Seq<char>>, d: Seq<char>) -> Seq<char> {
    match o {
        Some(t) => t,
        None => d,
    }
}

/// `a`, or else `b`.
pub open spec fn or_else(a: Option<Seq<char>>, b: Option<Seq<char>>) -> Option<Seq<char>> {
    match a {
        Some(t) => Some(t),
        None => b,
    }
}

/// What a Huya page tells by its views: FLV base, stream name, FLV suffix,
/// HLS base, room name, nick and live-line URL.
pub type HuyaInfoView = (
    Seq<char>,
    Seq<char>,
    Seq<char>,
    Option<Seq<char>>,
    Option<Seq<char>>,
    Option<Seq<char>>,
    Option<Seq<char>>,
);

pub open spec fn huya_info_view(i: HuyaStreamInfo) -> HuyaInfoView {
    (
        i.s_flv_url@,
        i.s_stream_name@,
        i.s_flv_url_suffix@,
        opt_view(i.s_hls_url),
        opt_view(i.s_room_name),
        opt_view(i.s_nick),
        opt_view(i.live_line_url),
    )
}

/// What a Huya page tells about its stream: the stream name (or else the
/// room name), the FLV base (default `https://ms.flv.huya.com/src`) and
/// suffix (default `flv`), the HLS base, room name, nick and live-line URL
/// as the page assigns them; nothing when the page has neither a stream
/// name nor a live-line URL.
pub open spec fn spec_huya_extract(html: Seq<char>) -> Option<HuyaInfoView> {
    if !regex_compiles(live_line_pattern()) {
        None
    } else {
        let live_line = regex_group1(live_line_pattern(), html);
        let name = text_or(
            or_else(spec_string_field(html, "sStreamName"@), spec_string_field(html, "sRoomName"@)),
            Seq::empty(),
        );
        if name.len() == 0 && live_line is None {
            None
        } else {
            Some(
                (
                    text_or(spec_string_field(html, "sFlvUrl"@), "https://ms.flv.huya.com/src"@),
                    name,
                    text_or(spec_string_field(html, "sFlvUrlSuffix"@), "flv"@),
                    spec_string_field(html, "sHlsUrl"@),
                    spec_string_field(html, "sRoomName"@),
                    spec_string_field(html, "sNick"@),
                    live_line,
                ),
            )
        }
    }
}

/// Huya live rooms (`https://www.huya.com/<room>`).
pub struct HuyaHandler {
    proxy: Option<String>,
}

impl HuyaHandler {
    pub fn new() -> (r: HuyaHandler)
        ensures
            r.spec_proxy() is None,
    {
        HuyaHandler { proxy: None }
    }

    /// The room id of a live URL: after the first known prefix that leaves
    /// a non-empty id, up to `/` or `?`.
    pub fn parse_room_id(&self, url: &str) -> (r: Option<String>)
        ensures
            opt_view(r) == room_from_prefixes(url@, huya_prefixes(), seq!['/', '?']),
    {
        let prefixes = [
            "https://m.huya.com/",
            "http://m.huya.com/",
            "https://www.huya.com/",
            "http://www.huya.com/",
            "https://huya.com/",
            "http://huya.com/",
        ];
        let stops = ['/', '?'];
        assert(strs_view(prefixes@) =~= huya_prefixes());
        assert(stops@ =~= seq!['/', '?']);
        room_after_prefixes(url, &prefixes, &stops)
    }

    /// The text a script of the page assigns to `field`.
    pub fn extract_string_field(&self, html: &str, field: &str) -> (r: Option<String>)
        ensures
            opt_view(r) == spec_string_field(html@, field@),
    {
        extract_string_field(html, field)
    }

    /// What a room page tells about its stream.
    pub fn extract_stream_info(&self, html: &str) -> (r: Option<HuyaStreamInfo>)
        ensures
            match r {
                Some(i) => spec_huya_extract(html@) == Some(huya_info_view(i)),
                None => spec_huya_extract(html@) is None,
            },
    {
        let live_line_url = match first_group("liveLineUrl\\s*[:=]\\s*[\"']([^\"']+)[\"']", html) {
            Ok(g) => g,
            Err(_) => return None,
        };
        let s_stream_name = match extract_string_field(html, "sStreamName") {
            Some(n) => n,
            None => match extract_string_field(html, "sRoomName") {
                Some(n) => n,
                None => String::new(),
            },
        };
        if s_stream_name.unicode_len() == 0 && live_line_url.is_none() {
            return None;
        }
        let s_flv_url = match extract_string_field(html, "sFlvUrl") {
            Some(u) => u,
            None => copy_str("https://ms.flv.huya.com/src"),
        };
        let s_flv_url_suffix = match extract_string_field(html, "sFlvUrlSuffix") {
            Some(u) => u,
            None => copy_str("flv"),
        };
        let s_hls_url = extract_string_field(html, "sHlsUrl");
        let s_room_name = extract_string_field(html, "sRoomName");
        let s_nick = extract_string_field(html, "sNick");
        Some(
            HuyaStreamInfo {
                s_flv_url,
                s_stream_name,
                s_flv_url_suffix,
                s_hls_url,
                s_room_name,
                s_nick,
                live_line_url,
            },
        )
    }

    /// The mobile page of a room.
    pub fn build_page_url(&self, room_id: &str) -> (r: String)
        ensures
            r@ == "https://m.huya.com/"@ + room_id@,
    {
        concat2("https://m.huya.com/", room_id)
    }

    pub fn build_flv_url(&self, info: &HuyaStreamInfo) -> (r: Option<String>)
        ensures
            opt_view(r) == huya_flv_url(*info),
    {
        if info.s_stream_name.unicode_len() == 0 {
            return None;
        }
        let mut r = copy_str(trim_end_matches(info.s_flv_url.as_str(), '/'));
        push_char(&mut r, '/');
        r.append(info.s_stream_name.as_str());
        push_char(&mut r, '.');
        r.append(info.s_flv_url_suffix.as_str());
        Some(r)
    }

    pub fn build_m3u8_url(&self, info: &HuyaStreamInfo) -> (r: Option<String>)
        ensures
            opt_view(r) == huya_m3u8_url(*info),
    {
        if let Some(url) = &info.live_line_url {
            return Some(copy_str(url.as_str()));
        }
        if info.s_stream_name.unicode_len() == 0 && info.s_hls_url.is_none() {
            return None;
        }
        let base = match &info.s_hls_url {
            Some(h) => h.as_str(),
            None => info.s_flv_url.as_str(),
        };
        let mut r = copy_str(trim_end_matches(base, '/'));
        push_char(&mut r, '/');
        r.append(info.s_stream_name.as_str());
        r.append(".m3u8");
        Some(r)
    }

    /// The stream data of a room from what its page tells.
    pub fn stream_data_from_info(&self, info: &HuyaStreamInfo, room_id: &str) -> (r: StreamData)
        ensures
            r@ == huya_stream(*info, room_id@),
    {
        let flv = self.build_flv_url(info);
        let m3u8 = self.build_m3u8_url(info);
        let anchor = match &info.s_nick {
            Some(n) => copy_str(n.as_str()),
            None => match &info.s_room_name {
                Some(n) => copy_str(n.as_str()),
                None => String::new(),
            },
        };
        let best = match &flv {
            Some(u) => copy_str(u.as_str()),
            None => match &m3u8 {
                Some(u) => copy_str(u.as_str()),
                None => String::new(),
            },
        };
        if best.unicode_len() > 0 && info.s_stream_name.unicode_len() > 0 {
            StreamData {
                platform_name: copy_str("虎牙"),
                anchor_name: anchor,
                title: String::new(),
                is_live: true,
                record_url: best,
                flv_url: flv,
                m3u8_url: m3u8,
                room_id: Some(copy_str(room_id)),
            }
        } else {
            make_offline_stream("虎牙", anchor.as_str(), Some(copy_str(room_id)))
        }
    }
}

impl PlatformHandler for HuyaHandler {
    open spec fn spec_platform_id(&self) -> Seq<char> {
        "huya"@
    }

    open spec fn spec_platform_name(&self) -> Seq<char> {
        "虎牙"@
    }

    open spec fn spec_matches(&self, url: Seq<char>) -> bool {
        seq_contains(url, "huya.com"@)
    }

    closed spec fn spec_proxy(&self) -> Option<Seq<char>> {
        opt_view(self.proxy)
    }

    fn platform_id(&self) -> (r: &str) {
        "huya"
    }

    fn platform_name(&self) -> (r: &str) {
        "虎牙"
    }

    fn matches(&self, url: &str) -> (r: bool) {
        contains(url, "huya.com")
    }

    fn proxy(&self) -> (r: Option<&str>) {
        borrow_opt(&self.proxy)
    }

    fn set_proxy(&mut self, proxy: Option<String>) {
        self.proxy = proxy;
    }
}


/// The room id of a room's page URL is the room's id, for every non-empty
/// id without `/` or `?`.
pub proof fn law_room_id_roundtrip(id: Seq<char>)
    requires
        id.len() > 0,
        avoids(id, seq!['/', '?']),
    ensures
        room_from_prefixes("https://m.huya.com/"@ + id, huya_prefixes(), seq!['/', '?']) == Some(id),
{
    lemma_room_after_first_prefix(huya_prefixes(), id, seq!['/', '?']);
}

} // verus!
