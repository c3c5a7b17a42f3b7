//! YY live rooms.
use vstd::prelude::*;

use super::base::{PlatformHandler, StreamData, StreamView};
use super::html::{extract_string_field, first_group, regex_compiles, regex_group1, spec_string_field};
use super::kuaishou::{make_page_stream, nonempty_text, or_else, page_stream, text_or_empty, triple_view};
use super::room::{lemma_room_after_first_prefix, room_after_prefixes, room_from_prefixes, strs_view};
use crate::text::{avoids, borrow_opt, concat2, contains, copy_str, opt_view, seq_contains};

verus! {

/// The prefixes a YY room id follows, tried in this order.
pub open spec fn yy_prefixes() -> Seq<Seq<char>> {
    seq!["https://www.yy.com/"@, "http://www.yy.com/"@, "https://yy.com/"@, "http://yy.com/"@]
}

/// The room data a YY page embeds.
#[derive(Debug, Clone)]
pub struct YyLiveData {
    pub live_url: Option<String>,
    pub hls_url: Option<String>,
    pub stream_url: Option<String>,
    pub status: Option<i32>,
    pub room_name: Option<String>,
    pub anchor_name: Option<String>,
}

/// The pattern of the room data (`window.roomInfo = {...}` and the like,
/// before `</script>`).
pub open spec fn room_data_pattern() -> Seq<char> {
    "window\\.(?:roomInfo|roomData|__INITIAL_STATE__)\\s*=\\s*(\\{.+?\\});?</script>"@
}

/// The pattern of a bare `.m3u8` URL.
pub open spec fn bare_m3u8_pattern() -> Seq<char> {
    "(https?://[^\"'\\s]+\\.m3u8[^\\s\"'<>]*)"@
}

/// The pattern of a bare `.flv` URL.
pub open spec fn bare_flv_pattern() -> Seq<char> {
    "(https?://[^\"'\\s]+\\.flv[^\\s\"'<>]*)"@
}

/// The URL in the room data: live URL, else HLS URL, else stream URL,
/// when it is not empty.
pub open spec fn room_data_url(d: YyLiveData) -> Option<Seq<char>> {
    nonempty_text(
        or_else(opt_view(d.live_url), or_else(opt_view(d.hls_url), opt_view(d.stream_url))),
    )
}

/// The URL the page's scripts assign: `liveUrl`, else `hlsUrl`, else
/// `streamUrl`, when it is not empty.
pub open spec fn script_url(html: Seq<char>) -> Option<Seq<char>> {
    nonempty_text(
        or_else(
            spec_string_field(html, "liveUrl"@),
            or_else(spec_string_field(html, "hlsUrl"@), spec_string_field(html, "streamUrl"@)),
        ),
    )
}

/// What a YY room page gives: URL, streamer and whether the room is live.
/// `room_data` is the parse of the text the room-data pattern captures.
/// The room data is used when it has a URL (live when its status is 1 or
/// it has a URL), then the scripts' assignments (live), then a bare `.m3u8`
/// or `.flv` URL (live, no streamer); nothing when a pattern on the way is
/// rejected or none of them gives anything.
pub open spec fn spec_yy_extract(html: Seq<char>, room_data: Option<YyLiveData>) -> Option<
    (Seq<char>, Seq<char>, bool),
> {
    let from_data = match regex_group1(room_data_pattern(), html) {
        Some(_) => match room_data {
            Some(d) => match room_data_url(d) {
                Some(u) => Some(
                    (
                        u,
                        text_or_empty(or_else(opt_view(d.anchor_name), opt_view(d.room_name))),
                        true,
                    ),
                ),
                None => None,
            },
            None => None,
        },
        None => None,
    };
    if !regex_compiles(room_data_pattern()) {
        None
    } else if from_data is Some {
        from_data
    } else if script_url(html) is Some {
        Some(
            (
                script_url(html).unwrap(),
                text_or_empty(
                    or_else(spec_string_field(html, "anchorName"@), spec_string_field(html, "roomName"@)),
                ),
                true,
            ),
        )
    } else if !regex_compiles(bare_m3u8_pattern()) {
        None
    } else if regex_group1(bare_m3u8_pattern(), html) is Some {
        Some((regex_group1(bare_m3u8_pattern(), html).unwrap(), Seq::empty(), true))
    } else if !regex_compiles(bare_flv_pattern()) {
        None
    } else if regex_group1(bare_flv_pattern(), html) is Some {
        Some((regex_group1(bare_flv_pattern(), html).unwrap(), Seq::empty(), true))
    } else {
        None
    }
}

fn first_text(a: Option<String>, b: Option<String>) -> (r: Option<String>)
    ensures
        opt_view(r) == or_else(opt_view(a), opt_view(b)),
{
    match a {
        Some(t) => Some(t),
        None => b,
    }
}

fn keep_nonempty(o: Option<String>) -> (r: Option<String>)
    ensures
        opt_view(r) == nonempty_text(opt_view(o)),
{
    match o {
        Some(t) => if t.unicode_len() > 0 {
            Some(t)
        } else {
            None
        },
        None => None,
    }
}

fn copy_text(o: &Option<String>) -> (r: Option<String>)
    ensures
        opt_view(r) == opt_view(*o),
{
    match o {
        Some(s) => Some(copy_str(s.as_str())),
        None => None,
    }
}

/// YY live rooms (`https://www.yy.com/<room>`).
pub struct YYHandler {
    proxy: Option<String>,
}

impl YYHandler {
    pub fn new() -> (r: YYHandler)
        ensures
            r.spec_proxy() is None,
    {
        YYHandler { proxy: None }
    }

    /// The room id of a live URL: after the first known prefix that leaves
    /// a non-empty id, up to `/` or `?`.
    pub fn parse_room_id(&self, url: &str) -> (r: Option<String>)
        ensures
            opt_view(r) == room_from_prefixes(url@, yy_prefixes(), seq!['/', '?']),
    {
        let prefixes = ["https://www.yy.com/", "http://www.yy.com/", "https://yy.com/", "http://yy.com/"];
        let stops = ['/', '?'];
        assert(strs_view(prefixes@) =~= yy_prefixes());
        assert(stops@ =~= seq!['/', '?']);
        room_after_prefixes(url, &prefixes, &stops)
    }

    /// The text a script of the page assigns to `field`.
    pub fn extract_string_field(&self, html: &str, field: &str) -> (r: Option<String>)
        ensures
            opt_view(r) == spec_string_field(html@, field@),
    {
        extract_string_field(html, field)
    }

    /// The text of the room data, when the page has one.
    pub fn room_data_text(&self, html: &str) -> (r: Option<String>)
        ensures
            opt_view(r) == (if regex_compiles(room_data_pattern()) {
                regex_group1(room_data_pattern(), html@)
            } else {
                None
            }),
    {
        match first_group(
            "window\\.(?:roomInfo|roomData|__INITIAL_STATE__)\\s*=\\s*(\\{.+?\\});?</script>",
            html,
        ) {
            Ok(g) => g,
            Err(_) => None,
        }
    }

    /// What a room page gives: stream URL, streamer and whether the room is
    /// live. `room_data` is what the text of `room_data_text` parses to,
    /// when it parses.
    pub fn extract_stream_data(&self, html: &str, room_data: Option<YyLiveData>) -> (r: Option<
        (String, String, bool),
    >)
        ensures
            match r {
                Some(t) => spec_yy_extract(html@, room_data) == Some(triple_view(t)),
                None => spec_yy_extract(html@, room_data) is None,
            },
    {
        let g = match first_group(
            "window\\.(?:roomInfo|roomData|__INITIAL_STATE__)\\s*=\\s*(\\{.+?\\});?</script>",
            html,
        ) {
            Ok(g) => g,
            Err(_) => return None,
        };
        if g.is_some() {
            if let Some(d) = &room_data {
                let url = keep_nonempty(
                    first_text(
                        copy_text(&d.live_url),
                        first_text(copy_text(&d.hls_url), copy_text(&d.stream_url)),
                    ),
                );
                if let Some(u) = url {
                    let anchor = match first_text(copy_text(&d.anchor_name), copy_text(&d.room_name)) {
                        Some(a) => a,
                        None => String::new(),
                    };
                    return Some((u, anchor, true));
                }
            }
        }
        let url = keep_nonempty(
            first_text(
                extract_string_field(html, "liveUrl"),
                first_text(
                    extract_string_field(html, "hlsUrl"),
                    extract_string_field(html, "streamUrl"),
                ),
            ),
        );
        if let Some(u) = url {
            let anchor = match first_text(
                extract_string_field(html, "anchorName"),
                extract_string_field(html, "roomName"),
            ) {
                Some(a) => a,
                None => String::new(),
            };
            return Some((u, anchor, true));
        }
        match first_group("(https?://[^\"'\\s]+\\.m3u8[^\\s\"'<>]*)", html) {
            Err(_) => return None,
            Ok(Some(u)) => return Some((u, String::new(), true)),
            Ok(None) => {},
        }
        match first_group("(https?://[^\"'\\s]+\\.flv[^\\s\"'<>]*)", html) {
            Err(_) => None,
            Ok(Some(u)) => Some((u, String::new(), true)),
            Ok(None) => None,
        }
    }

    /// The page of a room.
    pub fn build_page_url(&self, room_id: &str) -> (r: String)
        ensures
            r@ == "https://www.yy.com/"@ + room_id@,
    {
        concat2("https://www.yy.com/", room_id)
    }

    /// The stream data of a room from what its page gave.
    pub fn stream_data_from_page(&self, url: &str, anchor: &str, is_live: bool, room_id: &str) -> (r:
        StreamData)
        ensures
            r@ == page_stream("YY直播"@, (url@, anchor@, is_live), room_id@),
    {
        make_page_stream("YY直播", url, anchor, is_live, room_id)
    }
}

impl PlatformHandler for YYHandler {
    open spec fn spec_platform_id(&self) -> Seq<char> {
        "yy"@
    }

    open spec fn spec_platform_name(&self) -> Seq<char> {
        "YY直播"@
    }

    /// YY URLs, but not YouTube ones.
    open spec fn spec_matches(&self, url: Seq<char>) -> bool {
        seq_contains(url, "yy.com"@) && !seq_contains(url, "youtube"@)
    }

    closed spec fn spec_proxy(&self) -> Option<Seq<char>> {
        opt_view(self.proxy)
    }

    fn platform_id(&self) -> (r: &str) {
        "yy"
    }

    fn platform_name(&self) -> (r: &str) {
        "YY直播"
    }

    fn matches(&self, url: &str) -> (r: bool) {
        contains(url, "yy.com") && !contains(url, "youtube")
    }

    fn proxy(&self) -> (r: Option<&str>) {
        borrow_opt(&self.proxy)
    }

    fn set_proxy(&mut self, proxy: Option<String>) {
        self.proxy = proxy;
    }
}


/// The room id of a room's page URL is the room's id, for every non-empty
/// id without `/` or `?`.
pub proof fn law_room_id_roundtrip(id: Seq<char>)
    requires
        id.len() > 0,
        avoids(id, seq!['/', '?']),
    ensures
        room_from_prefixes("https://www.yy.com/"@ + id, yy_prefixes(), seq!['/', '?']) == Some(id),
{
    lemma_room_after_first_prefix(yy_prefixes(), id, seq!['/', '?']);
}

} // verus!
