//! Douyu live rooms.
use vstd::prelude::*;

use super::base::{PlatformHandler, StreamData, StreamView, make_single_url_stream, single_url_stream};
use super::html::{first_group, json_member_text, json_string_member, regex_compiles, regex_group1};
use super::room::{lemma_room_after_first_prefix, room_after_prefixes, room_from_prefixes, strs_view};
use crate::text::{avoids, has_prefix, 
    borrow_opt, concat2, contains, copy_str, decimal, decimal_string, hex_bytes, opt_view,
    push_decimal, push_hex_bytes, seq_contains,
};
use vstd::utf8::encode_utf8;

verus! {

/// What `md5::compute` returns for `data` (its 16 digest bytes).
pub uninterp spec fn md5_digest(data: Seq<u8>) -> Seq<u8>;

/// Calls `md5::compute`; the digest is named `md5_digest` and, as its type
/// `[u8; 16]` shows, has 16 bytes.
#[verifier::external_body]
fn md5_compute(data: &[u8]) -> (r: Vec<u8>)
    ensures
        r@ == md5_digest(data@),
        r@.len() == 16,
{
    md5::compute(data).0.to_vec()
}

/// Calls `SystemTime::now` and reads the whole seconds since the Unix epoch
/// (0 when the clock is before it). The result depends on the clock, so
/// nothing is stated of it.
#[verifier::external_body]
fn unix_time_secs() -> u64 {
    std::time::SystemTime::now().duration_since(std::time::UNIX_EPOCH).unwrap_or_default().as_secs()
}

/// The prefixes a Douyu room id follows, tried in this order.
pub open spec fn douyu_prefixes() -> Seq<Seq<char>> {
    seq![
        "https://m.douyu.com/topic/"@,
        "https://www.douyu.com/topic/"@,
        "https://www.douyu.com/"@,
        "http://www.douyu.com/"@,
        "https://m.douyu.com/"@,
        "http://m.douyu.com/"@,
    ]
}

/// The characters that end a Douyu room id.
pub open spec fn douyu_stops() -> Seq<char> {
    seq!['/', '?', '#']
}

/// The salt of the Douyu request signature.
pub open spec fn douyu_salt() -> Seq<char> {
    "r5*^5}B4_BE"@
}

/// The pattern of the room object a Douyu page assigns (`_$room = {...};`).
pub open spec fn room_object_pattern() -> Seq<char> {
    "_\\$room\\s*=\\s*(\\{.+?\\});"@
}

/// The pattern of a `streamUrl` assignment.
pub open spec fn stream_url_pattern() -> Seq<char> {
    "(?:var\\s+)?streamUrl\\s*[:=]\\s*[\"']([^\"']+)[\"']"@
}

/// The pattern of an `hlsUrl` (or `hls_url`) assignment of an `.m3u8` URL.
pub open spec fn hls_url_pattern() -> Seq<char> {
    "(?:var\\s+)?hls[_]?[Uu]rl\\s*[:=]\\s*[\"']([^\"']+\\.m3u8[^\"']*)[\"']"@
}

/// The pattern of a `live_room` assignment.
pub open spec fn live_room_pattern() -> Seq<char> {
    "(?:var\\s+)?live_room\\s*[:=]\\s*[\"']([^\"']+)[\"']"@
}

/// The stream URL a Douyu page gives: the `room_src` of its room object,
/// else the first `streamUrl`, `hlsUrl` or `live_room` assignment found;
/// nothing when a pattern on the way is rejected.
pub open spec fn spec_douyu_extract(html: Seq<char>) -> Option<Seq<char>> {
    let room_src = match regex_group1(room_object_pattern(), html) {
        Some(j) => json_string_member(j, "room_src"@),
        None => None,
    };
    if !regex_compiles(room_object_pattern()) {
        None
    } else if room_src is Some {
        room_src
    } else if !regex_compiles(stream_url_pattern()) {
        None
    } else if regex_group1(stream_url_pattern(), html) is Some {
        regex_group1(stream_url_pattern(), html)
    } else if !regex_compiles(hls_url_pattern()) {
        None
    } else if regex_group1(hls_url_pattern(), html) is Some {
        regex_group1(hls_url_pattern(), html)
    } else if !regex_compiles(live_room_pattern()) {
        None
    } else {
        regex_group1(live_room_pattern(), html)
    }
}

/// Douyu live rooms (`https://www.douyu.com/<room>`).
pub struct DouyuHandler {
    proxy: Option<String>,
    did: String,
    version: String,
}

impl DouyuHandler {
    /// The device id sent with requests.
    pub closed spec fn spec_did(&self) -> Seq<char> {
        self.did@
    }

    /// The client version sent with requests.
    pub closed spec fn spec_version(&self) -> Seq<char> {
        self.version@
    }

    /// The signature of a request for `room_id` at `timestamp`: the
    /// lower-case hex MD5 of room id, device id, timestamp and salt.
    pub open spec fn spec_sign(&self, room_id: Seq<char>, timestamp: u64) -> Seq<char> {
        hex_bytes(
            md5_digest(
                encode_utf8(room_id + self.spec_did() + decimal(timestamp as nat) + douyu_salt()),
            ),
        )
    }

    pub fn new() -> (r: DouyuHandler)
        ensures
            r.spec_proxy() is None,
            r.spec_did() == "1000000000000000000000000001501"@,
            r.spec_version() == "220120240101"@,
    {
        DouyuHandler {
            proxy: None,
            did: copy_str("1000000000000000000000000001501"),
            version: copy_str("220120240101"),
        }
    }

    /// The room id of a live URL: after the first of the known prefixes
    /// that leaves a non-empty id, up to `/`, `?` or `#`.
    pub fn parse_room_id(&self, url: &str) -> (r: Option<String>)
        ensures
            opt_view(r) == room_from_prefixes(url@, douyu_prefixes(), douyu_stops()),
    {
        let prefixes = [
            "https://m.douyu.com/topic/",
            "https://www.douyu.com/topic/",
            "https://www.douyu.com/",
            "http://www.douyu.com/",
            "https://m.douyu.com/",
            "http://m.douyu.com/",
        ];
        let stops = ['/', '?', '#'];
        assert(strs_view(prefixes@) =~= douyu_prefixes());
        assert(stops@ =~= douyu_stops());
        room_after_prefixes(url, &prefixes, &stops)
    }

    /// The endpoint of the rate-stream API.
    pub fn build_api_url(&self) -> (r: String)
        ensures
            r@ == "https://m.douyu.com/api/room/ratestream"@,
    {
        copy_str("https://m.douyu.com/api/room/ratestream")
    }

    /// The mobile page of a room.
    pub fn build_page_url(&self, room_id: &str) -> (r: String)
        ensures
            r@ == "https://m.douyu.com/"@ + room_id@,
    {
        concat2("https://m.douyu.com/", room_id)
    }

    /// Signs a request for `room_id` made at `timestamp`.
    pub fn compute_sign(&self, room_id: &str, timestamp: u64) -> (r: String)
        ensures
            r@ == self.spec_sign(room_id@, timestamp),
            r@.len() == 32,
    {
        let mut raw = concat2(room_id, self.did.as_str());
        push_decimal(&mut raw, timestamp);
        raw.append("r5*^5}B4_BE");
        let digest = md5_compute(raw.as_str().as_bytes());
        let mut r = String::new();
        push_hex_bytes(&mut r, digest.as_slice());
        proof {
            lemma_hex_bytes_len(digest@);
        }
        r
    }

    /// The current time in whole seconds since the Unix epoch.
    pub fn now_timestamp(&self) -> u64 {
        unix_time_secs()
    }

    /// The form fields of a rate-stream request: room, device, time,
    /// signature and client version.
    pub fn build_form_params(&self, room_id: &str, timestamp: u64) -> (r: Vec<(String, String)>)
        ensures
            r@.len() == 5,
            r@[0].0@ == "rid"@ && r@[0].1@ == room_id@,
            r@[1].0@ == "did"@ && r@[1].1@ == self.spec_did(),
            r@[2].0@ == "tt"@ && r@[2].1@ == decimal(timestamp as nat),
            r@[3].0@ == "sign"@ && r@[3].1@ == self.spec_sign(room_id@, timestamp),
            r@[4].0@ == "v"@ && r@[4].1@ == self.spec_version(),
    {
        let mut r: Vec<(String, String)> = Vec::new();
        r.push((copy_str("rid"), copy_str(room_id)));
        r.push((copy_str("did"), copy_str(self.did.as_str())));
        r.push((copy_str("tt"), decimal_string(timestamp)));
        r.push((copy_str("sign"), self.compute_sign(room_id, timestamp)));
        r.push((copy_str("v"), copy_str(self.version.as_str())));
        r
    }

    /// The stream URL a room page gives.
    pub fn extract_from_html(&self, html: &str) -> (r: Option<String>)
        ensures
            opt_view(r) == spec_douyu_extract(html@),
    {
        match first_group("_\\$room\\s*=\\s*(\\{.+?\\});", html) {
            Err(_) => return None,
            Ok(Some(j)) => {
                if let Some(u) = json_member_text(j.as_str(), "room_src") {
                    return Some(u);
                }
            },
            Ok(None) => {},
        }
        match first_group("(?:var\\s+)?streamUrl\\s*[:=]\\s*[\"']([^\"']+)[\"']", html) {
            Err(_) => return None,
            Ok(Some(u)) => return Some(u),
            Ok(None) => {},
        }
        match first_group(
            "(?:var\\s+)?hls[_]?[Uu]rl\\s*[:=]\\s*[\"']([^\"']+\\.m3u8[^\"']*)[\"']",
            html,
        ) {
            Err(_) => return None,
            Ok(Some(u)) => return Some(u),
            Ok(None) => {},
        }
        match first_group("(?:var\\s+)?live_room\\s*[:=]\\s*[\"']([^\"']+)[\"']", html) {
            Err(_) => None,
            Ok(g) => g,
        }
    }

    /// The stream of room `room_id` as the rate-stream API reply gives it:
    /// only a reply with error code 0 and a non-empty URL gives one; the URL
    /// is filed as HLS when it mentions `.m3u8`.
    pub fn stream_from_reply(&self, error: Option<i32>, url: Option<String>, room_id: &str) -> (r:
        Option<StreamData>)
        ensures
            r is Some <==> (error == Some(0i32) && url is Some && url->0@.len() > 0),
            r matches Some(sd) ==> sd@ == single_url_stream(
                "斗鱼"@,
                seq![],
                url->0@,
                seq_contains(url->0@, ".m3u8"@),
                Some(room_id@),
            ),
    {
        if error != Some(0i32) {
            return None;
        }
        match url {
            Some(u) => if u.as_str().unicode_len() > 0 {
                Some(self.stream_data_from_url(u.as_str(), room_id))
            } else {
                None
            },
            None => None,
        }
    }

    /// The stream of room `room_id` as its mobile page gives it: the URL that
    /// `extract_from_html` finds, when there is one and it is not empty.
    pub fn stream_from_page(&self, html: &str, room_id: &str) -> (r: Option<StreamData>)
        ensures
            match spec_douyu_extract(html@) {
                Some(u) => if u.len() > 0 {
                    r matches Some(sd) && sd@ == single_url_stream(
                        "斗鱼"@,
                        seq![],
                        u,
                        seq_contains(u, ".m3u8"@),
                        Some(room_id@),
                    )
                } else {
                    r is None
                },
                None => r is None,
            },
    {
        match self.extract_from_html(html) {
            Some(u) => if u.as_str().unicode_len() > 0 {
                Some(self.stream_data_from_url(u.as_str(), room_id))
            } else {
                None
            },
            None => None,
        }
    }

    /// The stream data of a room whose stream URL is `url`; the URL is filed
    /// as HLS when it mentions `.m3u8`.
    fn stream_data_from_url(&self, url: &str, room_id: &str) -> (r: StreamData)
        ensures
            r@ == single_url_stream(
                "斗鱼"@,
                seq![],
                url@,
                seq_contains(url@, ".m3u8"@),
                Some(room_id@),
            ),
    {
        proof {
            reveal_strlit("");
            assert(""@ =~= Seq::<char>::empty());
        }
        make_single_url_stream("斗鱼", "", url, contains(url, ".m3u8"), Some(copy_str(room_id)))
    }
}

/// A signature is 32 hexadecimal digits: two per byte of the 16-byte digest.
pub proof fn law_sign_length(h: DouyuHandler, room_id: Seq<char>, timestamp: u64)
    ensures
        md5_digest(
            encode_utf8(room_id + h.spec_did() + decimal(timestamp as nat) + douyu_salt()),
        ).len() == 16 ==> h.spec_sign(room_id, timestamp).len() == 32,
{
    lemma_hex_bytes_len(
        md5_digest(
            encode_utf8(room_id + h.spec_did() + decimal(timestamp as nat) + douyu_salt()),
        ),
    );
}

/// Hex notation has two digits per byte.
pub proof fn lemma_hex_bytes_len(bs: Seq<u8>)
    ensures
        hex_bytes(bs).len() == 2 * bs.len(),
    decreases bs.len(),
{
    if bs.len() > 0 {
        lemma_hex_bytes_len(bs.drop_last());
    }
}

impl PlatformHandler for DouyuHandler {
    open spec fn spec_platform_id(&self) -> Seq<char> {
        "douyu"@
    }

    open spec fn spec_platform_name(&self) -> Seq<char> {
        "斗鱼"@
    }

    open spec fn spec_matches(&self, url: Seq<char>) -> bool {
        seq_contains(url, "douyu.com"@)
    }

    closed spec fn spec_proxy(&self) -> Option<Seq<char>> {
        opt_view(self.proxy)
    }

    fn platform_id(&self) -> (r: &str) {
        "douyu"
    }

    fn platform_name(&self) -> (r: &str) {
        "斗鱼"
    }

    fn matches(&self, url: &str) -> (r: bool) {
        contains(url, "douyu.com")
    }

    fn proxy(&self) -> (r: Option<&str>) {
        borrow_opt(&self.proxy)
    }

    fn set_proxy(&mut self, proxy: Option<String>) {
        self.proxy = proxy;
    }
}


/// The room id of a room's page URL is the room's id, for every non-empty
/// id without `/`, `?` or `#`.
pub proof fn law_room_id_roundtrip(id: Seq<char>)
    requires
        id.len() > 0,
        avoids(id, douyu_stops()),
    ensures
        room_from_prefixes("https://m.douyu.com/"@ + id, douyu_prefixes(), douyu_stops()) == Some(
            id,
        ),
{
    reveal_strlit("https://m.douyu.com/topic/");
    reveal_strlit("https://www.douyu.com/topic/");
    reveal_strlit("https://www.douyu.com/");
    reveal_strlit("http://www.douyu.com/");
    reveal_strlit("https://m.douyu.com/");
    let url = "https://m.douyu.com/"@ + id;
    let ps = douyu_prefixes();
    assert(url[8] == 'm');
    assert(url[4] == 's');
    if has_prefix(url, ps[0]) {
        if id.len() > 5 {
            assert(url[25] == id[5]);
            assert(url.subrange(0, ps[0].len() as int)[25] == ps[0][25]);
            assert(!douyu_stops().contains(id[5]));
            assert(douyu_stops()[0] == '/');
        } else {
            assert(url.len() < ps[0].len());
        }
    }
    if has_prefix(url, ps[1]) {
        assert(url.subrange(0, ps[1].len() as int)[8] == ps[1][8]);
    }
    if has_prefix(url, ps[2]) {
        assert(url.subrange(0, ps[2].len() as int)[8] == ps[2][8]);
    }
    if has_prefix(url, ps[3]) {
        assert(url.subrange(0, ps[3].len() as int)[4] == ps[3][4]);
    }
    let rest = ps.subrange(4, 6);
    assert(rest[0] == "https://m.douyu.com/"@);
    lemma_room_after_first_prefix(rest, id, douyu_stops());
    assert(ps.subrange(1, 6).subrange(1, 5) =~= ps.subrange(2, 6));
    assert(ps.subrange(2, 6).subrange(1, 4) =~= ps.subrange(3, 6));
    assert(ps.subrange(3, 6).subrange(1, 3) =~= rest);
    reveal_with_fuel(room_from_prefixes, 5);
}

} // verus!
