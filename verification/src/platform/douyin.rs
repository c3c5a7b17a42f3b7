//! Douyin live rooms.
use vstd::prelude::*;

use super::base::{PlatformHandler, StreamData, StreamView, make_offline_stream, offline_stream};
use crate::text::{
    borrow_opt, concat2, contains, contains_char, copy_opt, copy_str, has_prefix, opt_str_view,
    opt_view, seq_contains, strip_prefix,
};

verus! {

/// Douyin live rooms (`https://live.douyin.com/<room>`).
pub struct DouyinHandler {
    proxy: Option<String>,
}

/// A room part of a Douyin URL: non-empty, without `/` or `?`.
pub open spec fn douyin_room_ok(r: Seq<char>) -> bool {
    r.len() > 0 && !r.contains('/') && !r.contains('?')
}

/// The room id of a Douyin URL: what follows `https://live.douyin.com/` or
/// `http://live.douyin.com/` when that is a valid room part.
pub open spec fn douyin_room_id(url: Seq<char>) -> Option<Seq<char>> {
    let p1 = "https://live.douyin.com/"@;
    let p2 = "http://live.douyin.com/"@;
    let r1 = url.subrange(p1.len() as int, url.len() as int);
    let r2 = url.subrange(p2.len() as int, url.len() as int);
    if has_prefix(url, p1) && douyin_room_ok(r1) {
        Some(r1)
    } else if has_prefix(url, p2) && douyin_room_ok(r2) {
        Some(r2)
    } else {
        None
    }
}

/// The room query of the Douyin web API.
pub open spec fn douyin_api_url(room_id: Seq<char>) -> Seq<char> {
    "https://live.douyin.com/webcast/room/web/enter/?aid=6383&live_id=1&device_platform=web&language=zh-CN&enter_from=web_live&room_id_str="@
        + room_id + "&web_rid="@ + room_id
}

/// The FLV pull URLs of a Douyin room, best first.
#[derive(Debug, Clone)]
pub struct DouyinFlvUrl {
    pub full_hd1: Option<String>,
    pub hd1: Option<String>,
    pub sd1: Option<String>,
    pub sd2: Option<String>,
}

/// The room data of the Douyin API.
#[derive(Debug, Clone)]
pub struct DouyinStreamData {
    pub status: Option<i32>,
    pub flv_pull_url: Option<DouyinFlvUrl>,
}

/// A present, non-empty URL.
pub open spec fn usable(u: Option<String>) -> Option<Seq<char>> {
    match u {
        Some(s) => if s@.len() > 0 {
            Some(s@)
        } else {
            None
        },
        None => None,
    }
}

/// The FLV URL recorded: full HD, then HD, then SD1, the first usable one.
pub open spec fn douyin_best_flv(data: DouyinStreamData) -> Option<Seq<char>> {
    match data.flv_pull_url {
        None => None,
        Some(f) => match usable(f.full_hd1) {
            Some(u) => Some(u),
            None => match usable(f.hd1) {
                Some(u) => Some(u),
                None => usable(f.sd1),
            },
        },
    }
}

/// The stream data the Douyin handler reports for an API answer: nothing
/// without room data; a room that is not live unless its status is 2;
/// otherwise the best FLV URL (possibly none).
pub open spec fn douyin_stream(data: Option<DouyinStreamData>, room_id: Seq<char>) -> Option<
    StreamView,
> {
    match data {
        None => None,
        Some(d) => if d.status != Some(2i32) {
            Some(offline_stream("抖音"@, seq![], Some(room_id)))
        } else {
            let flv = douyin_best_flv(d);
            Some(
                StreamView {
                    platform_name: "抖音"@,
                    anchor_name: seq![],
                    title: seq![],
                    is_live: true,
                    record_url: match flv {
                        Some(u) => u,
                        None => seq![],
                    },
                    flv_url: flv,
                    m3u8_url: None,
                    room_id: Some(room_id),
                },
            )
        },
    }
}

impl DouyinHandler {
    pub fn new() -> (r: DouyinHandler)
        ensures
            r.spec_proxy() is None,
    {
        DouyinHandler { proxy: None }
    }

    /// The room id of a live URL; short links (`v.douyin.com`) give none.
    pub fn parse_room_id(&self, url: &str) -> (r: Option<String>)
        ensures
            opt_view(r) == douyin_room_id(url@),
    {
        if let Some(r) = strip_prefix(url, "https://live.douyin.com/") {
            if r.unicode_len() > 0 && !contains_char(r, '/') && !contains_char(r, '?') {
                return Some(copy_str(r));
            }
        }
        if let Some(r) = strip_prefix(url, "http://live.douyin.com/") {
            if r.unicode_len() > 0 && !contains_char(r, '/') && !contains_char(r, '?') {
                return Some(copy_str(r));
            }
        }
        None
    }

    /// The API URL that describes a room.
    pub fn build_api_url(&self, room_id: &str) -> (r: String)
        ensures
            r@ == douyin_api_url(room_id@),
    {
        let mut r = concat2(
            "https://live.douyin.com/webcast/room/web/enter/?aid=6383&live_id=1&device_platform=web&language=zh-CN&enter_from=web_live&room_id_str=",
            room_id,
        );
        r.append("&web_rid=");
        r.append(room_id);
        r
    }

    /// The URL when it is present and not empty.
    pub fn pick_best_flv(&self, url: Option<&String>) -> (r: Option<String>)
        ensures
            opt_view(r) == match url {
                Some(s) => if s@.len() > 0 {
                    Some(s@)
                } else {
                    None
                },
                None => None,
            },
    {
        match url {
            Some(s) => if s.unicode_len() > 0 {
                Some(copy_str(s.as_str()))
            } else {
                None
            },
            None => None,
        }
    }

    /// The stream data for an API answer about `room_id`.
    pub fn stream_data_from_response(&self, data: Option<DouyinStreamData>, room_id: &str) -> (r:
        Option<StreamData>)
        ensures
            match douyin_stream(data, room_id@) {
                None => r is None,
                Some(v) => r matches Some(sd) && sd@ == v,
            },
    {
        proof {
            reveal_strlit("");
            assert(""@ =~= Seq::<char>::empty());
        }
        let d = match data {
            None => return None,
            Some(d) => d,
        };
        if d.status != Some(2i32) {
            return Some(make_offline_stream("抖音", "", Some(copy_str(room_id))));
        }
        let flv = match &d.flv_pull_url {
            None => None,
            Some(f) => match self.pick_best_flv(f.full_hd1.as_ref()) {
                Some(u) => Some(u),
                None => match self.pick_best_flv(f.hd1.as_ref()) {
                    Some(u) => Some(u),
                    None => self.pick_best_flv(f.sd1.as_ref()),
                },
            },
        };
        let record_url = match &flv {
            Some(u) => copy_str(u.as_str()),
            None => String::new(),
        };
        proof {
            reveal_strlit("");
        }
        Some(
            StreamData {
                platform_name: copy_str("抖音"),
                anchor_name: String::new(),
                title: String::new(),
                is_live: true,
                record_url,
                flv_url: flv,
                m3u8_url: None,
                room_id: Some(copy_str(room_id)),
            },
        )
    }
}

impl PlatformHandler for DouyinHandler {
    open spec fn spec_platform_id(&self) -> Seq<char> {
        "douyin"@
    }

    open spec fn spec_platform_name(&self) -> Seq<char> {
        "抖音"@
    }

    open spec fn spec_matches(&self, url: Seq<char>) -> bool {
        seq_contains(url, "douyin.com"@)
    }

    closed spec fn spec_proxy(&self) -> Option<Seq<char>> {
        opt_view(self.proxy)
    }

    fn platform_id(&self) -> (r: &str) {
        "douyin"
    }

    fn platform_name(&self) -> (r: &str) {
        "抖音"
    }

    fn matches(&self, url: &str) -> (r: bool) {
        contains(url, "douyin.com")
    }

    fn proxy(&self) -> (r: Option<&str>) {
        borrow_opt(&self.proxy)
    }

    fn set_proxy(&mut self, proxy: Option<String>) {
        self.proxy = proxy;
    }
}

/// A room whose status is 2 is reported live, under its room id, recorded
/// from the first non-empty of its full-HD, HD and SD1 FLV URLs; a room with
/// any other status is reported offline, with no URL.
pub proof fn law_douyin_live_when_status_two(d: DouyinStreamData, room_id: Seq<char>)
    ensures
        douyin_stream(Some(d), room_id) is Some,
        douyin_stream(Some(d), room_id)->0.platform_name == "抖音"@,
        douyin_stream(Some(d), room_id)->0.room_id == Some(room_id),
        douyin_stream(Some(d), room_id)->0.is_live <==> d.status == Some(2i32),
        d.status != Some(2i32) ==> douyin_stream(Some(d), room_id)->0.record_url.len() == 0
            && douyin_stream(Some(d), room_id)->0.flv_url is None,
        (d.status == Some(2i32) && (d.flv_pull_url matches Some(f) && (f.full_hd1 matches Some(u)
            && u@.len() > 0))) ==> douyin_stream(Some(d), room_id)->0.record_url
            == d.flv_pull_url->0.full_hd1->0@ && douyin_stream(Some(d), room_id)->0.flv_url == Some(
            d.flv_pull_url->0.full_hd1->0@,
        ),
        (d.status == Some(2i32) && (d.flv_pull_url matches Some(f) && !(f.full_hd1 matches Some(u)
            && u@.len() > 0) && (f.hd1 matches Some(u) && u@.len() > 0))) ==> douyin_stream(
            Some(d),
            room_id,
        )->0.record_url == d.flv_pull_url->0.hd1->0@,
        (d.status == Some(2i32) && (d.flv_pull_url matches Some(f) && !(f.full_hd1 matches Some(u)
            && u@.len() > 0) && !(f.hd1 matches Some(u) && u@.len() > 0) && (f.sd1 matches Some(u)
            && u@.len() > 0))) ==> douyin_stream(Some(d), room_id)->0.record_url
            == d.flv_pull_url->0.sd1->0@,
{
}

} // verus!
