//! Fallback handler: any URL is taken as a direct stream link.
use vstd::prelude::*;

use super::base::{PlatformHandler, StreamData, StreamView};
use crate::text::{borrow_opt, contains, copy_str, opt_str_view, opt_view, seq_contains};

verus! {

/// Treats any URL as a direct stream link.
pub struct GenericHandler {
    proxy: Option<String>,
}

/// Whether a direct link is filed as FLV: it mentions `.flv`, or it
/// mentions neither `.m3u8` nor `.ts`.
pub open spec fn generic_is_flv(url: Seq<char>) -> bool {
    seq_contains(url, ".flv"@) || !(seq_contains(url, ".m3u8"@) || seq_contains(url, ".ts"@))
}

/// The stream data of a direct link.
pub open spec fn generic_stream(url: Seq<char>) -> StreamView {
    StreamView {
        platform_name: "通用/未知平台"@,
        anchor_name: seq![],
        title: seq![],
        is_live: true,
        record_url: url,
        flv_url: if generic_is_flv(url) {
            Some(url)
        } else {
            None
        },
        m3u8_url: if generic_is_flv(url) {
            None
        } else {
            Some(url)
        },
        room_id: None,
    }
}

impl GenericHandler {
    pub fn new(proxy: Option<String>) -> (r: GenericHandler)
        ensures
            r.spec_proxy() == opt_view(proxy),
    {
        GenericHandler { proxy }
    }

    /// The stream data of a direct link: always live, with the link itself
    /// as the URL to record.
    pub fn get_stream_info(&self, live_url: &str) -> (r: Option<StreamData>)
        ensures
            r matches Some(sd) && sd@ == generic_stream(live_url@),
    {
        let is_flv = if contains(live_url, ".flv") {
            true
        } else if contains(live_url, ".m3u8") || contains(live_url, ".ts") {
            false
        } else {
            true
        };
        Some(
            StreamData {
                platform_name: copy_str("通用/未知平台"),
                anchor_name: String::new(),
                title: String::new(),
                is_live: true,
                record_url: copy_str(live_url),
                flv_url: if is_flv {
                    Some(copy_str(live_url))
                } else {
                    None
                },
                m3u8_url: if is_flv {
                    None
                } else {
                    Some(copy_str(live_url))
                },
                room_id: None,
            },
        )
    }
}

impl PlatformHandler for GenericHandler {
    open spec fn spec_platform_id(&self) -> Seq<char> {
        "generic"@
    }

    open spec fn spec_platform_name(&self) -> Seq<char> {
        "通用/未知平台"@
    }

    open spec fn spec_matches(&self, url: Seq<char>) -> bool {
        true
    }

    closed spec fn spec_proxy(&self) -> Option<Seq<char>> {
        opt_view(self.proxy)
    }

    fn platform_id(&self) -> (r: &str) {
        "generic"
    }

    fn platform_name(&self) -> (r: &str) {
        "通用/未知平台"
    }

    fn matches(&self, url: &str) -> (r: bool) {
        true
    }

    fn proxy(&self) -> (r: Option<&str>) {
        borrow_opt(&self.proxy)
    }

    fn set_proxy(&mut self, proxy: Option<String>) {
        self.proxy = proxy;
    }
}

} // verus!
