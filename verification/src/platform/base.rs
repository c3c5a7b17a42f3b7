//! Stream data, the platform handler interface and the registry that routes
//! a live URL to its handler.
use vstd::prelude::*;

use crate::text::{copy_opt, copy_str, opt_str_view, opt_view, str_eq};

verus! {

/// What a platform reports about a live room.
#[derive(Debug, Clone)]
pub struct StreamData {
    /// Display name of the platform.
    pub platform_name: String,
    pub anchor_name: String,
    pub title: String,
    pub is_live: bool,
    /// The URL to record (FLV or HLS).
    pub record_url: String,
    pub flv_url: Option<String>,
    pub m3u8_url: Option<String>,
    pub room_id: Option<String>,
}

/// The stream data by the views of its fields.
pub struct StreamView {
    pub platform_name: Seq<char>,
    pub anchor_name: Seq<char>,
    pub title: Seq<char>,
    pub is_live: bool,
    pub record_url: Seq<char>,
    pub flv_url: Option<Seq<char>>,
    pub m3u8_url: Option<Seq<char>>,
    pub room_id: Option<Seq<char>>,
}

impl View for StreamData {
    type V = StreamView;

    open spec fn view(&self) -> StreamView {
        StreamView {
            platform_name: self.platform_name@,
            anchor_name: self.anchor_name@,
            title: self.title@,
            is_live: self.is_live,
            record_url: self.record_url@,
            flv_url: opt_view(self.flv_url),
            m3u8_url: opt_view(self.m3u8_url),
            room_id: opt_view(self.room_id),
        }
    }
}

/// The stream data of a live room whose only URL is `url`: it is filed as
/// HLS when `is_hls`, as FLV otherwise.
pub open spec fn single_url_stream(
    platform_name: Seq<char>,
    anchor: Seq<char>,
    url: Seq<char>,
    is_hls: bool,
    room_id: Option<Seq<char>>,
) -> StreamView {
    StreamView {
        platform_name,
        anchor_name: anchor,
        title: seq![],
        is_live: true,
        record_url: url,
        flv_url: if is_hls {
            None
        } else {
            Some(url)
        },
        m3u8_url: if is_hls {
            Some(url)
        } else {
            None
        },
        room_id,
    }
}

/// The stream data of a room that is not live.
pub open spec fn offline_stream(
    platform_name: Seq<char>,
    anchor: Seq<char>,
    room_id: Option<Seq<char>>,
) -> StreamView {
    StreamView {
        platform_name,
        anchor_name: anchor,
        title: seq![],
        is_live: false,
        record_url: seq![],
        flv_url: None,
        m3u8_url: None,
        room_id,
    }
}

/// Builds the stream data of a live room with a single URL.
pub fn make_single_url_stream(
    platform_name: &str,
    anchor: &str,
    url: &str,
    is_hls: bool,
    room_id: Option<String>,
) -> (r: StreamData)
    ensures
        r@ == single_url_stream(platform_name@, anchor@, url@, is_hls, opt_view(room_id)),
{
    StreamData {
        platform_name: copy_str(platform_name),
        anchor_name: copy_str(anchor),
        title: String::new(),
        is_live: true,
        record_url: copy_str(url),
        flv_url: if is_hls {
            None
        } else {
            Some(copy_str(url))
        },
        m3u8_url: if is_hls {
            Some(copy_str(url))
        } else {
            None
        },
        room_id,
    }
}

/// Builds the stream data of a room that is not live.
pub fn make_offline_stream(platform_name: &str, anchor: &str, room_id: Option<String>) -> (r:
    StreamData)
    ensures
        r@ == offline_stream(platform_name@, anchor@, opt_view(room_id)),
{
    StreamData {
        platform_name: copy_str(platform_name),
        anchor_name: copy_str(anchor),
        title: String::new(),
        is_live: false,
        record_url: String::new(),
        flv_url: None,
        m3u8_url: None,
        room_id,
    }
}

/// The non-empty value of an optional string.
pub open spec fn nonempty(o: Option<String>) -> Option<Seq<char>> {
    match o {
        Some(s) => if s@.len() > 0 {
            Some(s@)
        } else {
            None
        },
        None => None,
    }
}

impl StreamData {
    /// Whether the stream can be recorded: live with a URL to record.
    pub open spec fn spec_is_recordable(self) -> bool {
        self.is_live && self.record_url@.len() > 0
    }

    /// The URL to record, preferring a non-empty FLV URL, then a non-empty
    /// HLS URL, then the record URL when it is not empty.
    pub open spec fn spec_best_record_url(self) -> Option<Seq<char>> {
        match nonempty(self.flv_url) {
            Some(f) => Some(f),
            None => match nonempty(self.m3u8_url) {
                Some(m) => Some(m),
                None => if self.record_url@.len() > 0 {
                    Some(self.record_url@)
                } else {
                    None
                },
            },
        }
    }

    pub fn is_recordable(&self) -> (r: bool)
        ensures
            r == self.spec_is_recordable(),
    {
        self.is_live && self.record_url.unicode_len() > 0
    }

    pub fn best_record_url(&self) -> (r: Option<&str>)
        ensures
            opt_str_view(r) == self.spec_best_record_url(),
    {
        if let Some(flv) = &self.flv_url {
            if flv.unicode_len() > 0 {
                return Some(flv.as_str());
            }
        }
        if let Some(m3u8) = &self.m3u8_url {
            if m3u8.unicode_len() > 0 {
                return Some(m3u8.as_str());
            }
        }
        if self.record_url.unicode_len() > 0 {
            Some(self.record_url.as_str())
        } else {
            None
        }
    }
}

impl Default for StreamData {
    fn default() -> (r: StreamData)
        ensures
            r.platform_name@.len() == 0,
            r.anchor_name@.len() == 0,
            r.title@.len() == 0,
            !r.is_live,
            r.record_url@.len() == 0,
            r.flv_url is None,
            r.m3u8_url is None,
            r.room_id is None,
    {
        StreamData {
            platform_name: String::new(),
            anchor_name: String::new(),
            title: String::new(),
            is_live: false,
            record_url: String::new(),
            flv_url: None,
            m3u8_url: None,
            room_id: None,
        }
    }
}

/// A recordable stream always has a URL to record.
pub proof fn law_recordable_has_url(sd: StreamData)
    ensures
        sd.spec_is_recordable() ==> sd.spec_best_record_url() is Some,
{
}

/// The URL chosen by `best_record_url` is one of the stream's URLs.
pub proof fn law_best_url_is_known(sd: StreamData)
    ensures
        sd.spec_best_record_url() matches Some(u) ==> (u == sd.record_url@ || opt_view(sd.flv_url)
            == Some(u) || opt_view(sd.m3u8_url) == Some(u)),
{
}

/// A live streaming platform: it recognises its URLs and may use a proxy.
/// Fetching the stream itself is I/O and is done outside this library.
pub trait PlatformHandler {
    /// The unique key of the platform (such as `douyin`).
    spec fn spec_platform_id(&self) -> Seq<char>;

    /// The display name of the platform.
    spec fn spec_platform_name(&self) -> Seq<char>;

    /// Whether a URL belongs to the platform.
    spec fn spec_matches(&self, url: Seq<char>) -> bool;

    /// The proxy the handler uses.
    spec fn spec_proxy(&self) -> Option<Seq<char>>;

    fn platform_id(&self) -> (r: &str)
        ensures
            r@ == self.spec_platform_id(),
    ;

    fn platform_name(&self) -> (r: &str)
        ensures
            r@ == self.spec_platform_name(),
    ;

    fn matches(&self, url: &str) -> (r: bool)
        ensures
            r == self.spec_matches(url@),
    ;

    fn proxy(&self) -> (r: Option<&str>)
        ensures
            opt_str_view(r) == self.spec_proxy(),
    ;

    /// Sets the proxy; the identity and the URLs matched stay the same.
    fn set_proxy(&mut self, proxy: Option<String>)
        ensures
            final(self).spec_proxy() == opt_view(proxy),
            final(self).spec_platform_id() == old(self).spec_platform_id(),
            final(self).spec_platform_name() == old(self).spec_platform_name(),
            forall|u: Seq<char>| #[trigger]
                final(self).spec_matches(u) == old(self).spec_matches(u),
    ;
}

/// The key of the fallback handler that accepts any URL.
pub open spec fn generic_id() -> Seq<char> {
    "generic"@
}

/// The handlers after registering `h`: it replaces the handler with the same
/// key, or is added at the end when there is none.
pub open spec fn registered<H: PlatformHandler>(hs: Seq<H>, h: H) -> Seq<H> {
    if exists|i: int| 0 <= i < hs.len() && #[trigger] hs[i].spec_platform_id() == h.spec_platform_id() {
        hs.update(
            choose|i: int|
                0 <= i < hs.len() && #[trigger] hs[i].spec_platform_id() == h.spec_platform_id(),
            h,
        )
    } else {
        hs.push(h)
    }
}

/// No two handlers share a key.
pub open spec fn distinct_ids<H: PlatformHandler>(hs: Seq<H>) -> bool {
    forall|i: int, j: int|
        0 <= i < hs.len() && 0 <= j < hs.len() && i != j ==> #[trigger] hs[i].spec_platform_id()
            != #[trigger] hs[j].spec_platform_id()
}

/// Some handler registered under `id` accepts `url`.
pub open spec fn accepted_by<H: PlatformHandler>(hs: Seq<H>, id: Seq<char>, url: Seq<char>) -> bool {
    exists|i: int|
        0 <= i < hs.len() && #[trigger] hs[i].spec_platform_id() == id && hs[i].spec_matches(url)
}

/// Among the first `upto` handlers only the fallback one accepts `url`.
pub open spec fn only_generic_accepts<H: PlatformHandler>(hs: Seq<H>, url: Seq<char>, upto: int) -> bool {
    forall|k: int|
        0 <= k < upto && #[trigger] hs[k].spec_matches(url) ==> hs[k].spec_platform_id() == generic_id()
}

/// Among the first `upto` handlers the fallback one does not accept `url`.
pub open spec fn no_generic_accepts<H: PlatformHandler>(hs: Seq<H>, url: Seq<char>, upto: int) -> bool {
    forall|k: int|
        0 <= k < upto && #[trigger] hs[k].spec_matches(url) ==> hs[k].spec_platform_id() != generic_id()
}

/// Two handlers have the same key, name and accepted URLs.
pub open spec fn same_identity<H: PlatformHandler>(a: H, b: H) -> bool {
    &&& a.spec_platform_id() == b.spec_platform_id()
    &&& a.spec_platform_name() == b.spec_platform_name()
    &&& forall|u: Seq<char>| #[trigger] a.spec_matches(u) == b.spec_matches(u)
}

/// Which handlers a URL should be fetched with: the first specific handler
/// that accepts it, and the fallback handler if it accepts it.
#[derive(Debug, Clone)]
pub struct FetchCandidates {
    pub specific: Option<String>,
    pub generic: Option<String>,
}

impl FetchCandidates {
    /// The keys in the order their handlers are asked: the specific handler
    /// first, then the fallback one.
    pub open spec fn spec_order(self) -> Seq<Seq<char>> {
        (match self.specific {
            Some(id) => seq![id@],
            None => Seq::<Seq<char>>::empty(),
        }) + (match self.generic {
            Some(id) => seq![id@],
            None => Seq::<Seq<char>>::empty(),
        })
    }

    /// The keys of the handlers to ask about a URL, in order: the specific
    /// handler first; the fallback one only after it, when it gave nothing.
    pub fn order(&self) -> (r: Vec<String>)
        ensures
            r@.map_values(|k: String| k@) == self.spec_order(),
    {
        let mut r: Vec<String> = Vec::new();
        if let Some(id) = &self.specific {
            r.push(copy_str(id.as_str()));
        }
        if let Some(id) = &self.generic {
            r.push(copy_str(id.as_str()));
        }
        assert(r@.map_values(|k: String| k@) =~= self.spec_order());
        r
    }
}

/// Routes live URLs to the handler of their platform.
pub struct PlatformRegistry<H: PlatformHandler> {
    handlers: Vec<H>,
    use_proxy: bool,
    proxy: Option<String>,
}

impl<H: PlatformHandler> PlatformRegistry<H> {
    /// The registered handlers, in registration order.
    pub closed spec fn spec_handlers(&self) -> Seq<H> {
        self.handlers@
    }

    /// Whether a proxy is set.
    pub closed spec fn spec_use_proxy(&self) -> bool {
        self.use_proxy
    }

    /// The proxy set on the registry.
    pub closed spec fn spec_proxy(&self) -> Option<Seq<char>> {
        opt_view(self.proxy)
    }

    #[verifier::type_invariant]
    closed spec fn inv(self) -> bool {
        distinct_ids(self.handlers@)
    }

    pub fn new() -> (r: PlatformRegistry<H>)
        ensures
            r.spec_handlers().len() == 0,
            !r.spec_use_proxy(),
            r.spec_proxy() is None,
    {
        PlatformRegistry { handlers: Vec::new(), use_proxy: false, proxy: None }
    }

    /// Registers a handler under its key, replacing any handler with that key:
    /// afterwards the handler is registered, and it is the only one under
    /// its key.
    pub fn register(&mut self, handler: H)
        ensures
            final(self).spec_handlers() == registered(old(self).spec_handlers(), handler),
            exists|i: int|
                0 <= i < final(self).spec_handlers().len() && #[trigger] final(self).spec_handlers()[i]
                    == handler,
            forall|i: int|
                0 <= i < final(self).spec_handlers().len() && #[trigger] final(self).spec_handlers()[i].spec_platform_id()
                    == handler.spec_platform_id() ==> final(self).spec_handlers()[i] == handler,
            final(self).spec_handlers().len() == old(self).spec_handlers().len() + (if exists|i: int|
                0 <= i < old(self).spec_handlers().len()
                    && #[trigger] old(self).spec_handlers()[i].spec_platform_id()
                    == handler.spec_platform_id() {
                0int
            } else {
                1int
            }),
            forall|i: int|
                0 <= i < old(self).spec_handlers().len()
                    && #[trigger] old(self).spec_handlers()[i].spec_platform_id()
                    != handler.spec_platform_id() ==> final(self).spec_handlers()[i] == old(self).spec_handlers()[i],
            final(self).spec_use_proxy() == old(self).spec_use_proxy(),
            final(self).spec_proxy() == old(self).spec_proxy(),
    {
        proof {
            use_type_invariant(&*self);
            law_register_then_get(self.handlers@, handler);
        }
        let ghost before = self.handlers@;
        let n = self.handlers.len();
        let mut i: usize = 0;
        while i < n && !str_eq(self.handlers[i].platform_id(), handler.platform_id())
            invariant
                n == self.handlers@.len(),
                i <= n,
                forall|k: int|
                    0 <= k < i ==> #[trigger] self.handlers@[k].spec_platform_id()
                        != handler.spec_platform_id(),
            decreases n - i,
        {
            i += 1;
        }
        let found: Option<usize> = if i < n {
            Some(i)
        } else {
            None
        };
        let ghost hs = self.handlers@;
        let mut hv = Vec::new();
        std::mem::swap(&mut hv, &mut self.handlers);
        match found {
            Some(k) => {
                proof {
                    let c = choose|j: int|
                        0 <= j < hs.len() && #[trigger] hs[j].spec_platform_id()
                            == handler.spec_platform_id();
                    assert(hs[k as int].spec_platform_id() == handler.spec_platform_id());
                    assert(c == k);
                }
                assert(hv@ == hs);
                hv.set(k, handler);
                assert(hv@ == hs.update(k as int, handler));
                proof {
                    assert forall|a: int, b: int|
                        0 <= a < hv@.len() && 0 <= b < hv@.len() && a != b implies #[trigger] hv@[a].spec_platform_id()
                            != #[trigger] hv@[b].spec_platform_id() by {
                        assert(a < hs.len() && b < hs.len());
                        if a == k {
                            assert(hv@[a].spec_platform_id() == hs[a].spec_platform_id());
                        } else {
                            assert(hv@[a] == hs[a]);
                        }
                        if b == k {
                            assert(hv@[b].spec_platform_id() == hs[b].spec_platform_id());
                        } else {
                            assert(hv@[b] == hs[b]);
                        }
                        assert(hs[a].spec_platform_id() != hs[b].spec_platform_id());
                    }
                }
            },
            None => {
                assert(hv@ == hs);
                hv.push(handler);
                proof {
                    assert forall|a: int, b: int|
                        0 <= a < hv@.len() && 0 <= b < hv@.len() && a != b implies #[trigger] hv@[a].spec_platform_id()
                            != #[trigger] hv@[b].spec_platform_id() by {
                        if a < hs.len() && b < hs.len() {
                            assert(hs[a].spec_platform_id() != hs[b].spec_platform_id());
                        }
                    }
                }
            },
        }
        self.handlers = hv;
        proof {
            let r = registered(before, handler);
            let w = choose|i: int| 0 <= i < r.len() && #[trigger] r[i] == handler;
            assert(self.spec_handlers()[w] == handler);
        }
    }

    /// The handler for a URL: a specific handler that accepts it when there
    /// is one, otherwise the fallback handler if it accepts it.
    pub fn resolve(&self, url: &str) -> (r: Option<&H>)
        ensures
            r is None ==> forall|i: int|
                0 <= i < self.spec_handlers().len() ==> !#[trigger] self.spec_handlers()[i].spec_matches(url@),
            r matches Some(h) ==> exists|i: int|
                0 <= i < self.spec_handlers().len() && *h == #[trigger] self.spec_handlers()[i],
            r matches Some(h) ==> h.spec_matches(url@),
            r matches Some(h) ==> (h.spec_platform_id() == generic_id() ==> only_generic_accepts(
                self.spec_handlers(),
                url@,
                self.spec_handlers().len() as int,
            )),
    {
        let n = self.handlers.len();
        let mut fallback: Option<usize> = None;
        for i in 0..n
            invariant
                n == self.handlers@.len(),
                only_generic_accepts(self.handlers@, url@, i as int),
                match fallback {
                    None => {
                        forall|k: int| 0 <= k < i ==> !#[trigger] self.handlers@[k].spec_matches(url@)
                    },
                    Some(f) => f < n && self.handlers@[f as int].spec_matches(url@)
                        && self.handlers@[f as int].spec_platform_id() == generic_id(),
                },
        {
            if self.handlers[i].matches(url) {
                if !str_eq(self.handlers[i].platform_id(), "generic") {
                    let h = &self.handlers[i];
                    assert(*h == self.spec_handlers()[i as int]);
                    return Some(h);
                }
                fallback = Some(i);
            }
        }
        match fallback {
            Some(f) => {
                let h = &self.handlers[f];
                assert(*h == self.spec_handlers()[f as int]);
                Some(h)
            },
            None => None,
        }
    }

    /// The handler registered under `platform_id`, the only one under that key.
    pub fn get(&self, platform_id: &str) -> (r: Option<&H>)
        ensures
            r is None ==> forall|i: int|
                0 <= i < self.spec_handlers().len() ==> #[trigger] self.spec_handlers()[i].spec_platform_id()
                    != platform_id@,
            r matches Some(h) ==> h.spec_platform_id() == platform_id@ && exists|i: int|
                0 <= i < self.spec_handlers().len() && *h == #[trigger] self.spec_handlers()[i],
            r matches Some(h) ==> forall|i: int|
                0 <= i < self.spec_handlers().len() && #[trigger] self.spec_handlers()[i].spec_platform_id()
                    == platform_id@ ==> self.spec_handlers()[i] == *h,
    {
        proof {
            use_type_invariant(self);
        }
        let n = self.handlers.len();
        for i in 0..n
            invariant
                n == self.handlers@.len(),
                distinct_ids(self.handlers@),
                forall|k: int|
                    0 <= k < i ==> #[trigger] self.handlers@[k].spec_platform_id() != platform_id@,
        {
            if str_eq(self.handlers[i].platform_id(), platform_id) {
                let h = &self.handlers[i];
                assert(*h == self.spec_handlers()[i as int]);
                return Some(h);
            }
        }
        None
    }

    /// All registered handlers.
    pub fn all_handlers(&self) -> (r: Vec<&H>)
        ensures
            r@.len() == self.spec_handlers().len(),
            forall|i: int| 0 <= i < r@.len() ==> *#[trigger] r@[i] == self.spec_handlers()[i],
    {
        let n = self.handlers.len();
        let mut r: Vec<&H> = Vec::new();
        for i in 0..n
            invariant
                n == self.handlers@.len(),
                r@.len() == i,
                forall|k: int| 0 <= k < i ==> *#[trigger] r@[k] == self.handlers@[k],
        {
            r.push(&self.handlers[i]);
        }
        r
    }

    /// The handlers to fetch a URL with: the first specific one that accepts
    /// it, and the fallback one if it accepts it.
    pub fn fetch_candidates(&self, url: &str) -> (r: FetchCandidates)
        ensures
            match r.specific {
                Some(id) => id@ != generic_id() && accepted_by(self.spec_handlers(), id@, url@),
                None => only_generic_accepts(self.spec_handlers(), url@, self.spec_handlers().len() as int),
            },
            match r.generic {
                Some(id) => id@ == generic_id() && accepted_by(self.spec_handlers(), id@, url@),
                None => no_generic_accepts(self.spec_handlers(), url@, self.spec_handlers().len() as int),
            },
    {
        let n = self.handlers.len();
        let mut specific: Option<String> = None;
        let mut generic: Option<String> = None;
        for i in 0..n
            invariant
                n == self.handlers@.len(),
                match specific {
                    Some(id) => id@ != generic_id() && accepted_by(self.handlers@, id@, url@),
                    None => only_generic_accepts(self.handlers@, url@, i as int),
                },
                match generic {
                    Some(id) => id@ == generic_id() && accepted_by(self.handlers@, id@, url@),
                    None => no_generic_accepts(self.handlers@, url@, i as int),
                },
        {
            let h = &self.handlers[i];
            if h.matches(url) {
                if str_eq(h.platform_id(), "generic") {
                    generic = Some(copy_str(h.platform_id()));
                    assert(self.handlers@[i as int].spec_platform_id() == generic_id());
                } else if specific.is_none() {
                    specific = Some(copy_str(h.platform_id()));
                }
            }
        }
        FetchCandidates { specific, generic }
    }

    /// Sets the proxy of the registry and of every handler.
    pub fn set_proxy(&mut self, proxy: Option<String>)
        ensures
            final(self).spec_proxy() == opt_view(proxy),
            final(self).spec_use_proxy() == proxy is Some,
            final(self).spec_handlers().len() == old(self).spec_handlers().len(),
            forall|i: int|
                0 <= i < final(self).spec_handlers().len() ==> (#[trigger] final(self).spec_handlers()[i]).spec_proxy() == opt_view(proxy) && same_identity(
                    final(self).spec_handlers()[i],
                    old(self).spec_handlers()[i],
                ),
    {
        proof {
            use_type_invariant(&*self);
        }
        let ghost old_hs = self.handlers@;
        let mut hv = Vec::new();
        std::mem::swap(&mut hv, &mut self.handlers);
        assert(hv@ == old_hs);
        let n = hv.len();
        let mut out: Vec<H> = Vec::new();
        while hv.len() > 0
            invariant
                n == old_hs.len(),
                out@.len() + hv@.len() == n,
                hv@ == old_hs.subrange(out@.len() as int, n as int),
                forall|k: int| 0 <= k < out@.len() ==> #[trigger] same_identity(out@[k], old_hs[k]),
                forall|k: int| 0 <= k < out@.len() ==> (#[trigger] out@[k]).spec_proxy() == opt_view(proxy),
            decreases hv@.len(),
        {
            let ghost prev = hv@;
            let ghost done = out@.len();
            let mut h = hv.remove(0);
            assert(hv@ =~= prev.subrange(1, prev.len() as int));
            assert(h == old_hs[done as int]);
            h.set_proxy(copy_opt(&proxy));
            out.push(h);
            assert(hv@ =~= old_hs.subrange(out@.len() as int, n as int));
        }
        let hv = out;
        proof {
            assert forall|a: int, b: int|
                0 <= a < hv@.len() && 0 <= b < hv@.len() && a != b implies #[trigger] hv@[a].spec_platform_id()
                    != #[trigger] hv@[b].spec_platform_id() by {
                assert(same_identity(hv@[a], old_hs[a]));
                assert(same_identity(hv@[b], old_hs[b]));
                assert(old_hs[a].spec_platform_id() != old_hs[b].spec_platform_id());
            }
        }
        self.handlers = hv;
        self.use_proxy = proxy.is_some();
        self.proxy = proxy;
    }

    pub fn is_using_proxy(&self) -> (r: bool)
        ensures
            r == self.spec_use_proxy(),
    {
        self.use_proxy
    }
}

/// Registering a handler makes it the one found under its key.
pub proof fn law_register_then_get<H: PlatformHandler>(hs: Seq<H>, h: H)
    requires
        distinct_ids(hs),
    ensures
        distinct_ids(registered(hs, h)),
        exists|i: int|
            0 <= i < registered(hs, h).len() && #[trigger] registered(hs, h)[i] == h,
        forall|i: int|
            0 <= i < registered(hs, h).len() && #[trigger] registered(hs, h)[i].spec_platform_id()
                == h.spec_platform_id() ==> registered(hs, h)[i] == h,
{
    let r = registered(hs, h);
    if exists|i: int| 0 <= i < hs.len() && #[trigger] hs[i].spec_platform_id() == h.spec_platform_id() {
        let c = choose|i: int|
            0 <= i < hs.len() && #[trigger] hs[i].spec_platform_id() == h.spec_platform_id();
        assert(r[c] == h);
        assert forall|a: int, b: int|
            0 <= a < r.len() && 0 <= b < r.len() && a != b implies #[trigger] r[a].spec_platform_id()
                != #[trigger] r[b].spec_platform_id() by {
            assert(hs[a].spec_platform_id() != hs[b].spec_platform_id());
        }
        assert forall|i: int|
            0 <= i < r.len() && #[trigger] r[i].spec_platform_id() == h.spec_platform_id() implies r[i]
                == h by {
            if i != c {
                assert(hs[i].spec_platform_id() != hs[c].spec_platform_id());
            }
        }
    } else {
        assert(r[hs.len() as int] == h);
        assert forall|a: int, b: int|
            0 <= a < r.len() && 0 <= b < r.len() && a != b implies #[trigger] r[a].spec_platform_id()
                != #[trigger] r[b].spec_platform_id() by {
            if a < hs.len() && b < hs.len() {
                assert(hs[a].spec_platform_id() != hs[b].spec_platform_id());
            }
        }
    }
}

} // verus!
