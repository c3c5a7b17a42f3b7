//! The platforms built into the library and the default registry.
use vstd::prelude::*;

use super::base::{PlatformHandler, PlatformRegistry, registered};
use super::bilibili::BilibiliHandler;
use super::douyin::DouyinHandler;
use super::douyu::DouyuHandler;
use super::generic::GenericHandler;
use super::huya::HuyaHandler;
use super::kuaishou::KuaishouHandler;
use super::yy::YYHandler;
use crate::text::opt_str_view;

verus! {

/// One of the built-in platform handlers.
pub enum BuiltinHandler {
    Douyin(DouyinHandler),
    Bilibili(BilibiliHandler),
    Kuaishou(KuaishouHandler),
    Huya(HuyaHandler),
    Douyu(DouyuHandler),
    YY(YYHandler),
    Generic(GenericHandler),
}

impl PlatformHandler for BuiltinHandler {
    open spec fn spec_platform_id(&self) -> Seq<char> {
        match self {
            BuiltinHandler::Douyin(h) => h.spec_platform_id(),
            BuiltinHandler::Bilibili(h) => h.spec_platform_id(),
            BuiltinHandler::Kuaishou(h) => h.spec_platform_id(),
            BuiltinHandler::Huya(h) => h.spec_platform_id(),
            BuiltinHandler::Douyu(h) => h.spec_platform_id(),
            BuiltinHandler::YY(h) => h.spec_platform_id(),
            BuiltinHandler::Generic(h) => h.spec_platform_id(),
        }
    }

    open spec fn spec_platform_name(&self) -> Seq<char> {
        match self {
            BuiltinHandler::Douyin(h) => h.spec_platform_name(),
            BuiltinHandler::Bilibili(h) => h.spec_platform_name(),
            BuiltinHandler::Kuaishou(h) => h.spec_platform_name(),
            BuiltinHandler::Huya(h) => h.spec_platform_name(),
            BuiltinHandler::Douyu(h) => h.spec_platform_name(),
            BuiltinHandler::YY(h) => h.spec_platform_name(),
            BuiltinHandler::Generic(h) => h.spec_platform_name(),
        }
    }

    open spec fn spec_matches(&self, url: Seq<char>) -> bool {
        match self {
            BuiltinHandler::Douyin(h) => h.spec_matches(url),
            BuiltinHandler::Bilibili(h) => h.spec_matches(url),
            BuiltinHandler::Kuaishou(h) => h.spec_matches(url),
            BuiltinHandler::Huya(h) => h.spec_matches(url),
            BuiltinHandler::Douyu(h) => h.spec_matches(url),
            BuiltinHandler::YY(h) => h.spec_matches(url),
            BuiltinHandler::Generic(h) => h.spec_matches(url),
        }
    }

    open spec fn spec_proxy(&self) -> Option<Seq<char>> {
        match self {
            BuiltinHandler::Douyin(h) => h.spec_proxy(),
            BuiltinHandler::Bilibili(h) => h.spec_proxy(),
            BuiltinHandler::Kuaishou(h) => h.spec_proxy(),
            BuiltinHandler::Huya(h) => h.spec_proxy(),
            BuiltinHandler::Douyu(h) => h.spec_proxy(),
            BuiltinHandler::YY(h) => h.spec_proxy(),
            BuiltinHandler::Generic(h) => h.spec_proxy(),
        }
    }

    fn platform_id(&self) -> (r: &str) {
        match self {
            BuiltinHandler::Douyin(h) => h.platform_id(),
            BuiltinHandler::Bilibili(h) => h.platform_id(),
            BuiltinHandler::Kuaishou(h) => h.platform_id(),
            BuiltinHandler::Huya(h) => h.platform_id(),
            BuiltinHandler::Douyu(h) => h.platform_id(),
            BuiltinHandler::YY(h) => h.platform_id(),
            BuiltinHandler::Generic(h) => h.platform_id(),
        }
    }

    fn platform_name(&self) -> (r: &str) {
        match self {
            BuiltinHandler::Douyin(h) => h.platform_name(),
            BuiltinHandler::Bilibili(h) => h.platform_name(),
            BuiltinHandler::Kuaishou(h) => h.platform_name(),
            BuiltinHandler::Huya(h) => h.platform_name(),
            BuiltinHandler::Douyu(h) => h.platform_name(),
            BuiltinHandler::YY(h) => h.platform_name(),
            BuiltinHandler::Generic(h) => h.platform_name(),
        }
    }

    fn matches(&self, url: &str) -> (r: bool) {
        match self {
            BuiltinHandler::Douyin(h) => h.matches(url),
            BuiltinHandler::Bilibili(h) => h.matches(url),
            BuiltinHandler::Kuaishou(h) => h.matches(url),
            BuiltinHandler::Huya(h) => h.matches(url),
            BuiltinHandler::Douyu(h) => h.matches(url),
            BuiltinHandler::YY(h) => h.matches(url),
            BuiltinHandler::Generic(h) => h.matches(url),
        }
    }

    fn proxy(&self) -> (r: Option<&str>) {
        match self {
            BuiltinHandler::Douyin(h) => h.proxy(),
            BuiltinHandler::Bilibili(h) => h.proxy(),
            BuiltinHandler::Kuaishou(h) => h.proxy(),
            BuiltinHandler::Huya(h) => h.proxy(),
            BuiltinHandler::Douyu(h) => h.proxy(),
            BuiltinHandler::YY(h) => h.proxy(),
            BuiltinHandler::Generic(h) => h.proxy(),
        }
    }

    fn set_proxy(&mut self, proxy: Option<String>) {
        match self {
            BuiltinHandler::Douyin(h) => h.set_proxy(proxy),
            BuiltinHandler::Bilibili(h) => h.set_proxy(proxy),
            BuiltinHandler::Kuaishou(h) => h.set_proxy(proxy),
            BuiltinHandler::Huya(h) => h.set_proxy(proxy),
            BuiltinHandler::Douyu(h) => h.set_proxy(proxy),
            BuiltinHandler::YY(h) => h.set_proxy(proxy),
            BuiltinHandler::Generic(h) => h.set_proxy(proxy),
        }
    }
}

/// The keys of the built-in platforms, in registration order.
pub open spec fn default_ids() -> Seq<Seq<char>> {
    seq!["douyin"@, "bilibili"@, "kuaishou"@, "huya"@, "douyu"@, "yy"@, "generic"@]
}

/// Registering a handler whose key is new appends it.
proof fn lemma_register_new<H: PlatformHandler>(hs: Seq<H>, h: H)
    requires
        forall|i: int| 0 <= i < hs.len() ==> #[trigger] hs[i].spec_platform_id() != h.spec_platform_id(),
    ensures
        registered(hs, h) == hs.push(h),
{
}

/// The built-in keys are pairwise distinct.
proof fn lemma_default_ids_distinct()
    ensures
        forall|i: int, j: int|
            0 <= i < 7 && 0 <= j < 7 && i != j ==> #[trigger] default_ids()[i] != #[trigger] default_ids()[j],
{
    reveal_strlit("douyin");
    reveal_strlit("bilibili");
    reveal_strlit("kuaishou");
    reveal_strlit("huya");
    reveal_strlit("douyu");
    reveal_strlit("yy");
    reveal_strlit("generic");
    let d = default_ids();
    assert forall|i: int, j: int| 0 <= i < 7 && 0 <= j < 7 && i != j implies #[trigger] d[i] != #[trigger] d[j] by {
        if d[i] == d[j] {
            assert(d[i].len() == d[j].len());
            assert(d[i][0] == d[j][0]);
            assert(d[i][1] == d[j][1]);
        }
    }
}

/// The first `k` handlers carry the first `k` built-in keys and no proxy.
pub open spec fn defaults_prefix(r: PlatformRegistry<BuiltinHandler>, k: int) -> bool {
    &&& r.spec_handlers().len() == k
    &&& forall|i: int|
        0 <= i < k ==> #[trigger] r.spec_handlers()[i].spec_platform_id() == default_ids()[i]
    &&& forall|i: int| 0 <= i < k ==> (#[trigger] r.spec_handlers()[i]).spec_proxy() is None
    &&& !r.spec_use_proxy()
    &&& r.spec_proxy() is None
}

/// Registers the built-in handler with the `k`-th key.
fn register_next(r: &mut PlatformRegistry<BuiltinHandler>, h: BuiltinHandler, Ghost(k): Ghost<int>)
    requires
        0 <= k < 7,
        defaults_prefix(*old(r), k),
        h.spec_platform_id() == default_ids()[k],
        h.spec_proxy() is None,
    ensures
        defaults_prefix(*final(r), k + 1),
{
    proof {
        lemma_default_ids_distinct();
        assert forall|i: int| 0 <= i < r.spec_handlers().len() implies #[trigger] r.spec_handlers()[i].spec_platform_id()
            != h.spec_platform_id() by {
            assert(default_ids()[i] != default_ids()[k]);
        }
        lemma_register_new(r.spec_handlers(), h);
    }
    r.register(h);
}

impl PlatformRegistry<BuiltinHandler> {
    /// A registry with every built-in platform, without proxy.
    pub fn with_defaults() -> (r: PlatformRegistry<BuiltinHandler>)
        ensures
            defaults_prefix(r, 7),
    {
        let mut r = PlatformRegistry::new();
        register_next(&mut r, BuiltinHandler::Douyin(DouyinHandler::new()), Ghost(0));
        register_next(&mut r, BuiltinHandler::Bilibili(BilibiliHandler::new()), Ghost(1));
        register_next(&mut r, BuiltinHandler::Kuaishou(KuaishouHandler::new()), Ghost(2));
        register_next(&mut r, BuiltinHandler::Huya(HuyaHandler::new()), Ghost(3));
        register_next(&mut r, BuiltinHandler::Douyu(DouyuHandler::new()), Ghost(4));
        register_next(&mut r, BuiltinHandler::YY(YYHandler::new()), Ghost(5));
        register_next(&mut r, BuiltinHandler::Generic(GenericHandler::new(None)), Ghost(6));
        r
    }
}

} // verus!
