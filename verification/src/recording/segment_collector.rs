//! Segments of a split recording, which platforms go through the proxy,
//! and what happens to a finished recording.
use vstd::prelude::*;

use crate::text::{copy_str, opt_str_view, opt_view, starts_with, str_eq};

verus! {

// ---------------------------------------------------------------------------
// Segments
// ---------------------------------------------------------------------------

/// One file of a split recording.
#[derive(Debug, Clone)]
pub struct SegmentFile {
    pub path: String,
    pub index: u32,
    pub duration_secs: u64,
    pub bytes: u64,
}

/// A segment by its view: path, index, duration and size.
pub type SegmentView = (Seq<char>, u32, u64, u64);

pub open spec fn segment_view(s: SegmentFile) -> SegmentView {
    (s.path@, s.index, s.duration_secs, s.bytes)
}

pub open spec fn segments_view(v: Seq<SegmentFile>) -> Seq<SegmentView> {
    v.map_values(|s: SegmentFile| segment_view(s))
}

/// The sum of the sizes of `s`.
pub open spec fn sum_bytes(s: Seq<SegmentView>) -> nat
    decreases s.len(),
{
    if s.len() == 0 {
        0
    } else {
        sum_bytes(s.drop_last()) + s.last().3 as nat
    }
}

/// The sum of the durations of `s`.
pub open spec fn sum_durations(s: Seq<SegmentView>) -> nat
    decreases s.len(),
{
    if s.len() == 0 {
        0
    } else {
        sum_durations(s.drop_last()) + s.last().2 as nat
    }
}

/// The largest index in `s`, if any.
pub open spec fn max_index(s: Seq<SegmentView>) -> Option<u32>
    decreases s.len(),
{
    if s.len() == 0 {
        None
    } else {
        match max_index(s.drop_last()) {
            Some(m) => Some(if s.last().1 > m {
                s.last().1
            } else {
                m
            }),
            None => Some(s.last().1),
        }
    }
}

/// `name` is the stem of a segment of `prefix`: it begins with the prefix
/// and is longer than it.
pub open spec fn is_segment_stem(name: Seq<char>, prefix: Seq<char>) -> bool {
    name.len() > prefix.len() && name.subrange(0, prefix.len() as int) == prefix
}

/// Collects the segments of one recording: those in `output_dir` whose
/// file stems begin with `prefix`.
pub struct SegmentCollector {
    output_dir: String,
    prefix: String,
    segments: Vec<SegmentFile>,
}

impl SegmentCollector {
    pub closed spec fn spec_output_dir(self) -> Seq<char> {
        self.output_dir@
    }

    pub closed spec fn spec_prefix(self) -> Seq<char> {
        self.prefix@
    }

    /// The segments registered, in order.
    pub closed spec fn spec_segments(self) -> Seq<SegmentView> {
        segments_view(self.segments@)
    }

    /// A collector with no segment yet.
    pub fn new(output_dir: &str, prefix: &str) -> (r: SegmentCollector)
        ensures
            r.spec_output_dir() == output_dir@,
            r.spec_prefix() == prefix@,
            r.spec_segments() == Seq::<SegmentView>::empty(),
    {
        let r = SegmentCollector {
            output_dir: copy_str(output_dir),
            prefix: copy_str(prefix),
            segments: Vec::new(),
        };
        assert(segments_view(r.segments@) =~= Seq::<SegmentView>::empty());
        r
    }

    pub fn output_dir(&self) -> (r: &str)
        ensures
            r@ == self.spec_output_dir(),
    {
        self.output_dir.as_str()
    }

    pub fn prefix(&self) -> (r: &str)
        ensures
            r@ == self.spec_prefix(),
    {
        self.prefix.as_str()
    }

    /// Whether a file stem names a segment of this collector.
    pub fn is_segment_name(&self, name: &str) -> (r: bool)
        ensures
            r == is_segment_stem(name@, self.spec_prefix()),
    {
        proof {
            if name@.len() == self.prefix@.len() {
                assert(name@.subrange(0, name@.len() as int) =~= name@);
            }
        }
        starts_with(name, self.prefix.as_str()) && !str_eq(name, self.prefix.as_str())
    }

    /// Adds a segment at the end.
    pub fn register_segment(&mut self, path: &str, index: u32, duration_secs: u64, bytes: u64)
        ensures
            final(self).spec_segments() == old(self).spec_segments().push(
                (path@, index, duration_secs, bytes),
            ),
            final(self).spec_output_dir() == old(self).spec_output_dir(),
            final(self).spec_prefix() == old(self).spec_prefix(),
    {
        let seg = SegmentFile { path: copy_str(path), index, duration_secs, bytes };
        self.segments.push(seg);
        assert(segments_view(self.segments@) =~= segments_view(old(self).segments@).push(
            (path@, index, duration_secs, bytes),
        ));
    }

    /// Replaces the segments with those found on disk.
    pub fn set_segments(&mut self, segments: Vec<SegmentFile>)
        ensures
            final(self).spec_segments() == segments_view(segments@),
            final(self).spec_output_dir() == old(self).spec_output_dir(),
            final(self).spec_prefix() == old(self).spec_prefix(),
    {
        self.segments = segments;
    }

    /// Copies of the segments, in order.
    pub fn get_segments(&self) -> (r: Vec<SegmentFile>)
        ensures
            segments_view(r@) == self.spec_segments(),
    {
        let mut r: Vec<SegmentFile> = Vec::new();
        let n = self.segments.len();
        for i in 0..n
            invariant
                n == self.segments@.len(),
                segments_view(r@) == segments_view(self.segments@.take(i as int)),
        {
            let s = &self.segments[i];
            let ghost prev = r@;
            r.push(
                SegmentFile {
                    path: copy_str(s.path.as_str()),
                    index: s.index,
                    duration_secs: s.duration_secs,
                    bytes: s.bytes,
                },
            );
            assert(segments_view(r@) =~= segments_view(prev).push(segment_view(self.segments@[i as int])));
            assert(self.segments@.take(i + 1) =~= self.segments@.take(i as int).push(self.segments@[i as int]));
            assert(segments_view(r@) =~= segments_view(self.segments@.take(i + 1)));
        }
        assert(self.segments@.take(n as int) =~= self.segments@);
        r
    }

    /// The index for the next segment: one past the largest, or 0 when
    /// there is none.
    pub fn next_index(&self) -> (r: u32)
        requires
            max_index(self.spec_segments()) matches Some(m) ==> m < u32::MAX,
        ensures
            r == match max_index(self.spec_segments()) {
                Some(m) => (m + 1) as u32,
                None => 0,
            },
    {
        let ghost segs = self.spec_segments();
        let n = self.segments.len();
        let mut best: Option<u32> = None;
        for i in 0..n
            invariant
                n == self.segments@.len(),
                segs == segments_view(self.segments@),
                best == max_index(segs.take(i as int)),
        {
            proof {
                assert(segs.take(i + 1).drop_last() =~= segs.take(i as int));
            }
            let idx = self.segments[i].index;
            best = match best {
                Some(m) => Some(
                    if idx > m {
                        idx
                    } else {
                        m
                    },
                ),
                None => Some(idx),
            };
        }
        assert(segs.take(n as int) =~= segs);
        match best {
            Some(m) => m + 1,
            None => 0,
        }
    }

    /// The sum of the segment sizes.
    pub fn total_bytes(&self) -> (r: u64)
        requires
            sum_bytes(self.spec_segments()) <= u64::MAX,
        ensures
            r == sum_bytes(self.spec_segments()),
    {
        let ghost segs = self.spec_segments();
        let n = self.segments.len();
        let mut total: u64 = 0;
        for i in 0..n
            invariant
                n == self.segments@.len(),
                segs == segments_view(self.segments@),
                sum_bytes(segs) <= u64::MAX,
                total == sum_bytes(segs.take(i as int)),
        {
            proof {
                assert(segs.take(i + 1).drop_last() =~= segs.take(i as int));
                lemma_sum_bytes_prefix(segs, i + 1);
            }
            total = total + self.segments[i].bytes;
        }
        assert(segs.take(n as int) =~= segs);
        total
    }

    /// The sum of the segment durations.
    pub fn total_duration(&self) -> (r: u64)
        requires
            sum_durations(self.spec_segments()) <= u64::MAX,
        ensures
            r == sum_durations(self.spec_segments()),
    {
        let ghost segs = self.spec_segments();
        let n = self.segments.len();
        let mut total: u64 = 0;
        for i in 0..n
            invariant
                n == self.segments@.len(),
                segs == segments_view(self.segments@),
                sum_durations(segs) <= u64::MAX,
                total == sum_durations(segs.take(i as int)),
        {
            proof {
                assert(segs.take(i + 1).drop_last() =~= segs.take(i as int));
                lemma_sum_durations_prefix(segs, i + 1);
            }
            total = total + self.segments[i].duration_secs;
        }
        assert(segs.take(n as int) =~= segs);
        total
    }
}

/// A prefix never sums to more sizes than the whole.
proof fn lemma_sum_bytes_prefix(s: Seq<SegmentView>, k: int)
    requires
        0 <= k <= s.len(),
    ensures
        sum_bytes(s.take(k)) <= sum_bytes(s),
    decreases s.len(),
{
    if k < s.len() {
        assert(s.drop_last().take(k) =~= s.take(k));
        lemma_sum_bytes_prefix(s.drop_last(), k);
    } else {
        assert(s.take(k) =~= s);
    }
}

/// A prefix never sums to a longer duration than the whole.
proof fn lemma_sum_durations_prefix(s: Seq<SegmentView>, k: int)
    requires
        0 <= k <= s.len(),
    ensures
        sum_durations(s.take(k)) <= sum_durations(s),
    decreases s.len(),
{
    if k < s.len() {
        assert(s.drop_last().take(k) =~= s.take(k));
        lemma_sum_durations_prefix(s.drop_last(), k);
    } else {
        assert(s.take(k) =~= s);
    }
}

/// Registering a segment adds its size and duration to the totals and
/// makes the next index one past it when it is the largest.
pub proof fn law_register_adds_to_totals(s: Seq<SegmentView>, seg: SegmentView)
    ensures
        sum_bytes(s.push(seg)) == sum_bytes(s) + seg.3,
        sum_durations(s.push(seg)) == sum_durations(s) + seg.2,
        max_index(s.push(seg)) matches Some(m) && m >= seg.1,
        (max_index(s) matches Some(m) ==> m <= seg.1) ==> max_index(s.push(seg)) == Some(seg.1),
{
    assert(s.push(seg).drop_last() =~= s);
}


// ---------------------------------------------------------------------------
// Which platforms use the proxy
// ---------------------------------------------------------------------------

/// Which platforms are recorded through the proxy, and the proxy's address.
#[derive(Debug, Clone)]
pub struct PlatformProxyConfig {
    pub platforms_with_proxy: Vec<String>,
    pub proxy_address: Option<String>,
    pub force_https: bool,
}

/// Platform names by their views.
pub open spec fn names_view(v: Seq<String>) -> Seq<Seq<char>> {
    v.map_values(|s: String| s@)
}

/// The platforms that use the proxy unless configured otherwise.
pub open spec fn default_proxy_platforms() -> Seq<Seq<char>> {
    seq!["pandalive"@, "winktv"@, "popkontv"@, "flextv"@, "lang"@]
}

/// A platform uses the proxy when an address is set and it is listed.
pub open spec fn spec_should_use_proxy(
    names: Seq<Seq<char>>,
    address: Option<Seq<char>>,
    platform: Seq<char>,
) -> bool {
    address is Some && names.contains(platform)
}

/// The list after adding `p`: at the end, unless it is listed already.
pub open spec fn spec_add_platform(names: Seq<Seq<char>>, p: Seq<char>) -> Seq<Seq<char>> {
    if names.contains(p) {
        names
    } else {
        names.push(p)
    }
}

/// The names other than `p`.
pub open spec fn other_than(p: Seq<char>) -> spec_fn(Seq<char>) -> bool {
    |n: Seq<char>| n != p
}

/// The list after removing every `p`.
pub open spec fn spec_remove_platform(names: Seq<Seq<char>>, p: Seq<char>) -> Seq<Seq<char>> {
    names.filter(other_than(p))
}

impl PlatformProxyConfig {
    pub open spec fn spec_names(self) -> Seq<Seq<char>> {
        names_view(self.platforms_with_proxy@)
    }

    /// Whether `platform_key` is recorded through the proxy.
    pub fn should_use_proxy(&self, platform_key: &str) -> (r: bool)
        ensures
            r == spec_should_use_proxy(self.spec_names(), opt_view(self.proxy_address), platform_key@),
    {
        self.proxy_address.is_some() && contains_name(&self.platforms_with_proxy, platform_key)
    }

    /// The proxy address for `platform_key`, or `None` when it does not use one.
    pub fn build_proxy(&self, platform_key: &str) -> (r: Option<String>)
        ensures
            opt_view(r) == (if spec_should_use_proxy(
                self.spec_names(),
                opt_view(self.proxy_address),
                platform_key@,
            ) {
                opt_view(self.proxy_address)
            } else {
                None
            }),
    {
        if self.should_use_proxy(platform_key) {
            match &self.proxy_address {
                Some(a) => Some(copy_str(a.as_str())),
                None => None,
            }
        } else {
            None
        }
    }

    /// Sets or clears the proxy address.
    pub fn set_proxy(&mut self, address: Option<&str>)
        ensures
            opt_view(final(self).proxy_address) == opt_str_view(address),
            final(self).platforms_with_proxy == old(self).platforms_with_proxy,
            final(self).force_https == old(self).force_https,
    {
        self.proxy_address = match address {
            Some(a) => Some(copy_str(a)),
            None => None,
        };
    }

    /// Lists a platform, unless it is listed already.
    pub fn add_platform(&mut self, platform: &str)
        ensures
            final(self).spec_names() == spec_add_platform(old(self).spec_names(), platform@),
            final(self).proxy_address == old(self).proxy_address,
            final(self).force_https == old(self).force_https,
    {
        if !contains_name(&self.platforms_with_proxy, platform) {
            self.platforms_with_proxy.push(copy_str(platform));
            assert(self.spec_names() =~= old(self).spec_names().push(platform@));
        }
    }

    /// Removes every listing of a platform.
    pub fn remove_platform(&mut self, platform: &str)
        ensures
            final(self).spec_names() == spec_remove_platform(old(self).spec_names(), platform@),
            final(self).proxy_address == old(self).proxy_address,
            final(self).force_https == old(self).force_https,
    {
        let ghost names = self.spec_names();
        let mut kept: Vec<String> = Vec::new();
        let n = self.platforms_with_proxy.len();
        for i in 0..n
            invariant
                n == self.platforms_with_proxy@.len(),
                names == names_view(self.platforms_with_proxy@),
                names_view(kept@) == names.take(i as int).filter(other_than(platform@)),
        {
            let ghost prev = kept@;
            proof {
                reveal(Seq::filter);
                assert(names.take(i + 1).drop_last() =~= names.take(i as int));
                assert(names.take(i + 1).last() == names[i as int]);
            }
            if !str_eq(self.platforms_with_proxy[i].as_str(), platform) {
                kept.push(copy_str(self.platforms_with_proxy[i].as_str()));
                assert(names_view(kept@) =~= names_view(prev).push(names[i as int]));
            }
        }
        assert(names.take(n as int) =~= names);
        self.platforms_with_proxy = kept;
    }
}

impl Default for PlatformProxyConfig {
    fn default() -> (r: PlatformProxyConfig)
        ensures
            r.spec_names() == default_proxy_platforms(),
            r.proxy_address is None,
            !r.force_https,
    {
        let mut v: Vec<String> = Vec::new();
        v.push(copy_str("pandalive"));
        v.push(copy_str("winktv"));
        v.push(copy_str("popkontv"));
        v.push(copy_str("flextv"));
        v.push(copy_str("lang"));
        let r = PlatformProxyConfig { platforms_with_proxy: v, proxy_address: None, force_https: false };
        assert(r.spec_names() =~= default_proxy_platforms());
        r
    }
}

/// Whether `name` is in `names`.
fn contains_name(names: &Vec<String>, name: &str) -> (r: bool)
    ensures
        r == names_view(names@).contains(name@),
{
    let ghost v = names_view(names@);
    let n = names.len();
    for i in 0..n
        invariant
            n == names@.len(),
            v == names_view(names@),
            forall|j: int| 0 <= j < i ==> v[j] != name@,
    {
        if str_eq(names[i].as_str(), name) {
            assert(v[i as int] == name@);
            return true;
        }
    }
    false
}

/// Without an address no platform uses the proxy.
pub proof fn law_no_address_no_proxy(names: Seq<Seq<char>>, platform: Seq<char>)
    ensures
        !spec_should_use_proxy(names, None, platform),
{
}

/// An added platform uses the proxy once an address is set.
pub proof fn law_added_platform_uses_proxy(
    names: Seq<Seq<char>>,
    address: Seq<char>,
    platform: Seq<char>,
)
    ensures
        spec_should_use_proxy(spec_add_platform(names, platform), Some(address), platform),
{
    if !names.contains(platform) {
        assert(names.push(platform)[names.len() as int] == platform);
    }
}

/// A removed platform does not use the proxy.
pub proof fn law_removed_platform_skips_proxy(
    names: Seq<Seq<char>>,
    address: Option<Seq<char>>,
    platform: Seq<char>,
)
    ensures
        !spec_should_use_proxy(spec_remove_platform(names, platform), address, platform),
{
    let f = other_than(platform);
    if names.filter(f).contains(platform) {
        let i = choose|i: int| 0 <= i < names.filter(f).len() && names.filter(f)[i] == platform;
        names.lemma_filter_pred(f, i);
    }
}

/// Adding a listed platform changes nothing, and removing a platform that
/// was just added to a list without it gives the list back.
pub proof fn law_add_remove_roundtrip(names: Seq<Seq<char>>, platform: Seq<char>)
    ensures
        spec_add_platform(spec_add_platform(names, platform), platform) == spec_add_platform(
            names,
            platform,
        ),
        !names.contains(platform) ==> spec_remove_platform(
            spec_add_platform(names, platform),
            platform,
        ) == names,
{
    law_added_platform_uses_proxy(names, Seq::empty(), platform);
    if !names.contains(platform) {
        reveal(Seq::filter);
        let f = other_than(platform);
        let s = names.push(platform);
        assert(s.drop_last() =~= names);
        assert(!f(s.last()));
        assert(s.filter(f) == names.filter(f));
        assert forall|i: int| 0 <= i < names.len() implies f(#[trigger] names[i]) by {
            assert(names.contains(names[i]));
        }
        lemma_filter_keeps_all(names, f);
    }
}

/// Filtering keeps a sequence whole when every element passes.
proof fn lemma_filter_keeps_all(s: Seq<Seq<char>>, f: spec_fn(Seq<char>) -> bool)
    requires
        forall|i: int| 0 <= i < s.len() ==> f(#[trigger] s[i]),
    ensures
        s.filter(f) == s,
    decreases s.len(),
{
    reveal(Seq::filter);
    if s.len() > 0 {
        let t = s.drop_last();
        assert forall|i: int| 0 <= i < t.len() implies f(#[trigger] t[i]) by {
            assert(t[i] == s[i]);
        }
        lemma_filter_keeps_all(t, f);
        assert(f(s[s.len() - 1]));
        assert(t.push(s.last()) =~= s);
    }
}

// ---------------------------------------------------------------------------
// After a recording
// ---------------------------------------------------------------------------

/// What the name `path_extension_of` stands for: the extension of the last
/// component of a path, as `std::path::Path::extension` gives it.
pub uninterp spec fn path_extension_of(path: Seq<char>) -> Option<Seq<char>>;

/// What `std::path::Path::with_extension` gives for a path and an extension.
pub uninterp spec fn path_with_extension_of(path: Seq<char>, ext: Seq<char>) -> Seq<char>;

/// Calls `Path::extension`; the result is named `path_extension_of`.
#[verifier::external_body]
fn path_extension(path: &str) -> (r: Option<String>)
    ensures
        opt_view(r) == path_extension_of(path@),
{
    std::path::Path::new(path).extension().map(|e| e.to_string_lossy().into_owned())
}

/// Calls `Path::with_extension`; the result is named `path_with_extension_of`.
/// The extension holds no path separator (`/`, nor `\\` on Windows), on which
/// recent versions of std panic.
#[verifier::external_body]
fn path_with_extension(path: &str, ext: &str) -> (r: String)
    requires
        !ext@.contains('/'),
        !ext@.contains('\\'),
    ensures
        r@ == path_with_extension_of(path@, ext@),
{
    std::path::Path::new(path).with_extension(ext).to_string_lossy().into_owned()
}

/// What to do with a finished recording.
#[derive(Debug, Clone)]
pub enum PostProcessPlan {
    /// Leave the file as it is.
    Keep,
    /// Remux the ts file into `mp4_path`, then delete it if asked.
    ConvertToMp4 { mp4_path: String, delete_original: bool },
}

/// The hook run after each recording: converts ts recordings to mp4 when
/// asked to, and may delete the ts file afterwards.
#[derive(Debug, Clone, Copy)]
pub struct DefaultPostProcessHook {
    pub convert_to_mp4: bool,
    pub delete_original: bool,
}

impl DefaultPostProcessHook {
    /// The plan for a finished recording at `output_path`: a ts file is
    /// converted to the same path with the extension mp4 when conversion is
    /// on; everything else is kept.
    pub fn plan(&self, output_path: &str) -> (r: PostProcessPlan)
        ensures
            (self.convert_to_mp4 && path_extension_of(output_path@) == Some("ts"@)) ==> (r matches PostProcessPlan::ConvertToMp4 {
                mp4_path,
                delete_original,
            } && mp4_path@ == path_with_extension_of(output_path@, "mp4"@) && delete_original
                == self.delete_original),
            !(self.convert_to_mp4 && path_extension_of(output_path@) == Some("ts"@)) ==> r is Keep,
    {
        if !self.convert_to_mp4 {
            return PostProcessPlan::Keep;
        }
        let is_ts = match path_extension(output_path) {
            Some(e) => str_eq(e.as_str(), "ts"),
            None => false,
        };
        if is_ts {
            proof {
                reveal_strlit("mp4");
            }
            PostProcessPlan::ConvertToMp4 {
                mp4_path: path_with_extension(output_path, "mp4"),
                delete_original: self.delete_original,
            }
        } else {
            PostProcessPlan::Keep
        }
    }
}

} // verus!
