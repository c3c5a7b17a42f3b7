//! Extraction of room ids from live URLs.
use vstd::prelude::*;

use crate::text::{
    avoids, copy_str, has_prefix, is_segment, opt_view, segment_before, strip_prefix,
};

verus! {

/// The part of `s` before the first character in `stops`.
pub open spec fn segment(s: Seq<char>, stops: Seq<char>) -> Seq<char>
    decreases s.len(),
{
    if s.len() == 0 {
        s
    } else if stops.contains(s[0]) {
        seq![]
    } else {
        seq![s[0]] + segment(s.subrange(1, s.len() as int), stops)
    }
}

/// `is_segment` characterises `segment`.
pub proof fn lemma_segment_unique(s: Seq<char>, stops: Seq<char>, r: Seq<char>)
    requires
        is_segment(s, stops, r),
    ensures
        r == segment(s, stops),
    decreases s.len(),
{
    if s.len() == 0 {
        assert(r =~= s);
    } else if stops.contains(s[0]) {
        if r.len() > 0 {
            assert(r[0] == s[0]);
        }
        assert(r =~= Seq::<char>::empty());
    } else {
        let t = s.subrange(1, s.len() as int);
        assert(r.len() > 0) by {
            if r.len() == 0 {
                assert(s[0] == s[r.len() as int]);
            }
        }
        let rt = r.subrange(1, r.len() as int);
        assert(rt =~= t.subrange(0, rt.len() as int));
        assert forall|i: int| 0 <= i < rt.len() implies !stops.contains(#[trigger] rt[i]) by {
            assert(rt[i] == r[i + 1]);
        }
        if rt.len() < t.len() {
            assert(t[rt.len() as int] == s[r.len() as int]);
        }
        assert(is_segment(t, stops, rt));
        lemma_segment_unique(t, stops, rt);
        assert(r =~= seq![s[0]] + rt);
    }
}

/// A text that avoids `stops` is its own segment.
pub proof fn lemma_segment_of_clean(s: Seq<char>, stops: Seq<char>)
    requires
        avoids(s, stops),
    ensures
        segment(s, stops) == s,
{
    assert(is_segment(s, stops, s)) by {
        assert(s == s.subrange(0, s.len() as int));
    }
    lemma_segment_unique(s, stops, s);
}

/// The id taken after the first prefix of `prefixes` that begins `url` and
/// leaves a non-empty segment; prefixes that leave an empty one are skipped.
pub open spec fn room_from_prefixes(
    url: Seq<char>,
    prefixes: Seq<Seq<char>>,
    stops: Seq<char>,
) -> Option<Seq<char>>
    decreases prefixes.len(),
{
    if prefixes.len() == 0 {
        None
    } else {
        let p = prefixes[0];
        if has_prefix(url, p) && segment(url.subrange(p.len() as int, url.len() as int), stops).len()
            > 0 {
            Some(segment(url.subrange(p.len() as int, url.len() as int), stops))
        } else {
            room_from_prefixes(url, prefixes.subrange(1, prefixes.len() as int), stops)
        }
    }
}

/// A URL made of the first prefix and a non-empty id free of stops gives
/// that id back.
pub proof fn lemma_room_after_first_prefix(prefixes: Seq<Seq<char>>, id: Seq<char>, stops: Seq<char>)
    requires
        prefixes.len() > 0,
        id.len() > 0,
        avoids(id, stops),
    ensures
        room_from_prefixes(prefixes[0] + id, prefixes, stops) == Some(id),
{
    let p = prefixes[0];
    let url = p + id;
    assert(url.subrange(0, p.len() as int) =~= p);
    assert(url.subrange(p.len() as int, url.len() as int) =~= id);
    lemma_segment_of_clean(id, stops);
}

/// A list of string literals by their views.
pub open spec fn strs_view(v: Seq<&str>) -> Seq<Seq<char>> {
    v.map_values(|s: &str| s@)
}

/// The room id after the first matching prefix, cut at the first stop.
pub fn room_after_prefixes(url: &str, prefixes: &[&str], stops: &[char]) -> (r: Option<String>)
    ensures
        opt_view(r) == room_from_prefixes(url@, strs_view(prefixes@), stops@),
{
    let n = prefixes.len();
    let ghost all = strs_view(prefixes@);
    assert(all.subrange(0, n as int) =~= all);
    for i in 0..n
        invariant
            n == prefixes@.len(),
            all == strs_view(prefixes@),
            room_from_prefixes(url@, all, stops@) == room_from_prefixes(
                url@,
                all.subrange(i as int, n as int),
                stops@,
            ),
    {
        let ghost rest = all.subrange(i as int, n as int);
        assert(rest[0] == prefixes@[i as int]@);
        assert(rest.subrange(1, rest.len() as int) =~= all.subrange(i + 1, n as int));
        if let Some(r) = strip_prefix(url, prefixes[i]) {
            let id = segment_before(r, stops);
            proof {
                lemma_segment_unique(r@, stops@, id@);
            }
            if id.unicode_len() > 0 {
                return Some(copy_str(id));
            }
        }
    }
    None
}

} // verus!
