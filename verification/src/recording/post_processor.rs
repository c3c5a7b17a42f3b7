//! The FFmpeg commands run after a recording, and which files count as
//! segments of it.
use vstd::prelude::*;

use super::segment_collector::is_segment_stem;
use crate::text::{chars_of, copy_str, starts_with, str_eq};

verus! {

/// Converts finished recordings with the `ffmpeg` program.
pub struct FFmpegPostProcessor;

/// Owned strings by their views.
pub open spec fn strings_view(v: Seq<String>) -> Seq<Seq<char>> {
    v.map_values(|s: String| s@)
}

/// The arguments that copy `input` into the mp4 container at `output`.
pub open spec fn spec_remux_args(input: Seq<char>, output: Seq<char>) -> Seq<Seq<char>> {
    seq!["-i"@, input, "-c"@, "copy"@, "-y"@, output]
}

/// The arguments that copy the video of `input` and re-encode its audio as
/// AAC into a fragmented mp4 at `output`.
pub open spec fn spec_aac_args(input: Seq<char>, output: Seq<char>) -> Seq<Seq<char>> {
    seq![
        "-i"@,
        input,
        "-map"@,
        "0"@,
        "-c:v"@,
        "copy"@,
        "-c:a"@,
        "aac"@,
        "-f"@,
        "mp4"@,
        "-movflags"@,
        "+faststart+frag_keyframe+empty_moov+delay_moov"@,
        "-y"@,
        output,
    ]
}

fn strings(parts: &[&str]) -> (r: Vec<String>)
    ensures
        strings_view(r@) == parts@.map_values(|p: &str| p@),
{
    let mut r: Vec<String> = Vec::new();
    let n = parts.len();
    for i in 0..n
        invariant
            n == parts@.len(),
            strings_view(r@) == parts@.take(i as int).map_values(|p: &str| p@),
    {
        let ghost prev = r@;
        r.push(copy_str(parts[i]));
        assert(strings_view(r@) =~= strings_view(prev).push(parts@[i as int]@));
        assert(parts@.take(i + 1) =~= parts@.take(i as int).push(parts@[i as int]));
        assert(strings_view(r@) =~= parts@.take(i + 1).map_values(|p: &str| p@));
    }
    assert(parts@.take(n as int) =~= parts@);
    r
}

impl FFmpegPostProcessor {
    /// The `ffmpeg` arguments of a lossless ts-to-mp4 remux.
    pub fn remux_args(input_path: &str, output_path: &str) -> (r: Vec<String>)
        ensures
            strings_view(r@) == spec_remux_args(input_path@, output_path@),
    {
        let r = strings(&["-i", input_path, "-c", "copy", "-y", output_path]);
        assert(strings_view(r@) =~= spec_remux_args(input_path@, output_path@));
        r
    }

    /// The `ffmpeg` arguments of a conversion to mp4 with AAC audio.
    pub fn aac_args(input_path: &str, output_path: &str) -> (r: Vec<String>)
        ensures
            strings_view(r@) == spec_aac_args(input_path@, output_path@),
    {
        let r = strings(
            &[
                "-i",
                input_path,
                "-map",
                "0",
                "-c:v",
                "copy",
                "-c:a",
                "aac",
                "-f",
                "mp4",
                "-movflags",
                "+faststart+frag_keyframe+empty_moov+delay_moov",
                "-y",
                output_path,
            ],
        );
        assert(strings_view(r@) =~= spec_aac_args(input_path@, output_path@));
        r
    }

    /// Whether a file name in the output directory belongs to the segments
    /// of `prefix`: it begins with the prefix and is longer than it.
    pub fn is_segment_file_name(name: &str, prefix: &str) -> (r: bool)
        ensures
            r == is_segment_stem(name@, prefix@),
    {
        proof {
            if name@.len() == prefix@.len() {
                assert(name@.subrange(0, name@.len() as int) =~= name@);
            }
        }
        starts_with(name, prefix) && !str_eq(name, prefix)
    }

    /// Of the names of a directory's entries, those of the segments of
    /// `prefix`, in the order of their characters.
    pub fn segment_file_names(names: Vec<String>, prefix: &str) -> (r: Vec<String>)
        ensures
            texts_sorted(strings_view(r@)),
            strings_view(r@).to_multiset() == strings_view(names@).filter(
                segment_of(prefix@),
            ).to_multiset(),
    {
        let mut r: Vec<String> = Vec::new();
        let n = names.len();
        proof {
            reveal(Seq::filter);
            assert(strings_view(r@) =~= strings_view(names@).take(0).filter(segment_of(prefix@)));
        }
        for i in 0..n
            invariant
                n == names@.len(),
                texts_sorted(strings_view(r@)),
                strings_view(r@).to_multiset() == strings_view(names@).take(i as int).filter(
                    segment_of(prefix@),
                ).to_multiset(),
        {
            let ghost before = strings_view(names@).take(i as int);
            let ghost after = strings_view(names@).take(i + 1);
            proof {
                reveal(Seq::filter);
                assert(after.drop_last() =~= before);
                assert(after.last() == names@[i as int]@);
            }
            if Self::is_segment_file_name(names[i].as_str(), prefix) {
                insert_sorted(&mut r, copy_str(names[i].as_str()));
                proof {
                    vstd::seq_lib::to_multiset_build(
                        before.filter(segment_of(prefix@)),
                        names@[i as int]@,
                    );
                }
            }
        }
        assert(strings_view(names@).take(n as int) =~= strings_view(names@));
        r
    }
}

/// The names of the segments of `prefix`.
pub open spec fn segment_of(prefix: Seq<char>) -> spec_fn(Seq<char>) -> bool {
    |name: Seq<char>| is_segment_stem(name, prefix)
}

/// `a` comes before `b` or equals it, comparing their characters from index
/// `i` on; a text comes before the longer texts it begins.
pub open spec fn text_le_from(a: Seq<char>, b: Seq<char>, i: int) -> bool
    decreases a.len() - i,
{
    if i >= a.len() {
        true
    } else if i >= b.len() {
        false
    } else if a[i] != b[i] {
        (a[i] as int) < (b[i] as int)
    } else {
        text_le_from(a, b, i + 1)
    }
}

/// `a` comes before `b` or equals it in the order of their characters.
pub open spec fn text_le(a: Seq<char>, b: Seq<char>) -> bool {
    text_le_from(a, b, 0)
}

/// Each text comes before or equals every later one.
pub open spec fn texts_sorted(s: Seq<Seq<char>>) -> bool {
    forall|i: int, j: int| 0 <= i < j < s.len() ==> text_le(#[trigger] s[i], #[trigger] s[j])
}

proof fn lemma_text_le_total(a: Seq<char>, b: Seq<char>, i: int)
    requires
        0 <= i,
    ensures
        text_le_from(a, b, i) || text_le_from(b, a, i),
    decreases a.len() - i,
{
    if i < a.len() && i < b.len() {
        if a[i] == b[i] {
            lemma_text_le_total(a, b, i + 1);
        } else {
            assert((a[i] as int) != (b[i] as int));
        }
    }
}

proof fn lemma_text_le_trans(a: Seq<char>, b: Seq<char>, c: Seq<char>, i: int)
    requires
        0 <= i,
        text_le_from(a, b, i),
        text_le_from(b, c, i),
    ensures
        text_le_from(a, c, i),
    decreases a.len() - i,
{
    if i < a.len() && i < b.len() && i < c.len() && a[i] == b[i] && b[i] == c[i] {
        lemma_text_le_trans(a, b, c, i + 1);
    }
}

/// Compares two texts given by their characters.
fn text_le_exec(a: &[char], b: &[char]) -> (r: bool)
    ensures
        r == text_le(a@, b@),
{
    let mut i: usize = 0;
    while i < a.len() && i < b.len() && a[i] == b[i]
        invariant
            i <= a@.len(),
            i <= b@.len(),
            text_le_from(a@, b@, 0) == text_le_from(a@, b@, i as int),
        decreases a@.len() - i,
    {
        i += 1;
    }
    if i >= a.len() {
        true
    } else if i >= b.len() {
        false
    } else {
        a[i] < b[i]
    }
}

proof fn lemma_insert_keeps_sorted(s: Seq<Seq<char>>, p: int, x: Seq<char>)
    requires
        texts_sorted(s),
        0 <= p <= s.len(),
        forall|k: int| 0 <= k < p ==> text_le(#[trigger] s[k], x),
        p < s.len() ==> !text_le(s[p], x),
    ensures
        texts_sorted(s.insert(p, x)),
{
    let t = s.insert(p, x);
    if p < s.len() {
        lemma_text_le_total(s[p], x, 0);
    }
    assert forall|i: int, j: int| 0 <= i < j < t.len() implies text_le(#[trigger] t[i], #[trigger] t[j]) by {
        if i < p && j > p {
            assert(text_le(s[i], s[j - 1]));
        } else if i == p && j > p {
            if j - 1 > p {
                assert(text_le(s[p], s[j - 1]));
                lemma_text_le_trans(x, s[p], s[j - 1], 0);
            }
        } else if i > p {
            assert(text_le(s[i - 1], s[j - 1]));
        }
    }
}

/// Puts `x` into the sorted `v` after the texts that come before it or equal it.
fn insert_sorted(v: &mut Vec<String>, x: String)
    requires
        texts_sorted(strings_view(old(v)@)),
    ensures
        texts_sorted(strings_view(final(v)@)),
        strings_view(final(v)@).to_multiset() == strings_view(old(v)@).to_multiset().insert(x@),
{
    broadcast use vstd::seq_lib::to_multiset_insert;

    let xc = chars_of(x.as_str());
    let n = v.len();
    let mut p: usize = 0;
    while p < n
        invariant
            n == v@.len(),
            p <= n,
            xc@ == x@,
            forall|k: int| 0 <= k < p ==> text_le(#[trigger] strings_view(v@)[k], x@),
        ensures
            p <= n,
            forall|k: int| 0 <= k < p ==> text_le(#[trigger] strings_view(v@)[k], x@),
            p < n ==> !text_le(strings_view(v@)[p as int], x@),
        decreases n - p,
    {
        let vc = chars_of(v[p].as_str());
        if !text_le_exec(vc.as_slice(), xc.as_slice()) {
            break;
        }
        p += 1;
    }
    let ghost before = strings_view(v@);
    proof {
        lemma_insert_keeps_sorted(before, p as int, x@);
    }
    v.insert(p, x);
    assert(strings_view(v@) =~= before.insert(p as int, x@));
}

} // verus!
