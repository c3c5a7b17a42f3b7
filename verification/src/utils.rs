//! File-name cleanup, time stamps and small formatting helpers.
use vstd::prelude::*;

use crate::i18n::{lookup, table_view};
use crate::text::{
    chars_of, contains, copy_str, lemma_replace_shortens, str_eq, decimal, decimal2, push_char, push_decimal, push_decimal2, replace,
    is_char, replace_all, string_from_chars, trim, trim_by, trim_char, trim_matches, trim_ws,
};

verus! {

// ---------------------------------------------------------------------------
// File names
// ---------------------------------------------------------------------------

/// Characters that may not stay in a file name; each becomes `_`.
pub open spec fn is_forbidden_in_filename(c: char) -> bool {
    c == '\\' || c == '/' || c == ':' || c == '*' || c == '?' || c == '"' || c == '<' || c
        == '>' || c == '|' || c == '&' || c == '#' || c == '.' || c == '，' || c == ',' || c
        == '~' || c == '！' || c == '·' || c == ' '
}

/// The emoji blocks that file names drop.
pub open spec fn spec_is_emoji(c: char) -> bool {
    let u = c as u32;
    (0x1F1E0 <= u <= 0x1F1FF) || (0x1F300 <= u <= 0x1F5FF) || (0x1F600 <= u <= 0x1F64F) || (
    0x1F680 <= u <= 0x1F6FF) || (0x1F700 <= u <= 0x1F77F) || (0x1F780 <= u <= 0x1F7FF) || (
    0x1F800 <= u <= 0x1F8FF) || (0x1F900 <= u <= 0x1F9FF) || (0x1FA00 <= u <= 0x1FA6F) || (
    0x1FA70 <= u <= 0x1FAFF) || (0x2702 <= u <= 0x27B0)
}

/// Whether `ch` lies in one of the emoji blocks.
pub fn is_emoji(ch: char) -> (r: bool)
    ensures
        r == spec_is_emoji(ch),
{
    let u = ch as u32;
    (0x1F1E0 <= u && u <= 0x1F1FF) || (0x1F300 <= u && u <= 0x1F5FF) || (0x1F600 <= u && u
        <= 0x1F64F) || (0x1F680 <= u && u <= 0x1F6FF) || (0x1F700 <= u && u <= 0x1F77F) || (
    0x1F780 <= u && u <= 0x1F7FF) || (0x1F800 <= u && u <= 0x1F8FF) || (0x1F900 <= u && u
        <= 0x1F9FF) || (0x1FA00 <= u && u <= 0x1FA6F) || (0x1FA70 <= u && u <= 0x1FAFF) || (
    0x2702 <= u && u <= 0x27B0)
}

/// `text` with every emoji replaced by `replacement`.
pub open spec fn spec_remove_emojis(text: Seq<char>, replacement: Seq<char>) -> Seq<char>
    decreases text.len(),
{
    if text.len() == 0 {
        text
    } else {
        spec_remove_emojis(text.drop_last(), replacement) + if spec_is_emoji(text.last()) {
            replacement
        } else {
            seq![text.last()]
        }
    }
}

/// Replaces every emoji of `text` by `replacement`.
pub fn remove_emojis(text: &str, replacement: &str) -> (r: String)
    ensures
        r@ == spec_remove_emojis(text@, replacement@),
{
    let cs = chars_of(text);
    let n = cs.len();
    let mut r = String::new();
    for i in 0..n
        invariant
            n == cs@.len(),
            cs@ == text@,
            r@ == spec_remove_emojis(text@.take(i as int), replacement@),
    {
        let c = cs[i];
        if is_emoji(c) {
            r.append(replacement);
        } else {
            push_char(&mut r, c);
        }
        proof {
            let t = text@.take(i + 1);
            assert(t.drop_last() =~= text@.take(i as int));
            assert(t.last() == c);
        }
    }
    assert(text@.take(n as int) =~= text@);
    r
}

/// A character with the forbidden ones turned into `_`.
pub open spec fn sanitize_char(c: char) -> char {
    if is_forbidden_in_filename(c) {
        '_'
    } else {
        c
    }
}

/// What `clean_filename` computes, step by step: trim white space, turn
/// full-width parentheses into ASCII ones, turn forbidden characters into
/// `_`, turn emojis into `_`, collapse `__` into `_` (one pass), and strip
/// `_` from both ends.
pub open spec fn spec_clean_filename(input: Seq<char>) -> Seq<char> {
    let s1 = trim_ws(input);
    let s2 = replace_all(replace_all(s1, seq!['（'], seq!['(']), seq!['）'], seq![')']);
    let s3 = s2.map_values(|c: char| sanitize_char(c));
    let s4 = spec_remove_emojis(s3, seq!['_']);
    let s5 = replace_all(s4, seq!['_', '_'], seq!['_']);
    trim_char(s5, '_')
}

/// Makes a text safe to use as a file name.
pub fn clean_filename(input: &str) -> (r: String)
    ensures
        r@ == spec_clean_filename(input@),
{
    let t = trim(input);
    proof {
        reveal_strlit("（");
        reveal_strlit("(");
        reveal_strlit("）");
        reveal_strlit(")");
        reveal_strlit("_");
        reveal_strlit("__");
        assert("（"@ =~= seq!['（']);
        assert("("@ =~= seq!['(']);
        assert("）"@ =~= seq!['）']);
        assert(")"@ =~= seq![')']);
        assert("_"@ =~= seq!['_']);
        assert("__"@ =~= seq!['_', '_']);
    }
    let s2a = replace(t, "（", "(");
    let s2 = replace(s2a.as_str(), "）", ")");
    let cs = chars_of(s2.as_str());
    let n = cs.len();
    let mut mapped: Vec<char> = Vec::new();
    for i in 0..n
        invariant
            n == cs@.len(),
            mapped@ == cs@.take(i as int).map_values(|c: char| sanitize_char(c)),
    {
        let c = cs[i];
        let m = if is_forbidden_exec(c) {
            '_'
        } else {
            c
        };
        mapped.push(m);
        assert(cs@.take(i + 1).map_values(|c: char| sanitize_char(c)) =~= cs@.take(
            i as int,
        ).map_values(|c: char| sanitize_char(c)).push(m));
    }
    assert(cs@.take(n as int) =~= cs@);
    let s3 = string_from_chars(mapped.as_slice());
    let s4 = remove_emojis(s3.as_str(), "_");
    let s5 = replace(s4.as_str(), "__", "_");
    copy_str(trim_matches(s5.as_str(), '_'))
}

/// A character that may stay in a cleaned file name: neither forbidden nor
/// an emoji.
pub open spec fn filename_safe(c: char) -> bool {
    !is_forbidden_in_filename(c) && !spec_is_emoji(c)
}

/// Every character of `s` satisfies `ok`.
pub open spec fn all_chars(s: Seq<char>, ok: spec_fn(char) -> bool) -> bool {
    forall|i: int| 0 <= i < s.len() ==> ok(#[trigger] s[i])
}

/// Replacing with a text whose characters satisfy `ok` keeps every
/// character satisfying `ok`.
proof fn lemma_replace_keeps(s: Seq<char>, p: Seq<char>, r: Seq<char>, ok: spec_fn(char) -> bool)
    requires
        all_chars(s, ok),
        all_chars(r, ok),
    ensures
        all_chars(replace_all(s, p, r), ok),
    decreases s.len(),
{
    if p.len() == 0 || s.len() < p.len() {
    } else {
        let k: int = if s.subrange(0, p.len() as int) == p {
            p.len() as int
        } else {
            1
        };
        let t = s.subrange(k, s.len() as int);
        assert forall|i: int| 0 <= i < t.len() implies ok(#[trigger] t[i]) by {
            assert(t[i] == s[i + k]);
        }
        lemma_replace_keeps(t, p, r, ok);
        let head = if k == 1 {
            seq![s[0]]
        } else {
            r
        };
        let out = head + replace_all(t, p, r);
        assert forall|i: int| 0 <= i < out.len() implies ok(#[trigger] out[i]) by {
            if i < head.len() {
                if k == 1 {
                    assert(out[i] == s[0]);
                } else {
                    assert(out[i] == r[i]);
                }
            } else {
                assert(out[i] == replace_all(t, p, r)[i - head.len()]);
            }
        }
    }
}

/// Replacing the emojis of a text free of forbidden characters by `_`
/// leaves only safe characters.
proof fn lemma_remove_emojis_safe(text: Seq<char>)
    requires
        forall|i: int| 0 <= i < text.len() ==> !is_forbidden_in_filename(#[trigger] text[i]),
    ensures
        all_chars(spec_remove_emojis(text, seq!['_']), |c: char| filename_safe(c)),
    decreases text.len(),
{
    if text.len() > 0 {
        let t = text.drop_last();
        assert forall|i: int| 0 <= i < t.len() implies !is_forbidden_in_filename(#[trigger] t[i]) by {
            assert(t[i] == text[i]);
        }
        lemma_remove_emojis_safe(t);
        let head = spec_remove_emojis(t, seq!['_']);
        let tail = if spec_is_emoji(text.last()) {
            seq!['_']
        } else {
            seq![text.last()]
        };
        let out = head + tail;
        assert(!is_forbidden_in_filename(text[text.len() - 1]));
        assert forall|i: int| 0 <= i < out.len() implies filename_safe(#[trigger] out[i]) by {
            if i >= head.len() {
                assert(out[i] == tail[i - head.len()]);
            } else {
                assert(out[i] == head[i]);
            }
        }
    }
}

/// What `trim_by` leaves is a piece of the text that neither begins nor
/// ends with a dropped character.
proof fn lemma_trim_by_piece(s: Seq<char>, drop: spec_fn(char) -> bool)
    ensures
        exists|a: int, b: int|
            0 <= a <= b <= s.len() && #[trigger] trim_by(s, drop) == s.subrange(a, b),
        trim_by(s, drop).len() > 0 ==> !drop(trim_by(s, drop)[0]) && !drop(
            trim_by(s, drop).last(),
        ),
    decreases s.len(),
{
    if s.len() == 0 {
        assert(trim_by(s, drop) == s.subrange(0, 0));
    } else if drop(s[0]) {
        let t = s.subrange(1, s.len() as int);
        lemma_trim_by_piece(t, drop);
        let (a, b) = choose|a: int, b: int|
            0 <= a <= b <= t.len() && #[trigger] trim_by(t, drop) == t.subrange(a, b);
        assert(t.subrange(a, b) =~= s.subrange(a + 1, b + 1));
    } else if drop(s.last()) {
        let t = s.drop_last();
        lemma_trim_by_piece(t, drop);
        let (a, b) = choose|a: int, b: int|
            0 <= a <= b <= t.len() && #[trigger] trim_by(t, drop) == t.subrange(a, b);
        assert(t.subrange(a, b) =~= s.subrange(a, b));
    } else {
        assert(trim_by(s, drop) == s.subrange(0, s.len() as int));
    }
}

/// A cleaned file name holds no forbidden character and no emoji, and
/// neither begins nor ends with `_`.
pub proof fn law_clean_filename_safe(input: Seq<char>)
    ensures
        all_chars(spec_clean_filename(input), |c: char| filename_safe(c)),
        spec_clean_filename(input).len() > 0 ==> spec_clean_filename(input)[0] != '_'
            && spec_clean_filename(input).last() != '_',
{
    let s1 = trim_ws(input);
    let s2 = replace_all(replace_all(s1, seq!['（'], seq!['(']), seq!['）'], seq![')']);
    let s3 = s2.map_values(|c: char| sanitize_char(c));
    let s4 = spec_remove_emojis(s3, seq!['_']);
    let s5 = replace_all(s4, seq!['_', '_'], seq!['_']);
    let ok = |c: char| filename_safe(c);
    assert forall|i: int| 0 <= i < s3.len() implies !is_forbidden_in_filename(#[trigger] s3[i]) by {
        assert(s3[i] == sanitize_char(s2[i]));
    }
    lemma_remove_emojis_safe(s3);
    assert(all_chars(seq!['_'], ok)) by {
        assert forall|i: int| 0 <= i < seq!['_'].len() implies ok(#[trigger] seq!['_'][i]) by {
            assert(seq!['_'][i] == '_');
        }
    }
    lemma_replace_keeps(s4, seq!['_', '_'], seq!['_'], ok);
    lemma_trim_by_piece(s5, is_char('_'));
    let out = trim_by(s5, is_char('_'));
    let (a, b) = choose|a: int, b: int|
        0 <= a <= b <= s5.len() && #[trigger] trim_by(s5, is_char('_')) == s5.subrange(a, b);
    assert forall|i: int| 0 <= i < out.len() implies ok(#[trigger] out[i]) by {
        assert(out[i] == s5[i + a]);
    }
}

/// Whether `c` is one of the characters replaced in file names.
fn is_forbidden_exec(c: char) -> (r: bool)
    ensures
        r == is_forbidden_in_filename(c),
{
    c == '\\' || c == '/' || c == ':' || c == '*' || c == '?' || c == '"' || c == '<' || c
        == '>' || c == '|' || c == '&' || c == '#' || c == '.' || c == '，' || c == ',' || c
        == '~' || c == '！' || c == '·' || c == ' '
}

// ---------------------------------------------------------------------------
// Durations and time stamps
// ---------------------------------------------------------------------------

/// `HH:MM:SS` for a number of seconds (hours may exceed two digits).
pub open spec fn spec_format_duration(secs: nat) -> Seq<char> {
    decimal2(secs / 3600) + seq![':'] + decimal2((secs % 3600) / 60) + seq![':'] + decimal2(
        secs % 60,
    )
}

/// Formats a number of seconds as `HH:MM:SS`.
pub fn format_duration(secs: u64) -> (r: String)
    ensures
        r@ == spec_format_duration(secs as nat),
{
    let mut r = String::new();
    push_decimal2(&mut r, secs / 3600);
    push_char(&mut r, ':');
    push_decimal2(&mut r, (secs % 3600) / 60);
    push_char(&mut r, ':');
    push_decimal2(&mut r, secs % 60);
    r
}

/// A cleaned file name holds none of the characters `\\ / : * ? " < > |`
/// that file systems forbid, nor `& # . ， , ~ ！ ·` or a space.
pub proof fn law_clean_filename_no_reserved(input: Seq<char>)
    ensures
        forall|i: int|
            0 <= i < spec_clean_filename(input).len() ==> {
                let c = #[trigger] spec_clean_filename(input)[i];
                &&& c != '\\'
                &&& c != '/'
                &&& c != ':'
                &&& c != '*'
                &&& c != '?'
                &&& c != '"'
                &&& c != '<'
                &&& c != '>'
                &&& c != '|'
                &&& c != '&'
                &&& c != '#'
                &&& c != '.'
                &&& c != '，'
                &&& c != ','
                &&& c != '~'
                &&& c != '！'
                &&& c != '·'
                &&& c != ' '
            },
{
    law_clean_filename_safe(input);
    let r = spec_clean_filename(input);
    assert forall|i: int| 0 <= i < r.len() implies !is_forbidden_in_filename(#[trigger] r[i]) by {
        assert((|c: char| filename_safe(c))(r[i]));
    }
}

/// The hours, minutes and seconds shown by `format_duration` add up to the
/// number of seconds formatted, and minutes and seconds stay below 60.
pub proof fn law_format_duration_parts(secs: nat)
    ensures
        (secs / 3600) * 3600 + ((secs % 3600) / 60) * 60 + secs % 60 == secs,
        (secs % 3600) / 60 < 60,
        secs % 60 < 60,
{
}

/// `n` in decimal, padded with zeros on the left to at least `w` digits.
pub open spec fn decimal_padded(n: nat, w: nat) -> Seq<char> {
    let d = decimal(n);
    if d.len() >= w {
        d
    } else {
        Seq::new((w - d.len()) as nat, |i: int| '0') + d
    }
}

/// A signed number as `{:0w$}` prints it: the sign counts in the width.
pub open spec fn signed_padded(n: int, w: nat) -> Seq<char> {
    if n < 0 {
        seq!['-'] + decimal_padded((-n) as nat, if w > 0 {
            (w - 1) as nat
        } else {
            0
        })
    } else {
        decimal_padded(n as nat, w)
    }
}

/// A local date and time, as read from the clock.
#[derive(Debug, Clone, Copy, PartialEq, Eq, Structural)]
pub struct CalendarTime {
    pub year: i32,
    pub month: u8,
    pub day: u8,
    pub hour: u8,
    pub minute: u8,
    pub second: u8,
}

impl CalendarTime {
    /// The fields lie in the ranges of a calendar date and a time of day.
    pub open spec fn is_valid(self) -> bool {
        &&& 1 <= self.month <= 12
        &&& 1 <= self.day <= 31
        &&& self.hour < 24
        &&& self.minute < 60
        &&& self.second < 60
    }

    /// `YYYY-MM-DD_hh-mm-ss`.
    pub open spec fn spec_stamp(self) -> Seq<char> {
        signed_padded(self.year as int, 4) + seq!['-'] + decimal2(self.month as nat) + seq!['-']
            + decimal2(self.day as nat) + seq!['_'] + decimal2(self.hour as nat) + seq!['-']
            + decimal2(self.minute as nat) + seq!['-'] + decimal2(self.second as nat)
    }

    /// `YYYY-MM-DD`.
    pub open spec fn spec_date(self) -> Seq<char> {
        signed_padded(self.year as int, 4) + seq!['-'] + decimal2(self.month as nat) + seq!['-']
            + decimal2(self.day as nat)
    }

    /// The date and time as `YYYY-MM-DD_hh-mm-ss`.
    pub fn stamp(&self) -> (r: String)
        ensures
            r@ == self.spec_stamp(),
    {
        let mut r = self.date();
        push_char(&mut r, '_');
        push_decimal2(&mut r, self.hour as u64);
        push_char(&mut r, '-');
        push_decimal2(&mut r, self.minute as u64);
        push_char(&mut r, '-');
        push_decimal2(&mut r, self.second as u64);
        r
    }

    /// The date as `YYYY-MM-DD`.
    pub fn date(&self) -> (r: String)
        ensures
            r@ == self.spec_date(),
    {
        let mut r = String::new();
        push_signed_padded(&mut r, self.year as i64, 4);
        push_char(&mut r, '-');
        push_decimal2(&mut r, self.month as u64);
        push_char(&mut r, '-');
        push_decimal2(&mut r, self.day as u64);
        r
    }
}

/// Appends `n` padded with zeros to at least `w` digits.
pub fn push_decimal_padded(out: &mut String, n: u64, w: u64)
    ensures
        final(out)@ == old(out)@ + decimal_padded(n as nat, w as nat),
{
    let mut digits = String::new();
    push_decimal(&mut digits, n);
    let len = digits.unicode_len() as u64;
    let ghost start = out@;
    if len < w {
        let pad = w - len;
        let mut k: u64 = 0;
        while k < pad
            invariant
                k <= pad,
                out@ == start + Seq::new(k as nat, |i: int| '0'),
            decreases pad - k,
        {
            push_char(out, '0');
            k += 1;
            assert(out@ =~= start + Seq::new(k as nat, |i: int| '0'));
        }
        assert(decimal_padded(n as nat, w as nat) =~= Seq::new(pad as nat, |i: int| '0')
            + digits@);
    }
    out.append(digits.as_str());
    assert(out@ =~= start + decimal_padded(n as nat, w as nat));
}

/// Appends a signed number padded as `{:0w$}` pads it.
pub fn push_signed_padded(out: &mut String, n: i64, w: u64)
    requires
        n > i64::MIN,
    ensures
        final(out)@ == old(out)@ + signed_padded(n as int, w as nat),
{
    if n < 0 {
        push_char(out, '-');
        let ghost mid = out@;
        push_decimal_padded(out, (-n) as u64, if w > 0 {
            w - 1
        } else {
            0
        });
        assert(out@ =~= old(out)@ + signed_padded(n as int, w as nat));
    } else {
        push_decimal_padded(out, n as u64, w);
    }
}

// ---------------------------------------------------------------------------
// File name generation
// ---------------------------------------------------------------------------

/// The non-empty texts among `parts`, joined with `_`.
pub open spec fn join_nonempty(parts: Seq<Seq<char>>) -> Seq<char>
    decreases parts.len(),
{
    if parts.len() == 0 {
        seq![]
    } else {
        let head = join_nonempty(parts.drop_last());
        let last = parts.last();
        if last.len() == 0 {
            head
        } else if head.len() == 0 {
            last
        } else {
            head + seq!['_'] + last
        }
    }
}

/// Repeats the collapsing of `__` into `_` until none is left.
pub open spec fn collapse_underscores(s: Seq<char>) -> Seq<char>
    decreases s.len(),
{
    let t = replace_all(s, seq!['_', '_'], seq!['_']);
    if t.len() < s.len() {
        collapse_underscores(t)
    } else {
        s
    }
}

/// What `generate_filename` computes at the time stamp `stamp`.
pub open spec fn spec_generate_filename(
    anchor: Seq<char>,
    title: Option<Seq<char>>,
    platform: Option<Seq<char>>,
    template: Option<Seq<char>>,
    stamp: Seq<char>,
) -> Seq<char> {
    let title_text = match title {
        Some(t) => t,
        None => seq![],
    };
    let plain = join_nonempty(seq![anchor, title_text, stamp]);
    match template {
        Some(tpl) => {
            let f1 = replace_all(tpl, "{anchor_name}"@, anchor);
            let f2 = replace_all(f1, "{title}"@, title_text);
            let f3 = replace_all(f2, "{time}"@, stamp);
            let f4 = replace_all(
                f3,
                "{platform}"@,
                match platform {
                    Some(p) => p,
                    None => seq![],
                },
            );
            let f5 = trim_char(collapse_underscores(f4), '_');
            if f5.len() == 0 {
                plain
            } else {
                f5
            }
        },
        None => plain,
    }
}

/// Replacing never touches a prefix that lacks the pattern's first character.
proof fn lemma_replace_after_prefix(x: Seq<char>, y: Seq<char>, p: Seq<char>, r: Seq<char>)
    requires
        p.len() > 0,
        !x.contains(p[0]),
    ensures
        replace_all(x + y, p, r) == x + replace_all(y, p, r),
    decreases x.len(),
{
    let xy = x + y;
    if x.len() == 0 {
        assert(xy =~= y);
    } else {
        let x1 = x.subrange(1, x.len() as int);
        assert(xy[0] == x[0]);
        assert(x[0] != p[0]) by {
            if x[0] == p[0] {
                assert(x.contains(p[0]));
            }
        }
        assert(!x1.contains(p[0])) by {
            if x1.contains(p[0]) {
                let k = choose|k: int| 0 <= k < x1.len() && x1[k] == p[0];
                assert(x[k + 1] == p[0]);
                assert(x.contains(p[0]));
            }
        }
        lemma_replace_after_prefix(x1, y, p, r);
        assert(xy.subrange(1, xy.len() as int) =~= x1 + y);
        assert(x =~= seq![x[0]] + x1);
        if xy.len() >= p.len() {
            assert(xy.subrange(0, p.len() as int)[0] == x[0]);
            assert(xy.subrange(0, p.len() as int) != p);
            assert(replace_all(xy, p, r) == seq![x[0]] + replace_all(x1 + y, p, r));
            assert(seq![x[0]] + (x1 + replace_all(y, p, r)) =~= x + replace_all(y, p, r));
        } else {
            assert(replace_all(y, p, r) == y);
        }
    }
}

/// A text without two `_` in a row is left as it is by collapsing `__`.
proof fn lemma_no_double_underscore(s: Seq<char>)
    requires
        forall|i: int| 0 <= i < s.len() - 1 ==> !(#[trigger] s[i] == '_' && s[i + 1] == '_'),
    ensures
        replace_all(s, seq!['_', '_'], seq!['_']) == s,
        collapse_underscores(s) == s,
    decreases s.len(),
{
    if s.len() >= 2 {
        let s1 = s.subrange(1, s.len() as int);
        assert(s.subrange(0, 2)[0] == s[0] && s.subrange(0, 2)[1] == s[1]);
        assert(s.subrange(0, 2) != seq!['_', '_']) by {
            if s.subrange(0, 2) == seq!['_', '_'] {
                assert(seq!['_', '_'][0] == '_' && seq!['_', '_'][1] == '_');
                assert(s[0] == '_' && s[1] == '_');
            }
        }
        assert forall|i: int| 0 <= i < s1.len() - 1 implies !(#[trigger] s1[i] == '_' && s1[i + 1]
            == '_') by {
            assert(s1[i] == s[i + 1] && s1[i + 1] == s[i + 2]);
            if s[i + 1] == '_' && s[i + 2] == '_' {
                assert(s[(i + 1) + 1] == '_');
            }
        }
        lemma_no_double_underscore(s1);
        assert(s =~= seq![s[0]] + s1);
    }
}

/// A text that neither begins nor ends with `_` keeps its ends when `_` is trimmed.
proof fn lemma_trim_underscore_keeps(s: Seq<char>)
    requires
        s.len() > 0,
        s[0] != '_',
        s.last() != '_',
    ensures
        trim_char(s, '_') == s,
{
    assert(!is_char('_')(s[0]));
    assert(!is_char('_')(s.last()));
}

/// A template that is just `{title}` names the file after the title: a
/// non-empty title without `_` or `{` is the whole name, whatever the
/// streamer, platform and time.
pub proof fn law_title_template(
    anchor: Seq<char>,
    title: Seq<char>,
    platform: Option<Seq<char>>,
    stamp: Seq<char>,
)
    requires
        title.len() > 0,
        !title.contains('_'),
        !title.contains('{'),
    ensures
        spec_generate_filename(anchor, Some(title), platform, Some("{title}"@), stamp) == title,
{
    reveal_strlit("{anchor_name}");
    reveal_strlit("{title}");
    reveal_strlit("{time}");
    reveal_strlit("{platform}");
    let tp = "{title}"@;
    assert(replace_all(tp, "{anchor_name}"@, anchor) == tp);
    assert(tp.subrange(0, 7) =~= tp);
    assert(replace_all(tp.subrange(7, 7), tp, title) == tp.subrange(7, 7));
    assert(tp.subrange(7, 7) =~= Seq::<char>::empty());
    assert(title + Seq::<char>::empty() =~= title);
    assert(replace_all(tp, tp, title) == title);
    let pt = match platform {
        Some(p) => p,
        None => seq![],
    };
    lemma_replace_after_prefix(title, Seq::empty(), "{time}"@, stamp);
    lemma_replace_after_prefix(title, Seq::empty(), "{platform}"@, pt);
    assert(forall|i: int| 0 <= i < title.len() ==> title[i] != '_');
    lemma_no_double_underscore(title);
    assert(title.contains(title[0]));
    assert(title.contains(title.last()));
    lemma_trim_underscore_keeps(title);
}

/// A template `{anchor_name}_{title}` names the file after the streamer and
/// the title joined by `_`, when neither is empty nor holds `_` or `{`,
/// whatever the platform and time.
pub proof fn law_anchor_title_template(
    anchor: Seq<char>,
    title: Seq<char>,
    platform: Option<Seq<char>>,
    stamp: Seq<char>,
)
    requires
        anchor.len() > 0,
        title.len() > 0,
        !anchor.contains('_'),
        !anchor.contains('{'),
        !title.contains('_'),
        !title.contains('{'),
    ensures
        spec_generate_filename(anchor, Some(title), platform, Some("{anchor_name}_{title}"@), stamp)
            == anchor + seq!['_'] + title,
{
    reveal_strlit("{anchor_name}_{title}");
    reveal_strlit("{anchor_name}");
    reveal_strlit("{title}");
    reveal_strlit("{time}");
    reveal_strlit("{platform}");
    let tpl = "{anchor_name}_{title}"@;
    let ap = "{anchor_name}"@;
    let tp = "{title}"@;
    assert(tpl.subrange(0, 13) =~= ap);
    assert(tpl.subrange(13, 21) =~= seq!['_'] + tp);
    assert(replace_all(tpl.subrange(13, 21), ap, anchor) == tpl.subrange(13, 21));
    assert(replace_all(tpl, ap, anchor) == anchor + (seq!['_'] + tp));
    let head = anchor + seq!['_'];
    assert(!head.contains('{')) by {
        if head.contains('{') {
            let k = choose|k: int| 0 <= k < head.len() && head[k] == '{';
            if k < anchor.len() {
                assert(anchor[k] == '{');
                assert(anchor.contains('{'));
            }
        }
    }
    assert(anchor + (seq!['_'] + tp) =~= head + tp);
    lemma_replace_after_prefix(head, tp, tp, title);
    assert(tp.subrange(0, 7) =~= tp);
    assert(tp.subrange(7, 7) =~= Seq::<char>::empty());
    assert(replace_all(tp.subrange(7, 7), tp, title) == tp.subrange(7, 7));
    assert(title + Seq::<char>::empty() =~= title);
    assert(replace_all(tp, tp, title) == title);
    let s = head + title;
    assert(!s.contains('{')) by {
        if s.contains('{') {
            let k = choose|k: int| 0 <= k < s.len() && s[k] == '{';
            if k < head.len() {
                assert(head[k] == '{');
                assert(head.contains('{'));
            } else {
                assert(title[k - head.len()] == '{');
                assert(title.contains('{'));
            }
        }
    }
    let pt = match platform {
        Some(p) => p,
        None => seq![],
    };
    assert(s + Seq::<char>::empty() =~= s);
    lemma_replace_after_prefix(s, Seq::empty(), "{time}"@, stamp);
    lemma_replace_after_prefix(s, Seq::empty(), "{platform}"@, pt);
    assert forall|i: int| 0 <= i < s.len() - 1 implies !(#[trigger] s[i] == '_' && s[i + 1]
        == '_') by {
        if i < anchor.len() {
            assert(s[i] == anchor[i]);
            if anchor[i] == '_' {
                assert(anchor.contains('_'));
            }
        } else {
            assert(s[i + 1] == title[i + 1 - head.len()]);
            if title[i + 1 - head.len()] == '_' {
                assert(title.contains('_'));
            }
        }
    }
    lemma_no_double_underscore(s);
    assert(s[0] == anchor[0]);
    assert(anchor.contains(anchor[0]));
    assert(s.last() == title.last());
    assert(title.contains(title[title.len() - 1]));
    lemma_trim_underscore_keeps(s);
    assert(s =~= anchor + seq!['_'] + title);
}

/// Collapses `__` into `_` until none is left.
pub fn collapse_double_underscores(s: &str) -> (r: String)
    ensures
        r@ == collapse_underscores(s@),
{
    let mut f = copy_str(s);
    proof {
        reveal_strlit("__");
        reveal_strlit("_");
        assert("__"@ =~= seq!['_', '_']);
        assert("_"@ =~= seq!['_']);
    }
    while contains(f.as_str(), "__")
        invariant
            "__"@ == seq!['_', '_'],
            "_"@ == seq!['_'],
            collapse_underscores(f@) == collapse_underscores(s@),
        decreases f@.len(),
    {
        proof {
            lemma_replace_shortens(f@, seq!['_', '_'], seq!['_']);
        }
        f = replace(f.as_str(), "__", "_");
    }
    proof {
        lemma_replace_shortens(f@, seq!['_', '_'], seq!['_']);
    }
    f
}

/// Appends `p` to a `_`-joined list of non-empty texts.
fn push_part(r: &mut String, p: &str)
    ensures
        final(r)@ == (if p@.len() == 0 {
            old(r)@
        } else if old(r)@.len() == 0 {
            p@
        } else {
            old(r)@ + seq!['_'] + p@
        }),
{
    if p.unicode_len() > 0 {
        if r.unicode_len() > 0 {
            push_char(r, '_');
        }
        r.append(p);
    }
}

/// Joins the non-empty ones of three texts with `_`.
fn join_nonempty3(a: &str, b: &str, c: &str) -> (r: String)
    ensures
        r@ == join_nonempty(seq![a@, b@, c@]),
{
    let ghost s3 = seq![a@, b@, c@];
    let ghost s2 = seq![a@, b@];
    let ghost s1 = seq![a@];
    assert(s3.drop_last() =~= s2);
    assert(s2.drop_last() =~= s1);
    assert(s1.drop_last() =~= Seq::<Seq<char>>::empty());
    let mut r = String::new();
    assert(join_nonempty(Seq::<Seq<char>>::empty()) == Seq::<char>::empty());
    push_part(&mut r, a);
    assert(r@ == join_nonempty(s1));
    push_part(&mut r, b);
    assert(r@ == join_nonempty(s2));
    push_part(&mut r, c);
    assert(r@ == join_nonempty(s3));
    r
}

/// Builds a recording file name at the time `now`: the custom template with
/// its placeholders filled in, or the non-empty ones of anchor, title and
/// time stamp joined with `_`.
pub fn generate_filename_at(
    anchor_name: &str,
    title: Option<&str>,
    platform: Option<&str>,
    custom_template: Option<&str>,
    now: &CalendarTime,
) -> (r: String)
    ensures
        r@ == spec_generate_filename(
            anchor_name@,
            match title {
                Some(t) => Some(t@),
                None => None,
            },
            match platform {
                Some(p) => Some(p@),
                None => None,
            },
            match custom_template {
                Some(t) => Some(t@),
                None => None,
            },
            now.spec_stamp(),
        ),
{
    let stamp = now.stamp();
    let title_text = match title {
        Some(t) => t,
        None => "",
    };
    proof {
        reveal_strlit("");
        assert(""@ =~= Seq::<char>::empty());
    }
    match custom_template {
        Some(template) => {
            proof {
                reveal_strlit("{anchor_name}");
                reveal_strlit("{title}");
                reveal_strlit("{time}");
                reveal_strlit("{platform}");
            }
            let f1 = replace(template, "{anchor_name}", anchor_name);
            let f2 = replace(f1.as_str(), "{title}", title_text);
            let f3 = replace(f2.as_str(), "{time}", stamp.as_str());
            let platform_text = match platform {
                Some(p) => p,
                None => "",
            };
            let f4 = replace(f3.as_str(), "{platform}", platform_text);
            let f5 = collapse_double_underscores(f4.as_str());
            let trimmed = trim_matches(f5.as_str(), '_');
            if trimmed.unicode_len() == 0 {
                join_nonempty3(anchor_name, title_text, stamp.as_str())
            } else {
                copy_str(trimmed)
            }
        },
        None => join_nonempty3(anchor_name, title_text, stamp.as_str()),
    }
}

// ---------------------------------------------------------------------------
// URL query parameters
// ---------------------------------------------------------------------------

/// The decoded query pairs of `url` as `url::Url::parse` and `query_pairs`
/// give them, or `None` when the text is not an absolute URL.
pub uninterp spec fn url_query_pairs(url: Seq<char>) -> Option<Seq<(Seq<char>, Seq<char>)>>;

/// A list of owned string pairs by their views.
pub open spec fn owned_pairs_view(v: Seq<(String, String)>) -> Seq<(Seq<char>, Seq<char>)> {
    v.map_values(|p: (String, String)| (p.0@, p.1@))
}

/// Calls `url::Url::parse` and collects the decoded pairs of `query_pairs`.
/// Their result is named `url_query_pairs`; nothing more is stated of the
/// URL grammar or of the percent-decoding.
#[verifier::external_body]
fn parse_query_pairs(url: &str) -> (r: Option<Vec<(String, String)>>)
    ensures
        match r {
            Some(v) => url_query_pairs(url@) == Some(owned_pairs_view(v@)),
            None => url_query_pairs(url@) is None,
        },
{
    url::Url::parse(url).ok().map(
        |u| u.query_pairs().map(|(k, v)| (k.into_owned(), v.into_owned())).collect(),
    )
}

/// The value of the first query pair named `param`, given the decoded pairs.
pub fn find_query_param(pairs: &Vec<(String, String)>, param: &str) -> (r: Option<String>)
    ensures
        match r {
            Some(v) => lookup(owned_pairs_view(pairs@), param@) == Some(v@),
            None => lookup(owned_pairs_view(pairs@), param@) is None,
        },
{
    let n = pairs.len();
    let ghost full = owned_pairs_view(pairs@);
    let mut i: usize = 0;
    assert(full.subrange(0, full.len() as int) =~= full);
    while i < n
        invariant
            n == pairs@.len(),
            full == owned_pairs_view(pairs@),
            i <= n,
            lookup(full, param@) == lookup(full.subrange(i as int, n as int), param@),
        decreases n - i,
    {
        let ghost rest = full.subrange(i as int, n as int);
        assert(rest[0] == (pairs@[i as int].0@, pairs@[i as int].1@));
        assert(rest.subrange(1, rest.len() as int) =~= full.subrange(i + 1, n as int));
        if str_eq(pairs[i].0.as_str(), param) {
            return Some(copy_str(pairs[i].1.as_str()));
        }
        i += 1;
    }
    None
}

/// The value of the query parameter `param` of `url`, if the URL parses and
/// has such a parameter.
pub fn get_query_params(url: &str, param: &str) -> (r: Option<String>)
    ensures
        match url_query_pairs(url@) {
            None => r is None,
            Some(pairs) => match lookup(pairs, param@) {
                Some(v) => r matches Some(x) && x@ == v,
                None => r is None,
            },
        },
{
    match parse_query_pairs(url) {
        Some(pairs) => find_query_param(&pairs, param),
        None => None,
    }
}


/// Calls `time::OffsetDateTime::now_local`, or `now_utc` when the local
/// offset cannot be determined, and reads its calendar fields. The result
/// depends on the clock; only the ranges that the `time` documentation gives
/// for each field are stated.
#[verifier::external_body]
pub(crate) fn local_now() -> (r: CalendarTime)
    ensures
        r.is_valid(),
{
    let now = time::OffsetDateTime::now_local().unwrap_or_else(|_| time::OffsetDateTime::now_utc());
    CalendarTime {
        year: now.year(),
        month: now.month() as u8,
        day: now.day(),
        hour: now.hour(),
        minute: now.minute(),
        second: now.second(),
    }
}

/// Builds a recording file name at the current local time (see
/// `generate_filename_at`); the name is the one some valid clock reading gives.
pub fn generate_filename(
    anchor_name: &str,
    title: Option<&str>,
    platform: Option<&str>,
    custom_template: Option<&str>,
) -> (r: String)
    ensures
        exists|now: CalendarTime|
            #![trigger now.spec_stamp()]
            now.is_valid() && r@ == spec_generate_filename(
                anchor_name@,
                match title {
                    Some(t) => Some(t@),
                    None => None,
                },
                match platform {
                    Some(p) => Some(p@),
                    None => None,
                },
                match custom_template {
                    Some(t) => Some(t@),
                    None => None,
                },
                now.spec_stamp(),
            ),
{
    let now = local_now();
    generate_filename_at(anchor_name, title, platform, custom_template, &now)
}

} // verus!
