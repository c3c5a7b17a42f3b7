//! Verified string building blocks shared by the rest of the crate.
//!
//! Strings are modelled by their `Seq<char>` views; every helper here states
//! its result over those views.
use vstd::prelude::*;

verus! {

// ---------------------------------------------------------------------------
// Specifications
// ---------------------------------------------------------------------------

/// `p` occurs in `s` at position `i`.
pub open spec fn occurs_at(s: Seq<char>, p: Seq<char>, i: int) -> bool {
    0 <= i && i + p.len() <= s.len() && s.subrange(i, i + p.len()) == p
}

/// `p` occurs somewhere in `s` (what `str::contains` answers).
pub open spec fn seq_contains(s: Seq<char>, p: Seq<char>) -> bool {
    exists|i: int| #[trigger] occurs_at(s, p, i)
}

/// `s` begins with `p`.
pub open spec fn has_prefix(s: Seq<char>, p: Seq<char>) -> bool {
    p.len() <= s.len() && s.subrange(0, p.len() as int) == p
}

/// `r` is the part of `s` before the first character that belongs to `stops`
/// (the whole of `s` when none does): what `split(stops).next()` yields.
pub open spec fn is_segment(s: Seq<char>, stops: Seq<char>, r: Seq<char>) -> bool {
    &&& r.len() <= s.len()
    &&& r == s.subrange(0, r.len() as int)
    &&& forall|i: int| 0 <= i < r.len() ==> !stops.contains(#[trigger] r[i])
    &&& (r.len() == s.len() || stops.contains(s[r.len() as int]))
}

/// No character of `s` belongs to `stops`.
pub open spec fn avoids(s: Seq<char>, stops: Seq<char>) -> bool {
    forall|i: int| 0 <= i < s.len() ==> !stops.contains(#[trigger] s[i])
}

/// The character of a decimal digit.
pub open spec fn digit_char(d: nat) -> char {
    if d == 0 {
        '0'
    } else if d == 1 {
        '1'
    } else if d == 2 {
        '2'
    } else if d == 3 {
        '3'
    } else if d == 4 {
        '4'
    } else if d == 5 {
        '5'
    } else if d == 6 {
        '6'
    } else if d == 7 {
        '7'
    } else if d == 8 {
        '8'
    } else {
        '9'
    }
}

/// The character of a lower-case hexadecimal digit.
pub open spec fn hex_char(d: nat) -> char {
    if d < 10 {
        digit_char(d)
    } else if d == 10 {
        'a'
    } else if d == 11 {
        'b'
    } else if d == 12 {
        'c'
    } else if d == 13 {
        'd'
    } else if d == 14 {
        'e'
    } else {
        'f'
    }
}

/// Decimal notation of `n` without leading zeros (what `{}` prints).
pub open spec fn decimal(n: nat) -> Seq<char>
    decreases n,
{
    if n < 10 {
        seq![digit_char(n)]
    } else {
        decimal(n / 10).push(digit_char(n % 10))
    }
}

/// Decimal notation of `n` padded with zeros to at least two digits (`{:02}`).
pub open spec fn decimal2(n: nat) -> Seq<char> {
    if n < 10 {
        seq!['0', digit_char(n)]
    } else {
        decimal(n)
    }
}

/// Two lower-case hexadecimal digits of a byte (`{:02x}`).
pub open spec fn hex_byte(b: u8) -> Seq<char> {
    seq![hex_char((b / 16) as nat), hex_char((b % 16) as nat)]
}

/// Lower-case hexadecimal notation of a byte string, two digits per byte.
pub open spec fn hex_bytes(bs: Seq<u8>) -> Seq<char>
    decreases bs.len(),
{
    if bs.len() == 0 {
        seq![]
    } else {
        hex_bytes(bs.drop_last()) + hex_byte(bs.last())
    }
}

/// The `k` lowest hexadecimal digits of `n`, most significant first.
pub open spec fn hex_digits(n: nat, k: nat) -> Seq<char>
    decreases k,
{
    if k == 0 {
        seq![]
    } else {
        hex_digits(n / 16, (k - 1) as nat).push(hex_char(n % 16))
    }
}

/// Non-overlapping left-to-right replacement of `p` by `r` in `s`
/// (what `str::replace` computes for a non-empty pattern).
pub open spec fn replace_all(s: Seq<char>, p: Seq<char>, r: Seq<char>) -> Seq<char>
    decreases s.len(),
{
    if p.len() == 0 || s.len() < p.len() {
        s
    } else if s.subrange(0, p.len() as int) == p {
        r + replace_all(s.subrange(p.len() as int, s.len() as int), p, r)
    } else {
        seq![s[0]] + replace_all(s.subrange(1, s.len() as int), p, r)
    }
}

/// The characters with the Unicode `White_Space` property, which
/// `char::is_whitespace` (and so `str::trim`) recognises.
pub open spec fn is_whitespace(c: char) -> bool {
    let u = c as u32;
    (0x9 <= u <= 0xd) || u == 0x20 || u == 0x85 || u == 0xa0 || u == 0x1680 || (0x2000 <= u
        <= 0x200a) || u == 0x2028 || u == 0x2029 || u == 0x202f || u == 0x205f || u == 0x3000
}

/// `s` without its leading and trailing characters that satisfy `drop`.
pub open spec fn trim_by(s: Seq<char>, drop: spec_fn(char) -> bool) -> Seq<char>
    decreases s.len(),
{
    if s.len() == 0 {
        s
    } else if drop(s[0]) {
        trim_by(s.subrange(1, s.len() as int), drop)
    } else if drop(s.last()) {
        trim_by(s.drop_last(), drop)
    } else {
        s
    }
}

/// `s` with surrounding white space removed (`str::trim`).
pub open spec fn trim_ws(s: Seq<char>) -> Seq<char> {
    trim_by(s, |c: char| is_whitespace(c))
}

/// `s` with every leading and trailing `c` removed (`str::trim_matches(c)`).
pub open spec fn trim_char(s: Seq<char>, c: char) -> Seq<char> {
    trim_by(s, is_char(c))
}

/// The predicate "is the character `c`".
pub open spec fn is_char(c: char) -> spec_fn(char) -> bool {
    |x: char| x == c
}

/// `s` with trailing `c` removed (`str::trim_end_matches(c)`).
pub open spec fn trim_end_char(s: Seq<char>, c: char) -> Seq<char>
    decreases s.len(),
{
    if s.len() > 0 && s.last() == c {
        trim_end_char(s.drop_last(), c)
    } else {
        s
    }
}

/// Every character of `s` is an ASCII decimal digit.
pub open spec fn all_ascii_digits(s: Seq<char>) -> bool {
    forall|i: int| 0 <= i < s.len() ==> '0' <= #[trigger] s[i] <= '9'
}

/// ASCII lower-casing of one character.
pub open spec fn ascii_lower_char(c: char) -> char {
    if 'A' <= c <= 'Z' {
        ((c as u32) + 32) as char
    } else {
        c
    }
}

/// ASCII upper-casing of one character.
pub open spec fn ascii_upper_char(c: char) -> char {
    if 'a' <= c <= 'z' {
        ((c as u32) - 32) as char
    } else {
        c
    }
}

/// Every character of `s` is ASCII.
pub open spec fn all_ascii(s: Seq<char>) -> bool {
    forall|i: int| 0 <= i < s.len() ==> (#[trigger] s[i] as u32) < 128
}

/// `s` with its ASCII capitals made small.
pub open spec fn ascii_lowercase(s: Seq<char>) -> Seq<char> {
    s.map_values(|c: char| ascii_lower_char(c))
}

/// `s` with its ASCII small letters made capitals.
pub open spec fn ascii_uppercase(s: Seq<char>) -> Seq<char> {
    s.map_values(|c: char| ascii_upper_char(c))
}

/// What `str::to_lowercase` returns for `s`.
pub uninterp spec fn lowercase_of(s: Seq<char>) -> Seq<char>;

/// What `str::to_uppercase` returns for `s`.
pub uninterp spec fn uppercase_of(s: Seq<char>) -> Seq<char>;

/// The view of an optional owned string.
pub open spec fn opt_view(o: Option<String>) -> Option<Seq<char>> {
    match o {
        Some(s) => Some(s@),
        None => None,
    }
}

/// The view of an optional borrowed string.
pub open spec fn opt_str_view(o: Option<&str>) -> Option<Seq<char>> {
    match o {
        Some(s) => Some(s@),
        None => None,
    }
}

// ---------------------------------------------------------------------------
// Trusted calls into std
// ---------------------------------------------------------------------------

/// Calls `String::push`, which appends one character.
#[verifier::external_body]
pub(crate) fn push_char(s: &mut String, c: char)
    ensures
        final(s)@ == old(s)@.push(c),
{
    s.push(c)
}

/// Calls `str::to_lowercase`. Its result is named `lowercase_of`; the
/// contract adds only what the documentation plainly gives: on ASCII text
/// Unicode lower-casing is ASCII lower-casing.
#[verifier::external_body]
pub(crate) fn to_lowercase(s: &str) -> (r: String)
    ensures
        r@ == lowercase_of(s@),
        all_ascii(s@) ==> r@ == ascii_lowercase(s@),
{
    s.to_lowercase()
}

/// Calls `str::to_uppercase`. Its result is named `uppercase_of`; on ASCII
/// text it is ASCII upper-casing, as the documentation gives.
#[verifier::external_body]
pub(crate) fn to_uppercase(s: &str) -> (r: String)
    ensures
        r@ == uppercase_of(s@),
        all_ascii(s@) ==> r@ == ascii_uppercase(s@),
{
    s.to_uppercase()
}

// ---------------------------------------------------------------------------
// Verified helpers
// ---------------------------------------------------------------------------

/// The characters of `s`.
pub fn chars_of(s: &str) -> (v: Vec<char>)
    ensures
        v@ == s@,
{
    let mut v: Vec<char> = Vec::new();
    for c in it: s.chars()
        invariant
            v@ == it.seq().take(it.index() as int),
    {
        v.push(c);
    }
    v
}

/// A `String` holding the characters of `v`.
pub fn string_from_chars(v: &[char]) -> (s: String)
    ensures
        s@ == v@,
{
    let mut s = String::new();
    let n = v.len();
    for i in 0..n
        invariant
            n == v@.len(),
            s@ == v@.take(i as int),
    {
        push_char(&mut s, v[i]);
        assert(v@.take(i + 1) == v@.take(i as int).push(v@[i as int]));
    }
    assert(v@.take(n as int) == v@);
    s
}

/// A fresh copy of `s`.
pub fn copy_str(s: &str) -> (r: String)
    ensures
        r@ == s@,
{
    let mut r = String::new();
    r.append(s);
    r
}

/// `a + b` as a new `String`.
pub fn concat2(a: &str, b: &str) -> (r: String)
    ensures
        r@ == a@ + b@,
{
    let mut r = String::new();
    r.append(a);
    r.append(b);
    r
}

/// `a + b + c` as a new `String`.
pub fn concat3(a: &str, b: &str, c: &str) -> (r: String)
    ensures
        r@ == a@ + b@ + c@,
{
    let mut r = String::new();
    r.append(a);
    r.append(b);
    r.append(c);
    r
}

/// Whether `p` occurs in `s` at position `i` (slice form).
pub fn occurs_at_exec(s: &[char], p: &[char], i: usize) -> (r: bool)
    ensures
        r == occurs_at(s@, p@, i as int),
{
    if p.len() > s.len() || i > s.len() - p.len() {
        return false;
    }
    let m = p.len();
    let mut j: usize = 0;
    while j < m
        invariant
            m == p@.len(),
            i + m <= s.len(),
            j <= m,
            forall|k: int| 0 <= k < j ==> s@[i + k] == p@[k],
        decreases m - j,
    {
        if s[i + j] != p[j] {
            assert(s@.subrange(i as int, i + m)[j as int] != p@[j as int]);
            return false;
        }
        j += 1;
    }
    assert(s@.subrange(i as int, i + m) =~= p@);
    true
}

/// Whether `p` occurs anywhere in `s` (slice form).
pub fn contains_chars(s: &[char], p: &[char]) -> (r: bool)
    ensures
        r == seq_contains(s@, p@),
{
    if p.len() > s.len() {
        assert(forall|k: int| !#[trigger] occurs_at(s@, p@, k));
        return false;
    }
    let last = s.len() - p.len();
    let mut i: usize = 0;
    loop
        invariant_except_break
            last == s@.len() - p@.len(),
            i <= last,
            forall|k: int| 0 <= k < i ==> !#[trigger] occurs_at(s@, p@, k),
        ensures
            forall|k: int| 0 <= k <= last ==> !#[trigger] occurs_at(s@, p@, k),
        decreases last - i,
    {
        if occurs_at_exec(s, p, i) {
            return true;
        }
        if i == last {
            break;
        }
        i += 1;
    }
    assert(forall|k: int| !#[trigger] occurs_at(s@, p@, k));
    false
}

/// `str::contains` on a string pattern.
pub fn contains(s: &str, p: &str) -> (r: bool)
    ensures
        r == seq_contains(s@, p@),
{
    let sv = chars_of(s);
    let pv = chars_of(p);
    contains_chars(sv.as_slice(), pv.as_slice())
}

/// Whether the character `c` occurs in `s`.
pub fn contains_char(s: &str, c: char) -> (r: bool)
    ensures
        r == s@.contains(c),
{
    let sv = chars_of(s);
    let n = sv.len();
    for i in 0..n
        invariant
            n == sv@.len(),
            sv@ == s@,
            forall|k: int| 0 <= k < i ==> sv@[k] != c,
    {
        if sv[i] == c {
            return true;
        }
    }
    false
}

/// String equality over the character views.
pub fn str_eq(a: &str, b: &str) -> (r: bool)
    ensures
        r == (a@ == b@),
{
    let av = chars_of(a);
    let bv = chars_of(b);
    if av.len() != bv.len() {
        return false;
    }
    let r = occurs_at_exec(av.as_slice(), bv.as_slice(), 0);
    assert(av@.subrange(0, bv@.len() as int) =~= av@);
    r
}

/// `str::starts_with` on a string pattern.
pub fn starts_with(s: &str, p: &str) -> (r: bool)
    ensures
        r == has_prefix(s@, p@),
{
    let sv = chars_of(s);
    let pv = chars_of(p);
    occurs_at_exec(sv.as_slice(), pv.as_slice(), 0)
}

/// `str::strip_prefix` on a string pattern.
pub fn strip_prefix<'a>(s: &'a str, p: &str) -> (r: Option<&'a str>)
    ensures
        r is Some <==> has_prefix(s@, p@),
        r matches Some(t) ==> t@ == s@.subrange(p@.len() as int, s@.len() as int),
{
    let sv = chars_of(s);
    let pv = chars_of(p);
    if occurs_at_exec(sv.as_slice(), pv.as_slice(), 0) {
        Some(s.substring_char(pv.len(), sv.len()))
    } else {
        None
    }
}

/// The part of `s` before the first character in `stops`.
pub fn segment_before<'a>(s: &'a str, stops: &[char]) -> (r: &'a str)
    ensures
        is_segment(s@, stops@, r@),
{
    let sv = chars_of(s);
    let n = sv.len();
    let mut i: usize = 0;
    while i < n && !contains_char_slice(stops, sv[i])
        invariant
            n == sv@.len(),
            sv@ == s@,
            i <= n,
            forall|k: int| 0 <= k < i ==> !stops@.contains(#[trigger] sv@[k]),
        decreases n - i,
    {
        i += 1;
    }
    let r = s.substring_char(0, i);
    assert(forall|k: int| 0 <= k < r@.len() ==> r@[k] == sv@[k]);
    r
}

/// Whether `c` is one of `cs`.
pub fn contains_char_slice(cs: &[char], c: char) -> (r: bool)
    ensures
        r == cs@.contains(c),
{
    let n = cs.len();
    for i in 0..n
        invariant
            n == cs@.len(),
            forall|k: int| 0 <= k < i ==> cs@[k] != c,
    {
        if cs[i] == c {
            return true;
        }
    }
    false
}

/// Whether every character of `s` is an ASCII digit.
pub fn is_all_ascii_digits(s: &str) -> (r: bool)
    ensures
        r == all_ascii_digits(s@),
{
    let sv = chars_of(s);
    let n = sv.len();
    for i in 0..n
        invariant
            n == sv@.len(),
            sv@ == s@,
            forall|k: int| 0 <= k < i ==> '0' <= #[trigger] sv@[k] <= '9',
    {
        if !('0' <= sv[i] && sv[i] <= '9') {
            return false;
        }
    }
    true
}

/// The character of the decimal digit `d`.
pub fn digit_exec(d: u64) -> (c: char)
    requires
        d < 10,
    ensures
        c == digit_char(d as nat),
{
    if d == 0 {
        '0'
    } else if d == 1 {
        '1'
    } else if d == 2 {
        '2'
    } else if d == 3 {
        '3'
    } else if d == 4 {
        '4'
    } else if d == 5 {
        '5'
    } else if d == 6 {
        '6'
    } else if d == 7 {
        '7'
    } else if d == 8 {
        '8'
    } else {
        '9'
    }
}

/// The character of the hexadecimal digit `d`.
pub fn hex_exec(d: u64) -> (c: char)
    requires
        d < 16,
    ensures
        c == hex_char(d as nat),
{
    if d < 10 {
        digit_exec(d)
    } else if d == 10 {
        'a'
    } else if d == 11 {
        'b'
    } else if d == 12 {
        'c'
    } else if d == 13 {
        'd'
    } else if d == 14 {
        'e'
    } else {
        'f'
    }
}

/// Appends the decimal notation of `n` to `out` (`{}` on an integer).
pub fn push_decimal(out: &mut String, n: u64)
    ensures
        final(out)@ == old(out)@ + decimal(n as nat),
    decreases n,
{
    if n >= 10 {
        push_decimal(out, n / 10);
    }
    push_char(out, digit_exec(n % 10));
    proof {
        if n < 10 {
            assert(decimal(n as nat) == seq![digit_char(n as nat)]);
        }
    }
}

/// Appends `n` padded with zeros to at least two digits (`{:02}`).
pub fn push_decimal2(out: &mut String, n: u64)
    ensures
        final(out)@ == old(out)@ + decimal2(n as nat),
{
    if n < 10 {
        push_char(out, '0');
        push_char(out, digit_exec(n));
    } else {
        push_decimal(out, n);
    }
}

/// The decimal notation of `n` (`n.to_string()`).
pub fn decimal_string(n: u64) -> (r: String)
    ensures
        r@ == decimal(n as nat),
{
    let mut r = String::new();
    push_decimal(&mut r, n);
    r
}

/// Appends the `k` lowest hexadecimal digits of `n`, most significant first.
pub fn push_hex_digits(out: &mut String, n: u64, k: u64)
    ensures
        final(out)@ == old(out)@ + hex_digits(n as nat, k as nat),
    decreases k,
{
    if k > 0 {
        push_hex_digits(out, n / 16, k - 1);
        push_char(out, hex_exec(n % 16));
    }
}

/// Appends the lower-case hexadecimal notation of `bytes` (`{:02x}` per byte).
pub fn push_hex_bytes(out: &mut String, bytes: &[u8])
    ensures
        final(out)@ == old(out)@ + hex_bytes(bytes@),
{
    let ghost start = out@;
    let n = bytes.len();
    for i in 0..n
        invariant
            n == bytes@.len(),
            out@ == start + hex_bytes(bytes@.take(i as int)),
    {
        let b = bytes[i];
        push_char(out, hex_exec((b / 16) as u64));
        push_char(out, hex_exec((b % 16) as u64));
        proof {
            let t = bytes@.take(i + 1);
            assert(t.drop_last() == bytes@.take(i as int));
            assert(t.last() == b);
        }
    }
    assert(bytes@.take(n as int) == bytes@);
}

/// `r` before every character of `s` and after the last: what `str::replace`
/// gives for an empty pattern.
pub open spec fn interleave(s: Seq<char>, r: Seq<char>) -> Seq<char>
    decreases s.len(),
{
    if s.len() == 0 {
        r
    } else {
        r + seq![s[0]] + interleave(s.subrange(1, s.len() as int), r)
    }
}

/// `str::replace`: every non-overlapping occurrence of `p`, from the left,
/// replaced by `r`; an empty pattern puts `r` around every character.
pub fn replace(s: &str, p: &str, r: &str) -> (out: String)
    ensures
        out@ == (if p@.len() == 0 {
            interleave(s@, r@)
        } else {
            replace_all(s@, p@, r@)
        }),
{
    let sv = chars_of(s);
    let pv = chars_of(p);
    let n = sv.len();
    let m = pv.len();
    let mut out = String::new();
    let mut i: usize = 0;
    if m == 0 {
        assert(sv@.subrange(0, n as int) =~= s@);
        assert(out@ + interleave(s@, r@) =~= interleave(s@, r@));
        while i < n
            invariant
                n == sv@.len(),
                sv@ == s@,
                i <= n,
                out@ + interleave(sv@.subrange(i as int, n as int), r@) == interleave(s@, r@),
            decreases n - i,
        {
            let ghost rest = sv@.subrange(i as int, n as int);
            assert(rest.subrange(1, rest.len() as int) =~= sv@.subrange(i + 1, n as int));
            out.append(r);
            push_char(&mut out, sv[i]);
            i += 1;
            assert(out@ + interleave(sv@.subrange(i as int, n as int), r@) =~= interleave(s@, r@));
        }
        assert(sv@.subrange(n as int, n as int) =~= Seq::<char>::empty());
        out.append(r);
        assert(out@ =~= interleave(s@, r@));
        return out;
    }
    assert(sv@.subrange(0, n as int) =~= s@);
    assert(out@ + replace_all(s@, p@, r@) =~= replace_all(s@, p@, r@));
    while i < n
        invariant
            n == sv@.len(),
            m == pv@.len(),
            m > 0,
            sv@ == s@,
            pv@ == p@,
            i <= n,
            out@ + replace_all(sv@.subrange(i as int, n as int), pv@, r@) == replace_all(s@, p@, r@),
        decreases n - i,
    {
        let ghost rest = sv@.subrange(i as int, n as int);
        if m <= n - i && occurs_at_exec(sv.as_slice(), pv.as_slice(), i) {
            assert(rest.subrange(0, m as int) =~= sv@.subrange(i as int, i + m));
            assert(rest.subrange(m as int, rest.len() as int) =~= sv@.subrange(i + m, n as int));
            out.append(r);
            i += m;
            assert(out@ + replace_all(sv@.subrange(i as int, n as int), pv@, r@) =~= replace_all(s@, p@, r@));
        } else {
            proof {
                if m <= n - i {
                    assert(rest.subrange(0, m as int) =~= sv@.subrange(i as int, i + m));
                }
            }
            assert(rest.subrange(1, rest.len() as int) =~= sv@.subrange(i + 1, n as int));
            push_char(&mut out, sv[i]);
            i += 1;
            assert(out@ + replace_all(sv@.subrange(i as int, n as int), pv@, r@) =~= replace_all(s@, p@, r@));
        }
    }
    assert(sv@.subrange(n as int, n as int) =~= Seq::<char>::empty());
    assert(out@ =~= replace_all(s@, p@, r@));
    out
}

/// Trimming `drop` characters from a slice of characters gives the middle part
/// `s[lo..hi]` when `lo` and `hi` bound the characters kept.
proof fn lemma_trim_by(s: Seq<char>, drop: spec_fn(char) -> bool, lo: int, hi: int)
    requires
        0 <= lo <= hi <= s.len(),
        forall|k: int| 0 <= k < lo ==> drop(#[trigger] s[k]),
        forall|k: int| hi <= k < s.len() ==> drop(#[trigger] s[k]),
        lo < hi ==> !drop(s[lo]) && !drop(s[hi - 1]),
    ensures
        trim_by(s, drop) == s.subrange(lo, hi),
    decreases s.len(),
{
    if s.len() == 0 {
        assert(s.subrange(lo, hi) =~= s);
    } else if drop(s[0]) {
        let t = s.subrange(1, s.len() as int);
        if lo == 0 {
            assert(hi == 0);
            lemma_trim_by(t, drop, 0, 0);
            assert(s.subrange(lo, hi) =~= t.subrange(0, 0));
        } else {
            lemma_trim_by(t, drop, lo - 1, hi - 1);
            assert(s.subrange(lo, hi) =~= t.subrange(lo - 1, hi - 1));
        }
    } else if drop(s.last()) {
        let t = s.drop_last();
        assert(lo == 0);
        assert(hi < s.len());
        lemma_trim_by(t, drop, lo, hi);
        assert(s.subrange(lo, hi) =~= t.subrange(lo, hi));
    } else {
        assert(lo == 0 && hi == s.len());
        assert(s.subrange(lo, hi) =~= s);
    }
}

/// `str::trim`: removes leading and trailing white space.
pub fn trim(s: &str) -> (r: &str)
    ensures
        r@ == trim_ws(s@),
{
    let sv = chars_of(s);
    let n = sv.len();
    let mut lo: usize = 0;
    while lo < n && is_whitespace_exec(sv[lo])
        invariant
            n == sv@.len(),
            lo <= n,
            forall|k: int| 0 <= k < lo ==> is_whitespace(#[trigger] sv@[k]),
        decreases n - lo,
    {
        lo += 1;
    }
    let mut hi: usize = n;
    while hi > lo && is_whitespace_exec(sv[hi - 1])
        invariant
            n == sv@.len(),
            lo <= hi <= n,
            forall|k: int| hi <= k < n ==> is_whitespace(#[trigger] sv@[k]),
        decreases hi,
    {
        hi -= 1;
    }
    proof {
        lemma_trim_by(s@, |c: char| is_whitespace(c), lo as int, hi as int);
    }
    s.substring_char(lo, hi)
}

/// `str::trim_matches(c)` for a single character.
pub fn trim_matches(s: &str, c: char) -> (r: &str)
    ensures
        r@ == trim_char(s@, c),
{
    let sv = chars_of(s);
    let n = sv.len();
    let mut lo: usize = 0;
    while lo < n && sv[lo] == c
        invariant
            n == sv@.len(),
            lo <= n,
            forall|k: int| 0 <= k < lo ==> #[trigger] sv@[k] == c,
        decreases n - lo,
    {
        lo += 1;
    }
    let mut hi: usize = n;
    while hi > lo && sv[hi - 1] == c
        invariant
            n == sv@.len(),
            lo <= hi <= n,
            forall|k: int| hi <= k < n ==> #[trigger] sv@[k] == c,
        decreases hi,
    {
        hi -= 1;
    }
    proof {
        lemma_trim_by(s@, is_char(c), lo as int, hi as int);
    }
    s.substring_char(lo, hi)
}

/// `str::trim_end_matches(c)` for a single character.
pub fn trim_end_matches(s: &str, c: char) -> (r: &str)
    ensures
        r@ == trim_end_char(s@, c),
{
    let sv = chars_of(s);
    let n = sv.len();
    let mut hi: usize = n;
    assert(s@.subrange(0, n as int) =~= s@);
    while hi > 0 && sv[hi - 1] == c
        invariant
            n == sv@.len(),
            hi <= n,
            sv@ == s@,
            forall|k: int| hi <= k < n ==> #[trigger] sv@[k] == c,
            trim_end_char(s@, c) == trim_end_char(s@.subrange(0, hi as int), c),
        decreases hi,
    {
        proof {
            let t = s@.subrange(0, hi as int);
            assert(t.drop_last() =~= s@.subrange(0, hi - 1));
        }
        hi -= 1;
    }
    proof {
        let t = s@.subrange(0, hi as int);
        if hi > 0 {
            assert(t.last() == sv@[hi - 1]);
        }
    }
    s.substring_char(0, hi)
}

/// `char::is_whitespace`.
pub fn is_whitespace_exec(c: char) -> (r: bool)
    ensures
        r == is_whitespace(c),
{
    let u = c as u32;
    (0x9 <= u && u <= 0xd) || u == 0x20 || u == 0x85 || u == 0xa0 || u == 0x1680 || (0x2000 <= u
        && u <= 0x200a) || u == 0x2028 || u == 0x2029 || u == 0x202f || u == 0x205f || u == 0x3000
}

/// Replacing a pattern by something no longer never lengthens a text.
pub proof fn lemma_replace_not_longer(s: Seq<char>, p: Seq<char>, r: Seq<char>)
    requires
        r.len() <= p.len(),
    ensures
        replace_all(s, p, r).len() <= s.len(),
    decreases s.len(),
{
    if p.len() == 0 || s.len() < p.len() {
    } else if s.subrange(0, p.len() as int) == p {
        lemma_replace_not_longer(s.subrange(p.len() as int, s.len() as int), p, r);
    } else {
        lemma_replace_not_longer(s.subrange(1, s.len() as int), p, r);
    }
}

/// Replacing an occurring pattern by something shorter shortens the text;
/// replacing one that does not occur changes nothing.
pub proof fn lemma_replace_shortens(s: Seq<char>, p: Seq<char>, r: Seq<char>)
    requires
        r.len() < p.len(),
    ensures
        seq_contains(s, p) ==> replace_all(s, p, r).len() < s.len(),
        !seq_contains(s, p) ==> replace_all(s, p, r) == s,
    decreases s.len(),
{
    if s.len() < p.len() {
        assert(!seq_contains(s, p));
    } else if s.subrange(0, p.len() as int) == p {
        assert(occurs_at(s, p, 0));
        lemma_replace_not_longer(s.subrange(p.len() as int, s.len() as int), p, r);
    } else {
        let t = s.subrange(1, s.len() as int);
        lemma_replace_shortens(t, p, r);
        if seq_contains(s, p) {
            let i = choose|i: int| #[trigger] occurs_at(s, p, i);
            assert(i != 0);
            assert(t.subrange(i - 1, i - 1 + p.len()) =~= s.subrange(i, i + p.len()));
            assert(occurs_at(t, p, i - 1));
        } else {
            assert forall|i: int| !#[trigger] occurs_at(t, p, i) by {
                if occurs_at(t, p, i) {
                    assert(s.subrange(i + 1, i + 1 + p.len()) =~= t.subrange(i, i + p.len()));
                    assert(occurs_at(s, p, i + 1));
                }
            }
            assert(seq![s[0]] + t =~= s);
        }
    }
}

/// A copy of an optional string.
pub fn copy_opt(o: &Option<String>) -> (r: Option<String>)
    ensures
        opt_view(r) == opt_view(*o),
{
    match o {
        Some(s) => Some(copy_str(s.as_str())),
        None => None,
    }
}

/// An optional borrowed string as an owned one.
pub fn own_opt(o: Option<&str>) -> (r: Option<String>)
    ensures
        opt_view(r) == opt_str_view(o),
{
    match o {
        Some(s) => Some(copy_str(s)),
        None => None,
    }
}

/// An optional owned string, borrowed.
pub fn borrow_opt(o: &Option<String>) -> (r: Option<&str>)
    ensures
        opt_str_view(r) == opt_view(*o),
{
    match o {
        Some(s) => Some(s.as_str()),
        None => None,
    }
}

} // verus!
