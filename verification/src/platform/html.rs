//! Reading values out of the pages and scripts of live rooms, with the
//! `regex` and `serde_json` crates doing the matching and parsing.
use vstd::prelude::*;

use crate::text::{chars_of, concat3, copy_str, opt_view, push_char};

verus! {

// ---------------------------------------------------------------------------
// Trusted calls into `regex` and `serde_json`
// ---------------------------------------------------------------------------

/// Whether `regex::Regex::new` accepts the pattern.
pub uninterp spec fn regex_compiles(pattern: Seq<char>) -> bool;

/// The text of capture group 1 in the first match of a pattern in a text,
/// as `Regex::captures` finds it; `None` when nothing matches (or the group
/// takes no part in the match).
pub uninterp spec fn regex_group1(pattern: Seq<char>, text: Seq<char>) -> Option<Seq<char>>;


/// What `serde_json` finds for `key` in a JSON text: the string value of
/// that member of the top-level object; `None` when the text is not JSON,
/// is not an object, lacks the member, or the member is not a string.
pub uninterp spec fn json_string_member(json: Seq<char>, key: Seq<char>) -> Option<Seq<char>>;

/// Calls `regex::Regex::new`, then `Regex::captures` and `Captures::get(1)`.
/// The pattern's acceptance is named `regex_compiles` and the group's text
/// `regex_group1`; nothing is stated of the regular-expression language.
#[verifier::external_body]
pub(crate) fn first_group(pattern: &str, text: &str) -> (r: Result<Option<String>, ()>)
    ensures
        r is Ok <==> regex_compiles(pattern@),
        r matches Ok(g) ==> opt_view(g) == regex_group1(pattern@, text@),
{
    match regex::Regex::new(pattern) {
        Ok(re) => Ok(re.captures(text).and_then(|c| c.get(1)).map(|m| m.as_str().to_string())),
        Err(_) => Err(()),
    }
}

/// Calls `serde_json::from_str::<Value>`, then `Value::get` and
/// `Value::as_str`; the result is named `json_string_member`.
#[verifier::external_body]
pub(crate) fn json_member_text(json: &str, key: &str) -> (r: Option<String>)
    ensures
        opt_view(r) == json_string_member(json@, key@),
{
    serde_json::from_str::<serde_json::Value>(json).ok().and_then(
        |v| v.get(key).and_then(|m| m.as_str()).map(|s| s.to_string()),
    )
}

// ---------------------------------------------------------------------------
// Escaping text for a pattern
// ---------------------------------------------------------------------------

/// A character with a meaning in a regular expression, which `regex::escape`
/// escapes.
pub open spec fn is_regex_meta(c: char) -> bool {
    c == '\\' || c == '.' || c == '+' || c == '*' || c == '?' || c == '(' || c == ')' || c == '|'
        || c == '[' || c == ']' || c == '{' || c == '}' || c == '^' || c == '$' || c == '#' || c
        == '&' || c == '-' || c == '~'
}

/// The text with a backslash before every meta character, so that a regular
/// expression matches it literally.
pub open spec fn regex_escaped(text: Seq<char>) -> Seq<char>
    decreases text.len(),
{
    if text.len() == 0 {
        seq![]
    } else {
        regex_escaped(text.drop_last()) + if is_regex_meta(text.last()) {
            seq!['\\', text.last()]
        } else {
            seq![text.last()]
        }
    }
}

fn is_regex_meta_exec(c: char) -> (r: bool)
    ensures
        r == is_regex_meta(c),
{
    c == '\\' || c == '.' || c == '+' || c == '*' || c == '?' || c == '(' || c == ')' || c == '|'
        || c == '[' || c == ']' || c == '{' || c == '}' || c == '^' || c == '$' || c == '#' || c
        == '&' || c == '-' || c == '~'
}

/// Escapes the meta characters of `text`, as `regex::escape` does.
pub fn escape(text: &str) -> (r: String)
    ensures
        r@ == regex_escaped(text@),
{
    let cs = chars_of(text);
    let mut r = String::new();
    let n = cs.len();
    for i in 0..n
        invariant
            n == cs@.len(),
            cs@ == text@,
            r@ == regex_escaped(text@.take(i as int)),
    {
        let c = cs[i];
        if is_regex_meta_exec(c) {
            push_char(&mut r, '\\');
        }
        push_char(&mut r, c);
        assert(text@.take(i + 1).drop_last() =~= text@.take(i as int));
        assert(r@ =~= regex_escaped(text@.take(i + 1)));
    }
    assert(text@.take(n as int) =~= text@);
    r
}

// ---------------------------------------------------------------------------
// Named fields in scripts
// ---------------------------------------------------------------------------

/// The four ways a script assigns a text to a field, as patterns over the
/// escaped field name: `var f = "v"`, `f: "v"` (or `=`), `"f": "v"` and
/// `'f': 'v'`.
pub open spec fn field_patterns(esc: Seq<char>) -> Seq<Seq<char>> {
    seq![
        "var\\s+"@ + esc + "\\s*=\\s*[\"']([^\"']+)\""@,
        esc + "\\s*[:=]\\s*[\"']([^\"']+)\""@,
        "\""@ + esc + "\"\\s*:\\s*\"([^\"]+)\""@,
        "'"@ + esc + "'\\s*:\\s*'([^']+)'"@,
    ]
}

/// The value given by the first of `patterns` that compiles and matches.
pub open spec fn first_match(patterns: Seq<Seq<char>>, html: Seq<char>) -> Option<Seq<char>>
    decreases patterns.len(),
{
    if patterns.len() == 0 {
        None
    } else if regex_compiles(patterns[0]) && regex_group1(patterns[0], html) is Some {
        regex_group1(patterns[0], html)
    } else {
        first_match(patterns.subrange(1, patterns.len() as int), html)
    }
}

/// The text a script assigns to `field`.
pub open spec fn spec_string_field(html: Seq<char>, field: Seq<char>) -> Option<Seq<char>> {
    first_match(field_patterns(regex_escaped(field)), html)
}

/// The text a script in `html` assigns to `field`, in any of the four
/// forms of `field_patterns`.
pub fn extract_string_field(html: &str, field: &str) -> (r: Option<String>)
    ensures
        opt_view(r) == spec_string_field(html@, field@),
{
    let esc = escape(field);
    let p1 = concat3("var\\s+", esc.as_str(), "\\s*=\\s*[\"']([^\"']+)\"");
    let p2 = concat3("", esc.as_str(), "\\s*[:=]\\s*[\"']([^\"']+)\"");
    let p3 = concat3("\"", esc.as_str(), "\"\\s*:\\s*\"([^\"]+)\"");
    let p4 = concat3("'", esc.as_str(), "'\\s*:\\s*'([^']+)'");
    proof {
        reveal_strlit("");
        assert(""@ + esc@ =~= esc@);
    }
    let ghost pats = field_patterns(esc@);
    assert(pats.subrange(1, 4) =~= seq![p2@, p3@, p4@]);
    assert(seq![p2@, p3@, p4@].subrange(1, 3) =~= seq![p3@, p4@]);
    assert(seq![p3@, p4@].subrange(1, 2) =~= seq![p4@]);
    assert(seq![p4@].subrange(1, 1) =~= Seq::<Seq<char>>::empty());
    assert(pats =~= seq![p1@, p2@, p3@, p4@]);
    proof {
        reveal_with_fuel(first_match, 5);
    }
    if let Ok(Some(v)) = first_group(p1.as_str(), html) {
        return Some(v);
    }
    if let Ok(Some(v)) = first_group(p2.as_str(), html) {
        return Some(v);
    }
    if let Ok(Some(v)) = first_group(p3.as_str(), html) {
        return Some(v);
    }
    if let Ok(Some(v)) = first_group(p4.as_str(), html) {
        return Some(v);
    }
    None
}

} // verus!
