//! Parsing a URL-encoded request body.
//!
//! A body is a sequence of `&`-separated segments; each segment carries a key
//! before its first `=` and a value between its first and second `=`. Values
//! are percent-decoded; keys are taken as they stand. A segment without `=`
//! has no value to read, so such bodies are left out by precondition: callers
//! check with [`body_is_well_formed`] first.

use vstd::prelude::*;

verus! {

/// The first position of `c` in `s` at or after `from`, or `s.len()` if `c`
/// does not occur there.
pub open spec fn find(s: Seq<char>, c: char, from: nat) -> nat
    decreases s.len() - from,
{
    if from >= s.len() {
        s.len()
    } else if s[from as int] == c {
        from
    } else {
        find(s, c, from + 1)
    }
}

/// The key of a segment: the text before its first `=`.
pub open spec fn seg_key(seg: Seq<char>) -> Seq<char> {
    seg.subrange(0, find(seg, '=', 0) as int)
}

/// The raw value of a segment: the text between its first and second `=`
/// (or its end). Meaningful only when the segment contains `=`.
pub open spec fn seg_value(seg: Seq<char>) -> Seq<char> {
    let e1 = find(seg, '=', 0);
    seg.subrange(e1 as int + 1, find(seg, '=', e1 + 1) as int)
}

/// What percent-decoding (with lossy UTF-8 reading) makes of a string.
pub uninterp spec fn percent_decoded(s: Seq<char>) -> Seq<char>;

/// Every `&`-separated segment of the body contains `=`.
pub open spec fn well_formed_body(s: Seq<char>) -> bool
    decreases s.len(),
{
    let a = find(s, '&', 0);
    if a >= s.len() {
        find(s, '=', 0) < s.len()
    } else {
        find(s.subrange(0, a as int), '=', 0) < a && well_formed_body(
            s.subrange(a as int + 1, s.len() as int),
        )
    }
}

/// The parsed pairs of a well-formed body: for each segment, its raw key and
/// its percent-decoded value.
pub open spec fn form_pairs(s: Seq<char>) -> Seq<(Seq<char>, Seq<char>)>
    decreases s.len(),
{
    let a = find(s, '&', 0);
    if a >= s.len() {
        seq![(seg_key(s), percent_decoded(seg_value(s)))]
    } else {
        let seg = s.subrange(0, a as int);
        seq![(seg_key(seg), percent_decoded(seg_value(seg)))] + form_pairs(
            s.subrange(a as int + 1, s.len() as int),
        )
    }
}

/// Relies on percent_encoding::percent_decode_str and lossy UTF-8 reading of
/// the decoded bytes: the result is a deterministic function of the input
/// text.
#[verifier::external_body]
fn percent_decode_lossy(s: &str) -> (r: String)
    ensures
        r@ == percent_decoded(s@),
{
    percent_encoding::percent_decode_str(s).decode_utf8_lossy().into_owned()
}

/// The first position of `c` in `s` at or after `from`, or the length of `s`.
fn find_char(s: &str, c: char, from: usize) -> (r: usize)
    requires
        from <= s@.len(),
    ensures
        r as nat == find(s@, c, from as nat),
        from <= r <= s@.len(),
        r < s@.len() ==> s@[r as int] == c,
    decreases s@.len() - from,
{
    let len = s.unicode_len();
    if from == len {
        len
    } else if s.get_char(from) == c {
        from
    } else {
        find_char(s, c, from + 1)
    }
}

/// Whether every segment of the body carries a `=`, so that the body can be
/// parsed into key/value pairs.
pub fn body_is_well_formed(body: &str) -> (r: bool)
    ensures
        r == well_formed_body(body@),
    decreases body@.len(),
{
    let len = body.unicode_len();
    let a = find_char(body, '&', 0);
    if a == len {
        let e = find_char(body, '=', 0);
        e < len
    } else {
        let seg = body.substring_char(0, a);
        let e = find_char(seg, '=', 0);
        if e == a {
            false
        } else {
            let rest = body.substring_char(a + 1, len);
            body_is_well_formed(rest)
        }
    }
}

/// Parse a well-formed body into its key/value pairs: per segment, the raw
/// key and the percent-decoded value.
pub fn parse_form(body: &str) -> (r: Vec<(String, String)>)
    requires
        well_formed_body(body@),
    ensures
        r@.len() == form_pairs(body@).len(),
        forall|i: int|
            0 <= i < r@.len() ==> r@[i].0@ == form_pairs(body@)[i].0 && r@[i].1@ == form_pairs(
                body@,
            )[i].1,
    decreases body@.len(),
{
    let len = body.unicode_len();
    let a = find_char(body, '&', 0);
    if a == len {
        let (key, value) = parse_pair(body);
        let mut out: Vec<(String, String)> = Vec::new();
        out.push((key, value));
        out
    } else {
        let seg = body.substring_char(0, a);
        let (key, value) = parse_pair(seg);
        let rest = body.substring_char(a + 1, len);
        let mut out = parse_form(rest);
        out.insert(0, (key, value));
        proof {
            assert(form_pairs(body@) == seq![
                (seg_key(seg@), percent_decoded(seg_value(seg@))),
            ] + form_pairs(rest@));
        }
        out
    }
}

/// The key and percent-decoded value of one segment that contains `=`.
fn parse_pair(seg: &str) -> (r: (String, String))
    requires
        find(seg@, '=', 0) < seg@.len(),
    ensures
        r.0@ == seg_key(seg@),
        r.1@ == percent_decoded(seg_value(seg@)),
{
    let len = seg.unicode_len();
    let e1 = find_char(seg, '=', 0);
    assert(e1 < len);
    let key = seg.substring_char(0, e1).to_owned();
    let e2 = find_char(seg, '=', e1 + 1);
    let raw_value = seg.substring_char(e1 + 1, e2);
    let value = percent_decode_lossy(raw_value);
    (key, value)
}

} // verus!
