//! Best-effort scrubbing of API keys from request bodies before they are
//! written to a diagnostic recording.
//!
//! Three passes over the body text: the value after an `authorization`
//! header (keeping a `Bearer` scheme), the value after `x-api-key`, and the
//! string value of a JSON `"api_key"` field are replaced by `REDACTED`.
//! Matching is ASCII-case-insensitive and works on byte offsets.

use vstd::prelude::*;
use vstd::utf8::valid_utf8;
use crate::text::utf8_decode;

verus! {

// ---------------------------------------------------------------------------
// Byte-level vocabulary
// ---------------------------------------------------------------------------

pub open spec fn ascii_lower(b: u8) -> u8 {
    if 65 <= b && b <= 90 { (b + 32) as u8 } else { b }
}

/// `to_ascii_lowercase` of a byte string.
pub open spec fn lower_bytes(t: Seq<u8>) -> Seq<u8> {
    t.map_values(|b: u8| ascii_lower(b))
}

/// `str::is_char_boundary`: offset 0, the end, or a byte that does not
/// continue a multi-byte character. Slicing elsewhere panics.
pub open spec fn char_boundary(t: Seq<u8>, i: int) -> bool {
    i == 0 || i == t.len() || (0 <= i < t.len() && !(0x80 <= t[i] && t[i] <= 0xbf))
}

/// `needle` occurs in `h` at `k`.
pub open spec fn match_at(h: Seq<u8>, n: Seq<u8>, k: int) -> bool {
    0 <= k && k + n.len() <= h.len() && h.subrange(k, k + n.len()) == n
}

/// First occurrence of `n` in `h` at or after `k`.
pub open spec fn find_from(h: Seq<u8>, n: Seq<u8>, k: int) -> Option<int>
    decreases h.len() - k,
{
    if k < 0 || k >= h.len() || k + n.len() > h.len() {
        None
    } else if match_at(h, n, k) {
        Some(k)
    } else {
        find_from(h, n, k + 1)
    }
}

pub proof fn lemma_find_from_bounds(h: Seq<u8>, n: Seq<u8>, k: int)
    ensures
        find_from(h, n, k) matches Some(i) ==> k <= i && match_at(h, n, i),
    decreases h.len() - k,
{
    if !(k < 0 || k >= h.len() || k + n.len() > h.len()) && !match_at(h, n, k) {
        lemma_find_from_bounds(h, n, k + 1);
    }
}

/// `[A-Za-z0-9_-]`
pub open spec fn is_word_byte(b: u8) -> bool {
    (48 <= b && b <= 57) || (65 <= b && b <= 90) || (97 <= b && b <= 122) || b == 45 || b == 95
}

/// UTF-8 bytes of the character whose code point is the byte `b`
/// (`out.push(b as char)`).
pub open spec fn latin1_bytes(b: u8) -> Seq<u8> {
    if b < 128 { seq![b] } else { seq![(0xc0u8 | (b >> 6u8)) as u8, (0x80u8 | (b & 0x3fu8)) as u8] }
}

pub open spec fn redacted() -> Seq<u8> {
    seq![82u8, 69u8, 68u8, 65u8, 67u8, 84u8, 69u8, 68u8]
}

pub open spec fn bearer_lower() -> Seq<u8> {
    seq![98u8, 101u8, 97u8, 114u8, 101u8, 114u8]
}

/// `Bearer ` as written back.
pub open spec fn bearer_out() -> Seq<u8> {
    seq![66u8, 101u8, 97u8, 114u8, 101u8, 114u8, 32u8]
}

/// After a header name ending at `after`: scanning up to 64 bytes of quotes
/// and blanks, the offset just past the `:`, if one is found.
pub open spec fn colon_after(t: Seq<u8>, after: int, j: int) -> Option<int>
    decreases t.len() - j,
{
    if j < 0 || j >= t.len() || j - after >= 64 || j < after {
        None
    } else if t[j] == 58u8 {
        Some(j + 1)
    } else if t[j] == 34u8 || t[j] == 32u8 || t[j] == 9u8 {
        colon_after(t, after, j + 1)
    } else {
        None
    }
}

pub proof fn lemma_colon_after_bounds(t: Seq<u8>, after: int, j: int)
    ensures
        colon_after(t, after, j) matches Some(k) ==> j < k <= t.len(),
    decreases t.len() - j,
{
    if !(j < 0 || j >= t.len() || j - after >= 64 || j < after) && t[j] != 58u8
        && (t[j] == 34u8 || t[j] == 32u8 || t[j] == 9u8) {
        lemma_colon_after_bounds(t, after, j + 1);
    }
}

/// Skip blanks and quotes after the colon; each quote is kept.
/// Returns the end offset and the quotes kept.
pub open spec fn skip_blanks(t: Seq<u8>, j: int) -> (int, Seq<u8>)
    decreases t.len() - j,
{
    if 0 <= j < t.len() && (t[j] == 32u8 || t[j] == 9u8 || t[j] == 34u8) {
        let r = skip_blanks(t, j + 1);
        (r.0, if t[j] == 34u8 { seq![34u8] + r.1 } else { r.1 })
    } else {
        (j, Seq::empty())
    }
}

pub proof fn lemma_skip_blanks_bounds(t: Seq<u8>, j: int)
    requires
        0 <= j <= t.len(),
    ensures
        j <= skip_blanks(t, j).0 <= t.len(),
    decreases t.len() - j,
{
    if 0 <= j < t.len() && (t[j] == 32u8 || t[j] == 9u8 || t[j] == 34u8) {
        lemma_skip_blanks_bounds(t, j + 1);
    }
}

pub open spec fn is_value_end(b: u8) -> bool {
    b == 44u8 || b == 125u8 || b == 93u8 || b == 59u8 || b == 34u8 || b == 10u8 || b == 13u8
}

/// First value terminator (`, } ] ; " \n \r`) at or after `j`, or the end.
pub open spec fn value_end(t: Seq<u8>, j: int) -> int
    decreases t.len() - j,
{
    if j < 0 || j >= t.len() || is_value_end(t[j]) { j } else { value_end(t, j + 1) }
}

pub proof fn lemma_value_end_bounds(t: Seq<u8>, j: int)
    requires
        0 <= j <= t.len(),
    ensures
        j <= value_end(t, j) <= t.len(),
    decreases t.len() - j,
{
    if !(j < 0 || j >= t.len() || is_value_end(t[j])) {
        lemma_value_end_bounds(t, j + 1);
    }
}

/// After the colon: blanks dropped and quotes kept, the optional `Bearer `
/// scheme (for the authorization header), then the value. Returns the output for this part
/// and the offset where scanning resumes.
pub open spec fn redact_value(t: Seq<u8>, k: int, bearer: bool) -> (Seq<u8>, int) {
    let (j0, quotes) = skip_blanks(t, k);
    let has_scheme = bearer && match_at(lower_bytes(t), bearer_lower(), j0);
    let j1 = if has_scheme {
        if j0 + 6 < t.len() && (t[j0 + 6] == 32u8 || t[j0 + 6] == 9u8) { j0 + 7 } else { j0 + 6 }
    } else {
        j0
    };
    let e = value_end(t, j1);
    let scheme = if has_scheme { bearer_out() } else { Seq::<u8>::empty() };
    let val = if e > j1 { redacted() } else { Seq::<u8>::empty() };
    (quotes + scheme + val, e)
}

pub proof fn lemma_redact_value_bounds(t: Seq<u8>, k: int, bearer: bool)
    requires
        0 <= k <= t.len(),
    ensures
        k <= redact_value(t, k, bearer).1 <= t.len(),
{
    lemma_skip_blanks_bounds(t, k);
    let (j0, quotes) = skip_blanks(t, k);
    let has_scheme = bearer && match_at(lower_bytes(t), bearer_lower(), j0);
    let j1 = if has_scheme {
        if j0 + 6 < t.len() && (t[j0 + 6] == 32u8 || t[j0 + 6] == 9u8) { j0 + 7 } else { j0 + 6 }
    } else {
        j0
    };
    lemma_value_end_bounds(t, j1);
}

/// A match of a header name at `[abs, after)` stands on word boundaries.
pub open spec fn word_bounded(t: Seq<u8>, abs: int, after: int) -> bool {
    (abs == 0 || !is_word_byte(t[abs - 1])) && (after >= t.len() || !is_word_byte(t[after]))
}

/// The header pass from offset `i`: `None` where the scan would slice
/// the text inside a character (and panic).
#[verifier::opaque]
pub open spec fn redact_header_from(t: Seq<u8>, needle: Seq<u8>, bearer: bool, i: int) -> Option<Seq<u8>>
    decreases t.len() - i,
{
    if i < 0 || i >= t.len() || needle.len() == 0 {
        Some(Seq::empty())
    } else if !char_boundary(t, i) {
        None
    } else {
        match find_from(lower_bytes(t), needle, i) {
            None => Some(t.subrange(i, t.len() as int)),
            Some(abs) => {
                proof { lemma_find_from_bounds(lower_bytes(t), needle, i); }
                let after = abs + needle.len();
                let prev_ok = abs == 0 || !is_word_byte(t[abs - 1]);
                let next_ok = after >= t.len() || !is_word_byte(t[after]);
                if !(prev_ok && next_ok) {
                    match redact_header_from(t, needle, bearer, i + 1) {
                        Some(rest) => Some(latin1_bytes(t[i]) + rest),
                        None => None,
                    }
                } else {
                    let head = t.subrange(i, after);
                    match colon_after(t, after, after) {
                        None => match redact_header_from(t, needle, bearer, after) {
                            Some(rest) => Some(head + rest),
                            None => None,
                        },
                        Some(k) => {
                            proof {
                                lemma_colon_after_bounds(t, after, after);
                                lemma_redact_value_bounds(t, k, bearer);
                            }
                            let (mid, e) = redact_value(t, k, bearer);
                            match redact_header_from(t, needle, bearer, e) {
                                Some(rest) => Some(t.subrange(i, k) + mid + rest),
                                None => None,
                            }
                        },
                    }
                }
            },
        }
    }
}


/// The header pass past the end of the text adds nothing.
pub proof fn lemma_header_end(t: Seq<u8>, needle: Seq<u8>, bearer: bool)
    ensures
        redact_header_from(t, needle, bearer, t.len() as int) == Some(Seq::<u8>::empty()),
{
    reveal(redact_header_from);
}

/// One step of the header pass, case by case.
pub proof fn lemma_header_unfold(t: Seq<u8>, needle: Seq<u8>, bearer: bool, i: int)
    requires
        0 <= i < t.len(),
        needle.len() > 0,
    ensures
        !char_boundary(t, i) ==> redact_header_from(t, needle, bearer, i) is None,
        char_boundary(t, i) && find_from(lower_bytes(t), needle, i) is None
            ==> redact_header_from(t, needle, bearer, i) == Some(t.subrange(i, t.len() as int)),
        char_boundary(t, i) ==> (find_from(lower_bytes(t), needle, i) matches Some(abs) ==> {
            let after = abs + needle.len();
            let head = t.subrange(i, after);
            if !word_bounded(t, abs, after) {
                redact_header_from(t, needle, bearer, i)
                    == prepend(latin1_bytes(t[i]), redact_header_from(t, needle, bearer, i + 1))
            } else {
                match colon_after(t, after, after) {
                    None => redact_header_from(t, needle, bearer, i)
                        == prepend(head, redact_header_from(t, needle, bearer, after)),
                    Some(k) => redact_header_from(t, needle, bearer, i)
                        == prepend(t.subrange(i, k) + redact_value(t, k, bearer).0,
                            redact_header_from(t, needle, bearer, redact_value(t, k, bearer).1)),
                }
            }
        }),
{
    reveal(redact_header_from);
    if char_boundary(t, i) {
        if let Some(abs) = find_from(lower_bytes(t), needle, i) {
            let after = abs + needle.len();
            let head = t.subrange(i, after);
            if word_bounded(t, abs, after) {
                if let Some(k) = colon_after(t, after, after) {
                    let (mid, e) = redact_value(t, k, bearer);
                    match redact_header_from(t, needle, bearer, e) {
                        Some(rest) => { assert(t.subrange(i, k) + mid + rest =~= (t.subrange(i, k) + mid) + rest); },
                        None => {},
                    }
                }
            }
        }
    }
}

/// Separators skipped (and kept) between `"api_key"` and its value.
pub open spec fn skip_sep(t: Seq<u8>, j: int) -> (int, Seq<u8>)
    decreases t.len() - j,
{
    if 0 <= j < t.len() && (t[j] == 32u8 || t[j] == 9u8 || t[j] == 58u8) {
        let r = skip_sep(t, j + 1);
        (r.0, seq![t[j]] + r.1)
    } else {
        (j, Seq::empty())
    }
}

pub proof fn lemma_skip_sep_bounds(t: Seq<u8>, j: int)
    requires
        0 <= j <= t.len(),
    ensures
        j <= skip_sep(t, j).0 <= t.len(),
    decreases t.len() - j,
{
    if 0 <= j < t.len() && (t[j] == 32u8 || t[j] == 9u8 || t[j] == 58u8) {
        lemma_skip_sep_bounds(t, j + 1);
    }
}

/// The closing quote of a JSON string body starting at `j` (backslash
/// escapes skipped), or the end of the text.
pub open spec fn string_end(t: Seq<u8>, j: int) -> int
    decreases t.len() - j,
{
    if j < 0 || j >= t.len() {
        j
    } else if t[j] == 92u8 && j + 1 < t.len() {
        string_end(t, j + 2)
    } else if t[j] == 34u8 {
        j
    } else {
        string_end(t, j + 1)
    }
}

pub proof fn lemma_string_end_bounds(t: Seq<u8>, j: int)
    requires
        0 <= j <= t.len(),
    ensures
        j <= string_end(t, j) <= t.len(),
        string_end(t, j) < t.len() ==> t[string_end(t, j)] == 34u8,
    decreases t.len() - j,
{
    if j < t.len() {
        if t[j] == 92u8 && j + 1 < t.len() {
            lemma_string_end_bounds(t, j + 2);
        } else if t[j] != 34u8 {
            lemma_string_end_bounds(t, j + 1);
        }
    }
}

/// The JSON-field pass from offset `i`. When the name is not followed by
/// a string value, the field is left as it is: the name and separators are
/// copied once and scanning resumes after the separators.
#[verifier::opaque]
pub open spec fn redact_json_from(t: Seq<u8>, needle: Seq<u8>, i: int) -> Seq<u8>
    decreases t.len() - i,
{
    if i < 0 || i >= t.len() || needle.len() == 0 {
        Seq::empty()
    } else {
        match find_from(lower_bytes(t), needle, i) {
            None => t.subrange(i, t.len() as int),
            Some(abs) => {
                proof { lemma_find_from_bounds(lower_bytes(t), needle, i); }
                let a2 = abs + needle.len();
                let head = t.subrange(i, a2);
                proof { lemma_skip_sep_bounds(t, a2); }
                let (j, seps) = skip_sep(t, a2);
                if j >= t.len() || t[j] != 34u8 {
                    head + seps + redact_json_from(t, needle, j)
                } else {
                    proof { lemma_string_end_bounds(t, j + 1); }
                    let e = string_end(t, j + 1);
                    let val = if e > j + 1 { redacted() } else { Seq::<u8>::empty() };
                    if e < t.len() {
                        head + seps + seq![34u8] + val + seq![34u8] + redact_json_from(t, needle, e + 1)
                    } else {
                        head + seps + seq![34u8] + val + redact_json_from(t, needle, e)
                    }
                }
            },
        }
    }
}

/// One step of the JSON-field pass, case by case.
pub proof fn lemma_json_unfold(t: Seq<u8>, needle: Seq<u8>, i: int)
    requires
        0 <= i < t.len(),
        needle.len() > 0,
    ensures
        find_from(lower_bytes(t), needle, i) is None
            ==> redact_json_from(t, needle, i) == t.subrange(i, t.len() as int),
        find_from(lower_bytes(t), needle, i) matches Some(abs) ==> {
            let a2 = abs + needle.len();
            let head = t.subrange(i, a2);
            let (j, seps) = skip_sep(t, a2);
            if j >= t.len() || t[j] != 34u8 {
                redact_json_from(t, needle, i) == head + seps + redact_json_from(t, needle, j)
            } else {
                let e = string_end(t, j + 1);
                let val = if e > j + 1 { redacted() } else { Seq::<u8>::empty() };
                if e < t.len() {
                    redact_json_from(t, needle, i)
                        == head + seps + seq![34u8] + val + seq![34u8] + redact_json_from(t, needle, e + 1)
                } else {
                    redact_json_from(t, needle, i) == head + seps + seq![34u8] + val
                }
            }
        },
{
    reveal(redact_json_from);
    if let Some(abs) = find_from(lower_bytes(t), needle, i) {
        lemma_find_from_bounds(lower_bytes(t), needle, i);
        let a2 = abs + needle.len();
        lemma_skip_sep_bounds(t, a2);
        let (j, seps) = skip_sep(t, a2);
        if !(j >= t.len() || t[j] != 34u8) {
            lemma_string_end_bounds(t, j + 1);
            let e = string_end(t, j + 1);
            if e >= t.len() {
                assert(redact_json_from(t, needle, e) == Seq::<u8>::empty());
                let val = if e > j + 1 { redacted() } else { Seq::<u8>::empty() };
                assert(t.subrange(i, a2) + seps + seq![34u8] + val + Seq::<u8>::empty()
                    =~= t.subrange(i, a2) + seps + seq![34u8] + val);
            }
        }
    }
}

/// The JSON-field pass past the end of the text adds nothing.
pub proof fn lemma_json_end(t: Seq<u8>, needle: Seq<u8>)
    ensures
        redact_json_from(t, needle, t.len() as int) == Seq::<u8>::empty(),
{
    reveal(redact_json_from);
}

pub open spec fn authorization_lower() -> Seq<u8> {
    seq![97u8, 117u8, 116u8, 104u8, 111u8, 114u8, 105u8, 122u8, 97u8, 116u8, 105u8, 111u8, 110u8]
}

pub open spec fn x_api_key_lower() -> Seq<u8> {
    seq![120u8, 45u8, 97u8, 112u8, 105u8, 45u8, 107u8, 101u8, 121u8]
}

/// `"api_key"` with its quotes.
pub open spec fn api_key_field() -> Seq<u8> {
    seq![34u8, 97u8, 112u8, 105u8, 95u8, 107u8, 101u8, 121u8, 34u8]
}

/// The whole scrub: bodies that are not UTF-8 are returned unchanged;
/// `None` where the header pass would panic.
pub open spec fn spec_redact(body: Seq<u8>) -> Option<Seq<u8>> {
    if !valid_utf8(body) {
        Some(body)
    } else {
        match redact_header_from(body, authorization_lower(), true, 0) {
            None => None,
            Some(t1) => match redact_header_from(t1, x_api_key_lower(), false, 0) {
                None => None,
                Some(t2) => Some(redact_json_from(t2, api_key_field(), 0)),
            },
        }
    }
}


// ---------------------------------------------------------------------------
// Executable scrubber
// ---------------------------------------------------------------------------

pub open spec fn bytes_opt(o: Option<Vec<u8>>) -> Option<Seq<u8>> {
    match o {
        Some(v) => Some(v@),
        None => None,
    }
}

/// `o` with `pre` in front of its contents.
pub open spec fn prepend(pre: Seq<u8>, o: Option<Seq<u8>>) -> Option<Seq<u8>> {
    match o {
        Some(r) => Some(pre + r),
        None => None,
    }
}

/// ASCII-lowercased copy of `t`.
pub fn lower_vec(t: &[u8]) -> (r: Vec<u8>)
    ensures
        r@ == lower_bytes(t@),
{
    let mut r: Vec<u8> = Vec::new();
    let mut i: usize = 0;
    while i < t.len()
        invariant
            0 <= i <= t.len(),
            r@.len() == i,
            forall|k: int| 0 <= k < i ==> r@[k] == ascii_lower(t@[k]),
        decreases t.len() - i,
    {
        let b = t[i];
        let l: u8 = if 65 <= b && b <= 90 { b + 32 } else { b };
        r.push(l);
        i = i + 1;
    }
    assert(r@ =~= lower_bytes(t@));
    r
}

/// Whether `n` occurs in `h` at offset `k`.
pub fn bytes_match_at(h: &[u8], n: &[u8], k: usize) -> (r: bool)
    ensures
        r == match_at(h@, n@, k as int),
{
    if k > h.len() || n.len() > h.len() - k {
        return false;
    }
    let mut m: usize = 0;
    while m < n.len()
        invariant
            k + n.len() <= h.len(),
            0 <= m <= n.len(),
            forall|q: int| 0 <= q < m ==> h@[k + q] == n@[q],
        decreases n.len() - m,
    {
        if h[k + m] != n[m] {
            assert(h@.subrange(k as int, k + n@.len())[m as int] != n@[m as int]);
            return false;
        }
        m = m + 1;
    }
    assert(h@.subrange(k as int, k + n@.len()) =~= n@);
    true
}

/// First occurrence of `n` in `h` at or after `k`.
pub fn find_bytes(h: &[u8], n: &[u8], k: usize) -> (r: Option<usize>)
    ensures
        r matches Some(i) ==> find_from(h@, n@, k as int) == Some(i as int),
        r is None ==> find_from(h@, n@, k as int) is None,
{
    let mut p: usize = k;
    while p < h.len() && n.len() <= h.len() - p
        invariant
            k <= p,
            find_from(h@, n@, k as int) == find_from(h@, n@, p as int),
        decreases h.len() - p,
    {
        if bytes_match_at(h, n, p) {
            return Some(p);
        }
        p = p + 1;
    }
    None
}

/// `out` extended by `t[a..b]`.
pub fn push_range(out: &mut Vec<u8>, t: &[u8], a: usize, b: usize)
    requires
        a <= b <= t@.len(),
    ensures
        final(out)@ == old(out)@ + t@.subrange(a as int, b as int),
{
    let mut i: usize = a;
    while i < b
        invariant
            a <= i <= b <= t@.len(),
            out@ == old(out)@ + t@.subrange(a as int, i as int),
        decreases b - i,
    {
        out.push(t[i]);
        assert(t@.subrange(a as int, i + 1) =~= t@.subrange(a as int, i as int).push(t@[i as int]));
        i = i + 1;
    }
}

/// Offset just past the `:` that follows a header name ending at `after`.
fn colon_after_exec(t: &[u8], after: usize) -> (r: Option<usize>)
    requires
        after <= t@.len(),
    ensures
        r matches Some(k) ==> colon_after(t@, after as int, after as int) == Some(k as int),
        r is None ==> colon_after(t@, after as int, after as int) is None,
{
    let mut j: usize = after;
    while j < t.len() && j - after < 64
        invariant
            after <= j <= t@.len(),
            colon_after(t@, after as int, after as int) == colon_after(t@, after as int, j as int),
        decreases t.len() - j,
    {
        let b = t[j];
        if b == 58u8 {
            return Some(j + 1);
        }
        if b == 34u8 || b == 32u8 || b == 9u8 {
            j = j + 1;
        } else {
            return None;
        }
    }
    None
}

/// Skips blanks and quotes from `k`, appending each quote to `out`.
fn skip_blanks_exec(t: &[u8], k: usize, out: &mut Vec<u8>) -> (j: usize)
    requires
        k <= t@.len(),
    ensures
        j == skip_blanks(t@, k as int).0,
        final(out)@ == old(out)@ + skip_blanks(t@, k as int).1,
{
    let mut j: usize = k;
    while j < t.len() && (t[j] == 32u8 || t[j] == 9u8 || t[j] == 34u8)
        invariant
            k <= j <= t@.len(),
            skip_blanks(t@, k as int).0 == skip_blanks(t@, j as int).0,
            old(out)@ + skip_blanks(t@, k as int).1 == out@ + skip_blanks(t@, j as int).1,
        decreases t.len() - j,
    {
        if t[j] == 34u8 {
            let ghost before = out@;
            out.push(34u8);
            assert(before + skip_blanks(t@, j as int).1 =~= out@ + skip_blanks(t@, j + 1).1);
        }
        j = j + 1;
    }
    assert(skip_blanks(t@, j as int).1 =~= Seq::<u8>::empty());
    assert(out@ + Seq::<u8>::empty() =~= out@);
    j
}

/// First value terminator at or after `j`.
fn value_end_exec(t: &[u8], j: usize) -> (e: usize)
    requires
        j <= t@.len(),
    ensures
        e == value_end(t@, j as int),
{
    let mut e: usize = j;
    while e < t.len() && !(t[e] == 44u8 || t[e] == 125u8 || t[e] == 93u8 || t[e] == 59u8
        || t[e] == 34u8 || t[e] == 10u8 || t[e] == 13u8)
        invariant
            j <= e <= t@.len(),
            value_end(t@, j as int) == value_end(t@, e as int),
        decreases t.len() - e,
    {
        e = e + 1;
    }
    e
}

/// Appends the redacted value part after the colon at `k` and returns the
/// offset where scanning resumes.
fn redact_value_exec(t: &[u8], lower: &[u8], k: usize, bearer: bool, out: &mut Vec<u8>) -> (e: usize)
    requires
        k <= t@.len(),
        lower@ == lower_bytes(t@),
    ensures
        final(out)@ == old(out)@ + redact_value(t@, k as int, bearer).0,
        e == redact_value(t@, k as int, bearer).1,
{
    let ghost start = out@;
    let j0 = skip_blanks_exec(t, k, out);
    let ghost quotes = skip_blanks(t@, k as int).1;
    let mut j = j0;
    let has_scheme = bearer && j0 <= lower.len() && 6 <= lower.len() - j0 && lower[j0] == 98u8
        && lower[j0 + 1] == 101u8 && lower[j0 + 2] == 97u8 && lower[j0 + 3] == 114u8
        && lower[j0 + 4] == 101u8 && lower[j0 + 5] == 114u8;
    proof {
        lemma_skip_blanks_bounds(t@, k as int);
        if bearer && match_at(lower_bytes(t@), bearer_lower(), j0 as int) {
            let w = lower_bytes(t@).subrange(j0 as int, j0 + 6);
            assert(w[0] == 98u8 && w[1] == 101u8 && w[2] == 97u8 && w[3] == 114u8 && w[4] == 101u8 && w[5] == 114u8);
        }
        if has_scheme {
            assert(lower_bytes(t@).subrange(j0 as int, j0 + 6) =~= bearer_lower());
        }
    }
    assert(has_scheme == (bearer && match_at(lower_bytes(t@), bearer_lower(), j0 as int)));
    if has_scheme {
        out.push(66u8);
        out.push(101u8);
        out.push(97u8);
        out.push(114u8);
        out.push(101u8);
        out.push(114u8);
        out.push(32u8);
        j = j0 + 6;
        if j < t.len() && (t[j] == 32u8 || t[j] == 9u8) {
            j = j + 1;
        }
    }
    let ghost scheme = if has_scheme { bearer_out() } else { Seq::<u8>::empty() };
    assert(out@ =~= start + quotes + scheme);
    let e = value_end_exec(t, j);
    proof { lemma_value_end_bounds(t@, j as int); }
    if e > j {
        out.push(82u8);
        out.push(69u8);
        out.push(68u8);
        out.push(65u8);
        out.push(67u8);
        out.push(84u8);
        out.push(69u8);
        out.push(68u8);
    }
    let ghost val = if e > j { redacted() } else { Seq::<u8>::empty() };
    assert(out@ =~= start + (quotes + scheme + val));
    e
}

/// Outcome of one step of the header pass.
enum PassStep {
    /// The rest of the text was copied.
    Finished,
    /// The scan would cut a character in two.
    Cut,
    /// Scanning resumes at this offset.
    Resume(usize),
}

/// One step of the header pass at offset `i`.
#[verifier::rlimit(40)]
fn header_step(t: &[u8], lower: &[u8], needle: &[u8], bearer: bool, i: usize, out: &mut Vec<u8>) -> (r: PassStep)
    requires
        i < t@.len(),
        needle@.len() > 0,
        lower@ == lower_bytes(t@),
    ensures
        r is Finished ==> prepend(old(out)@, redact_header_from(t@, needle@, bearer, i as int)) == Some(final(out)@),
        r is Cut ==> redact_header_from(t@, needle@, bearer, i as int) is None,
        r matches PassStep::Resume(j) ==> i < j <= t@.len()
            && prepend(old(out)@, redact_header_from(t@, needle@, bearer, i as int))
                == prepend(final(out)@, redact_header_from(t@, needle@, bearer, j as int)),
{
    proof { lemma_header_unfold(t@, needle@, bearer, i as int); }
    if i > 0 && 0x80u8 <= t[i] && t[i] <= 0xbfu8 {
        return PassStep::Cut;
    }
    let ghost o = out@;
    match find_bytes(lower, needle, i) {
        None => {
            push_range(out, t, i, t.len());
            PassStep::Finished
        },
        Some(abs) => {
            proof {
                lemma_find_from_bounds(lower_bytes(t@), needle@, i as int);
                assert(lower_bytes(t@).len() == t@.len());
            }
            let text_len = t.len();
            let after = abs + needle.len();
            let prev_ok = abs == 0 || !(is_word_char(t[abs - 1]));
            let next_ok = after >= text_len || !(is_word_char(t[after]));
            if !(prev_ok && next_ok) {
                push_latin1(out, t[i]);
                proof {
                    match redact_header_from(t@, needle@, bearer, i + 1) {
                        Some(rest) => { assert(o + (latin1_bytes(t@[i as int]) + rest) =~= out@ + rest); },
                        None => {},
                    }
                }
                PassStep::Resume(i + 1)
            } else {
                let j = header_value_step(t, lower, needle, bearer, i, after, out);
                proof {
                    let head = t@.subrange(i as int, after as int);
                    match colon_after(t@, after as int, after as int) {
                        None => {
                            match redact_header_from(t@, needle@, bearer, after as int) {
                                Some(rest) => { assert(o + (head + rest) =~= out@ + rest); },
                                None => {},
                            }
                        },
                        Some(k) => {
                            let mid = redact_value(t@, k, bearer).0;
                            let kept = t@.subrange(i as int, k);
                            match redact_header_from(t@, needle@, bearer, j as int) {
                                Some(rest) => { assert(o + (kept + mid + rest) =~= out@ + rest); },
                                None => {},
                            }
                        },
                    }
                }
                PassStep::Resume(j)
            }
        },
    }
}

/// `out.push(b as char)`: the UTF-8 bytes of the code point `b`.
fn push_latin1(out: &mut Vec<u8>, b: u8)
    ensures
        final(out)@ == old(out)@ + latin1_bytes(b),
{
    if b < 128u8 {
        out.push(b);
        assert(out@ =~= old(out)@ + latin1_bytes(b));
    } else {
        let hi: u8 = 0xc0u8 | (b >> 6u8);
        let lo: u8 = 0x80u8 | (b & 0x3fu8);
        out.push(hi);
        out.push(lo);
        assert(out@ =~= old(out)@ + latin1_bytes(b));
    }
}

/// A header name matched at `[.., after)` on word boundaries: copies
/// `t[i..after]`, then, when a colon follows, the bytes up to and with the
/// colon as they are and the redacted value behind it.
#[verifier::spinoff_prover]
fn header_value_step(t: &[u8], lower: &[u8], needle: &[u8], bearer: bool, i: usize, after: usize, out: &mut Vec<u8>) -> (j: usize)
    requires
        0 <= i < after <= t@.len(),
        needle@.len() > 0,
        lower@ == lower_bytes(t@),
    ensures
        i < j <= t@.len(),
        ({
            let head = t@.subrange(i as int, after as int);
            match colon_after(t@, after as int, after as int) {
                None => j == after && final(out)@ == old(out)@ + head,
                Some(k) => final(out)@ == old(out)@ + t@.subrange(i as int, k) + redact_value(t@, k, bearer).0
                    && j == redact_value(t@, k, bearer).1,
            }
        }),
{
    push_range(out, t, i, after);
    match colon_after_exec(t, after) {
        None => after,
        Some(k) => {
            proof {
                lemma_colon_after_bounds(t@, after as int, after as int);
                lemma_redact_value_bounds(t@, k as int, bearer);
            }
            let ghost o1 = out@;
            push_range(out, t, after, k);
            assert(o1 + t@.subrange(after as int, k as int) =~= old(out)@ + t@.subrange(i as int, k as int));
            redact_value_exec(t, lower, k, bearer, out)
        },
    }
}

/// The header pass over `t` for a lowercase, non-empty `needle`; `None`
/// where the scan would cut a character in two.
fn redact_header_pass(t: &[u8], needle: &[u8], bearer: bool) -> (r: Option<Vec<u8>>)
    requires
        needle@.len() > 0,
    ensures
        bytes_opt(r) == redact_header_from(t@, needle@, bearer, 0),
{
    let lower = lower_vec(t);
    let mut out: Vec<u8> = Vec::new();
    let mut i: usize = 0;
    let ghost total = redact_header_from(t@, needle@, bearer, 0);
    assert(out@ + total.unwrap() =~= total.unwrap());
    while i < t.len()
        invariant
            0 <= i <= t@.len(),
            needle@.len() > 0,
            lower@ == lower_bytes(t@),
            total == redact_header_from(t@, needle@, bearer, 0),
            total == prepend(out@, redact_header_from(t@, needle@, bearer, i as int)),
        decreases t.len() - i,
    {
        match header_step(t, &lower, needle, bearer, i, &mut out) {
            PassStep::Finished => { return Some(out); },
            PassStep::Cut => { return None; },
            PassStep::Resume(j) => { i = j; },
        }
    }
    proof { lemma_header_end(t@, needle@, bearer); }
    assert(out@ + Seq::<u8>::empty() =~= out@);
    Some(out)
}

/// `[A-Za-z0-9_-]`
pub fn is_word_char(b: u8) -> (r: bool)
    ensures
        r == is_word_byte(b),
{
    (48u8 <= b && b <= 57u8) || (65u8 <= b && b <= 90u8) || (97u8 <= b && b <= 122u8) || b == 45u8 || b == 95u8
}


/// Copies the separators (blanks and colons) from `j` to `out`.
fn skip_sep_exec(t: &[u8], j: usize, out: &mut Vec<u8>) -> (e: usize)
    requires
        j <= t@.len(),
    ensures
        e == skip_sep(t@, j as int).0,
        final(out)@ == old(out)@ + skip_sep(t@, j as int).1,
{
    let mut e: usize = j;
    while e < t.len() && (t[e] == 32u8 || t[e] == 9u8 || t[e] == 58u8)
        invariant
            j <= e <= t@.len(),
            skip_sep(t@, j as int).0 == skip_sep(t@, e as int).0,
            old(out)@ + skip_sep(t@, j as int).1 == out@ + skip_sep(t@, e as int).1,
        decreases t.len() - e,
    {
        let ghost before = out@;
        out.push(t[e]);
        assert(before + skip_sep(t@, e as int).1 =~= out@ + skip_sep(t@, e + 1).1);
        e = e + 1;
    }
    assert(out@ + skip_sep(t@, e as int).1 =~= out@);
    e
}

/// End of a JSON string body starting at `j`.
fn string_end_exec(t: &[u8], j: usize) -> (e: usize)
    requires
        j <= t@.len(),
    ensures
        e == string_end(t@, j as int),
{
    let mut e: usize = j;
    while e < t.len()
        invariant
            j <= e <= t@.len(),
            string_end(t@, j as int) == string_end(t@, e as int),
        decreases t.len() - e,
    {
        if t[e] == 92u8 && e + 1 < t.len() {
            e = e + 2;
        } else if t[e] == 34u8 {
            return e;
        } else {
            e = e + 1;
        }
    }
    e
}

/// One step of the JSON-field pass at offset `i`.
#[verifier::spinoff_prover]
#[verifier::rlimit(80)]
fn json_step(t: &[u8], lower: &[u8], needle: &[u8], i: usize, out: &mut Vec<u8>) -> (r: PassStep)
    requires
        i < t@.len(),
        needle@.len() > 0,
        lower@ == lower_bytes(t@),
    ensures
        r is Finished ==> final(out)@ == old(out)@ + redact_json_from(t@, needle@, i as int),
        r is Cut ==> false,
        r matches PassStep::Resume(j) ==> i < j <= t@.len()
            && old(out)@ + redact_json_from(t@, needle@, i as int)
                == final(out)@ + redact_json_from(t@, needle@, j as int),
{
    proof { lemma_json_unfold(t@, needle@, i as int); }
    let ghost o = out@;
    match find_bytes(lower, needle, i) {
        None => {
            push_range(out, t, i, t.len());
            PassStep::Finished
        },
        Some(abs) => {
            proof {
                lemma_find_from_bounds(lower_bytes(t@), needle@, i as int);
                assert(lower_bytes(t@).len() == t@.len());
            }
            let text_len = t.len();
            let a2 = abs + needle.len();
            push_range(out, t, i, a2);
            let ghost head = t@.subrange(i as int, a2 as int);
            proof { lemma_skip_sep_bounds(t@, a2 as int); }
            let j = skip_sep_exec(t, a2, out);
            let ghost seps = skip_sep(t@, a2 as int).1;
            if j >= text_len || t[j] != 34u8 {
                assert(o + (head + seps + redact_json_from(t@, needle@, j as int))
                    =~= out@ + redact_json_from(t@, needle@, j as int));
                PassStep::Resume(j)
            } else {
                out.push(34u8);
                proof { lemma_string_end_bounds(t@, j + 1); }
                let e = string_end_exec(t, j + 1);
                if e > j + 1 {
                    out.push(82u8);
                    out.push(69u8);
                    out.push(68u8);
                    out.push(65u8);
                    out.push(67u8);
                    out.push(84u8);
                    out.push(69u8);
                    out.push(68u8);
                }
                let ghost val = if e > j + 1 { redacted() } else { Seq::<u8>::empty() };
                if e < text_len {
                    out.push(34u8);
                    assert(out@ =~= o + head + seps + seq![34u8] + val + seq![34u8]);
                    assert(o + (head + seps + seq![34u8] + val + seq![34u8] + redact_json_from(t@, needle@, e + 1))
                        =~= out@ + redact_json_from(t@, needle@, e + 1));
                    PassStep::Resume(e + 1)
                } else {
                    assert(out@ =~= o + (head + seps + seq![34u8] + val));
                    PassStep::Finished
                }
            }
        },
    }
}

/// Replaces the string value of every JSON field `"<field>"` (matched in
/// the ASCII-lowercased text) by `REDACTED`.
pub fn redact_json_string_field(text: &[u8], field: &[u8]) -> (r: Vec<u8>)
    ensures
        r@ == redact_json_from(text@, seq![34u8] + field@ + seq![34u8], 0),
{
    let mut needle: Vec<u8> = Vec::new();
    needle.push(34u8);
    push_range(&mut needle, field, 0, field.len());
    needle.push(34u8);
    assert(field@.subrange(0, field@.len() as int) =~= field@);
    assert(needle@ =~= seq![34u8] + field@ + seq![34u8]);
    let lower = lower_vec(text);
    let mut out: Vec<u8> = Vec::new();
    let mut i: usize = 0;
    let ghost total = redact_json_from(text@, needle@, 0);
    assert(out@ + total =~= total);
    while i < text.len()
        invariant
            0 <= i <= text@.len(),
            needle@ == seq![34u8] + field@ + seq![34u8],
            lower@ == lower_bytes(text@),
            total == redact_json_from(text@, needle@, 0),
            total == out@ + redact_json_from(text@, needle@, i as int),
        decreases text.len() - i,
    {
        match json_step(text, &lower, &needle, i, &mut out) {
            PassStep::Finished => {
                return out;
            },
            PassStep::Cut => {
                return out;
            },
            PassStep::Resume(j) => {
                i = j;
            },
        }
    }
    proof { lemma_json_end(text@, needle@); }
    assert(out@ + redact_json_from(text@, needle@, i as int) =~= out@);
    out
}


/// Redacts the value behind each word-bounded occurrence of `header`
/// (ASCII-case-insensitive) that is followed by a colon; with
/// `has_bearer_scheme` a leading `Bearer` scheme is kept.
pub fn redact_header_field(text: &[u8], header: &[u8], has_bearer_scheme: bool) -> (r: Vec<u8>)
    requires
        header@.len() > 0,
        redact_header_from(text@, lower_bytes(header@), has_bearer_scheme, 0) is Some,
    ensures
        redact_header_from(text@, lower_bytes(header@), has_bearer_scheme, 0) == Some(r@),
{
    let needle = lower_vec(header);
    match redact_header_pass(text, &needle, has_bearer_scheme) {
        Some(v) => v,
        None => Vec::new(),
    }
}

/// The scrub of `redact_request_bytes`, or `None` on the bodies where it
/// would cut a character in two.
pub fn try_redact_request_bytes(body: &[u8]) -> (r: Option<Vec<u8>>)
    ensures
        bytes_opt(r) == spec_redact(body@),
{
    if utf8_decode(body).is_none() {
        let mut copy: Vec<u8> = Vec::new();
        push_range(&mut copy, body, 0, body.len());
        assert(body@.subrange(0, body@.len() as int) =~= body@);
        return Some(copy);
    }
    let authorization: Vec<u8> = vec![97u8, 117u8, 116u8, 104u8, 111u8, 114u8, 105u8, 122u8, 97u8, 116u8, 105u8, 111u8, 110u8];
    let x_api_key: Vec<u8> = vec![120u8, 45u8, 97u8, 112u8, 105u8, 45u8, 107u8, 101u8, 121u8];
    let api_key: Vec<u8> = vec![97u8, 112u8, 105u8, 95u8, 107u8, 101u8, 121u8];
    assert(authorization@ =~= authorization_lower());
    assert(x_api_key@ =~= x_api_key_lower());
    assert(seq![34u8] + api_key@ + seq![34u8] =~= api_key_field());
    match redact_header_pass(body, &authorization, true) {
        None => None,
        Some(t1) => match redact_header_pass(&t1, &x_api_key, false) {
            None => None,
            Some(t2) => Some(redact_json_string_field(&t2, &api_key)),
        },
    }
}

/// Scrubs API keys from a request body before it is recorded: the value of
/// an `Authorization` header (keeping a `Bearer` scheme), of an `x-api-key`
/// header, and of a JSON `"api_key"` string field become `REDACTED`.
/// A body that is not UTF-8 is returned as it is.
pub fn redact_request_bytes(body: &[u8]) -> (r: Vec<u8>)
    requires
        spec_redact(body@) is Some,
    ensures
        spec_redact(body@) == Some(r@),
{
    match try_redact_request_bytes(body) {
        Some(v) => v,
        None => Vec::new(),
    }
}


/// The scrub is conservative: a body in which none of `authorization`,
/// `x-api-key` (both case-insensitive) or `"api_key"` occurs comes out
/// unchanged.
pub proof fn law_redact_without_markers_is_identity(body: Seq<u8>)
    requires
        find_from(lower_bytes(body), authorization_lower(), 0) is None,
        find_from(lower_bytes(body), x_api_key_lower(), 0) is None,
        find_from(lower_bytes(body), api_key_field(), 0) is None,
    ensures
        spec_redact(body) == Some(body),
{
    if body.len() == 0 {
        lemma_header_end(body, authorization_lower(), true);
        lemma_header_end(body, x_api_key_lower(), false);
        lemma_json_end(body, api_key_field());
        assert(body =~= Seq::<u8>::empty());
    } else {
        lemma_header_unfold(body, authorization_lower(), true, 0);
        lemma_header_unfold(body, x_api_key_lower(), false, 0);
        lemma_json_unfold(body, api_key_field(), 0);
        assert(body.subrange(0, body.len() as int) =~= body);
    }
}

} // verus!
