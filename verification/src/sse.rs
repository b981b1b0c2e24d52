//! SSE byte framer shared by the three protocols.
//!
//! Bytes accumulate in the parser; a blank line (`\n\n` or `\r\n\r\n`)
//! ends a frame. A frame's lines
//! are scanned for `event:` and `data:` fields (comments starting with `:`
//! and unknown fields are ignored); `data: [DONE]` is the Chat Completions
//! terminator. The data text of a frame is handed out raw: turning it into a
//! JSON value happens outside this module, and `SseFrame::from_payload`
//! classifies the result.

use vstd::prelude::*;
use vstd::utf8::*;
use crate::json::{Json, JsonValue};
use crate::text::{chars_of, is_whitespace, is_ws, string_of, utf8_decode};

verus! {

// ---------------------------------------------------------------------------
// Byte framing
// ---------------------------------------------------------------------------

/// `\n\n` starts at `i`.
pub open spec fn is_dnl_at(s: Seq<u8>, i: int) -> bool {
    0 <= i && i + 1 < s.len() && s[i] == 10u8 && s[i + 1] == 10u8
}

/// Index of the first `\n\n` at or after `k`.
pub open spec fn find_dnl_from(s: Seq<u8>, k: int) -> Option<int>
    decreases s.len() - k,
{
    if k < 0 || k + 1 >= s.len() {
        None
    } else if is_dnl_at(s, k) {
        Some(k)
    } else {
        find_dnl_from(s, k + 1)
    }
}

pub proof fn lemma_find_dnl_bounds(s: Seq<u8>, k: int)
    ensures
        find_dnl_from(s, k) matches Some(i) ==> k <= i && is_dnl_at(s, i),
    decreases s.len() - k,
{
    if !(k < 0 || k + 1 >= s.len()) && !is_dnl_at(s, k) {
        lemma_find_dnl_bounds(s, k + 1);
    }
}

/// `\r\n\r\n` starts at `i`.
pub open spec fn is_crlf2_at(s: Seq<u8>, i: int) -> bool {
    0 <= i && i + 3 < s.len() && s[i] == 13u8 && s[i + 1] == 10u8 && s[i + 2] == 13u8 && s[i + 3] == 10u8
}

/// A frame terminator (`\n\n` or `\r\n\r\n`) starts at `i`.
pub open spec fn is_term_at(s: Seq<u8>, i: int) -> bool {
    is_dnl_at(s, i) || is_crlf2_at(s, i)
}

/// Length of the terminator at `i`.
pub open spec fn term_len(s: Seq<u8>, i: int) -> int {
    if is_dnl_at(s, i) { 2 } else { 4 }
}

/// Index of the first frame terminator at or after `k`.
pub open spec fn find_term_from(s: Seq<u8>, k: int) -> Option<int>
    decreases s.len() - k,
{
    if k < 0 || k + 1 >= s.len() {
        None
    } else if is_term_at(s, k) {
        Some(k)
    } else {
        find_term_from(s, k + 1)
    }
}

pub proof fn lemma_find_term_bounds(s: Seq<u8>, k: int)
    ensures
        find_term_from(s, k) matches Some(i) ==> k <= i && is_term_at(s, i)
            && i + term_len(s, i) <= s.len()
            && forall|j: int| k <= j < i ==> !#[trigger] is_term_at(s, j),
    decreases s.len() - k,
{
    if !(k < 0 || k + 1 >= s.len()) && !is_term_at(s, k) {
        lemma_find_term_bounds(s, k + 1);
    }
}

/// Complete frames (text before each terminator) and the bytes left over.
pub open spec fn split_frames(s: Seq<u8>) -> (Seq<Seq<u8>>, Seq<u8>)
    decreases s.len(),
{
    match find_term_from(s, 0) {
        Some(i) => {
            proof { lemma_find_term_bounds(s, 0); }
            let rest = split_frames(s.subrange(i + term_len(s, i), s.len() as int));
            (seq![s.subrange(0, i)] + rest.0, rest.1)
        },
        None => (Seq::empty(), s),
    }
}

/// The frames a parser with buffer `buf` yields for `bytes`, and its new
/// buffer.
pub open spec fn feed_model(buf: Seq<u8>, bytes: Seq<u8>) -> (Seq<RawFrameModel>, Seq<u8>) {
    let (frames, rest) = split_frames(buf + bytes);
    (collect_frames(frames), rest)
}

/// The parsed frames, dropping frames that carry nothing.
pub open spec fn collect_frames(fs: Seq<Seq<u8>>) -> Seq<RawFrameModel>
    decreases fs.len(),
{
    if fs.len() == 0 {
        Seq::empty()
    } else {
        match spec_parse_frame(fs[0]) {
            Some(f) => seq![f] + collect_frames(fs.drop_first()),
            None => collect_frames(fs.drop_first()),
        }
    }
}

// ---------------------------------------------------------------------------
// Frame scanning
// ---------------------------------------------------------------------------

/// What a frame carries before its data text is decoded.
pub enum SseRawFrame {
    /// `data: [DONE]`
    Done,
    /// The last `event:` name (if any) and the `data:` lines joined by `\n`.
    Payload { event: Option<String>, data: String },
}

pub enum RawFrameModel {
    Done,
    Payload(Option<Seq<char>>, Seq<char>),
}

impl SseRawFrame {
    pub open spec fn model(self) -> RawFrameModel {
        match self {
            SseRawFrame::Done => RawFrameModel::Done,
            SseRawFrame::Payload { event, data } => RawFrameModel::Payload(
                match event { Some(e) => Some(e@), None => None },
                data@,
            ),
        }
    }
}

/// Index of the first `c` at or after `k`.
pub open spec fn find_char_from(s: Seq<char>, c: char, k: int) -> Option<int>
    decreases s.len() - k,
{
    if k < 0 || k >= s.len() {
        None
    } else if s[k] == c {
        Some(k)
    } else {
        find_char_from(s, c, k + 1)
    }
}

pub proof fn lemma_find_char_bounds(s: Seq<char>, c: char, k: int)
    ensures
        find_char_from(s, c, k) matches Some(i) ==> k <= i < s.len() && s[i] == c,
    decreases s.len() - k,
{
    if !(k < 0 || k >= s.len()) && s[k] != c {
        lemma_find_char_bounds(s, c, k + 1);
    }
}

proof fn lemma_find_char_first(s: Seq<char>, c: char, k: int, i: int)
    requires
        0 <= k <= i <= s.len(),
        forall|j: int| k <= j < i ==> s[j] != c,
        i < s.len() ==> s[i] == c,
    ensures
        i < s.len() ==> find_char_from(s, c, k) == Some(i),
        i == s.len() ==> find_char_from(s, c, k) is None,
    decreases i - k,
{
    if k < i {
        lemma_find_char_first(s, c, k + 1, i);
    }
}

/// `str::split('\n')`: the pieces between newlines (one more piece than
/// there are newlines).
pub open spec fn split_lines(s: Seq<char>) -> Seq<Seq<char>>
    decreases s.len(),
{
    match find_char_from(s, '\n', 0) {
        Some(i) => {
            proof { lemma_find_char_bounds(s, '\n', 0); }
            seq![s.subrange(0, i)] + split_lines(s.subrange(i + 1, s.len() as int))
        },
        None => seq![s],
    }
}

/// `trim_end_matches('\r')`.
pub open spec fn trim_end_cr(l: Seq<char>) -> Seq<char>
    decreases l.len(),
{
    if l.len() > 0 && l.last() == '\r' {
        trim_end_cr(l.drop_last())
    } else {
        l
    }
}

/// `trim_start()`.
pub open spec fn trim_start_ws(l: Seq<char>) -> Seq<char>
    decreases l.len(),
{
    if l.len() > 0 && is_ws(l[0]) {
        trim_start_ws(l.drop_first())
    } else {
        l
    }
}

/// `trim_end()`.
pub open spec fn trim_end_ws(l: Seq<char>) -> Seq<char>
    decreases l.len(),
{
    if l.len() > 0 && is_ws(l.last()) {
        trim_end_ws(l.drop_last())
    } else {
        l
    }
}

pub open spec fn has_event_prefix(l: Seq<char>) -> bool {
    l.len() >= 6 && l[0] == 'e' && l[1] == 'v' && l[2] == 'e' && l[3] == 'n' && l[4] == 't'
        && l[5] == ':'
}

pub open spec fn has_data_prefix(l: Seq<char>) -> bool {
    l.len() >= 5 && l[0] == 'd' && l[1] == 'a' && l[2] == 't' && l[3] == 'a' && l[4] == ':'
}

pub open spec fn is_done_marker(l: Seq<char>) -> bool {
    l.len() == 6 && l[0] == '[' && l[1] == 'D' && l[2] == 'O' && l[3] == 'N' && l[4] == 'E'
        && l[5] == ']'
}

/// State while scanning a frame's lines.
pub struct LineScan {
    pub event: Option<Seq<char>>,
    pub joined: Seq<char>,
    pub has_data: bool,
    pub done: bool,
}

pub open spec fn scan_init() -> LineScan {
    LineScan { event: None, joined: Seq::empty(), has_data: false, done: false }
}

/// One line of a frame: blank lines, `:` comments and unknown fields are
/// ignored; `event:` sets the name (trimmed); `data:` adds a line (leading
/// whitespace removed) unless it is `[DONE]`.
pub open spec fn scan_line(st: LineScan, raw: Seq<char>) -> LineScan {
    let line = trim_end_cr(raw);
    if st.done {
        st
    } else if line.len() == 0 || line[0] == ':' {
        st
    } else if has_event_prefix(line) {
        LineScan { event: Some(trim_end_ws(trim_start_ws(line.skip(6)))), ..st }
    } else if has_data_prefix(line) {
        let rest = trim_start_ws(line.skip(5));
        if is_done_marker(rest) {
            LineScan { done: true, ..st }
        } else if st.has_data {
            LineScan { joined: st.joined + seq!['\n'] + rest, ..st }
        } else {
            LineScan { joined: rest, has_data: true, ..st }
        }
    } else {
        st
    }
}

pub open spec fn scan_lines(st: LineScan, lines: Seq<Seq<char>>) -> LineScan
    decreases lines.len(),
{
    if lines.len() == 0 {
        st
    } else {
        scan_lines(scan_line(st, lines[0]), lines.drop_first())
    }
}

/// What one frame (bytes between terminators) carries.
pub open spec fn spec_parse_frame(b: Seq<u8>) -> Option<RawFrameModel> {
    if !valid_utf8(b) {
        None
    } else {
        let st = scan_lines(scan_init(), split_lines(decode_utf8(b)));
        if st.done {
            Some(RawFrameModel::Done)
        } else if !st.has_data {
            None
        } else {
            Some(RawFrameModel::Payload(st.event, st.joined))
        }
    }
}


/// One logical frame the upstream sent.
#[derive(Debug)]
pub enum SseFrame {
    /// `data: {json}` — Chat Completions chunk.
    Data(JsonValue),
    /// `data: [DONE]` — Chat Completions terminator.
    Done,
    /// `event: <name>` + `data: {json}` — Responses / Anthropic frame.
    Named { event: String, data: JsonValue },
    /// A frame whose data is not JSON.
    Skip,
}

pub enum SseFrameModel {
    Data(Json),
    Done,
    Named(Seq<char>, Json),
    Skip,
}

impl SseFrame {
    pub open spec fn model(self) -> SseFrameModel {
        match self {
            SseFrame::Data(v) => SseFrameModel::Data(v@),
            SseFrame::Done => SseFrameModel::Done,
            SseFrame::Named { event, data } => SseFrameModel::Named(event@, data@),
            SseFrame::Skip => SseFrameModel::Skip,
        }
    }

    /// Classify a raw frame, given its data text decoded as JSON (`None`
    /// when that text is not JSON): payloads with an event name become
    /// `Named`, others `Data`; undecodable payloads are skipped.
    pub fn from_raw(raw: SseRawFrame, parsed: Option<JsonValue>) -> (r: SseFrame)
        ensures
            r.model() == (match raw.model() {
                RawFrameModel::Done => SseFrameModel::Done,
                RawFrameModel::Payload(event, _) => match parsed {
                    None => SseFrameModel::Skip,
                    Some(v) => match event {
                        Some(name) => SseFrameModel::Named(name, v@),
                        None => SseFrameModel::Data(v@),
                    },
                },
            }),
    {
        match raw {
            SseRawFrame::Done => SseFrame::Done,
            SseRawFrame::Payload { event, data: _ } => match parsed {
                None => SseFrame::Skip,
                Some(v) => match event {
                    Some(name) => SseFrame::Named { event: name, data: v },
                    None => SseFrame::Data(v),
                },
            },
        }
    }
}

// ---------------------------------------------------------------------------
// Chunking does not matter
// ---------------------------------------------------------------------------

proof fn lemma_find_term_extend(s: Seq<u8>, b: Seq<u8>, k: int)
    requires
        0 <= k,
        find_term_from(s, k) is Some,
    ensures
        find_term_from(s + b, k) == find_term_from(s, k),
    decreases s.len() - k,
{
    lemma_find_term_bounds(s, k);
    let i = find_term_from(s, k)->Some_0;
    if k + 1 < s.len() {
        assert(is_dnl_at(s + b, k) == is_dnl_at(s, k));
        if k + 3 < s.len() {
            assert(is_crlf2_at(s + b, k) == is_crlf2_at(s, k));
        } else if k < i {
            // A terminator at `i > k` inside `s` leaves no room for a
            // `\r\n\r\n` at `k` that runs past the end of `s`.
            assert(!is_crlf2_at(s + b, k));
        }
        if !is_term_at(s, k) {
            lemma_find_term_extend(s, b, k + 1);
        }
    }
}

proof fn lemma_split_concat(s: Seq<u8>, b: Seq<u8>)
    ensures
        split_frames(s + b) == (
            split_frames(s).0 + split_frames(split_frames(s).1 + b).0,
            split_frames(split_frames(s).1 + b).1,
        ),
    decreases s.len(),
{
    match find_term_from(s, 0) {
        Some(i) => {
            lemma_find_term_bounds(s, 0);
            lemma_find_term_extend(s, b, 0);
            let n = term_len(s, i);
            assert(term_len(s + b, i) == n);
            let s2 = s.subrange(i + n, s.len() as int);
            lemma_split_concat(s2, b);
            assert((s + b).subrange(0, i) =~= s.subrange(0, i));
            assert((s + b).subrange(i + n, (s + b).len() as int) =~= s2 + b);
            let r = split_frames(split_frames(s2).1 + b);
            assert(seq![s.subrange(0, i)] + (split_frames(s2).0 + r.0)
                =~= (seq![s.subrange(0, i)] + split_frames(s2).0) + r.0);
        },
        None => {
            assert(Seq::<Seq<u8>>::empty() + split_frames(s + b).0 =~= split_frames(s + b).0);
        },
    }
}

proof fn lemma_collect_concat(x: Seq<Seq<u8>>, y: Seq<Seq<u8>>)
    ensures
        collect_frames(x + y) == collect_frames(x) + collect_frames(y),
    decreases x.len(),
{
    if x.len() == 0 {
        assert(x + y =~= y);
        assert(Seq::<RawFrameModel>::empty() + collect_frames(y) =~= collect_frames(y));
    } else {
        lemma_collect_concat(x.drop_first(), y);
        assert((x + y).drop_first() =~= x.drop_first() + y);
        assert((x + y)[0] == x[0]);
        match spec_parse_frame(x[0]) {
            Some(f) => {
                assert(seq![f] + (collect_frames(x.drop_first()) + collect_frames(y))
                    =~= (seq![f] + collect_frames(x.drop_first())) + collect_frames(y));
            },
            None => {},
        }
    }
}

/// Feeding a byte stream to the parser in two pieces yields the same frames,
/// in the same order, and leaves the same bytes buffered, as feeding it in
/// one piece: where the network splits the stream does not matter.
pub proof fn law_feed_chunking_invariant(buf: Seq<u8>, a: Seq<u8>, b: Seq<u8>)
    ensures
        feed_model(buf, a + b) == (
            feed_model(buf, a).0 + feed_model(feed_model(buf, a).1, b).0,
            feed_model(feed_model(buf, a).1, b).1,
        ),
{
    assert(buf + (a + b) =~= (buf + a) + b);
    lemma_split_concat(buf + a, b);
    lemma_collect_concat(split_frames(buf + a).0, split_frames(split_frames(buf + a).1 + b).0);
}

// ---------------------------------------------------------------------------
// Executable framer
// ---------------------------------------------------------------------------

proof fn lemma_find_dnl_shift(s: Seq<u8>, a: int, k: int)
    requires
        0 <= a <= k,
        a <= s.len(),
    ensures
        find_dnl_from(s.subrange(a, s.len() as int), k - a) == (match find_dnl_from(s, k) {
            Some(i) => Some(i - a),
            None => None,
        }),
    decreases s.len() - k,
{
    let t = s.subrange(a, s.len() as int);
    if k + 1 < s.len() {
        assert(is_dnl_at(t, k - a) == is_dnl_at(s, k));
        lemma_find_dnl_shift(s, a, k + 1);
    }
}

proof fn lemma_find_term_shift(s: Seq<u8>, a: int, k: int)
    requires
        0 <= a <= k,
        a <= s.len(),
    ensures
        find_term_from(s.subrange(a, s.len() as int), k - a) == (match find_term_from(s, k) {
            Some(i) => Some(i - a),
            None => None,
        }),
    decreases s.len() - k,
{
    let t = s.subrange(a, s.len() as int);
    if k + 1 < s.len() {
        assert(is_dnl_at(t, k - a) == is_dnl_at(s, k));
        assert(is_crlf2_at(t, k - a) == is_crlf2_at(s, k));
        lemma_find_term_shift(s, a, k + 1);
    }
}

/// The first frame terminator in `buf` at or after `k`, with its length.
fn find_term(buf: &[u8], k: usize) -> (r: Option<(usize, usize)>)
    ensures
        match r {
            Some((i, n)) => find_term_from(buf@, k as int) == Some(i as int) && n == term_len(buf@, i as int),
            None => find_term_from(buf@, k as int) is None,
        },
{
    let mut i = k;
    while buf.len() > 0 && i < buf.len() - 1
        invariant
            k <= i,
            find_term_from(buf@, k as int) == find_term_from(buf@, i as int),
        decreases buf.len() - i,
    {
        if buf[i] == 10u8 && buf[i + 1] == 10u8 {
            return Some((i, 2));
        }
        if buf.len() - i > 3 && buf[i] == 13u8 && buf[i + 1] == 10u8 && buf[i + 2] == 13u8 && buf[i + 3] == 10u8 {
            return Some((i, 4));
        }
        i = i + 1;
    }
    None
}

/// Index of the first `\n\n` in `buf` at or after `k`.
fn find_dnl(buf: &[u8], k: usize) -> (r: Option<usize>)
    ensures
        match r {
            Some(i) => find_dnl_from(buf@, k as int) == Some(i as int),
            None => find_dnl_from(buf@, k as int) is None,
        },
{
    let mut i = k;
    while buf.len() > 0 && i < buf.len() - 1
        invariant
            k <= i,
            find_dnl_from(buf@, k as int) == find_dnl_from(buf@, i as int),
        decreases buf.len() - i,
    {
        if buf[i] == 10u8 && buf[i + 1] == 10u8 {
            return Some(i);
        }
        i = i + 1;
    }
    None
}

/// Index of the first `\n\n` in `buf`.
pub fn find_double_newline(buf: &[u8]) -> (r: Option<usize>)
    ensures
        match r {
            Some(i) => find_dnl_from(buf@, 0) == Some(i as int),
            None => find_dnl_from(buf@, 0) is None,
        },
{
    find_dnl(buf, 0)
}

/// Minimal SSE byte accumulator. Yields frames as they complete.
pub struct SseParser {
    buf: Vec<u8>,
}

impl View for SseParser {
    type V = Seq<u8>;

    closed spec fn view(&self) -> Seq<u8> {
        self.buf@
    }
}

impl SseParser {
    /// An empty parser.
    pub fn new() -> (r: SseParser)
        ensures
            r@ == Seq::<u8>::empty(),
    {
        SseParser { buf: Vec::new() }
    }

    /// Feed a chunk of bytes; return the frames it completes.
    #[verifier::loop_isolation(false)]
    #[verifier::rlimit(60)]
    pub fn feed(&mut self, bytes: &[u8]) -> (out: Vec<SseRawFrame>)
        ensures
            final(self)@ == feed_model(old(self)@, bytes@).1,
            out@.map_values(|f: SseRawFrame| f.model()) == feed_model(old(self)@, bytes@).0,
    {
        let mut all: Vec<u8> = Vec::new();
        all.append(&mut self.buf);
        all.extend_from_slice(bytes);
        let ghost s = all@;
        assert(s =~= old(self)@ + bytes@);
        let ghost n = s.len() as int;
        let mut out: Vec<SseRawFrame> = Vec::new();
        let mut start: usize = 0;
        assert(s.subrange(0, n) =~= s);
        loop
            invariant
                all@ == s,
                n == s.len(),
                0 <= start <= s.len(),
                collect_frames(split_frames(s).0) == out@.map_values(|f: SseRawFrame| f.model())
                    + collect_frames(split_frames(s.subrange(start as int, n)).0),
                split_frames(s).1 == split_frames(s.subrange(start as int, n)).1,
            decreases s.len() - start,
        {
            let found = find_term(all.as_slice(), start);
            let ghost t = s.subrange(start as int, n);
            proof { lemma_find_term_shift(s, start as int, start as int); }
            match found {
                Some((end, tl)) => {
                    proof { lemma_find_term_bounds(s, start as int); }
                    assert(is_term_at(s, end as int));
                    assert(end + tl <= all.len());
                    let frame = vstd::slice::slice_to_vec(vstd::slice::slice_subrange(all.as_slice(), start, end));
                    let ghost rel = (end - start) as int;
                    assert(term_len(t, rel) == tl);
                    assert(t.subrange(rel + tl, t.len() as int) =~= s.subrange(end + tl, n));
                    assert(t.subrange(0, rel) =~= s.subrange(start as int, end as int));
                    let ghost ft = split_frames(t).0;
                    assert(ft[0] == frame@);
                    assert(ft.drop_first() =~= split_frames(s.subrange(end + tl, n)).0);
                    let item = parse_frame(frame.as_slice());
                    let ghost old_out = out@.map_values(|f: SseRawFrame| f.model());
                    match item {
                        Some(it) => {
                            out.push(it);
                            assert(out@.map_values(|f: SseRawFrame| f.model()) =~= old_out.push(it.model()));
                        },
                        None => {},
                    }
                    start = end + tl;
                },
                None => {
                    break;
                },
            }
        }
        let ghost t = s.subrange(start as int, n);
        proof { lemma_find_term_shift(s, start as int, start as int); }
        assert(split_frames(t).0.len() == 0);
        assert(collect_frames(split_frames(t).0).len() == 0);
        assert(out@.map_values(|f: SseRawFrame| f.model()) + collect_frames(split_frames(t).0)
            =~= out@.map_values(|f: SseRawFrame| f.model()));
        self.buf = vstd::slice::slice_to_vec(vstd::slice::slice_subrange(all.as_slice(), start, all.len()));
        out
    }
}

struct ScanState {
    event: Option<Vec<char>>,
    joined: Vec<char>,
    has_data: bool,
    done: bool,
}

impl ScanState {
    spec fn model(self) -> LineScan {
        LineScan {
            event: match self.event { Some(v) => Some(v@), None => None },
            joined: self.joined@,
            has_data: self.has_data,
            done: self.done,
        }
    }
}

fn copy_chars(cs: &Vec<char>, a: usize, b: usize) -> (r: Vec<char>)
    requires
        a <= b <= cs.len(),
    ensures
        r@ == cs@.subrange(a as int, b as int),
{
    vstd::slice::slice_to_vec(vstd::slice::slice_subrange(cs.as_slice(), a, b))
}

fn trim_end_cr_idx(cs: &Vec<char>, from: usize, to: usize) -> (e: usize)
    requires
        from <= to <= cs.len(),
    ensures
        from <= e <= to,
        cs@.subrange(from as int, e as int) == trim_end_cr(cs@.subrange(from as int, to as int)),
{
    let mut e = to;
    while e > from && cs[e - 1] == '\r'
        invariant
            from <= e <= to <= cs.len(),
            trim_end_cr(cs@.subrange(from as int, to as int)) == trim_end_cr(cs@.subrange(from as int, e as int)),
        decreases e,
    {
        assert(cs@.subrange(from as int, e as int).drop_last() =~= cs@.subrange(from as int, e - 1));
        e = e - 1;
    }
    e
}

fn trim_start_ws_idx(cs: &Vec<char>, from: usize, to: usize) -> (a: usize)
    requires
        from <= to <= cs.len(),
    ensures
        from <= a <= to,
        cs@.subrange(a as int, to as int) == trim_start_ws(cs@.subrange(from as int, to as int)),
{
    let mut a = from;
    while a < to && is_whitespace(cs[a])
        invariant
            from <= a <= to <= cs.len(),
            trim_start_ws(cs@.subrange(from as int, to as int)) == trim_start_ws(cs@.subrange(a as int, to as int)),
        decreases to - a,
    {
        assert(cs@.subrange(a as int, to as int).drop_first() =~= cs@.subrange(a + 1, to as int));
        a = a + 1;
    }
    a
}

fn trim_end_ws_idx(cs: &Vec<char>, from: usize, to: usize) -> (e: usize)
    requires
        from <= to <= cs.len(),
    ensures
        from <= e <= to,
        cs@.subrange(from as int, e as int) == trim_end_ws(cs@.subrange(from as int, to as int)),
{
    let mut e = to;
    while e > from && is_whitespace(cs[e - 1])
        invariant
            from <= e <= to <= cs.len(),
            trim_end_ws(cs@.subrange(from as int, to as int)) == trim_end_ws(cs@.subrange(from as int, e as int)),
        decreases e,
    {
        assert(cs@.subrange(from as int, e as int).drop_last() =~= cs@.subrange(from as int, e - 1));
        e = e - 1;
    }
    e
}

fn scan_line_exec(st: &mut ScanState, cs: &Vec<char>, from: usize, to: usize)
    requires
        from <= to <= cs.len(),
    ensures
        final(st).model() == scan_line(old(st).model(), cs@.subrange(from as int, to as int)),
{
    if st.done {
        return;
    }
    let e = trim_end_cr_idx(cs, from, to);
    let ghost line = cs@.subrange(from as int, e as int);
    if e == from || cs[from] == ':' {
        return;
    }
    if e - from >= 6 && cs[from] == 'e' && cs[from + 1] == 'v' && cs[from + 2] == 'e'
        && cs[from + 3] == 'n' && cs[from + 4] == 't' && cs[from + 5] == ':' {
        let a = trim_start_ws_idx(cs, from + 6, e);
        let b = trim_end_ws_idx(cs, a, e);
        assert(line.skip(6) =~= cs@.subrange(from + 6, e as int));
        st.event = Some(copy_chars(cs, a, b));
        return;
    }
    if e - from >= 5 && cs[from] == 'd' && cs[from + 1] == 'a' && cs[from + 2] == 't'
        && cs[from + 3] == 'a' && cs[from + 4] == ':' {
        let a = trim_start_ws_idx(cs, from + 5, e);
        assert(line.skip(5) =~= cs@.subrange(from + 5, e as int));
        let ghost rest = cs@.subrange(a as int, e as int);
        if e - a == 6 && cs[a] == '[' && cs[a + 1] == 'D' && cs[a + 2] == 'O' && cs[a + 3] == 'N'
            && cs[a + 4] == 'E' && cs[a + 5] == ']' {
            st.done = true;
            return;
        }
        let piece = copy_chars(cs, a, e);
        if st.has_data {
            let ghost before = st.joined@;
            st.joined.push('\n');
            let mut p = piece;
            st.joined.append(&mut p);
            assert(st.joined@ =~= before + seq!['\n'] + rest);
        } else {
            st.joined = piece;
            st.has_data = true;
        }
    }
}

/// Parse one frame's bytes (`None` for frames with no data line, or that
/// are not UTF-8).
pub fn parse_frame(frame: &[u8]) -> (r: Option<SseRawFrame>)
    ensures
        match r {
            Some(f) => spec_parse_frame(frame@) == Some(f.model()),
            None => spec_parse_frame(frame@) is None,
        },
{
    let text = match utf8_decode(frame) {
        Some(t) => t,
        None => return None,
    };
    let cs = chars_of(text);
    let ghost all = cs@;
    let n = cs.len();
    let mut st = ScanState { event: None, joined: Vec::new(), has_data: false, done: false };
    assert(st.model() == scan_init());
    let mut ls: usize = 0;
    let mut i: usize = 0;
    assert(all.subrange(0, n as int) =~= all);
    while i < n
        invariant
            cs@ == all,
            n == all.len(),
            0 <= ls <= i <= n,
            forall|j: int| ls <= j < i ==> all[j] != '\n',
            scan_lines(scan_init(), split_lines(all)) == scan_lines(st.model(), split_lines(all.subrange(ls as int, n as int))),
        decreases n - i,
    {
        if cs[i] == '\n' {
            let ghost t = all.subrange(ls as int, n as int);
            proof {
                lemma_find_char_first(t, '\n', 0, i - ls);
                assert(t.subrange(0, i - ls) =~= all.subrange(ls as int, i as int));
                assert(t.subrange(i - ls + 1, t.len() as int) =~= all.subrange(i + 1, n as int));
                let lines = split_lines(t);
                assert(lines.drop_first() =~= split_lines(all.subrange(i + 1, n as int)));
            }
            scan_line_exec(&mut st, &cs, ls, i);
            ls = i + 1;
        }
        i = i + 1;
    }
    let ghost t = all.subrange(ls as int, n as int);
    let ghost st_prev = st.model();
    proof {
        lemma_find_char_first(t, '\n', 0, t.len() as int);
        assert(split_lines(t) =~= seq![t]);
        assert(split_lines(t).drop_first().len() == 0);
        assert(scan_lines(st_prev, split_lines(t)) == scan_lines(scan_line(st_prev, t), split_lines(t).drop_first()));
    }
    scan_line_exec(&mut st, &cs, ls, n);
    assert(scan_lines(scan_init(), split_lines(decode_utf8(frame@))) == st.model());
    if st.done {
        Some(SseRawFrame::Done)
    } else if !st.has_data {
        None
    } else {
        let event = match &st.event {
            Some(v) => Some(string_of(v.as_slice())),
            None => None,
        };
        Some(SseRawFrame::Payload { event, data: string_of(st.joined.as_slice()) })
    }
}


/// `str::trim`: `s` without leading and trailing white space.
pub fn trim_str(s: &str) -> (r: String)
    ensures
        r@ == trim_end_ws(trim_start_ws(s@)),
{
    let cs = chars_of(s);
    let n = cs.len();
    let a = trim_start_ws_idx(&cs, 0, n);
    let e = trim_end_ws_idx(&cs, a, n);
    assert(cs@.subrange(0, n as int) =~= s@);
    string_of(vstd::slice::slice_subrange(cs.as_slice(), a, e))
}

} // verus!
