//! In-memory debug console: newest entry first, at most 1000 entries,
//! oldest dropped first. Each entry may carry diagnostic context (the
//! conversation, turn, error kind, request / response digests and the
//! underlying cause) for the saved-error-report flow.

use vstd::prelude::*;
use crate::clock::now_millis;
use crate::error::{ChatErrorKind, spec_kind_name};
use crate::text::{concat_str, i64_to_string, lemma_decimal_digits, lemma_decimal_injective, spec_decimal, spec_signed_decimal, str_eq, u64_to_string};
use crate::tool::{copy_opt, opt_view};

verus! {

/// Most entries the console keeps.
pub const MAX_CONSOLE_ENTRIES: usize = 1000;

/// One console log entry.
#[derive(Debug)]
pub struct ConsoleEntry {
    /// `console-<millis>-<counter>`.
    pub id: String,
    /// "info" | "warn" | "error".
    pub level: String,
    /// "backend" | "frontend".
    pub source: String,
    /// Module / category (e.g. "llm", "tool").
    pub module: String,
    pub message: String,
    /// Milliseconds since the epoch.
    pub timestamp_ms: i64,
    pub conversation_id: Option<String>,
    pub turn: Option<u32>,
    /// The error kind's wire name.
    pub kind: Option<String>,
    pub request_digest: Option<String>,
    pub response_digest: Option<String>,
    pub cause: Option<String>,
}

/// Model of an entry.
pub struct EntryView {
    pub id: Seq<char>,
    pub level: Seq<char>,
    pub source: Seq<char>,
    pub module: Seq<char>,
    pub message: Seq<char>,
    pub timestamp_ms: i64,
    pub conversation_id: Option<Seq<char>>,
    pub turn: Option<u32>,
    pub kind: Option<Seq<char>>,
    pub request_digest: Option<Seq<char>>,
    pub response_digest: Option<Seq<char>>,
    pub cause: Option<Seq<char>>,
}

impl View for ConsoleEntry {
    type V = EntryView;

    open spec fn view(&self) -> EntryView {
        EntryView {
            id: self.id@,
            level: self.level@,
            source: self.source@,
            module: self.module@,
            message: self.message@,
            timestamp_ms: self.timestamp_ms,
            conversation_id: opt_view(self.conversation_id),
            turn: self.turn,
            kind: opt_view(self.kind),
            request_digest: opt_view(self.request_digest),
            response_digest: opt_view(self.response_digest),
            cause: opt_view(self.cause),
        }
    }
}

pub open spec fn entry_views(v: Seq<ConsoleEntry>) -> Seq<EntryView> {
    v.map_values(|e: ConsoleEntry| e@)
}

impl ConsoleEntry {
    /// A copy with the same model.
    pub fn duplicate(&self) -> (r: ConsoleEntry)
        ensures
            r@ == self@,
    {
        ConsoleEntry {
            id: self.id.clone(),
            level: self.level.clone(),
            source: self.source.clone(),
            module: self.module.clone(),
            message: self.message.clone(),
            timestamp_ms: self.timestamp_ms,
            conversation_id: copy_opt(&self.conversation_id),
            turn: self.turn,
            kind: copy_opt(&self.kind),
            request_digest: copy_opt(&self.request_digest),
            response_digest: copy_opt(&self.response_digest),
            cause: copy_opt(&self.cause),
        }
    }
}

/// Optional diagnostic context of an entry. Every field starts empty;
/// each builder sets one.
#[derive(Debug)]
pub struct ConsoleDiag {
    pub conversation_id: Option<String>,
    pub turn: Option<u32>,
    pub kind: Option<ChatErrorKind>,
    pub request_digest: Option<String>,
    pub response_digest: Option<String>,
    pub cause: Option<String>,
}

impl Default for ConsoleDiag {
    fn default() -> (r: ConsoleDiag)
        ensures
            r.conversation_id is None,
            r.turn is None,
            r.kind is None,
            r.request_digest is None,
            r.response_digest is None,
            r.cause is None,
    {
        ConsoleDiag::new()
    }
}

impl ConsoleDiag {
    /// No context at all.
    pub fn new() -> (r: ConsoleDiag)
        ensures
            r.conversation_id is None,
            r.turn is None,
            r.kind is None,
            r.request_digest is None,
            r.response_digest is None,
            r.cause is None,
    {
        ConsoleDiag {
            conversation_id: None,
            turn: None,
            kind: None,
            request_digest: None,
            response_digest: None,
            cause: None,
        }
    }

    pub fn with_conversation_id(self, id: &str) -> (r: ConsoleDiag)
        ensures
            opt_view(r.conversation_id) == Some(id@),
            r.turn == self.turn,
            r.kind == self.kind,
            opt_view(r.request_digest) == opt_view(self.request_digest),
            opt_view(r.response_digest) == opt_view(self.response_digest),
            opt_view(r.cause) == opt_view(self.cause),
    {
        let mut d = self;
        d.conversation_id = Some(id.to_owned());
        d
    }

    pub fn with_turn(self, turn: u32) -> (r: ConsoleDiag)
        ensures
            opt_view(r.conversation_id) == opt_view(self.conversation_id),
            r.turn == Some(turn),
            r.kind == self.kind,
            opt_view(r.request_digest) == opt_view(self.request_digest),
            opt_view(r.response_digest) == opt_view(self.response_digest),
            opt_view(r.cause) == opt_view(self.cause),
    {
        let mut d = self;
        d.turn = Some(turn);
        d
    }

    pub fn with_kind(self, kind: ChatErrorKind) -> (r: ConsoleDiag)
        ensures
            opt_view(r.conversation_id) == opt_view(self.conversation_id),
            r.turn == self.turn,
            r.kind == Some(kind),
            opt_view(r.request_digest) == opt_view(self.request_digest),
            opt_view(r.response_digest) == opt_view(self.response_digest),
            opt_view(r.cause) == opt_view(self.cause),
    {
        let mut d = self;
        d.kind = Some(kind);
        d
    }

    pub fn with_request_digest(self, digest: &str) -> (r: ConsoleDiag)
        ensures
            opt_view(r.conversation_id) == opt_view(self.conversation_id),
            r.turn == self.turn,
            r.kind == self.kind,
            opt_view(r.request_digest) == Some(digest@),
            opt_view(r.response_digest) == opt_view(self.response_digest),
            opt_view(r.cause) == opt_view(self.cause),
    {
        let mut d = self;
        d.request_digest = Some(digest.to_owned());
        d
    }

    pub fn with_response_digest(self, digest: &str) -> (r: ConsoleDiag)
        ensures
            opt_view(r.conversation_id) == opt_view(self.conversation_id),
            r.turn == self.turn,
            r.kind == self.kind,
            opt_view(r.request_digest) == opt_view(self.request_digest),
            opt_view(r.response_digest) == Some(digest@),
            opt_view(r.cause) == opt_view(self.cause),
    {
        let mut d = self;
        d.response_digest = Some(digest.to_owned());
        d
    }

    pub fn with_cause(self, cause: &str) -> (r: ConsoleDiag)
        ensures
            opt_view(r.conversation_id) == opt_view(self.conversation_id),
            r.turn == self.turn,
            r.kind == self.kind,
            opt_view(r.request_digest) == opt_view(self.request_digest),
            opt_view(r.response_digest) == opt_view(self.response_digest),
            opt_view(r.cause) == Some(cause@),
    {
        let mut d = self;
        d.cause = Some(cause.to_owned());
        d
    }
}

/// `console-<millis>-<counter>`.
pub open spec fn spec_entry_id(ms: i64, counter: u64) -> Seq<char> {
    "console-"@ + spec_signed_decimal(ms as int) + "-"@ + spec_decimal(counter as nat)
}

/// The id was issued by one of the first `n` pushes.
pub open spec fn issued_within(id: Seq<char>, n: u64) -> bool {
    exists|ms: i64, c: u64| 1 <= c <= n && id == #[trigger] spec_entry_id(ms, c)
}

/// Ids of different pushes differ: the counter after the last `-` tells
/// them apart, whatever the millisecond values.
pub proof fn law_entry_ids_distinct(m1: i64, c1: u64, m2: i64, c2: u64)
    requires
        c1 != c2,
    ensures
        spec_entry_id(m1, c1) != spec_entry_id(m2, c2),
{
    if spec_entry_id(m1, c1) == spec_entry_id(m2, c2) {
        reveal_strlit("-");
        let x = spec_entry_id(m1, c1);
        let d1 = spec_decimal(c1 as nat);
        let d2 = spec_decimal(c2 as nat);
        let a1 = "console-"@ + spec_signed_decimal(m1 as int) + "-"@;
        let a2 = "console-"@ + spec_signed_decimal(m2 as int) + "-"@;
        assert(x =~= a1 + d1);
        assert(spec_entry_id(m2, c2) =~= a2 + d2);
        lemma_decimal_digits(c1 as nat);
        lemma_decimal_digits(c2 as nat);
        assert(a1[a1.len() - 1] == '-');
        assert(a2[a2.len() - 1] == '-');
        if d1.len() < d2.len() {
            let p = a1.len() - 1;
            assert(x[p] == '-');
            assert(x[p] == d2[p - a2.len()]);
        } else if d2.len() < d1.len() {
            let p = a2.len() - 1;
            assert(x[p] == '-');
            assert(x[p] == d1[p - a1.len()]);
        } else {
            assert(d1 =~= x.subrange(a1.len() as int, x.len() as int));
            assert(d2 =~= x.subrange(a2.len() as int, x.len() as int));
            lemma_decimal_injective(c1 as nat, c2 as nat);
        }
    }
}

/// The entry a push records.
pub open spec fn spec_new_entry(
    e: EntryView,
    id_ms: i64,
    ts_ms: i64,
    counter: u64,
    level: Seq<char>,
    module: Seq<char>,
    message: Seq<char>,
    diag: ConsoleDiag,
) -> bool {
    &&& e.id == spec_entry_id(id_ms, counter)
    &&& e.level == level
    &&& e.source == "backend"@
    &&& e.module == module
    &&& e.message == message
    &&& e.timestamp_ms == ts_ms
    &&& e.conversation_id == opt_view(diag.conversation_id)
    &&& e.turn == diag.turn
    &&& e.kind == match diag.kind { Some(k) => Some(spec_kind_name(k)), None => None }
    &&& e.request_digest == opt_view(diag.request_digest)
    &&& e.response_digest == opt_view(diag.response_digest)
    &&& e.cause == opt_view(diag.cause)
}

/// The entries after pushing `e`: it comes first, and past the limit the
/// oldest entry is dropped.
pub open spec fn after_push(before: Seq<EntryView>, e: EntryView) -> Seq<EntryView> {
    let s = seq![e] + before;
    if s.len() > MAX_CONSOLE_ENTRIES { s.take(MAX_CONSOLE_ENTRIES as int) } else { s }
}

/// The in-memory console buffer.
pub struct ConsoleState {
    entries: Vec<ConsoleEntry>,
    counter: u64,
}

impl ConsoleState {
    #[verifier::type_invariant]
    spec fn bounded(self) -> bool {
        &&& self.entries@.len() <= MAX_CONSOLE_ENTRIES
        &&& forall|i: int| 0 <= i < self.entries@.len() ==> issued_within(#[trigger] self.entries@[i]@.id, self.counter)
    }

    /// The entries, newest first.
    pub closed spec fn entries_view(self) -> Seq<EntryView> {
        entry_views(self.entries@)
    }

    /// Entries pushed so far.
    pub closed spec fn pushes(self) -> u64 {
        self.counter
    }

    /// An empty console.
    pub fn new() -> (r: ConsoleState)
        ensures
            r.entries_view().len() == 0,
            r.pushes() == 0,
    {
        let r = ConsoleState { entries: Vec::new(), counter: 0 };
        assert(entry_views(r.entries@) =~= Seq::<EntryView>::empty());
        r
    }

    /// Entries pushed so far.
    pub fn counter(&self) -> (r: u64)
        ensures
            r == self.pushes(),
    {
        self.counter
    }

    /// Records a backend entry whose id carries `id_ms` and whose timestamp
    /// is `ts_ms`. It becomes the newest entry; past the limit the oldest
    /// is dropped. Returns a copy of the entry.
    pub fn push_entry(
        &mut self,
        level: &str,
        module: &str,
        message: &str,
        diag: ConsoleDiag,
        id_ms: i64,
        ts_ms: i64,
    ) -> (r: ConsoleEntry)
        requires
            old(self).pushes() < u64::MAX,
        ensures
            final(self).pushes() == old(self).pushes() + 1,
            spec_new_entry(r@, id_ms, ts_ms, final(self).pushes(), level@, module@, message@, diag),
            final(self).entries_view() == after_push(old(self).entries_view(), r@),
            forall|i: int| 0 <= i < old(self).entries_view().len() ==> #[trigger] old(self).entries_view()[i].id != r@.id,
    {
        proof { use_type_invariant(&*self); }
        let c = self.counter + 1;
        let id = concat_str(concat_str(concat_str("console-", i64_to_string(id_ms).as_str()).as_str(), "-").as_str(),
            u64_to_string(c).as_str());
        let kind = match diag.kind {
            Some(k) => Some(k.as_str().to_owned()),
            None => None,
        };
        let entry = ConsoleEntry {
            id,
            level: level.to_owned(),
            source: "backend".to_owned(),
            module: module.to_owned(),
            message: message.to_owned(),
            timestamp_ms: ts_ms,
            conversation_id: diag.conversation_id,
            turn: diag.turn,
            kind,
            request_digest: diag.request_digest,
            response_digest: diag.response_digest,
            cause: diag.cause,
        };
        let copy = entry.duplicate();
        let mut entries: Vec<ConsoleEntry> = Vec::new();
        std::mem::swap(&mut entries, &mut self.entries);
        let ghost before = entries@;
        entries.insert(0, entry);
        if entries.len() > MAX_CONSOLE_ENTRIES {
            entries.truncate(MAX_CONSOLE_ENTRIES);
        }
        assert(entry_views(entries@) =~= after_push(entry_views(before), copy@));
        proof {
            assert(copy@.id == spec_entry_id(id_ms, c));
            assert forall|i: int| 0 <= i < before.len() implies #[trigger] before[i]@.id != copy@.id
                && issued_within(before[i]@.id, c) by {
                assert(issued_within(before[i]@.id, (c - 1) as u64));
                let (ms, k) = choose|ms: i64, k: u64| 1 <= k <= (c - 1) as u64 && before[i]@.id == #[trigger] spec_entry_id(ms, k);
                law_entry_ids_distinct(ms, k, id_ms, c);
                assert(1 <= k <= c && before[i]@.id == spec_entry_id(ms, k));
            }
            assert forall|i: int| 0 <= i < entries@.len() implies issued_within(#[trigger] entries@[i]@.id, c) by {
                if i == 0 {
                    assert(entries@[0]@ == copy@);
                    assert(1 <= c <= c && copy@.id == spec_entry_id(id_ms, c));
                } else {
                    assert(entries@[i] == before[i - 1]);
                }
            }
        }
        self.counter = c;
        self.entries = entries;
        copy
    }

    /// Records a backend entry stamped with the current time.
    pub fn push_with_diag(&mut self, level: &str, module: &str, message: &str, diag: ConsoleDiag) -> (r: ConsoleEntry)
        requires
            old(self).pushes() < u64::MAX,
        ensures
            final(self).pushes() == old(self).pushes() + 1,
            exists|id_ms: i64, ts_ms: i64|
                spec_new_entry(r@, id_ms, ts_ms, final(self).pushes(), level@, module@, message@, diag),
            final(self).entries_view() == after_push(old(self).entries_view(), r@),
            forall|i: int| 0 <= i < old(self).entries_view().len() ==> #[trigger] old(self).entries_view()[i].id != r@.id,
    {
        let id_ms = now_millis();
        let ts_ms = now_millis();
        self.push_entry(level, module, message, diag, id_ms, ts_ms)
    }

    /// Records a backend entry without diagnostic context.
    pub fn push(&mut self, level: &str, module: &str, message: &str) -> (r: ConsoleEntry)
        requires
            old(self).pushes() < u64::MAX,
        ensures
            final(self).pushes() == old(self).pushes() + 1,
            exists|id_ms: i64, ts_ms: i64|
                spec_new_entry(r@, id_ms, ts_ms, final(self).pushes(), level@, module@, message@, ConsoleDiag::spec_empty()),
            final(self).entries_view() == after_push(old(self).entries_view(), r@),
            forall|i: int| 0 <= i < old(self).entries_view().len() ==> #[trigger] old(self).entries_view()[i].id != r@.id,
    {
        let d = ConsoleDiag::new();
        assert(d == ConsoleDiag::spec_empty());
        self.push_with_diag(level, module, message, d)
    }

    /// A copy of the entries, newest first.
    pub fn snapshot(&self) -> (r: Vec<ConsoleEntry>)
        ensures
            entry_views(r@) == self.entries_view(),
    {
        let mut out: Vec<ConsoleEntry> = Vec::new();
        let mut i: usize = 0;
        while i < self.entries.len()
            invariant
                0 <= i <= self.entries@.len(),
                entry_views(out@) == entry_views(self.entries@.take(i as int)),
            decreases self.entries.len() - i,
        {
            out.push(self.entries[i].duplicate());
            assert(entry_views(self.entries@.take(i + 1)) =~= entry_views(self.entries@.take(i as int)).push(self.entries@[i as int]@));
            assert(entry_views(out@) =~= entry_views(self.entries@.take(i + 1)));
            i = i + 1;
        }
        assert(self.entries@.take(self.entries@.len() as int) =~= self.entries@);
        out
    }

    /// Drops every entry.
    pub fn clear(&mut self)
        ensures
            final(self).entries_view().len() == 0,
            final(self).pushes() == old(self).pushes(),
    {
        self.entries = Vec::new();
        assert(entry_views(self.entries@) =~= Seq::<EntryView>::empty());
    }

    /// The newest entry with id `id`.
    pub fn find_entry(&self, id: &str) -> (r: Option<ConsoleEntry>)
        ensures
            match r {
                Some(e) => exists|i: int| 0 <= i < self.entries_view().len() && self.entries_view()[i] == e@
                    && e@.id == id@ && forall|j: int| 0 <= j < i ==> self.entries_view()[j].id != id@,
                None => forall|j: int| 0 <= j < self.entries_view().len() ==> self.entries_view()[j].id != id@,
            },
    {
        let mut i: usize = 0;
        while i < self.entries.len()
            invariant
                0 <= i <= self.entries@.len(),
                forall|j: int| 0 <= j < i ==> entry_views(self.entries@)[j].id != id@,
            decreases self.entries.len() - i,
        {
            if str_eq(self.entries[i].id.as_str(), id) {
                let e = self.entries[i].duplicate();
                assert(entry_views(self.entries@)[i as int] == e@);
                return Some(e);
            }
            i = i + 1;
        }
        None
    }
}

impl ConsoleDiag {
    /// The empty context.
    pub open spec fn spec_empty() -> ConsoleDiag {
        ConsoleDiag {
            conversation_id: None,
            turn: None,
            kind: None,
            request_digest: None,
            response_digest: None,
            cause: None,
        }
    }
}

/// Newest first, bounded: after a push the new entry is first, the
/// entries before it follow in order, and the buffer never holds more
/// than `MAX_CONSOLE_ENTRIES`.
pub proof fn law_console_newest_first_bounded(before: Seq<EntryView>, e: EntryView)
    requires
        before.len() <= MAX_CONSOLE_ENTRIES,
    ensures
        ({
            let after = after_push(before, e);
            &&& after.len() <= MAX_CONSOLE_ENTRIES
            &&& after[0] == e
            &&& forall|i: int| 1 <= i < after.len() ==> after[i] == before[i - 1]
            &&& before.len() < MAX_CONSOLE_ENTRIES ==> after.len() == before.len() + 1
        }),
{
}

} // verus!
