//! The idempotent in-memory persistence adapter: batch insert with a
//! composite-uniqueness do-nothing-on-conflict policy, point queries ordered
//! by (year, quarter) descending, and targeted partial-field updates.
//!
//! The store holds at most one record per (company_id, duration, quarter_str,
//! year_str) key; a conflicting insert is silently dropped and reported as no
//! rows affected, which makes a duplicated concurrent ingestion benign.
use vstd::prelude::*;
use vstd::seq_lib::*;
use crate::report::EarningsReport;
use crate::report::NewEarningsReport;
use crate::report::EarningsError;
use crate::report::Duration;
use crate::report::equiv;
use crate::report::key_of;
use crate::report::new_key_of;
use crate::report::with_id;

verus! {

/// Some stored record carries the given composite key.
pub open spec fn has_key(recs: Seq<EarningsReport>, k: (int, Duration, int, int)) -> bool {
    exists|i: int| 0 <= i < recs.len() && key_of(#[trigger] recs[i]) == k
}

/// No two stored records share a composite key.
pub open spec fn unique_keys(recs: Seq<EarningsReport>) -> bool {
    forall|i: int, j: int|
        0 <= i < j < recs.len() ==> key_of(#[trigger] recs[i]) != key_of(#[trigger] recs[j])
}

/// Row ids run 1, 2, ... in storage order.
pub open spec fn ids_consecutive(recs: Seq<EarningsReport>) -> bool {
    forall|i: int| 0 <= i < recs.len() ==> (#[trigger] recs[i]).id as int == i + 1
}

/// The store contents after inserting a batch in order under the
/// do-nothing-on-conflict policy, assigning ids from `next_id` up: an entry
/// whose key is already present (in the store or earlier in the batch) is
/// dropped, every other entry is appended.
pub open spec fn spec_insert(
    recs: Seq<EarningsReport>,
    entries: Seq<NewEarningsReport>,
    next_id: int,
) -> Seq<EarningsReport>
    decreases entries.len(),
{
    if entries.len() == 0 {
        recs
    } else if has_key(recs, new_key_of(entries[0])) {
        spec_insert(recs, entries.drop_first(), next_id)
    } else {
        spec_insert(recs.push(with_id(entries[0], next_id)), entries.drop_first(), next_id + 1)
    }
}

/// The backing store of canonical earnings records.
pub struct EarningsStore {
    records: Vec<EarningsReport>,
    next_id: i32,
}

impl EarningsStore {
    /// The stored records, in insertion order.
    pub closed spec fn recs(&self) -> Seq<EarningsReport> {
        self.records@
    }

    /// The next id the store will assign.
    pub closed spec fn nid(&self) -> int {
        self.next_id as int
    }

    /// Well-formed store: composite keys are unique and ids are assigned
    /// consecutively from 1.
    pub open spec fn wf(&self) -> bool {
        &&& unique_keys(self.recs())
        &&& ids_consecutive(self.recs())
        &&& self.nid() == self.recs().len() + 1
        &&& self.recs().len() + 1 <= i32::MAX as int
    }

    /// An empty store.
    pub fn new() -> (s: Self)
        ensures
            s.wf(),
            s.recs().len() == 0,
    {
        EarningsStore { records: Vec::new(), next_id: 1 }
    }

    /// How many records the store holds.
    pub fn len(&self) -> (n: usize)
        ensures
            n == self.recs().len(),
    {
        self.records.len()
    }

    /// The storage index of the row with the given id: with consecutive ids,
    /// one less than the id.
    pub fn row_index(&self, id: i32) -> (r: Option<usize>)
        requires
            self.wf(),
        ensures
            r is Some <==> 1 <= id as int <= self.recs().len(),
            r is Some ==> r->Some_0 as int == id as int - 1 && self.recs()[id as int - 1].id
                == id,
    {
        if id >= 1 && id as usize <= self.records.len() {
            Some((id as usize) - 1)
        } else {
            None
        }
    }

    /// Removes and returns the row at an index, leaving the others in order.
    pub(crate) fn take_row(&mut self, idx: usize) -> (r: EarningsReport)
        requires
            idx < old(self).recs().len(),
        ensures
            r == old(self).recs()[idx as int],
            final(self).recs() == old(self).recs().remove(idx as int),
            final(self).nid() == old(self).nid(),
    {
        self.records.remove(idx)
    }

    /// Puts a row back at an index.
    pub(crate) fn put_row(&mut self, idx: usize, rec: EarningsReport)
        requires
            idx <= old(self).recs().len(),
        ensures
            final(self).recs() == old(self).recs().insert(idx as int, rec),
            final(self).nid() == old(self).nid(),
    {
        self.records.insert(idx, rec)
    }

    /// Whether some stored record carries the given key.
    fn contains_key(&self, company_id: i32, duration: Duration, quarter: i16, year: i16) -> (b:
        bool)
        ensures
            b == has_key(
                self.recs(),
                (company_id as int, duration, quarter as int, year as int),
            ),
    {
        let ghost k = (company_id as int, duration, quarter as int, year as int);
        let mut i: usize = 0;
        while i < self.records.len()
            invariant
                i <= self.records@.len(),
                k == (company_id as int, duration, quarter as int, year as int),
                forall|j: int| 0 <= j < i ==> key_of(#[trigger] self.records@[j]) != k,
            decreases self.records@.len() - i,
        {
            let r = &self.records[i];
            if r.company_id == company_id && r.duration == duration && r.quarter_str == quarter
                && r.year_str == year {
                return true;
            }
            i += 1;
        }
        false
    }
}

/// Inserts a batch of canonical records: each entry whose composite key is
/// new is appended under a fresh id, each conflicting entry is silently
/// dropped, and the result says whether at least one row was newly inserted.
pub fn insert_earnings_report_batch(
    earnings_entries: Vec<NewEarningsReport>,
    store: &mut EarningsStore,
) -> (r: bool)
    requires
        old(store).wf(),
        old(store).recs().len() + earnings_entries@.len() + 1 <= i32::MAX as int,
    ensures
        final(store).wf(),
        final(store).recs() == spec_insert(
            old(store).recs(),
            earnings_entries@,
            old(store).recs().len() as int + 1,
        ),
        r == (final(store).recs().len() > old(store).recs().len()),
{
    let ghost all = earnings_entries@;
    let ghost orig_recs = old(store).recs();
    let orig_len: usize = store.records.len();
    let mut entries = earnings_entries;
    while entries.len() > 0
        invariant
            store.wf(),
            orig_len == orig_recs.len(),
            store.recs().len() >= orig_recs.len(),
            store.recs().len() + entries@.len() + 1 <= i32::MAX as int,
            spec_insert(store.recs(), entries@, store.recs().len() as int + 1) == spec_insert(
                orig_recs,
                all,
                orig_recs.len() as int + 1,
            ),
        decreases entries@.len(),
    {
        let ghost pre = entries@;
        let ghost recs0 = store.recs();
        let e = entries.remove(0);
        proof {
            assert(entries@ =~= pre.drop_first());
            assert(pre[0] == e);
        }
        let dup = store.contains_key(e.company_id, e.duration, e.quarter_str, e.year_str);
        proof {
            assert(new_key_of(e) == (
                e.company_id as int,
                e.duration,
                e.quarter_str as int,
                e.year_str as int,
            ));
        }
        if !dup {
            let id = store.next_id;
            let rec = e.into_report(id);
            let ghost before = store.records@;
            store.records.push(rec);
            store.next_id = store.next_id + 1;
            proof {
                assert(store.records@ =~= before.push(with_id(pre[0], before.len() as int + 1)));
                assert forall|i: int, j: int| 0 <= i < j < store.records@.len() implies key_of(
                    #[trigger] store.records@[i],
                ) != key_of(#[trigger] store.records@[j]) by {
                    if j < store.records@.len() - 1 {
                        assert(key_of(before[i]) != key_of(before[j]));
                    } else {
                        assert(!has_key(before, new_key_of(pre[0])));
                        assert(key_of(store.records@[j]) == new_key_of(pre[0]));
                        assert(key_of(store.records@[i]) == key_of(before[i]));
                    }
                };
                assert(spec_insert(recs0, pre, recs0.len() as int + 1) == spec_insert(
                    store.recs(),
                    entries@,
                    store.recs().len() as int + 1,
                ));
            }
        } else {
            proof {
                assert(spec_insert(recs0, pre, recs0.len() as int + 1) == spec_insert(
                    store.recs(),
                    entries@,
                    store.recs().len() as int + 1,
                ));
            }
        }
    }
    proof {
        assert(entries@.len() == 0);
        assert(spec_insert(store.recs(), entries@, store.recs().len() as int + 1) == store.recs());
    }
    store.records.len() > orig_len
}

/// Inserting a batch never removes a key that was already present.
proof fn lemma_insert_preserves_key(
    recs: Seq<EarningsReport>,
    entries: Seq<NewEarningsReport>,
    n: int,
    k: (int, Duration, int, int),
)
    requires
        has_key(recs, k),
    ensures
        has_key(spec_insert(recs, entries, n), k),
    decreases entries.len(),
{
    if entries.len() == 0 {
    } else if has_key(recs, new_key_of(entries[0])) {
        lemma_insert_preserves_key(recs, entries.drop_first(), n, k);
    } else {
        let pushed = recs.push(with_id(entries[0], n));
        let i = choose|i: int| 0 <= i < recs.len() && key_of(recs[i]) == k;
        assert(pushed[i] == recs[i]);
        assert(has_key(pushed, k));
        lemma_insert_preserves_key(pushed, entries.drop_first(), n + 1, k);
    }
}

/// After a batch insert, every key of the batch is present in the store.
proof fn lemma_insert_covers(recs: Seq<EarningsReport>, entries: Seq<NewEarningsReport>, n: int)
    ensures
        forall|i: int|
            0 <= i < entries.len() ==> has_key(
                spec_insert(recs, entries, n),
                new_key_of(#[trigger] entries[i]),
            ),
    decreases entries.len(),
{
    if entries.len() > 0 {
        let k0 = new_key_of(entries[0]);
        let recs2 = if has_key(recs, k0) {
            recs
        } else {
            recs.push(with_id(entries[0], n))
        };
        let n2: int = if has_key(recs, k0) {
            n
        } else {
            n + 1
        };
        if !has_key(recs, k0) {
            assert(key_of(recs2[recs2.len() - 1]) == k0);
            assert(has_key(recs2, k0));
        }
        lemma_insert_preserves_key(recs2, entries.drop_first(), n2, k0);
        lemma_insert_covers(recs2, entries.drop_first(), n2);
        assert(spec_insert(recs, entries, n) == spec_insert(recs2, entries.drop_first(), n2));
        assert forall|i: int| 0 <= i < entries.len() implies has_key(
            spec_insert(recs, entries, n),
            new_key_of(#[trigger] entries[i]),
        ) by {
            if i > 0 {
                assert(entries.drop_first()[i - 1] == entries[i]);
            }
        };
    }
}

/// Inserting a batch whose keys are all already present changes nothing.
proof fn lemma_insert_all_dup(recs: Seq<EarningsReport>, entries: Seq<NewEarningsReport>, n: int)
    requires
        forall|i: int| 0 <= i < entries.len() ==> has_key(recs, new_key_of(#[trigger] entries[i])),
    ensures
        spec_insert(recs, entries, n) == recs,
    decreases entries.len(),
{
    if entries.len() > 0 {
        assert(has_key(recs, new_key_of(entries[0])));
        assert forall|i: int| 0 <= i < entries.drop_first().len() implies has_key(
            recs,
            new_key_of(#[trigger] entries.drop_first()[i]),
        ) by {
            assert(entries.drop_first()[i] == entries[i + 1]);
        };
        lemma_insert_all_dup(recs, entries.drop_first(), n);
    }
}

/// Inserting the same batch twice is the same as inserting it once: the
/// second insert finds every key already present and adds nothing, whatever
/// ids it would have assigned.
pub proof fn lemma_insert_idempotent(
    recs: Seq<EarningsReport>,
    entries: Seq<NewEarningsReport>,
    n: int,
    n2: int,
)
    ensures
        spec_insert(spec_insert(recs, entries, n), entries, n2) == spec_insert(recs, entries, n),
{
    lemma_insert_covers(recs, entries, n);
    lemma_insert_all_dup(spec_insert(recs, entries, n), entries, n2);
}

/// `a` comes no later than `b` in the listing order: year descending, then
/// quarter descending.
pub open spec fn listed_ge(a: EarningsReport, b: EarningsReport) -> bool {
    a.year_str > b.year_str || (a.year_str == b.year_str && a.quarter_str >= b.quarter_str)
}

/// The sequence is in listing order: (year, quarter) descending.
pub open spec fn sorted_desc(s: Seq<EarningsReport>) -> bool {
    forall|i: int, j: int| 0 <= i < j < s.len() ==> listed_ge(#[trigger] s[i], #[trigger] s[j])
}

/// The record `r` agrees field for field with one of the first `upto` stored
/// records, which belongs to the company.
pub open spec fn from_company(
    recs: Seq<EarningsReport>,
    upto: int,
    comp: int,
    r: EarningsReport,
) -> bool {
    exists|k: int| 0 <= k < upto && (#[trigger] recs[k]).company_id as int == comp && equiv(r, recs[k])
}

/// The predicate picking one company's records, as one function value.
pub open spec fn company_pred(comp: int) -> spec_fn(EarningsReport) -> bool {
    |r: EarningsReport| r.company_id as int == comp
}

/// The position at which a record joins a descending listing: the first
/// index whose element no longer comes before it.
fn find_insert_pos(out: &Vec<EarningsReport>, rec: &EarningsReport) -> (pos: usize)
    ensures
        pos <= out@.len(),
        forall|k: int| 0 <= k < pos ==> listed_ge(#[trigger] out@[k], *rec),
        pos < out@.len() ==> !listed_ge(out@[pos as int], *rec),
{
    let mut pos: usize = 0;
    while pos < out.len()
        invariant
            pos <= out@.len(),
            forall|k: int| 0 <= k < pos ==> listed_ge(#[trigger] out@[k], *rec),
        decreases out@.len() - pos,
    {
        let o = &out[pos];
        let ge = o.year_str > rec.year_str || (o.year_str == rec.year_str && o.quarter_str
            >= rec.quarter_str);
        if !ge {
            return pos;
        }
        pos += 1;
    }
    pos
}

/// Loads every record of a company, ordered by (year, quarter) descending:
/// one record for each of the company's stored keys, each agreeing field for
/// field with its stored row.
pub fn load_by_company(comp_id: i32, store: &EarningsStore) -> (out: Vec<EarningsReport>)
    requires
        store.wf(),
    ensures
        sorted_desc(out@),
        unique_keys(out@),
        out@.len() == store.recs().filter(company_pred(comp_id as int)).len(),
        forall|j: int|
            0 <= j < out@.len() ==> from_company(
                store.recs(),
                store.recs().len() as int,
                comp_id as int,
                #[trigger] out@[j],
            ),
{
    let ghost pred = company_pred(comp_id as int);
    let mut out: Vec<EarningsReport> = Vec::new();
    let mut i: usize = 0;
    proof {
        reveal(Seq::filter);
        assert(store.recs().take(0).filter(pred).len() == 0);
    }
    while i < store.records.len()
        invariant
            store.wf(),
            i <= store.recs().len(),
            pred == company_pred(comp_id as int),
            sorted_desc(out@),
            unique_keys(out@),
            out@.len() == store.recs().take(i as int).filter(pred).len(),
            forall|j: int|
                0 <= j < out@.len() ==> from_company(
                    store.recs(),
                    i as int,
                    comp_id as int,
                    #[trigger] out@[j],
                ),
        decreases store.recs().len() - i,
    {
        let ghost prefix = store.recs().take(i as int);
        proof {
            reveal(Seq::filter);
            assert(store.recs().take(i + 1) =~= prefix.push(store.recs()[i as int]));
            assert(prefix.push(store.recs()[i as int]).drop_last() =~= prefix);
            if pred(store.recs()[i as int]) {
                assert(store.recs().take(i + 1).filter(pred) == prefix.filter(pred).push(
                    store.recs()[i as int],
                ));
            } else {
                assert(store.recs().take(i + 1).filter(pred) == prefix.filter(pred));
            }
        }
        let r = &store.records[i];
        if r.company_id == comp_id {
            let rec = store.records[i].clone();
            let ghost old_out = out@;
            let pos = find_insert_pos(&out, &rec);
            proof {
                assert(equiv(rec, store.recs()[i as int]));
                assert(key_of(rec) == key_of(store.recs()[i as int]));
                assert forall|j: int| 0 <= j < old_out.len() implies key_of(
                    #[trigger] old_out[j],
                ) != key_of(rec) by {
                    assert(from_company(store.recs(), i as int, comp_id as int, old_out[j]));
                    let k = choose|k: int|
                        0 <= k < i && (#[trigger] store.recs()[k]).company_id as int == comp_id
                            as int && equiv(old_out[j], store.recs()[k]);
                    assert(key_of(old_out[j]) == key_of(store.recs()[k]));
                    assert(key_of(store.recs()[k]) != key_of(store.recs()[i as int]));
                };
            }
            out.insert(pos, rec);
            proof {
                assert(out@ =~= old_out.insert(pos as int, rec));
                assert forall|a: int, b: int| 0 <= a < b < out@.len() implies listed_ge(
                    #[trigger] out@[a],
                    #[trigger] out@[b],
                ) by {
                    if a < pos && b < pos {
                        assert(out@[a] == old_out[a] && out@[b] == old_out[b]);
                    } else if a < pos && b == pos {
                        assert(out@[a] == old_out[a] && out@[b] == rec);
                    } else if a < pos && b > pos {
                        assert(out@[a] == old_out[a] && out@[b] == old_out[b - 1]);
                    } else if a == pos {
                        assert(out@[a] == rec && out@[b] == old_out[b - 1]);
                        assert(!listed_ge(old_out[pos as int], rec));
                        assert(listed_ge(old_out[pos as int], old_out[b - 1]) || pos == b - 1);
                    } else {
                        assert(out@[a] == old_out[a - 1] && out@[b] == old_out[b - 1]);
                    }
                };
                assert forall|a: int, b: int| 0 <= a < b < out@.len() implies key_of(
                    #[trigger] out@[a],
                ) != key_of(#[trigger] out@[b]) by {
                    assert(out@[a] == if a < pos {
                        old_out[a]
                    } else if a == pos {
                        rec
                    } else {
                        old_out[a - 1]
                    });
                    assert(out@[b] == if b < pos {
                        old_out[b]
                    } else if b == pos {
                        rec
                    } else {
                        old_out[b - 1]
                    });
                };
                assert forall|j: int| 0 <= j < out@.len() implies from_company(
                    store.recs(),
                    i + 1,
                    comp_id as int,
                    #[trigger] out@[j],
                ) by {
                    if j == pos {
                        assert((store.recs()[i as int]).company_id as int == comp_id as int
                            && equiv(out@[j], store.recs()[i as int]));
                    } else {
                        let jj: int = if j < pos {
                            j
                        } else {
                            j - 1
                        };
                        assert(out@[j] == old_out[jj]);
                        assert(from_company(store.recs(), i as int, comp_id as int, old_out[jj]));
                        let k = choose|k: int|
                            0 <= k < i && (#[trigger] store.recs()[k]).company_id as int == comp_id
                                as int && equiv(old_out[jj], store.recs()[k]);
                        assert((store.recs()[k]).company_id as int == comp_id as int && equiv(
                            out@[j],
                            store.recs()[k],
                        ));
                    }
                };
            }
        }
        i += 1;
    }
    proof {
        assert(store.recs().take(store.recs().len() as int) =~= store.recs());
    }
    out
}

/// A record matches a company and duration.
pub open spec fn matches_cd(r: EarningsReport, comp: int, dur: Duration) -> bool {
    r.company_id as int == comp && r.duration == dur
}

/// (y1, q1) is at least (y2, q2) in the store ordering: by year descending,
/// and by quarter descending within a year when `by_quarter` is set.
pub open spec fn later_ge(by_quarter: bool, y1: int, q1: int, y2: int, q2: int) -> bool {
    y1 > y2 || (y1 == y2 && (!by_quarter || q1 >= q2))
}

/// The record at index `i` is a latest match for the company and duration
/// under the given ordering.
pub open spec fn is_latest(
    recs: Seq<EarningsReport>,
    i: int,
    comp: int,
    dur: Duration,
    by_quarter: bool,
) -> bool {
    &&& 0 <= i < recs.len()
    &&& matches_cd(recs[i], comp, dur)
    &&& forall|j: int|
        0 <= j < recs.len() && matches_cd(#[trigger] recs[j], comp, dur) ==> later_ge(
            by_quarter,
            recs[i].year_str as int,
            recs[i].quarter_str as int,
            recs[j].year_str as int,
            recs[j].quarter_str as int,
        )
}

impl EarningsStore {
    /// The index of a latest record for the company and duration, or nothing
    /// when no record matches.
    fn find_latest(&self, comp_id: i32, duration: Duration, by_quarter: bool) -> (r: Option<
        usize,
    >)
        ensures
            r is Some <==> exists|j: int|
                0 <= j < self.recs().len() && matches_cd(
                    #[trigger] self.recs()[j],
                    comp_id as int,
                    duration,
                ),
            r is Some ==> is_latest(
                self.recs(),
                r->Some_0 as int,
                comp_id as int,
                duration,
                by_quarter,
            ),
    {
        let mut best: Option<usize> = None;
        let mut i: usize = 0;
        while i < self.records.len()
            invariant
                i <= self.records@.len(),
                best is Some ==> best->Some_0 < i && is_latest_prefix(
                    self.records@,
                    best->Some_0 as int,
                    comp_id as int,
                    duration,
                    by_quarter,
                    i as int,
                ),
                best is None ==> forall|j: int|
                    0 <= j < i ==> !matches_cd(#[trigger] self.records@[j], comp_id as int, duration),
            decreases self.records@.len() - i,
        {
            let r = &self.records[i];
            if r.company_id == comp_id && r.duration == duration {
                match best {
                    None => {
                        best = Some(i);
                    },
                    Some(b) => {
                        let cur = &self.records[b];
                        let newer = if r.year_str > cur.year_str {
                            true
                        } else if r.year_str == cur.year_str && by_quarter {
                            r.quarter_str > cur.quarter_str
                        } else {
                            false
                        };
                        if newer {
                            best = Some(i);
                        }
                    },
                }
            }
            i += 1;
        }
        proof {
            if best is Some {
                let b = best->Some_0 as int;
                assert(is_latest_prefix(
                    self.records@,
                    b,
                    comp_id as int,
                    duration,
                    by_quarter,
                    self.records@.len() as int,
                ));
                assert(matches_cd(self.recs()[b], comp_id as int, duration));
                assert(is_latest(self.recs(), b, comp_id as int, duration, by_quarter));
            }
        }
        best
    }
}

/// The record at index `i` is a latest match among the first `upto` records.
pub open spec fn is_latest_prefix(
    recs: Seq<EarningsReport>,
    i: int,
    comp: int,
    dur: Duration,
    by_quarter: bool,
    upto: int,
) -> bool {
    &&& 0 <= i < upto <= recs.len()
    &&& matches_cd(recs[i], comp, dur)
    &&& forall|j: int|
        0 <= j < upto && matches_cd(#[trigger] recs[j], comp, dur) ==> later_ge(
            by_quarter,
            recs[i].year_str as int,
            recs[i].quarter_str as int,
            recs[j].year_str as int,
            recs[j].quarter_str as int,
        )
}

impl EarningsReport {
    /// The latest trailing-twelve-month record for a company, by
    /// (year, quarter) descending; a not-found error when the company has no
    /// such record.
    pub fn latest_quarter_data(comp_id: i32, store: &EarningsStore) -> (r: Result<
        EarningsReport,
        EarningsError,
    >)
        ensures
            r is Ok <==> exists|j: int|
                0 <= j < store.recs().len() && matches_cd(
                    #[trigger] store.recs()[j],
                    comp_id as int,
                    Duration::Ttm,
                ),
            r is Ok ==> exists|i: int|
                is_latest(store.recs(), i, comp_id as int, Duration::Ttm, true) && equiv(
                    r->Ok_0,
                    #[trigger] store.recs()[i],
                ),
            r is Err ==> r->Err_0 == EarningsError::NotFound,
    {
        match store.find_latest(comp_id, Duration::Ttm, true) {
            Some(i) => Ok(store.records[i].clone()),
            None => Err(EarningsError::NotFound),
        }
    }

    /// The latest trailing-twelve-month record for a company, or nothing when
    /// the company has none.
    pub fn latest_quarter_data_if_existed(comp_id: i32, store: &EarningsStore) -> (r: Option<
        EarningsReport,
    >)
        ensures
            r is Some <==> exists|j: int|
                0 <= j < store.recs().len() && matches_cd(
                    #[trigger] store.recs()[j],
                    comp_id as int,
                    Duration::Ttm,
                ),
            r is Some ==> exists|i: int|
                is_latest(store.recs(), i, comp_id as int, Duration::Ttm, true) && equiv(
                    r->Some_0,
                    #[trigger] store.recs()[i],
                ),
    {
        match store.find_latest(comp_id, Duration::Ttm, true) {
            Some(i) => Some(store.records[i].clone()),
            None => None,
        }
    }

    /// The latest annual record for a company, by year descending; a
    /// not-found error when the company has no annual record.
    pub fn latest_annual_data(comp_id: i32, store: &EarningsStore) -> (r: Result<
        EarningsReport,
        EarningsError,
    >)
        ensures
            r is Ok <==> exists|j: int|
                0 <= j < store.recs().len() && matches_cd(
                    #[trigger] store.recs()[j],
                    comp_id as int,
                    Duration::Annual,
                ),
            r is Ok ==> exists|i: int|
                is_latest(store.recs(), i, comp_id as int, Duration::Annual, false) && equiv(
                    r->Ok_0,
                    #[trigger] store.recs()[i],
                ),
            r is Err ==> r->Err_0 == EarningsError::NotFound,
    {
        match store.find_latest(comp_id, Duration::Annual, false) {
            Some(i) => Ok(store.records[i].clone()),
            None => Err(EarningsError::NotFound),
        }
    }

    /// The record of the same company, duration and quarter from the prior
    /// fiscal year, or nothing when no such record is stored.
    pub fn same_quarter_prev_year_data(&self, store: &EarningsStore) -> (r: Option<
        EarningsReport,
    >)
        ensures
            r is Some <==> has_key(
                store.recs(),
                (
                    self.company_id as int,
                    self.duration,
                    self.quarter_str as int,
                    self.year_str as int - 1,
                ),
            ),
            r is Some ==> exists|i: int|
                0 <= i < store.recs().len() && key_of(#[trigger] store.recs()[i]) == (
                    self.company_id as int,
                    self.duration,
                    self.quarter_str as int,
                    self.year_str as int - 1,
                ) && equiv(r->Some_0, store.recs()[i]),
    {
        let ghost k = (
            self.company_id as int,
            self.duration,
            self.quarter_str as int,
            self.year_str as int - 1,
        );
        let prev_year: i32 = self.year_str as i32 - 1;
        let mut i: usize = 0;
        while i < store.records.len()
            invariant
                i <= store.records@.len(),
                k == (
                    self.company_id as int,
                    self.duration,
                    self.quarter_str as int,
                    self.year_str as int - 1,
                ),
                prev_year == self.year_str as int - 1,
                forall|j: int| 0 <= j < i ==> key_of(#[trigger] store.records@[j]) != k,
            decreases store.records@.len() - i,
        {
            let r = &store.records[i];
            if r.company_id == self.company_id && r.duration == self.duration && r.quarter_str
                == self.quarter_str && r.year_str as i32 == prev_year {
                proof {
                    assert(key_of(store.records@[i as int]) == k);
                    assert(has_key(store.recs(), k));
                }
                let found = store.records[i].clone();
                proof {
                    assert(key_of(store.recs()[i as int]) == k && equiv(
                        found,
                        store.recs()[i as int],
                    ));
                }
                return Some(found);
            }
            i += 1;
        }
        None
    }
}

} // verus!
