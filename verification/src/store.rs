//! The analysis store: a concurrency-safe keyed container of enriched
//! records, plus the request counter and last-activity cell, with a
//! bounded, newest-first recent query.

use vstd::prelude::*;
use std::collections::hash_map::RandomState;
use dashmap::DashMap;
use crate::types::AnalysisData;

verus! {

#[verifier::external_type_specification]
#[verifier::external_body]
#[verifier::reject_recursive_types(K)]
#[verifier::reject_recursive_types(V)]
#[verifier::reject_recursive_types(S)]
pub struct ExDashMap<K, V, S>(DashMap<K, V, S>);

/// What a record map holds: its entries, as a map from record ID to
/// record.
pub uninterp spec fn dash_entries(m: DashMap<u128, AnalysisData, RandomState>) -> Map<
    u128,
    AnalysisData,
>;

/// The record map with nothing in it.
pub open spec fn no_records() -> Map<u128, AnalysisData> {
    Map::empty()
}

/// Relies on `dashmap::DashMap::new`: a fresh map holds nothing.
#[verifier::external_body]
fn dm_new() -> (m: DashMap<u128, AnalysisData, RandomState>)
    ensures
        dash_entries(m) == no_records(),
        dash_entries(m).dom().finite(),
{
    DashMap::new()
}

/// Relies on `dashmap::DashMap::insert`: the value is stored under the
/// key, replacing any previous value for that key and leaving all other
/// entries unchanged.
#[verifier::external_body]
fn dm_insert(m: &mut DashMap<u128, AnalysisData, RandomState>, key: u128, value: AnalysisData)
    ensures
        dash_entries(*final(m)) == dash_entries(*old(m)).insert(key, value),
        dash_entries(*old(m)).dom().finite() ==> dash_entries(*final(m)).dom().finite(),
{
    m.insert(key, value);
}

/// Relies on `dashmap::DashMap::len`: the number of entries currently
/// held.
#[verifier::external_body]
fn dm_len(m: &DashMap<u128, AnalysisData, RandomState>) -> (n: usize)
    ensures
        n == dash_entries(*m).dom().len(),
{
    m.len()
}

/// Relies on `dashmap::DashMap::iter`: every entry is visited exactly
/// once; the visiting order is unspecified and no clause here names one.
#[verifier::external_body]
fn dm_entries(m: &DashMap<u128, AnalysisData, RandomState>) -> (v: Vec<(u128, AnalysisData)>)
    ensures
        v@.len() == dash_entries(*m).dom().len(),
        forall|i: int| 0 <= i < v@.len() ==> dash_entries(*m).contains_pair(
            #[trigger] v@[i].0,
            v@[i].1,
        ),
        forall|i: int, j: int| 0 <= i < j < v@.len() ==> v@[i].0 != v@[j].0,
        forall|k: u128| dash_entries(*m).dom().contains(k) ==> exists|i: int|
            0 <= i < v@.len() && (#[trigger] v@[i]).0 == k,
{
    let mut out = Vec::new();
    for entry in m.iter() {
        out.push((*entry.key(), entry.value().clone()));
    }
    out
}

/// Entries ordered newest first by creation timestamp.
pub open spec fn sorted_desc(s: Seq<(u128, AnalysisData)>) -> bool {
    forall|i: int, j: int| 0 <= i < j < s.len() ==> s[i].1.timestamp >= s[j].1.timestamp
}

/// Sort entries by creation timestamp, newest first.
fn sort_entries_desc(entries: Vec<(u128, AnalysisData)>) -> (r: Vec<(u128, AnalysisData)>)
    ensures
        r@.to_multiset() == entries@.to_multiset(),
        r@.len() == entries@.len(),
        sorted_desc(r@),
{
    broadcast use vstd::seq_lib::group_to_multiset_ensures;

    let mut rest = entries;
    let mut out: Vec<(u128, AnalysisData)> = Vec::new();
    proof {
        assert(out@.to_multiset().add(rest@.to_multiset()) =~= entries@.to_multiset());
    }
    while rest.len() > 0
        invariant
            out@.to_multiset().add(rest@.to_multiset()) == entries@.to_multiset(),
            out@.len() + rest@.len() == entries@.len(),
            sorted_desc(out@),
            forall|a: int, b: int| 0 <= a < out@.len() && 0 <= b < rest@.len() ==> out@[a].1.timestamp
                >= rest@[b].1.timestamp,
        decreases rest.len(),
    {
        let mut mx: usize = 0;
        let mut k: usize = 1;
        while k < rest.len()
            invariant
                rest@.len() > 0,
                0 <= mx < k <= rest@.len(),
                forall|t: int| 0 <= t < k ==> rest@[mx as int].1.timestamp >= rest@[t].1.timestamp,
            decreases rest.len() - k,
        {
            if rest[k].1.timestamp > rest[mx].1.timestamp {
                mx = k;
            }
            k = k + 1;
        }
        let ghost old_rest = rest@;
        let item = rest.remove(mx);
        out.push(item);
        proof {
            broadcast use vstd::seq_lib::group_to_multiset_ensures;

            assert(old_rest.contains(item));
            assert(old_rest.remove(mx as int).to_multiset() =~= old_rest.to_multiset().remove(
                item,
            ));
            assert(old_rest.to_multiset().contains(item));
            assert(out@.to_multiset().add(rest@.to_multiset()) =~= entries@.to_multiset());
            assert forall|a: int, b: int|
                0 <= a < out@.len() && 0 <= b < rest@.len() implies out@[a].1.timestamp
                >= rest@[b].1.timestamp by {
                assert(rest@[b] == old_rest.remove(mx as int)[b]);
            }
        }
    }
    out
}

/// The record map after storing `datas[i]` under `ids[i]`, in order.
pub open spec fn insert_all(
    m: Map<u128, AnalysisData>,
    ids: Seq<u128>,
    datas: Seq<AnalysisData>,
) -> Map<u128, AnalysisData>
    decreases ids.len(),
{
    if ids.len() == 0 {
        m
    } else {
        insert_all(m, ids.drop_last(), datas.drop_last()).insert(ids.last(), datas.last())
    }
}

/// Submissions under pairwise distinct fresh IDs never collide: each adds
/// exactly one record — none lost, none duplicated — every submitted ID
/// is afterwards held, and every record already held stays.
pub proof fn lemma_distinct_ids_all_stored(
    m: Map<u128, AnalysisData>,
    ids: Seq<u128>,
    datas: Seq<AnalysisData>,
)
    requires
        m.dom().finite(),
        ids.no_duplicates(),
        datas.len() == ids.len(),
        forall|i: int| 0 <= i < ids.len() ==> !m.dom().contains(#[trigger] ids[i]),
    ensures
        insert_all(m, ids, datas).dom().finite(),
        insert_all(m, ids, datas).dom().len() == m.dom().len() + ids.len(),
        forall|i: int| 0 <= i < ids.len() ==> insert_all(m, ids, datas).dom().contains(
            #[trigger] ids[i],
        ),
        forall|k: u128| m.dom().contains(k) ==> insert_all(m, ids, datas).dom().contains(k),
        forall|k: u128| insert_all(m, ids, datas).dom().contains(k) ==> m.dom().contains(k)
            || ids.contains(k),
    decreases ids.len(),
{
    broadcast use vstd::set::group_set_axioms;
    broadcast use vstd::map::group_map_axioms;

    if ids.len() > 0 {
        let front_ids = ids.drop_last();
        let front_datas = datas.drop_last();
        let last = ids.last();
        assert(front_ids.no_duplicates());
        lemma_distinct_ids_all_stored(m, front_ids, front_datas);
        let rec = insert_all(m, front_ids, front_datas);
        assert(!front_ids.contains(last)) by {
            if front_ids.contains(last) {
                let i = choose|i: int| 0 <= i < front_ids.len() && front_ids[i] == last;
                assert(ids[i] == ids[ids.len() - 1]);
            }
        }
        assert(!m.dom().contains(last));
        assert(!rec.dom().contains(last));
        assert(insert_all(m, ids, datas).dom() =~= rec.dom().insert(last));
        vstd::set::axiom_set_insert_len(rec.dom(), last);
        assert forall|i: int| 0 <= i < ids.len() implies insert_all(m, ids, datas).dom().contains(
            #[trigger] ids[i],
        ) by {
            if i < ids.len() - 1 {
                assert(front_ids[i] == ids[i]);
                assert(rec.dom().contains(front_ids[i]));
            }
        }
        assert forall|k: u128| insert_all(m, ids, datas).dom().contains(k) implies m.dom().contains(
            k,
        ) || ids.contains(k) by {
            if k != last && rec.dom().contains(k) && !m.dom().contains(k) {
                assert(front_ids.contains(k));
                let i = choose|i: int| 0 <= i < front_ids.len() && front_ids[i] == k;
                assert(ids[i] == k);
            }
        }
    }
}

/// The concurrency-safe state behind the pipeline: the record map keyed
/// by ID, the monotonically increasing request counter, and the
/// last-activity timestamp.
pub struct AnalysisStore {
    records: DashMap<u128, AnalysisData, RandomState>,
    request_count: u64,
    last_request: Option<i64>,
}

impl AnalysisStore {
    /// The records held, as a map from record ID to record.
    pub closed spec fn records_view(&self) -> Map<u128, AnalysisData> {
        dash_entries(self.records)
    }

    /// How many submissions have been counted.
    pub closed spec fn request_count_view(&self) -> u64 {
        self.request_count
    }

    /// When the last submission was counted, if ever.
    pub closed spec fn last_request_view(&self) -> Option<i64> {
        self.last_request
    }

    /// A fresh store: no records, no requests, no activity.
    pub fn new() -> (s: Self)
        ensures
            s.records_view() == Map::<u128, AnalysisData>::empty(),
            s.records_view().dom().finite(),
            s.request_count_view() == 0,
            s.last_request_view() is None,
    {
        AnalysisStore { records: dm_new(), request_count: 0, last_request: None }
    }

    /// Count one submission and stamp the activity cell. The counter
    /// wraps at its maximum.
    pub fn record_request(&mut self, now_millis: i64)
        ensures
            old(self).request_count_view() < u64::MAX ==> final(self).request_count_view() == old(
                self,
            ).request_count_view() + 1,
            old(self).request_count_view() == u64::MAX ==> final(self).request_count_view() == 0,
            final(self).last_request_view() == Some(now_millis),
            final(self).records_view() == old(self).records_view(),
    {
        self.request_count = self.request_count.wrapping_add(1);
        self.last_request = Some(now_millis);
    }

    /// Store a record under its ID. An ID already present is overwritten;
    /// every other record is untouched.
    pub fn insert(&mut self, id: u128, data: AnalysisData)
        ensures
            final(self).records_view() == old(self).records_view().insert(id, data),
            old(self).records_view().dom().finite() ==> final(self).records_view().dom().finite(),
            final(self).request_count_view() == old(self).request_count_view(),
            final(self).last_request_view() == old(self).last_request_view(),
    {
        dm_insert(&mut self.records, id, data);
    }

    /// How many records are held.
    pub fn count(&self) -> (n: usize)
        ensures
            n == self.records_view().dom().len(),
    {
        dm_len(&self.records)
    }

    /// The request counter's current value.
    pub fn request_count(&self) -> (n: u64)
        ensures
            n == self.request_count_view(),
    {
        self.request_count
    }

    /// The last-activity timestamp, if any submission was counted.
    pub fn last_request(&self) -> (r: Option<i64>)
        ensures
            r == self.last_request_view(),
    {
        self.last_request
    }

    /// The `limit` most recent records, newest first by creation
    /// timestamp: a prefix of some newest-first ordering of everything
    /// held.
    pub fn recent(&self, limit: usize) -> (r: Vec<(u128, AnalysisData)>)
        ensures
            r@.len() == (if limit as int <= self.records_view().dom().len() {
                limit as int
            } else {
                self.records_view().dom().len() as int
            }),
            sorted_desc(r@),
            forall|i: int| 0 <= i < r@.len() ==> self.records_view().contains_pair(
                #[trigger] r@[i].0,
                r@[i].1,
            ),
            forall|i: int, j: int| 0 <= i < j < r@.len() ==> r@[i].0 != r@[j].0,
            exists|all: Seq<(u128, AnalysisData)>|
                sorted_desc(all) && all.len() == self.records_view().dom().len() && (forall|i: int|
                    0 <= i < all.len() ==> self.records_view().contains_pair(
                        (#[trigger] all[i]).0,
                        all[i].1,
                    )) && (forall|i: int, j: int|
                    0 <= i < j < all.len() ==> all[i].0 != all[j].0) && r@ == all.take(
                    r@.len() as int,
                ),
    {
        broadcast use vstd::seq_lib::group_to_multiset_ensures;

        let entries = dm_entries(&self.records);
        let mut sorted = sort_entries_desc(entries);
        let ghost all = sorted@;
        proof {
            assert(entries@.no_duplicates()) by {
                assert forall|i: int, j: int|
                    0 <= i < entries@.len() && 0 <= j < entries@.len() && i != j implies entries@[i]
                    != entries@[j] by {
                    if i < j {
                        assert(entries@[i].0 != entries@[j].0);
                    } else {
                        assert(entries@[j].0 != entries@[i].0);
                    }
                }
            }
            entries@.lemma_multiset_has_no_duplicates();
            all.lemma_multiset_has_no_duplicates_conv();
            assert forall|i: int| 0 <= i < all.len() implies self.records_view().contains_pair(
                (#[trigger] all[i]).0,
                all[i].1,
            ) by {
                assert(all.to_multiset().contains(all[i]));
                assert(entries@.to_multiset().contains(all[i]));
                assert(entries@.contains(all[i]));
                let j = choose|j: int| 0 <= j < entries@.len() && entries@[j] == all[i];
                assert(self.records_view().contains_pair(entries@[j].0, entries@[j].1));
            }
            assert forall|i: int, j: int| 0 <= i < j < all.len() implies all[i].0 != all[j].0 by {
                if all[i].0 == all[j].0 {
                    assert(all.no_duplicates());
                    assert(all[i] != all[j]);
                    assert(all.to_multiset().contains(all[i]));
                    assert(entries@.contains(all[i]));
                    assert(all.to_multiset().contains(all[j]));
                    assert(entries@.contains(all[j]));
                    let a = choose|a: int| 0 <= a < entries@.len() && entries@[a] == all[i];
                    let b = choose|b: int| 0 <= b < entries@.len() && entries@[b] == all[j];
                    assert(a != b);
                    if a < b {
                        assert(entries@[a].0 != entries@[b].0);
                    } else {
                        assert(entries@[b].0 != entries@[a].0);
                    }
                }
            }
        }
        let m: usize = if limit <= sorted.len() {
            limit
        } else {
            sorted.len()
        };
        let mut out: Vec<(u128, AnalysisData)> = Vec::new();
        proof {
            assert(out@ =~= all.take(0));
        }
        while out.len() < m
            invariant
                m <= all.len(),
                0 <= out@.len() <= m,
                out@.len() + sorted@.len() == all.len(),
                out@ == all.take(out@.len() as int),
                sorted@ == all.skip(out@.len() as int),
            decreases m - out.len(),
        {
            let ghost n_done = out@.len() as int;
            let x = sorted.remove(0);
            out.push(x);
            proof {
                assert(x == all.skip(n_done)[0]);
                assert(x == all[n_done]);
                assert(out@ =~= all.take(n_done + 1));
                assert(sorted@ =~= all.skip(n_done + 1));
            }
        }
        proof {
            assert(out@ == all.take(out@.len() as int));
            assert forall|i: int, j: int| 0 <= i < j < out@.len() implies out@[i].0 != out@[j].0 by {
                assert(out@[i] == all[i] && out@[j] == all[j]);
            }
        }
        out
    }
}

} // verus!
