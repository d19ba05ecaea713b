//! The remote catalog: the entries loaded so far for the active search query,
//! merged page by page, with at most one pagination fetch outstanding.
use indexmap::IndexMap;
use vstd::prelude::*;
use crate::ordered_map::{
    catalog_clear, catalog_insert, catalog_keys, catalog_len, catalog_new, catalog_values,
    keyed_wf, keys_after_insert, lemma_insert_keeps_wf,
};
use crate::volt::{PluginsInfo, VoltInfo};

verus! {

/// How far loading the catalog for the active query has come.
#[derive(Clone, Copy, Debug, PartialEq, Eq, Structural)]
pub enum PluginLoadStatus {
    Loading,
    Failed,
    Success,
}

/// A catalog fetch to be performed: the query, the offset of the first entry
/// wanted, and the query generation that the result belongs to.
pub struct FetchRequest {
    pub query: String,
    pub offset: usize,
    pub generation: u64,
    /// True for the first page of a query, false for a further page.
    pub fresh: bool,
}

/// The catalog entries loaded for the active query.
pub struct VoltsList {
    /// The server's count of entries matching the query.
    pub total: usize,
    /// Entries by identifier, in order of arrival.
    pub volts: IndexMap<String, VoltInfo>,
    pub status: PluginLoadStatus,
    /// Held while a pagination fetch is outstanding.
    pub loading: bool,
    /// The active search query.
    pub query: String,
    /// Bumped on every query change; results of other generations are stale.
    pub generation: u64,
}

/// The map after inserting each entry of `page`, in order, under its identifier.
pub open spec fn merge_values(m: Map<Seq<char>, VoltInfo>, page: Seq<VoltInfo>) -> Map<
    Seq<char>,
    VoltInfo,
>
    decreases page.len(),
{
    if page.len() == 0 {
        m
    } else {
        merge_values(m, page.drop_last()).insert(page.last().spec_id(), page.last())
    }
}

/// The key order after inserting each entry of `page`, in order.
pub open spec fn merge_keys(keys: Seq<Seq<char>>, page: Seq<VoltInfo>) -> Seq<Seq<char>>
    decreases page.len(),
{
    if page.len() == 0 {
        keys
    } else {
        keys_after_insert(merge_keys(keys, page.drop_last()), page.last().spec_id())
    }
}

impl VoltsList {
    pub open spec fn keys(&self) -> Seq<Seq<char>> {
        catalog_keys(self.volts)
    }

    pub open spec fn entries(&self) -> Map<Seq<char>, VoltInfo> {
        catalog_values(self.volts)
    }

    /// Identifiers are unique and each names exactly one entry.
    pub open spec fn wf(&self) -> bool {
        keyed_wf(self.keys(), self.entries())
    }

    /// All the entries that the server counts have been loaded.
    pub open spec fn spec_all_loaded(&self) -> bool {
        self.keys().len() == self.total
    }

    /// `post` and `r` are what `update_query(q)` makes of `pre`.
    pub open spec fn query_updated(pre: VoltsList, q: Seq<char>, post: VoltsList, r: Option<FetchRequest>) -> bool {
        if pre.query@ == q {
            r is None && post == pre
        } else {
            &&& post.query@ == q
            &&& post.keys().len() == 0
            &&& post.entries().dom().is_empty()
            &&& post.total == 0
            &&& post.status == PluginLoadStatus::Loading
            &&& !post.loading
            &&& post.generation == pre.generation.wrapping_add(1)
            &&& r matches Some(req) && req.query@ == q && req.offset == 0
                && req.generation == post.generation && req.fresh
        }
    }

    /// `post` and `r` are what `load_more()` makes of `pre`.
    pub open spec fn more_requested(pre: VoltsList, post: VoltsList, r: Option<FetchRequest>) -> bool {
        if pre.spec_all_loaded() || pre.loading {
            r is None && post == pre
        } else {
            &&& post == VoltsList { loading: true, ..pre }
            &&& r matches Some(req) && req.query@ == pre.query@ && req.offset == pre.keys().len()
                && req.generation == pre.generation && !req.fresh
        }
    }

    /// `post` is what `update_volts(generation, info)` makes of `pre`;
    /// `applied` tells whether the page belonged to the active query.
    pub open spec fn page_applied(pre: VoltsList, generation: u64, info: PluginsInfo, post: VoltsList, applied: bool) -> bool {
        if generation != pre.generation {
            !applied && post == pre
        } else {
            &&& applied
            &&& post.total == info.total
            &&& post.keys() == merge_keys(pre.keys(), info.plugins@)
            &&& post.entries() == merge_values(pre.entries(), info.plugins@)
            &&& post.status == PluginLoadStatus::Success
            &&& !post.loading
            &&& post.query == pre.query
            &&& post.generation == pre.generation
        }
    }

    /// An empty catalog for the empty query, loading its first page.
    pub fn new() -> (r: VoltsList)
        ensures
            r.wf(),
            r.query@ == Seq::<char>::empty(),
            r.keys().len() == 0,
            r.entries().dom().is_empty(),
            r.total == 0,
            r.status == PluginLoadStatus::Loading,
            !r.loading,
            r.generation == 0,
    {
        let r = VoltsList {
            volts: catalog_new(),
            total: 0,
            status: PluginLoadStatus::Loading,
            loading: false,
            query: String::new(),
            generation: 0,
        };
        assert(r.keys().to_set() =~= r.entries().dom());
        r
    }

    /// The fetch of the first page of the active query.
    pub fn first_page(&self) -> (r: FetchRequest)
        ensures
            r.query@ == self.query@,
            r.offset == 0,
            r.generation == self.generation,
            r.fresh,
    {
        FetchRequest { query: self.query.clone(), offset: 0, generation: self.generation, fresh: true }
    }

    /// Switches to another search query: a new query resets the entries, the
    /// total and the status, and asks for its first page; the same query
    /// changes nothing.
    pub fn update_query(&mut self, query: String) -> (r: Option<FetchRequest>)
        requires
            old(self).wf(),
        ensures
            final(self).wf(),
            Self::query_updated(*old(self), query@, *final(self), r),
    {
        if self.query == query {
            return None;
        }
        self.query = query;
        catalog_clear(&mut self.volts);
        self.total = 0;
        self.status = PluginLoadStatus::Loading;
        self.loading = false;
        self.generation = self.generation.wrapping_add(1);
        assert(self.keys().to_set() =~= self.entries().dom());
        Some(self.first_page())
    }

    /// Number of entries loaded so far.
    pub fn len(&self) -> (r: usize)
        ensures
            r == self.keys().len(),
    {
        catalog_len(&self.volts)
    }

    fn all_loaded(&self) -> (r: bool)
        ensures
            r == self.spec_all_loaded(),
    {
        self.len() == self.total
    }

    /// Asks for the next page of the active query, unless everything is
    /// loaded or a page is already being fetched.
    pub fn load_more(&mut self) -> (r: Option<FetchRequest>)
        ensures
            Self::more_requested(*old(self), *final(self), r),
    {
        if self.all_loaded() {
            return None;
        }
        if self.loading {
            return None;
        }
        self.loading = true;
        let offset = self.len();
        Some(FetchRequest { query: self.query.clone(), offset, generation: self.generation, fresh: false })
    }

    /// Applies a page received for `generation`: sets the total, inserts each
    /// entry under its identifier (a later one replaces an earlier one), marks
    /// the load a success and frees the pagination guard. A page of another
    /// generation is dropped.
    pub fn update_volts(&mut self, generation: u64, info: &PluginsInfo) -> (applied: bool)
        requires
            old(self).wf(),
        ensures
            final(self).wf(),
            Self::page_applied(*old(self), generation, *info, *final(self), applied),
    {
        if generation != self.generation {
            return false;
        }
        self.total = info.total;
        let ghost keys0 = self.keys();
        let ghost values0 = self.entries();
        let mut i: usize = 0;
        while i < info.plugins.len()
            invariant
                0 <= i <= info.plugins.len(),
                self.wf(),
                self.keys() == merge_keys(keys0, info.plugins@.subrange(0, i as int)),
                self.entries() == merge_values(values0, info.plugins@.subrange(0, i as int)),
                self.total == info.total,
                self.query == old(self).query,
                self.generation == old(self).generation,
            decreases info.plugins.len() - i,
        {
            let v = &info.plugins[i];
            let id = v.id();
            let ghost before = self.volts;
            proof {
                lemma_insert_keeps_wf(catalog_keys(before), catalog_values(before), id@, *v);
                let next = info.plugins@.subrange(0, i + 1);
                assert(next.drop_last() =~= info.plugins@.subrange(0, i as int));
                assert(next.last() == info.plugins@[i as int]);
            }
            catalog_insert(&mut self.volts, id, v.duplicate());
            i = i + 1;
        }
        assert(info.plugins@.subrange(0, info.plugins.len() as int) =~= info.plugins@);
        self.status = PluginLoadStatus::Success;
        self.loading = false;
        true
    }

    /// The first page of the query of `generation` could not be had: the
    /// status becomes `Failed`. Stale generations change nothing.
    pub fn failed(&mut self, generation: u64)
        ensures
            generation == old(self).generation ==> *final(self) == (VoltsList {
                status: PluginLoadStatus::Failed,
                ..*old(self)
            }),
            generation != old(self).generation ==> *final(self) == *old(self),
    {
        if generation == self.generation {
            self.status = PluginLoadStatus::Failed;
        }
    }

    /// Routes the outcome of `request`: a page is applied; a failed first
    /// page marks the load `Failed`; a failed further page only frees the
    /// guard. Outcomes of a stale generation change nothing.
    pub fn fetch_finished(&mut self, request: &FetchRequest, page: Option<PluginsInfo>) -> (applied: bool)
        requires
            old(self).wf(),
        ensures
            final(self).wf(),
            match page {
                Some(info) => Self::page_applied(*old(self), request.generation, info, *final(self), applied),
                None => !applied && if request.generation != old(self).generation {
                    *final(self) == *old(self)
                } else if request.fresh {
                    *final(self) == (VoltsList { status: PluginLoadStatus::Failed, ..*old(self) })
                } else {
                    *final(self) == (VoltsList { loading: false, ..*old(self) })
                },
            },
    {
        match page {
            Some(info) => self.update_volts(request.generation, &info),
            None => {
                if request.fresh {
                    self.failed(request.generation);
                } else {
                    self.load_more_failed(request.generation);
                }
                false
            },
        }
    }

    /// A further page of the query of `generation` could not be had: only
    /// the pagination guard is freed, so the request may be retried. Stale
    /// generations change nothing.
    pub fn load_more_failed(&mut self, generation: u64)
        ensures
            generation == old(self).generation ==> *final(self) == (VoltsList {
                loading: false,
                ..*old(self)
            }),
            generation != old(self).generation ==> *final(self) == *old(self),
    {
        if generation == self.generation {
            self.loading = false;
        }
    }
}

/// Asking for the same query twice resets the catalog at most once: the
/// second call launches no fetch and leaves the state as the first left it.
pub proof fn lemma_update_query_idempotent(
    s0: VoltsList,
    q: Seq<char>,
    s1: VoltsList,
    r1: Option<FetchRequest>,
    s2: VoltsList,
    r2: Option<FetchRequest>,
)
    requires
        VoltsList::query_updated(s0, q, s1, r1),
        VoltsList::query_updated(s1, q, s2, r2),
    ensures
        r2 is None,
        s2 == s1,
{
}

/// Any number of `load_more` calls in a row launch at most one fetch: once
/// one is launched, the guard stays held and every later call is a no-op.
pub proof fn lemma_load_more_coalesces(states: Seq<VoltsList>, results: Seq<Option<FetchRequest>>)
    requires
        states.len() == results.len() + 1,
        forall|i: int|
            0 <= i < results.len() ==> #[trigger] VoltsList::more_requested(
                states[i],
                states[i + 1],
                results[i],
            ),
    ensures
        forall|i: int, j: int|
            0 <= i < j < results.len() ==> !(results[i] is Some && results[j] is Some),
{
    assert forall|i: int, j: int|
        0 <= i < j < results.len() implies !(results[i] is Some && results[j] is Some) by {
        if results[i] is Some {
            lemma_guard_held(states, results, i, j);
        }
    }
}

proof fn lemma_guard_held(states: Seq<VoltsList>, results: Seq<Option<FetchRequest>>, i: int, j: int)
    requires
        states.len() == results.len() + 1,
        forall|k: int|
            0 <= k < results.len() ==> #[trigger] VoltsList::more_requested(
                states[k],
                states[k + 1],
                results[k],
            ),
        0 <= i < j < results.len(),
        results[i] is Some,
    ensures
        states[j].loading,
        results[j] is None,
    decreases j - i,
{
    assert(VoltsList::more_requested(states[i], states[i + 1], results[i]));
    if j == i + 1 {
        assert(VoltsList::more_requested(states[j], states[j + 1], results[j]));
    } else {
        let k = j - 1;
        lemma_guard_held(states, results, i, k);
        assert(VoltsList::more_requested(states[k], states[k + 1], results[k]));
        assert(k + 1 == j);
        assert(VoltsList::more_requested(states[j], states[j + 1], results[j]));
    }
}

/// Merging a page: an identifier that occurs in the page maps to its last
/// occurrence there; any other identifier keeps what it had.
pub proof fn lemma_merge_last_write_wins(m: Map<Seq<char>, VoltInfo>, page: Seq<VoltInfo>, k: Seq<char>)
    ensures
        forall|j: int|
            0 <= j < page.len() && page[j].spec_id() == k && (forall|l: int|
                j < l < page.len() ==> page[l].spec_id() != k) ==> merge_values(m, page).contains_key(k)
                && merge_values(m, page)[k] == page[j],
        (forall|j: int| 0 <= j < page.len() ==> page[j].spec_id() != k) ==> (merge_values(
            m,
            page,
        ).contains_key(k) == m.contains_key(k) && merge_values(m, page)[k] == m[k]),
    decreases page.len(),
{
    if page.len() > 0 {
        let rest = page.drop_last();
        lemma_merge_last_write_wins(m, rest, k);
        assert forall|j: int|
            0 <= j < page.len() && page[j].spec_id() == k && (forall|l: int|
                j < l < page.len() ==> page[l].spec_id() != k) implies merge_values(
            m,
            page,
        ).contains_key(k) && merge_values(m, page)[k] == page[j] by {
            if j < page.len() - 1 {
                assert(page[page.len() - 1].spec_id() != k);
                assert(rest[j] == page[j]);
                assert forall|l: int| j < l < rest.len() implies rest[l].spec_id() != k by {
                    assert(rest[l] == page[l]);
                }
            }
        }
        if forall|j: int| 0 <= j < page.len() ==> page[j].spec_id() != k {
            assert(page[page.len() - 1].spec_id() != k);
            assert forall|j: int| 0 <= j < rest.len() implies rest[j].spec_id() != k by {
                assert(rest[j] == page[j]);
            }
        }
    }
}

/// Merging a page adds at most one identifier per entry.
pub proof fn lemma_merge_keys_len(keys: Seq<Seq<char>>, page: Seq<VoltInfo>)
    ensures
        merge_keys(keys, page).len() <= keys.len() + page.len(),
    decreases page.len(),
{
    if page.len() > 0 {
        lemma_merge_keys_len(keys, page.drop_last());
    }
}

/// After a page is applied, the catalog holds no more entries than the
/// total, as long as the server's total covers what was loaded before and
/// the page itself.
pub proof fn lemma_len_within_total(
    pre: VoltsList,
    generation: u64,
    info: PluginsInfo,
    post: VoltsList,
    applied: bool,
)
    requires
        VoltsList::page_applied(pre, generation, info, post, applied),
        applied,
        pre.keys().len() + info.plugins@.len() <= info.total,
    ensures
        post.keys().len() <= post.total,
{
    lemma_merge_keys_len(pre.keys(), info.plugins@);
}

} // verus!
