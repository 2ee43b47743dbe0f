//! Variable handle cache: mapping from variable names to DAP
//! `variablesReference` handles.
//!
//! DAP returns top-level variables with a `variablesReference` integer handle
//! instead of inline children. When an AI assistant asks about a specific
//! variable by name across multiple interactions, this cache avoids
//! re-traversing the full variable tree each time.
//!
//! The cache is invalidated when execution resumes (the session leaves
//! `Halted`).

use crate::text::{chars_of, spec_contains_seq, str_eq};
use vstd::prelude::*;

verus! {

// ── Trusted std primitive ────────────────────────────────────────────────

/// What `str::to_lowercase` gives for a text.
pub uninterp spec fn spec_lowercase(s: Seq<char>) -> Seq<char>;

/// The lowercase form of a text.
///
/// Trusted: calls `str::to_lowercase` from std, which maps each character to
/// its Unicode lowercase form; the contract only names the result, which
/// depends on the text alone.
#[verifier::external_body]
fn to_lowercase(s: &str) -> (r: String)
    ensures
        r@ == spec_lowercase(s@),
{
    s.to_lowercase()
}

// ── Entries ──────────────────────────────────────────────────────────────

/// A cached variable handle entry.
#[derive(Debug)]
pub struct VariableHandleEntry {
    /// The DAP variablesReference for fetching this variable's children.
    pub variables_reference: u64,
    /// The name of the variable.
    pub name: String,
    /// The frame ID in which this variable was observed.
    pub frame_id: Option<u64>,
    /// The scope name in which this variable was observed (e.g., "Locals").
    pub scope_name: Option<String>,
    /// The declared type of the variable.
    pub var_type: Option<String>,
    /// The number of named child variables (for paging).
    pub named_variables: Option<u64>,
    /// The number of indexed child variables (for paging).
    pub indexed_variables: Option<u64>,
    /// When this entry was captured, on a monotonic clock (larger is later).
    pub captured_at: u64,
}

impl Clone for VariableHandleEntry {
    fn clone(&self) -> (r: Self)
        ensures
            r == *self,
    {
        VariableHandleEntry {
            variables_reference: self.variables_reference,
            name: self.name.clone(),
            frame_id: self.frame_id,
            scope_name: clone_opt_string(&self.scope_name),
            var_type: clone_opt_string(&self.var_type),
            named_variables: self.named_variables,
            indexed_variables: self.indexed_variables,
            captured_at: self.captured_at,
        }
    }
}

/// A copy of an optional string.
pub fn clone_opt_string(o: &Option<String>) -> (r: Option<String>)
    ensures
        r == *o,
{
    match o {
        Some(s) => Some(s.clone()),
        None => None,
    }
}

/// The text of an optional string.
pub open spec fn spec_opt_text(o: Option<String>) -> Option<Seq<char>> {
    match o {
        Some(s) => Some(s@),
        None => None,
    }
}

/// The text of an optional string slice.
pub open spec fn spec_opt_str(o: Option<&str>) -> Option<Seq<char>> {
    match o {
        Some(s) => Some(s@),
        None => None,
    }
}

/// The abstract content of a cache entry.
pub struct EntryView {
    pub variables_reference: u64,
    pub name: Seq<char>,
    pub frame_id: Option<u64>,
    pub scope_name: Option<Seq<char>>,
    pub var_type: Option<Seq<char>>,
    pub named_variables: Option<u64>,
    pub indexed_variables: Option<u64>,
    pub captured_at: u64,
}

impl EntryView {
    /// Whether two entries describe the same variable in the same frame and scope.
    pub open spec fn same_slot(&self, other: &EntryView) -> bool {
        &&& self.frame_id == other.frame_id
        &&& self.scope_name == other.scope_name
        &&& self.name == other.name
    }
}

impl View for VariableHandleEntry {
    type V = EntryView;

    open spec fn view(&self) -> EntryView {
        EntryView {
            variables_reference: self.variables_reference,
            name: self.name@,
            frame_id: self.frame_id,
            scope_name: spec_opt_text(self.scope_name),
            var_type: spec_opt_text(self.var_type),
            named_variables: self.named_variables,
            indexed_variables: self.indexed_variables,
            captured_at: self.captured_at,
        }
    }
}

/// The abstract content of a sequence of entries.
pub open spec fn entry_views(s: Seq<VariableHandleEntry>) -> Seq<EntryView> {
    s.map_values(|e: VariableHandleEntry| e@)
}

impl VariableHandleEntry {

    /// Returns true if this entry has expandable children (variables_reference > 0).
    pub fn is_expandable(&self) -> (r: bool)
        ensures
            r == (self.variables_reference > 0),
    {
        self.variables_reference > 0
    }

    /// Returns the total child count (named + indexed).
    pub fn child_count(&self) -> (r: u64)
        requires
            spec_opt_count(self.named_variables) + spec_opt_count(self.indexed_variables)
                <= u64::MAX,
        ensures
            r == spec_opt_count(self.named_variables) + spec_opt_count(self.indexed_variables),
    {
        let n = match self.named_variables {
            Some(v) => v,
            None => 0,
        };
        let i = match self.indexed_variables {
            Some(v) => v,
            None => 0,
        };
        n + i
    }
}

/// A count that may be absent, read as zero when absent.
pub open spec fn spec_opt_count(o: Option<u64>) -> nat {
    match o {
        Some(v) => v as nat,
        None => 0,
    }
}

/// Whether two optional texts are equal.
fn opt_str_eq(a: &Option<String>, b: Option<&str>) -> (r: bool)
    ensures
        r == (spec_opt_text(*a) == spec_opt_str(b)),
{
    match (a, b) {
        (Some(x), Some(y)) => str_eq(x.as_str(), y),
        (None, None) => true,
        _ => false,
    }
}

/// Whether two entries describe the same variable in the same frame and scope.
fn same_slot(a: &VariableHandleEntry, b: &VariableHandleEntry) -> (r: bool)
    ensures
        r == a@.same_slot(&b@),
{
    let scope_b: Option<&str> = match &b.scope_name {
        Some(s) => Some(s.as_str()),
        None => None,
    };
    a.frame_id == b.frame_id && opt_str_eq(&a.scope_name, scope_b) && str_eq(
        a.name.as_str(),
        b.name.as_str(),
    )
}

// ── Specification of the cache ───────────────────────────────────────────

/// `list` without the entries in the same slot as `e`, in order.
pub open spec fn spec_without_slot(list: Seq<EntryView>, e: EntryView) -> Seq<
    EntryView,
>
    decreases list.len(),
{
    if list.len() == 0 {
        list
    } else {
        let rest = spec_without_slot(list.drop_last(), e);
        if list.last().same_slot(&e) {
            rest
        } else {
            rest.push(list.last())
        }
    }
}

/// The index of the list kept for `name`, if any.
pub open spec fn spec_key_index(lists: Seq<(Seq<char>, Seq<EntryView>)>, name: Seq<char>) -> Option<
    int,
>
    decreases lists.len(),
{
    if lists.len() == 0 {
        None
    } else if lists.last().0 == name {
        Some(lists.len() - 1)
    } else {
        spec_key_index(lists.drop_last(), name)
    }
}

/// The lists after inserting `e`: the entry replaces any entry of its slot
/// and goes to the end of its name's list, which is created if needed.
pub open spec fn spec_insert(lists: Seq<(Seq<char>, Seq<EntryView>)>, e: EntryView) -> Seq<
    (Seq<char>, Seq<EntryView>),
> {
    match spec_key_index(lists, e.name) {
        Some(k) => lists.update(k, (e.name, spec_without_slot(lists[k].1, e).push(e))),
        None => lists.push((e.name, seq![e])),
    }
}

/// The lists after inserting each of `batch` in order.
pub open spec fn spec_insert_all(lists: Seq<(Seq<char>, Seq<EntryView>)>, batch: Seq<EntryView>) -> Seq<
    (Seq<char>, Seq<EntryView>),
>
    decreases batch.len(),
{
    if batch.len() == 0 {
        lists
    } else {
        spec_insert(spec_insert_all(lists, batch.drop_last()), batch.last())
    }
}

/// The first index at or after `from` whose entry satisfies `p`.
pub open spec fn spec_first_where(
    list: Seq<EntryView>,
    p: spec_fn(EntryView) -> bool,
    from: int,
) -> Option<int>
    decreases list.len() - from,
{
    if from < 0 || from >= list.len() {
        None
    } else if p(list[from]) {
        Some(from)
    } else {
        spec_first_where(list, p, from + 1)
    }
}

/// Which entry of a name's list a lookup picks: the exact frame and scope
/// first, then the same frame, then the first entry.
pub open spec fn spec_pick(
    list: Seq<EntryView>,
    frame_id: Option<u64>,
    scope: Option<Seq<char>>,
) -> Option<EntryView> {
    match spec_first_where(list, spec_exact_slot(frame_id, scope), 0) {
        Some(i) => Some(list[i]),
        None => match (if frame_id is Some {
            spec_first_where(list, spec_same_frame(frame_id), 0)
        } else {
            None
        }) {
            Some(i) => Some(list[i]),
            None => if list.len() > 0 {
                Some(list[0])
            } else {
                None
            },
        },
    }
}

/// The result of looking up `name` in a given frame and scope.
pub open spec fn spec_lookup(
    lists: Seq<(Seq<char>, Seq<EntryView>)>,
    name: Seq<char>,
    frame_id: Option<u64>,
    scope: Option<Seq<char>>,
) -> Option<EntryView> {
    match spec_key_index(lists, name) {
        Some(k) => spec_pick(lists[k].1, frame_id, scope),
        None => None,
    }
}

/// The entries, in list order, of the names whose lowercase form contains `q`.
pub open spec fn spec_matching(lists: Seq<(Seq<char>, Seq<EntryView>)>, q: Seq<char>) -> Seq<
    EntryView,
>
    decreases lists.len(),
{
    if lists.len() == 0 {
        Seq::empty()
    } else {
        let rest = spec_matching(lists.drop_last(), q);
        if spec_contains_seq(spec_lowercase(lists.last().0), q) {
            rest + lists.last().1
        } else {
            rest
        }
    }
}

/// The position at which an entry captured at `t` enters a list sorted from
/// most to least recent, after the entries at least as recent.
pub open spec fn spec_insert_pos(sorted: Seq<EntryView>, t: u64) -> int
    decreases sorted.len(),
{
    if sorted.len() == 0 {
        0
    } else if sorted.last().captured_at >= t {
        sorted.len() as int
    } else {
        spec_insert_pos(sorted.drop_last(), t)
    }
}

/// `s` sorted from most to least recent, entries of equal time keeping
/// their order.
pub open spec fn spec_sort_recent(s: Seq<EntryView>) -> Seq<EntryView>
    decreases s.len(),
{
    if s.len() == 0 {
        s
    } else {
        let sorted = spec_sort_recent(s.drop_last());
        sorted.insert(spec_insert_pos(sorted, s.last().captured_at), s.last())
    }
}

/// The result of a search for `query` with at most `limit` results.
pub open spec fn spec_search(
    lists: Seq<(Seq<char>, Seq<EntryView>)>,
    query: Seq<char>,
    limit: usize,
) -> Seq<EntryView> {
    let sorted = spec_sort_recent(spec_matching(lists, spec_lowercase(query)));
    if sorted.len() <= limit {
        sorted
    } else {
        sorted.take(limit as int)
    }
}

/// The abstract content of the cache.
pub struct VariableCacheView {
    /// Each cached name with its entries, names in first-insertion order.
    pub lists: Seq<(Seq<char>, Seq<EntryView>)>,
    /// Whether the cache is valid (not stale).
    pub valid: bool,
}

/// Cache mapping variable names to their DAP handle references.
///
/// The cache supports scoped lookups: when looking up a variable name,
/// entries matching the current frame and scope are preferred over entries
/// from other frames or scopes.
pub struct VariableHandleCache {
    /// Variable name → list of entries (one per scope/frame), names in
    /// first-insertion order.
    entries: Vec<(String, Vec<VariableHandleEntry>)>,
    /// Whether the cache has been invalidated since last population.
    valid: bool,
}

impl View for VariableHandleCache {
    type V = VariableCacheView;

    closed spec fn view(&self) -> VariableCacheView {
        VariableCacheView {
            lists: self.entries@.map_values(
                |p: (String, Vec<VariableHandleEntry>)| (p.0@, entry_views(p.1@)),
            ),
            valid: self.valid,
        }
    }
}

/// Whether the names of `lists` are pairwise distinct and each list holds
/// only entries of its name.
pub open spec fn spec_cache_wf(lists: Seq<(Seq<char>, Seq<EntryView>)>) -> bool {
    &&& forall|i: int, j: int|
        0 <= i < lists.len() && 0 <= j < lists.len() && i != j ==> lists[i].0 != lists[j].0
    &&& forall|i: int, j: int|
        0 <= i < lists.len() && 0 <= j < lists[i].1.len() ==> (#[trigger] lists[i].1[j]).name
            == lists[i].0
}

/// The predicate "same frame and scope" of a lookup.
pub open spec fn spec_exact_slot(frame_id: Option<u64>, scope: Option<Seq<char>>) -> spec_fn(
    EntryView,
) -> bool {
    |e: EntryView| e.frame_id == frame_id && e.scope_name == scope
}

/// The predicate "same frame" of a lookup.
pub open spec fn spec_same_frame(frame_id: Option<u64>) -> spec_fn(EntryView) -> bool {
    |e: EntryView| e.frame_id == frame_id
}

/// `list` without the entries in the same slot as `e`.
fn without_slot(list: &Vec<VariableHandleEntry>, e: &VariableHandleEntry) -> (r: Vec<
    VariableHandleEntry,
>)
    ensures
        entry_views(r@) == spec_without_slot(entry_views(list@), e@),
{
    let ghost lv = entry_views(list@);
    let mut r: Vec<VariableHandleEntry> = Vec::new();
    let mut i: usize = 0;
    while i < list.len()
        invariant
            i <= list@.len(),
            lv == entry_views(list@),
            entry_views(r@) == spec_without_slot(lv.take(i as int), e@),
        decreases list@.len() - i,
    {
        assert(lv.take(i + 1).drop_last() =~= lv.take(i as int));
        assert(lv.take(i + 1).last() == list@[i as int]@);
        if !same_slot(&list[i], e) {
            let c = list[i].clone();
            r.push(c);
            assert(entry_views(r@) =~= spec_without_slot(lv.take(i as int), e@).push(c@));
        }
        i = i + 1;
    }
    assert(lv.take(lv.len() as int) =~= lv);
    r
}

/// The position at which an entry captured at `t` enters `sorted`.
fn insert_pos(sorted: &Vec<VariableHandleEntry>, t: u64) -> (r: usize)
    ensures
        r == spec_insert_pos(entry_views(sorted@), t),
        r <= sorted@.len(),
{
    let ghost sv = entry_views(sorted@);
    let mut i = sorted.len();
    assert(sv.take(i as int) =~= sv);
    while i > 0 && sorted[i - 1].captured_at < t
        invariant
            i <= sorted@.len(),
            sv == entry_views(sorted@),
            spec_insert_pos(sv, t) == spec_insert_pos(sv.take(i as int), t),
        decreases i,
    {
        assert(sv.take(i as int).drop_last() =~= sv.take(i - 1));
        assert(sv.take(i as int).last() == sorted@[i - 1]@);
        i = i - 1;
    }
    proof {
        lemma_insert_pos_bound(sv.take(i as int), t);
        if i > 0 {
            assert(sv.take(i as int).last() == sorted@[i - 1]@);
        }
    }
    i
}

/// The insertion position lies within the list and, when the list is
/// non-empty, is its length exactly when its last entry is at least as recent.
proof fn lemma_insert_pos_bound(sorted: Seq<EntryView>, t: u64)
    ensures
        0 <= spec_insert_pos(sorted, t) <= sorted.len(),
        sorted.len() > 0 && sorted.last().captured_at >= t ==> spec_insert_pos(sorted, t)
            == sorted.len(),
    decreases sorted.len(),
{
    if sorted.len() > 0 && sorted.last().captured_at < t {
        lemma_insert_pos_bound(sorted.drop_last(), t);
    }
}

/// `s` sorted from most to least recent, stable.
fn sort_recent(s: &Vec<VariableHandleEntry>) -> (r: Vec<VariableHandleEntry>)
    ensures
        entry_views(r@) == spec_sort_recent(entry_views(s@)),
{
    let ghost sv = entry_views(s@);
    let mut r: Vec<VariableHandleEntry> = Vec::new();
    let mut j: usize = 0;
    while j < s.len()
        invariant
            j <= s@.len(),
            sv == entry_views(s@),
            entry_views(r@) == spec_sort_recent(sv.take(j as int)),
        decreases s@.len() - j,
    {
        assert(sv.take(j + 1).drop_last() =~= sv.take(j as int));
        assert(sv.take(j + 1).last() == s@[j as int]@);
        let pos = insert_pos(&r, s[j].captured_at);
        let ghost before = entry_views(r@);
        let c = s[j].clone();
        r.insert(pos, c);
        assert(entry_views(r@) =~= before.insert(pos as int, c@));
        j = j + 1;
    }
    assert(sv.take(sv.len() as int) =~= sv);
    r
}

impl VariableHandleCache {
    /// The cache's internal consistency: names are unique and each list holds
    /// only entries of its name.
    pub closed spec fn wf(&self) -> bool {
        spec_cache_wf(self@.lists)
    }

    /// Create a new, empty cache.
    pub fn new() -> (r: Self)
        ensures
            r.wf(),
            r@.lists == Seq::<(Seq<char>, Seq<EntryView>)>::empty(),
            r@.valid,
    {
        let r = VariableHandleCache { entries: Vec::new(), valid: true };
        assert(r@.lists =~= Seq::<(Seq<char>, Seq<EntryView>)>::empty());
        r
    }

    /// The index of the list kept for `name`.
    fn key_index(&self, name: &str) -> (r: Option<usize>)
        ensures
            spec_key_index(self@.lists, name@) == (match r {
                Some(k) => Some(k as int),
                None => None::<int>,
            }),
            r matches Some(k) ==> k < self@.lists.len(),
    {
        let ghost lists = self@.lists;
        let mut i = self.entries.len();
        assert(lists.take(i as int) =~= lists);
        while i > 0
            invariant
                i <= lists.len(),
                lists == self@.lists,
                spec_key_index(lists, name@) == spec_key_index(lists.take(i as int), name@),
            decreases i,
        {
            assert(lists.take(i as int).drop_last() =~= lists.take(i - 1));
            assert(lists[i - 1].0 == self.entries[i - 1].0@);
            if str_eq(self.entries[i - 1].0.as_str(), name) {
                return Some(i - 1);
            }
            i = i - 1;
        }
        None
    }

    /// Insert a variable into the cache.
    ///
    /// If an entry with the same name, frame_id, and scope_name already exists,
    /// it is replaced.
    pub fn insert(&mut self, entry: VariableHandleEntry)
        requires
            old(self).wf(),
        ensures
            final(self).wf(),
            final(self)@.lists == spec_insert(old(self)@.lists, entry@),
            final(self)@.valid,
    {
        let ghost lists = self@.lists;
        let ghost ev = entry@;
        proof {
            lemma_insert_wf(lists, ev);
        }
        match self.key_index(entry.name.as_str()) {
            Some(k) => {
                assert(lists[k as int].1 == entry_views(self.entries[k as int].1@));
                let kept = without_slot(&self.entries[k].1, &entry);
                let mut list = kept;
                let name = entry.name.clone();
                list.push(entry);
                assert(entry_views(list@) =~= spec_without_slot(lists[k as int].1, ev).push(ev));
                self.entries.set(k, (name, list));
                assert(self@.lists =~= spec_insert(lists, ev));
            },
            None => {
                let name = entry.name.clone();
                let mut list: Vec<VariableHandleEntry> = Vec::new();
                list.push(entry);
                assert(entry_views(list@) =~= seq![ev]);
                self.entries.push((name, list));
                assert(self@.lists =~= spec_insert(lists, ev));
            },
        }
        self.valid = true;
    }

    /// Insert multiple entries in one batch.
    pub fn insert_batch(&mut self, batch: Vec<VariableHandleEntry>)
        requires
            old(self).wf(),
        ensures
            final(self).wf(),
            final(self)@.lists == spec_insert_all(old(self)@.lists, entry_views(batch@)),
            final(self)@.valid,
    {
        let ghost lists = self@.lists;
        let ghost bv = entry_views(batch@);
        let mut i: usize = 0;
        while i < batch.len()
            invariant
                i <= batch@.len(),
                bv == entry_views(batch@),
                self.wf(),
                self@.lists == spec_insert_all(lists, bv.take(i as int)),
            decreases batch@.len() - i,
        {
            assert(bv.take(i + 1).drop_last() =~= bv.take(i as int));
            assert(bv.take(i + 1).last() == batch@[i as int]@);
            self.insert(batch[i].clone());
            i = i + 1;
        }
        assert(bv.take(bv.len() as int) =~= bv);
        self.valid = true;
    }

    /// Look up a variable by name, optionally scoped to a specific frame and scope.
    ///
    /// Resolution order:
    /// 1. Exact match on name + frame_id + scope_name
    /// 2. Match on name + frame_id (any scope)
    /// 3. Match on name only (any frame, any scope)
    pub fn lookup(&self, name: &str, frame_id: Option<u64>, scope_name: Option<&str>) -> (r:
        Option<VariableHandleEntry>)
        ensures
            match r {
                Some(x) => spec_lookup(self@.lists, name@, frame_id, spec_opt_str(scope_name))
                    == Some(x@),
                None => spec_lookup(self@.lists, name@, frame_id, spec_opt_str(scope_name)) is None,
            },
    {
        let k = match self.key_index(name) {
            Some(k) => k,
            None => {
                return None;
            },
        };
        let list = &self.entries[k].1;
        let ghost l = entry_views(list@);
        let ghost scope = spec_opt_str(scope_name);
        assert(self@.lists[k as int].1 == l);
        let mut i: usize = 0;
        while i < list.len()
            invariant
                i <= l.len(),
                l == entry_views(list@),
                scope == spec_opt_str(scope_name),
                k < self@.lists.len(),
                spec_key_index(self@.lists, name@) == Some(k as int),
                self@.lists[k as int].1 == l,
                spec_first_where(l, spec_exact_slot(frame_id, scope), 0) == spec_first_where(
                    l,
                    spec_exact_slot(frame_id, scope),
                    i as int,
                ),
            decreases l.len() - i,
        {
            let e = &list[i];
            assert(l[i as int] == e@);
            if e.frame_id == frame_id && opt_str_eq(&e.scope_name, scope_name) {
                assert(spec_exact_slot(frame_id, scope)(l[i as int]));
                assert(spec_first_where(l, spec_exact_slot(frame_id, scope), i as int) == Some(
                    i as int,
                ));
                return Some(e.clone());
            }
            assert(!spec_exact_slot(frame_id, scope)(l[i as int]));
            i = i + 1;
        }
        if frame_id.is_some() {
            let mut j: usize = 0;
            while j < list.len()
                invariant
                    j <= l.len(),
                    l == entry_views(list@),
                    scope == spec_opt_str(scope_name),
                    frame_id is Some,
                    spec_first_where(l, spec_exact_slot(frame_id, scope), 0) is None,
                    k < self@.lists.len(),
                    spec_key_index(self@.lists, name@) == Some(k as int),
                    self@.lists[k as int].1 == l,
                    spec_first_where(l, spec_same_frame(frame_id), 0) == spec_first_where(
                        l,
                        spec_same_frame(frame_id),
                        j as int,
                    ),
                decreases l.len() - j,
            {
                assert(l[j as int] == list@[j as int]@);
                if list[j].frame_id == frame_id {
                    assert(spec_same_frame(frame_id)(l[j as int]));
                    assert(spec_first_where(l, spec_same_frame(frame_id), j as int) == Some(
                        j as int,
                    ));
                    return Some(list[j].clone());
                }
                assert(!spec_same_frame(frame_id)(l[j as int]));
                j = j + 1;
            }
        }
        if list.len() > 0 {
            assert(l[0] == list@[0]@);
            Some(list[0].clone())
        } else {
            None
        }
    }

    /// Fuzzy lookup: find entries whose name contains the query string
    /// (case-insensitive), most recent first. Returns up to `limit` matches.
    pub fn search(&self, query: &str, limit: usize) -> (r: Vec<VariableHandleEntry>)
        ensures
            entry_views(r@) == spec_search(self@.lists, query@, limit),
    {
        let ghost lists = self@.lists;
        let q = chars_of(to_lowercase(query).as_str());
        let mut matched: Vec<VariableHandleEntry> = Vec::new();
        let mut i: usize = 0;
        while i < self.entries.len()
            invariant
                i <= lists.len(),
                lists == self@.lists,
                q@ == spec_lowercase(query@),
                entry_views(matched@) == spec_matching(lists.take(i as int), q@),
            decreases lists.len() - i,
        {
            assert(lists.take(i + 1).drop_last() =~= lists.take(i as int));
            assert(lists[i as int] == (self.entries[i as int].0@, entry_views(
                self.entries[i as int].1@,
            )));
            let lname = chars_of(to_lowercase(self.entries[i].0.as_str()).as_str());
            if crate::text::vec_contains(&lname, &q) {
                let list = &self.entries[i].1;
                let ghost before = entry_views(matched@);
                let ghost lv = entry_views(list@);
                let mut j: usize = 0;
                while j < list.len()
                    invariant
                        j <= list@.len(),
                        lv == entry_views(list@),
                        entry_views(matched@) == before + lv.take(j as int),
                    decreases list@.len() - j,
                {
                    let c = list[j].clone();
                    let ghost mv = entry_views(matched@);
                    matched.push(c);
                    assert(entry_views(matched@) =~= mv.push(c@));
                    assert(c@ == lv[j as int]);
                    assert(lv.take(j + 1) =~= lv.take(j as int).push(lv[j as int]));
                    assert(entry_views(matched@) =~= before + lv.take(j + 1));
                    j = j + 1;
                }
                assert(lv.take(lv.len() as int) =~= lv);
            }
            i = i + 1;
        }
        assert(lists.take(lists.len() as int) =~= lists);
        let mut sorted = sort_recent(&matched);
        if sorted.len() > limit {
            let ghost full = entry_views(sorted@);
            sorted.truncate(limit);
            assert(entry_views(sorted@) =~= full.take(limit as int));
        }
        sorted
    }

    /// List all cached variable names.
    pub fn keys(&self) -> (r: Vec<String>)
        ensures
            r@.map_values(|s: String| s@) == self@.lists.map_values(
                |p: (Seq<char>, Seq<EntryView>)| p.0,
            ),
    {
        let ghost lists = self@.lists;
        let mut r: Vec<String> = Vec::new();
        let mut i: usize = 0;
        while i < self.entries.len()
            invariant
                i <= lists.len(),
                lists == self@.lists,
                r@.map_values(|s: String| s@) == lists.take(i as int).map_values(
                    |p: (Seq<char>, Seq<EntryView>)| p.0,
                ),
            decreases lists.len() - i,
        {
            assert(lists[i as int].0 == self.entries[i as int].0@);
            r.push(self.entries[i].0.clone());
            assert(lists.take(i + 1).map_values(|p: (Seq<char>, Seq<EntryView>)| p.0)
                =~= lists.take(i as int).map_values(
                |p: (Seq<char>, Seq<EntryView>)| p.0,
            ).push(lists[i as int].0));
            assert(r@.map_values(|s: String| s@) =~= lists.take(i as int).map_values(
                |p: (Seq<char>, Seq<EntryView>)| p.0,
            ).push(lists[i as int].0));
            i = i + 1;
        }
        assert(lists.take(lists.len() as int) =~= lists);
        r
    }

    /// Returns the number of unique variable names in the cache.
    pub fn len(&self) -> (r: usize)
        ensures
            r == self@.lists.len(),
    {
        self.entries.len()
    }

    /// Returns true if the cache has no entries.
    pub fn is_empty(&self) -> (r: bool)
        ensures
            r == (self@.lists.len() == 0),
    {
        self.entries.len() == 0
    }

    /// Returns true if the cache is valid (not stale).
    pub fn is_valid(&self) -> (r: bool)
        ensures
            r == self@.valid,
    {
        self.valid
    }

    /// Invalidate the cache. Call when execution resumes or the debuggee
    /// state changes. After invalidation, lookups return `None` until new
    /// entries are inserted.
    pub fn invalidate(&mut self)
        ensures
            final(self).wf(),
            final(self)@.lists == Seq::<(Seq<char>, Seq<EntryView>)>::empty(),
            !final(self)@.valid,
    {
        self.entries.clear();
        self.valid = false;
        assert(self@.lists =~= Seq::<(Seq<char>, Seq<EntryView>)>::empty());
    }

    /// Soft-invalidate: mark as stale without clearing entries.
    /// Callers should check `is_valid()` before using results.
    pub fn mark_stale(&mut self)
        requires
            old(self).wf(),
        ensures
            final(self).wf(),
            final(self)@.lists == old(self)@.lists,
            !final(self)@.valid,
    {
        self.valid = false;
    }

    /// Clear all entries and reset validity.
    pub fn clear(&mut self)
        ensures
            final(self).wf(),
            final(self)@.lists == Seq::<(Seq<char>, Seq<EntryView>)>::empty(),
            final(self)@.valid,
    {
        self.entries.clear();
        self.valid = true;
        assert(self@.lists =~= Seq::<(Seq<char>, Seq<EntryView>)>::empty());
    }
}

impl Default for VariableHandleCache {
    fn default() -> (r: Self)
        ensures
            r.wf(),
            r@.lists == Seq::<(Seq<char>, Seq<EntryView>)>::empty(),
            r@.valid,
    {
        VariableHandleCache::new()
    }
}

// ── Laws ─────────────────────────────────────────────────────────────────

/// `spec_key_index` finds the list of a name exactly when one exists.
pub proof fn lemma_key_index(lists: Seq<(Seq<char>, Seq<EntryView>)>, name: Seq<char>)
    ensures
        spec_key_index(lists, name) matches Some(k) ==> 0 <= k < lists.len() && lists[k].0 == name
            && forall|j: int| k < j < lists.len() ==> lists[j].0 != name,
        spec_key_index(lists, name) is None ==> forall|j: int|
            0 <= j < lists.len() ==> lists[j].0 != name,
    decreases lists.len(),
{
    if lists.len() > 0 && lists.last().0 != name {
        lemma_key_index(lists.drop_last(), name);
        assert forall|j: int| 0 <= j < lists.len() - 1 implies lists[j] == lists.drop_last()[j] by {}
    }
}

/// What `spec_without_slot` keeps: a subsequence of the list with no entry
/// in the slot of `e`.
pub proof fn lemma_without_slot(list: Seq<EntryView>, e: EntryView)
    ensures
        forall|j: int|
            0 <= j < spec_without_slot(list, e).len() ==> !(#[trigger] spec_without_slot(
                list,
                e,
            )[j]).same_slot(&e) && list.contains(spec_without_slot(list, e)[j]),
        spec_without_slot(list, e).len() <= list.len(),
    decreases list.len(),
{
    if list.len() > 0 {
        lemma_without_slot(list.drop_last(), e);
        let rest = spec_without_slot(list.drop_last(), e);
        assert forall|j: int| 0 <= j < rest.len() implies list.contains(#[trigger] rest[j]) by {
            let w = choose|w: int| 0 <= w < list.drop_last().len() && list.drop_last()[w] == rest[j];
            assert(list[w] == rest[j]);
        }
        assert(list[list.len() - 1] == list.last());
    }
}

/// Insertion keeps names unique and each list holding only its name.
pub proof fn lemma_insert_wf(lists: Seq<(Seq<char>, Seq<EntryView>)>, e: EntryView)
    requires
        spec_cache_wf(lists),
    ensures
        spec_cache_wf(spec_insert(lists, e)),
{
    lemma_key_index(lists, e.name);
    let r = spec_insert(lists, e);
    match spec_key_index(lists, e.name) {
        Some(k) => {
            lemma_without_slot(lists[k].1, e);
            let nl = spec_without_slot(lists[k].1, e).push(e);
            assert forall|j: int| 0 <= j < nl.len() implies (#[trigger] nl[j]).name == e.name by {
                if j < nl.len() - 1 {
                    let x = spec_without_slot(lists[k].1, e)[j];
                    assert(lists[k].1.contains(x));
                    let w = choose|w: int| 0 <= w < lists[k].1.len() && lists[k].1[w] == x;
                    assert(lists[k].1[w].name == lists[k].0);
                }
            }
            assert forall|i: int, j: int|
                0 <= i < r.len() && 0 <= j < r[i].1.len() implies (#[trigger] r[i].1[j]).name
                == r[i].0 by {
                if i != k {
                    assert(r[i] == lists[i]);
                }
            }
        },
        None => {
            assert forall|i: int, j: int|
                0 <= i < r.len() && 0 <= j < r[i].1.len() implies (#[trigger] r[i].1[j]).name
                == r[i].0 by {
                if i < lists.len() {
                    assert(r[i] == lists[i]);
                }
            }
        },
    }
}

/// A match found from `from` on is the first one there.
proof fn lemma_first_where(list: Seq<EntryView>, p: spec_fn(EntryView) -> bool, from: int, at: int)
    requires
        0 <= from <= at < list.len(),
        p(list[at]),
        forall|j: int| from <= j < at ==> !p(list[j]),
    ensures
        spec_first_where(list, p, from) == Some(at),
    decreases at - from,
{
    if from < at {
        lemma_first_where(list, p, from + 1, at);
    }
}

/// After inserting an entry, looking up its name in its own frame and scope
/// gives back that entry.
pub proof fn lemma_insert_then_lookup(lists: Seq<(Seq<char>, Seq<EntryView>)>, e: EntryView)
    requires
        spec_cache_wf(lists),
    ensures
        spec_lookup(spec_insert(lists, e), e.name, e.frame_id, e.scope_name)
            == Some(e),
{
    lemma_key_index(lists, e.name);
    let r = spec_insert(lists, e);
    let p = spec_exact_slot(e.frame_id, e.scope_name);
    match spec_key_index(lists, e.name) {
        Some(k) => {
            lemma_without_slot(lists[k].1, e);
            let kept = spec_without_slot(lists[k].1, e);
            let nl = kept.push(e);
            assert(r[k] == (e.name, nl));
            // The updated list is still the last one with this name.
            assert forall|j: int| k < j < r.len() implies r[j].0 != e.name by {
                assert(r[j] == lists[j]);
            }
            lemma_key_index_at(r, e.name, k);
            // No kept entry is in the slot of `e`.
            assert forall|j: int| 0 <= j < nl.len() - 1 implies !p(nl[j]) by {
                let x = kept[j];
                assert(nl[j] == x);
                assert(!x.same_slot(&e));
                assert(lists[k].1.contains(x));
                let w = choose|w: int| 0 <= w < lists[k].1.len() && lists[k].1[w] == x;
                assert(lists[k].1[w].name == lists[k].0);
            }
            lemma_first_where(nl, p, 0, nl.len() - 1);
        },
        None => {
            lemma_key_index_at(r, e.name, lists.len() as int);
            lemma_first_where(seq![e], p, 0, 0);
        },
    }
}

/// The last list with a name is the one `spec_key_index` finds.
proof fn lemma_key_index_at(lists: Seq<(Seq<char>, Seq<EntryView>)>, name: Seq<char>, k: int)
    requires
        0 <= k < lists.len(),
        lists[k].0 == name,
        forall|j: int| k < j < lists.len() ==> lists[j].0 != name,
    ensures
        spec_key_index(lists, name) == Some(k),
    decreases lists.len(),
{
    if k < lists.len() - 1 {
        lemma_key_index_at(lists.drop_last(), name, k);
    }
}

/// After invalidation nothing is found.
pub proof fn lemma_lookup_empty(name: Seq<char>, frame_id: Option<u64>, scope: Option<Seq<char>>)
    ensures
        spec_lookup(Seq::empty(), name, frame_id, scope) is None,
{
}

// ── Search order ─────────────────────────────────────────────────────────

/// Whether the entries run from most to least recently captured.
pub open spec fn spec_newest_first(s: Seq<EntryView>) -> bool {
    forall|i: int, j: int| 0 <= i < j < s.len() ==> s[i].captured_at >= s[j].captured_at
}

/// In a list running newest first, the entries before the insertion position
/// of time `t` are at least as recent as `t`, and those from it on are older.
proof fn lemma_insert_pos_splits(sorted: Seq<EntryView>, t: u64)
    requires
        spec_newest_first(sorted),
    ensures
        0 <= spec_insert_pos(sorted, t) <= sorted.len(),
        forall|i: int| 0 <= i < spec_insert_pos(sorted, t) ==> sorted[i].captured_at >= t,
        forall|i: int| spec_insert_pos(sorted, t) <= i < sorted.len() ==> sorted[i].captured_at < t,
    decreases sorted.len(),
{
    if sorted.len() > 0 {
        if sorted.last().captured_at >= t {
            assert forall|i: int| 0 <= i < sorted.len() implies sorted[i].captured_at >= t by {
                if i < sorted.len() - 1 {
                    assert(sorted[i].captured_at >= sorted[sorted.len() - 1].captured_at);
                }
            }
        } else {
            let init = sorted.drop_last();
            assert(spec_newest_first(init)) by {
                assert forall|i: int, j: int| 0 <= i < j < init.len() implies init[i].captured_at
                    >= init[j].captured_at by {
                    assert(init[i] == sorted[i] && init[j] == sorted[j]);
                }
            }
            lemma_insert_pos_splits(init, t);
            let p = spec_insert_pos(sorted, t);
            assert(p == spec_insert_pos(init, t));
            assert forall|i: int| 0 <= i < p implies sorted[i].captured_at >= t by {
                assert(sorted[i] == init[i]);
            }
            assert forall|i: int| p <= i < sorted.len() implies sorted[i].captured_at < t by {
                if i < sorted.len() - 1 {
                    assert(sorted[i] == init[i]);
                }
            }
        }
    }
}

/// Sorting by recency gives the same entries, newest first.
proof fn lemma_sort_recent(s: Seq<EntryView>)
    ensures
        spec_newest_first(spec_sort_recent(s)),
        spec_sort_recent(s).to_multiset() == s.to_multiset(),
        spec_sort_recent(s).len() == s.len(),
    decreases s.len(),
{
    broadcast use vstd::seq_lib::to_multiset_insert, vstd::seq_lib::to_multiset_build;

    if s.len() > 0 {
        let init = s.drop_last();
        let x = s.last();
        lemma_sort_recent(init);
        let prev = spec_sort_recent(init);
        let p = spec_insert_pos(prev, x.captured_at);
        lemma_insert_pos_splits(prev, x.captured_at);
        let r = prev.insert(p, x);
        assert(spec_sort_recent(s) == r);
        assert forall|i: int, j: int| 0 <= i < j < r.len() implies r[i].captured_at
            >= r[j].captured_at by {
            if j < p {
                assert(r[i] == prev[i] && r[j] == prev[j]);
            } else if j == p {
                assert(r[i] == prev[i]);
            } else if i < p {
                assert(r[i] == prev[i] && r[j] == prev[j - 1]);
            } else if i == p {
                assert(r[j] == prev[j - 1]);
            } else {
                assert(r[i] == prev[i - 1] && r[j] == prev[j - 1]);
            }
        }
        assert(init.push(x) =~= s);
    }
}

/// A search returns the matching entries newest first: each result is a
/// match, as many as the limit allows, and no match left out by the limit is
/// more recent than any result kept.
pub proof fn lemma_search_newest_first(
    lists: Seq<(Seq<char>, Seq<EntryView>)>,
    query: Seq<char>,
    limit: usize,
)
    ensures
        ({
            let m = spec_matching(lists, spec_lowercase(query));
            let r = spec_search(lists, query, limit);
            &&& spec_newest_first(r)
            &&& r.len() == if m.len() <= limit {
                m.len()
            } else {
                limit as nat
            }
            &&& forall|e: EntryView| r.to_multiset().count(e) <= m.to_multiset().count(e)
            &&& forall|e: EntryView, i: int|
                0 <= i < r.len() && #[trigger] m.to_multiset().count(e) > r.to_multiset().count(e)
                    ==> e.captured_at <= (#[trigger] r[i]).captured_at
        }),
{
    broadcast use vstd::seq_lib::to_multiset_contains, vstd::seq_lib::lemma_multiset_commutative;
    broadcast use vstd::multiset::group_multiset_axioms;

    let m = spec_matching(lists, spec_lowercase(query));
    let sorted = spec_sort_recent(m);
    lemma_sort_recent(m);
    let r = spec_search(lists, query, limit);
    let k = r.len() as int;
    let rest = sorted.subrange(k, sorted.len() as int);
    assert(sorted =~= r + rest);
    vstd::seq_lib::lemma_multiset_commutative(r, rest);
    assert(sorted.to_multiset() == r.to_multiset().add(rest.to_multiset()));
    assert forall|e: EntryView, i: int|
        0 <= i < r.len() && #[trigger] m.to_multiset().count(e) > r.to_multiset().count(e)
            implies e.captured_at <= (#[trigger] r[i]).captured_at by {
        assert(rest.to_multiset().count(e) > 0);
        assert(rest.contains(e));
        let j = choose|j: int| 0 <= j < rest.len() && rest[j] == e;
        assert(sorted[k + j] == e);
        assert(sorted[i] == r[i]);
    }
}

/// The matches of a search are exactly the entries cached under a name
/// whose lowercase form contains the query, each as often as it is cached.
pub proof fn lemma_matching_entries(lists: Seq<(Seq<char>, Seq<EntryView>)>, q: Seq<char>, e: EntryView)
    ensures
        spec_matching(lists, q).contains(e) <==> exists|k: int|
            0 <= k < lists.len() && #[trigger] lists[k].1.contains(e) && spec_contains_seq(
                spec_lowercase(lists[k].0),
                q,
            ),
    decreases lists.len(),
{
    if lists.len() > 0 {
        let init = lists.drop_last();
        lemma_matching_entries(init, q, e);
        let rest = spec_matching(init, q);
        let last = lists.last();
        if spec_contains_seq(spec_lowercase(last.0), q) {
            let m = rest + last.1;
            if m.contains(e) {
                let j = choose|j: int| 0 <= j < m.len() && m[j] == e;
                if j >= rest.len() {
                    assert(last.1[j - rest.len()] == e);
                    assert(lists[lists.len() - 1].1.contains(e));
                } else {
                    assert(rest.contains(e));
                    let k = choose|k: int|
                        0 <= k < init.len() && #[trigger] init[k].1.contains(e) && spec_contains_seq(
                            spec_lowercase(init[k].0),
                            q,
                        );
                    assert(lists[k] == init[k]);
                }
            }
            if exists|k: int|
                0 <= k < lists.len() && #[trigger] lists[k].1.contains(e) && spec_contains_seq(
                    spec_lowercase(lists[k].0),
                    q,
                ) {
                let k = choose|k: int|
                    0 <= k < lists.len() && #[trigger] lists[k].1.contains(e) && spec_contains_seq(
                        spec_lowercase(lists[k].0),
                        q,
                    );
                if k == lists.len() - 1 {
                    let j = choose|j: int| 0 <= j < last.1.len() && last.1[j] == e;
                    assert(m[rest.len() + j] == e);
                } else {
                    assert(init[k] == lists[k]);
                    let j = choose|j: int| 0 <= j < rest.len() && rest[j] == e;
                    assert(m[j] == e);
                }
            }
        } else {
            if exists|k: int|
                0 <= k < lists.len() && #[trigger] lists[k].1.contains(e) && spec_contains_seq(
                    spec_lowercase(lists[k].0),
                    q,
                ) {
                let k = choose|k: int|
                    0 <= k < lists.len() && #[trigger] lists[k].1.contains(e) && spec_contains_seq(
                        spec_lowercase(lists[k].0),
                        q,
                    );
                assert(k != lists.len() - 1);
                assert(init[k] == lists[k]);
            }
            if rest.contains(e) {
                let k = choose|k: int|
                    0 <= k < init.len() && #[trigger] init[k].1.contains(e) && spec_contains_seq(
                        spec_lowercase(init[k].0),
                        q,
                    );
                assert(lists[k] == init[k]);
            }
        }
    }
}

} // verus!
