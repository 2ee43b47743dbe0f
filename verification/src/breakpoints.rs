//! Breakpoint cache: client-side tracking of source and function breakpoints.
//!
//! DAP does not define a request to list existing breakpoints, so the bridge
//! remembers the breakpoints it has set and refreshes them from `breakpoint`
//! events.

use crate::cache::{clone_opt_string, spec_opt_text};
use crate::dap::types::{Breakpoint, FunctionBreakpoint, SourceBreakpoint};
use crate::text::str_eq;
use vstd::prelude::*;
use vstd::string::*;

verus! {

/// Discriminator for the kind of breakpoint stored in the cache.
#[derive(Debug, Clone, Copy, PartialEq, Eq, Structural)]
pub enum BreakpointKind {
    Source,
    Function,
}

/// A breakpoint entry suitable for returning from the `list_breakpoints` tool.
#[derive(Debug)]
pub struct CachedBreakpoint {
    /// Breakpoint ID assigned by the debug adapter (if verified).
    pub id: Option<u64>,
    /// Type discriminator: "source" or "function".
    pub kind: BreakpointKind,
    /// Source path (reverse-mapped to alias form when listed if possible).
    pub source_path: Option<String>,
    /// Line number (1-based).
    pub line: Option<u64>,
    /// Column number (if available).
    pub column: Option<u64>,
    /// Function name (for function breakpoints).
    pub function_name: Option<String>,
    /// Condition expression (if set).
    pub condition: Option<String>,
    /// Hit condition expression (if set).
    pub hit_condition: Option<String>,
    /// Whether the breakpoint was successfully verified by the adapter.
    pub verified: bool,
    /// Adapter message about the breakpoint state.
    pub message: Option<String>,
}

/// The abstract content of a cached breakpoint.
pub struct CachedBreakpointView {
    pub id: Option<u64>,
    pub kind: BreakpointKind,
    pub source_path: Option<Seq<char>>,
    pub line: Option<u64>,
    pub column: Option<u64>,
    pub function_name: Option<Seq<char>>,
    pub condition: Option<Seq<char>>,
    pub hit_condition: Option<Seq<char>>,
    pub verified: bool,
    pub message: Option<Seq<char>>,
}

impl View for CachedBreakpoint {
    type V = CachedBreakpointView;

    open spec fn view(&self) -> CachedBreakpointView {
        CachedBreakpointView {
            id: self.id,
            kind: self.kind,
            source_path: spec_opt_text(self.source_path),
            line: self.line,
            column: self.column,
            function_name: spec_opt_text(self.function_name),
            condition: spec_opt_text(self.condition),
            hit_condition: spec_opt_text(self.hit_condition),
            verified: self.verified,
            message: spec_opt_text(self.message),
        }
    }
}

impl Clone for CachedBreakpoint {
    fn clone(&self) -> (r: Self)
        ensures
            r == *self,
    {
        CachedBreakpoint {
            id: self.id,
            kind: self.kind,
            source_path: clone_opt_string(&self.source_path),
            line: self.line,
            column: self.column,
            function_name: clone_opt_string(&self.function_name),
            condition: clone_opt_string(&self.condition),
            hit_condition: clone_opt_string(&self.hit_condition),
            verified: self.verified,
            message: clone_opt_string(&self.message),
        }
    }
}

/// The abstract content of a sequence of cached breakpoints.
pub open spec fn breakpoint_views(s: Seq<CachedBreakpoint>) -> Seq<CachedBreakpointView> {
    s.map_values(|b: CachedBreakpoint| b@)
}

/// `a` if present, else `b`.
pub open spec fn spec_or<T>(a: Option<T>, b: Option<T>) -> Option<T> {
    match a {
        Some(x) => Some(x),
        None => b,
    }
}

/// The cache entry for a source breakpoint requested at `request` and
/// answered by `response`.
pub open spec fn spec_from_source(
    source_path: Seq<char>,
    request: SourceBreakpoint,
    response: Breakpoint,
) -> CachedBreakpointView {
    CachedBreakpointView {
        id: response.id,
        kind: BreakpointKind::Source,
        source_path: Some(source_path),
        line: spec_or(response.line, Some(request.line)),
        column: spec_or(response.column, request.column),
        function_name: None,
        condition: spec_opt_text(request.condition),
        hit_condition: spec_opt_text(request.hit_condition),
        verified: response.verified,
        message: spec_opt_text(response.message),
    }
}

/// The source path a breakpoint response reports, if any.
pub open spec fn spec_response_path(response: Breakpoint) -> Option<Seq<char>> {
    match response.source {
        Some(src) => spec_opt_text(src.path),
        None => None,
    }
}

/// The cache entry for a function breakpoint requested at `request` and
/// answered by `response`.
pub open spec fn spec_from_function(request: FunctionBreakpoint, response: Breakpoint) -> CachedBreakpointView {
    CachedBreakpointView {
        id: response.id,
        kind: BreakpointKind::Function,
        source_path: spec_response_path(response),
        line: response.line,
        column: response.column,
        function_name: Some(request.name@),
        condition: spec_opt_text(request.condition),
        hit_condition: spec_opt_text(request.hit_condition),
        verified: response.verified,
        message: spec_opt_text(response.message),
    }
}

/// A cached breakpoint refreshed from a `breakpoint` event.
pub open spec fn spec_refresh(item: CachedBreakpointView, bp: Breakpoint) -> CachedBreakpointView {
    CachedBreakpointView {
        id: item.id,
        kind: item.kind,
        source_path: match spec_response_path(bp) {
            Some(p) => Some(p),
            None => item.source_path,
        },
        line: spec_or(bp.line, item.line),
        column: spec_or(bp.column, item.column),
        function_name: item.function_name,
        condition: item.condition,
        hit_condition: item.hit_condition,
        verified: bp.verified,
        message: spec_opt_text(bp.message),
    }
}

impl CachedBreakpoint {
    /// The cache entry for a source breakpoint and the adapter's answer to it.
    pub fn from_source(source_path: &str, request: &SourceBreakpoint, response: &Breakpoint) -> (r:
        Self)
        ensures
            r@ == spec_from_source(source_path@, *request, *response),
    {
        CachedBreakpoint {
            id: response.id,
            kind: BreakpointKind::Source,
            source_path: Some(String::from_str(source_path)),
            line: match response.line {
                Some(l) => Some(l),
                None => Some(request.line),
            },
            column: match response.column {
                Some(c) => Some(c),
                None => request.column,
            },
            function_name: None,
            condition: clone_opt_string(&request.condition),
            hit_condition: clone_opt_string(&request.hit_condition),
            verified: response.verified,
            message: clone_opt_string(&response.message),
        }
    }

    /// The cache entry for a function breakpoint and the adapter's answer to it.
    pub fn from_function(request: &FunctionBreakpoint, response: &Breakpoint) -> (r: Self)
        ensures
            r@ == spec_from_function(*request, *response),
    {
        let source_path = match &response.source {
            Some(src) => clone_opt_string(&src.path),
            None => None,
        };
        CachedBreakpoint {
            id: response.id,
            kind: BreakpointKind::Function,
            source_path,
            line: response.line,
            column: response.column,
            function_name: Some(request.name.clone()),
            condition: clone_opt_string(&request.condition),
            hit_condition: clone_opt_string(&request.hit_condition),
            verified: response.verified,
            message: clone_opt_string(&response.message),
        }
    }

    /// This breakpoint refreshed from a `breakpoint` event.
    fn refreshed(&self, bp: &Breakpoint) -> (r: Self)
        ensures
            r@ == spec_refresh(self@, *bp),
    {
        let mut item = self.clone();
        item.verified = bp.verified;
        item.line = match bp.line {
            Some(l) => Some(l),
            None => self.line,
        };
        item.column = match bp.column {
            Some(c) => Some(c),
            None => self.column,
        };
        item.message = clone_opt_string(&bp.message);
        match &bp.source {
            Some(src) => match &src.path {
                Some(path) => {
                    item.source_path = Some(path.clone());
                },
                None => {},
            },
            None => {},
        }
        item
    }
}

// ── The cache ────────────────────────────────────────────────────────────

/// The entries for the pairs of requests and responses, up to the shorter list.
pub open spec fn spec_zip_source(
    path: Seq<char>,
    request: Seq<SourceBreakpoint>,
    response: Seq<Breakpoint>,
) -> Seq<CachedBreakpointView> {
    Seq::new(
        if request.len() <= response.len() {
            request.len()
        } else {
            response.len()
        },
        |i: int| spec_from_source(path, request[i], response[i]),
    )
}

/// The entries for the pairs of requests and responses, up to the shorter list.
pub open spec fn spec_zip_function(request: Seq<FunctionBreakpoint>, response: Seq<Breakpoint>) -> Seq<
    CachedBreakpointView,
> {
    Seq::new(
        if request.len() <= response.len() {
            request.len()
        } else {
            response.len()
        },
        |i: int| spec_from_function(request[i], response[i]),
    )
}

/// The abstract content of the breakpoint cache.
pub struct BreakpointCacheView {
    /// Each source path with its breakpoints, paths in first-set order.
    pub sources: Seq<(Seq<char>, Seq<CachedBreakpointView>)>,
    /// The function breakpoints of the last `setFunctionBreakpoints` call.
    pub functions: Seq<CachedBreakpointView>,
}

/// The index of the entry for `path`, if any.
pub open spec fn spec_path_index(sources: Seq<(Seq<char>, Seq<CachedBreakpointView>)>, path: Seq<char>) -> Option<
    int,
>
    decreases sources.len(),
{
    if sources.len() == 0 {
        None
    } else if sources.last().0 == path {
        Some(sources.len() - 1)
    } else {
        spec_path_index(sources.drop_last(), path)
    }
}

/// The sources with the list for `path` replaced by `items` (added when new).
pub open spec fn spec_set_source(
    sources: Seq<(Seq<char>, Seq<CachedBreakpointView>)>,
    path: Seq<char>,
    items: Seq<CachedBreakpointView>,
) -> Seq<(Seq<char>, Seq<CachedBreakpointView>)> {
    match spec_path_index(sources, path) {
        Some(k) => sources.update(k, (path, items)),
        None => sources.push((path, items)),
    }
}

/// The first index at or after `from` of an entry with breakpoint ID `id`.
pub open spec fn spec_first_id(list: Seq<CachedBreakpointView>, id: u64, from: int) -> Option<int>
    decreases list.len() - from,
{
    if from < 0 || from >= list.len() {
        None
    } else if list[from].id == Some(id) {
        Some(from)
    } else {
        spec_first_id(list, id, from + 1)
    }
}

/// The first (list, position) at or after list `from` holding breakpoint ID `id`.
pub open spec fn spec_first_id_in(sources: Seq<(Seq<char>, Seq<CachedBreakpointView>)>, id: u64, from: int) -> Option<
    (int, int),
>
    decreases sources.len() - from,
{
    if from < 0 || from >= sources.len() {
        None
    } else {
        match spec_first_id(sources[from].1, id, 0) {
            Some(j) => Some((from, j)),
            None => spec_first_id_in(sources, id, from + 1),
        }
    }
}

/// All cached breakpoints: the source breakpoints list by list, then the
/// function breakpoints.
pub open spec fn spec_all_sources(sources: Seq<(Seq<char>, Seq<CachedBreakpointView>)>) -> Seq<
    CachedBreakpointView,
>
    decreases sources.len(),
{
    if sources.len() == 0 {
        Seq::empty()
    } else {
        spec_all_sources(sources.drop_last()) + sources.last().1
    }
}

/// Cache of all breakpoints set during the session.
pub struct BreakpointCache {
    /// Source breakpoints by resolved absolute source path, paths in
    /// first-set order. A new `setBreakpoints` call for a source replaces
    /// the previous list.
    source_breakpoints: Vec<(String, Vec<CachedBreakpoint>)>,
    /// Function breakpoints (as returned by the last `setFunctionBreakpoints` call).
    function_breakpoints: Vec<CachedBreakpoint>,
}

impl View for BreakpointCache {
    type V = BreakpointCacheView;

    closed spec fn view(&self) -> BreakpointCacheView {
        BreakpointCacheView {
            sources: self.source_breakpoints@.map_values(
                |p: (String, Vec<CachedBreakpoint>)| (p.0@, breakpoint_views(p.1@)),
            ),
            functions: breakpoint_views(self.function_breakpoints@),
        }
    }
}

/// A copy of a list of cached breakpoints.
fn clone_list(list: &Vec<CachedBreakpoint>) -> (r: Vec<CachedBreakpoint>)
    ensures
        breakpoint_views(r@) == breakpoint_views(list@),
{
    let mut r: Vec<CachedBreakpoint> = Vec::new();
    let mut i: usize = 0;
    while i < list.len()
        invariant
            i <= list@.len(),
            breakpoint_views(r@) == breakpoint_views(list@).take(i as int),
        decreases list@.len() - i,
    {
        let c = list[i].clone();
        let ghost before = breakpoint_views(r@);
        r.push(c);
        assert(breakpoint_views(r@) =~= before.push(c@));
        assert(breakpoint_views(list@).take(i + 1) =~= breakpoint_views(list@).take(
            i as int,
        ).push(list@[i as int]@));
        i = i + 1;
    }
    assert(breakpoint_views(list@).take(list@.len() as int) =~= breakpoint_views(list@));
    r
}

impl BreakpointCache {
    /// Create an empty breakpoint cache.
    pub fn new() -> (r: Self)
        ensures
            r@.sources.len() == 0,
            r@.functions.len() == 0,
    {
        BreakpointCache { source_breakpoints: Vec::new(), function_breakpoints: Vec::new() }
    }

    /// Replace the stored breakpoints for a single source file.
    ///
    /// `source_path` must be the resolved absolute path used in the DAP request.
    pub fn update_source_breakpoints(
        &mut self,
        source_path: &str,
        request: &[SourceBreakpoint],
        response: &[Breakpoint],
    )
        ensures
            final(self)@.sources == spec_set_source(
                old(self)@.sources,
                source_path@,
                spec_zip_source(source_path@, request@, response@),
            ),
            final(self)@.functions == old(self)@.functions,
    {
        let ghost sources = self@.sources;
        let ghost want = spec_zip_source(source_path@, request@, response@);
        let n = if request.len() <= response.len() {
            request.len()
        } else {
            response.len()
        };
        let mut items: Vec<CachedBreakpoint> = Vec::new();
        let mut i: usize = 0;
        while i < n
            invariant
                i <= n,
                n == want.len(),
                n <= request@.len(),
                n <= response@.len(),
                want == spec_zip_source(source_path@, request@, response@),
                breakpoint_views(items@) == want.take(i as int),
            decreases n - i,
        {
            let b = CachedBreakpoint::from_source(source_path, &request[i], &response[i]);
            let ghost before = breakpoint_views(items@);
            items.push(b);
            assert(breakpoint_views(items@) =~= before.push(b@));
            assert(want.take(i + 1) =~= want.take(i as int).push(want[i as int]));
            i = i + 1;
        }
        assert(want.take(n as int) =~= want);
        match self.path_index(source_path) {
            Some(k) => {
                self.source_breakpoints.set(k, (String::from_str(source_path), items));
                assert(self@.sources =~= sources.update(k as int, (source_path@, want)));
            },
            None => {
                self.source_breakpoints.push((String::from_str(source_path), items));
                assert(self@.sources =~= sources.push((source_path@, want)));
            },
        }
    }

    /// The index of the entry for `path`, scanning from the most recent.
    fn path_index(&self, path: &str) -> (r: Option<usize>)
        ensures
            spec_path_index(self@.sources, path@) == (match r {
                Some(k) => Some(k as int),
                None => None::<int>,
            }),
            r matches Some(k) ==> k < self@.sources.len(),
    {
        let ghost sources = self@.sources;
        let mut k = self.source_breakpoints.len();
        assert(sources.take(k as int) =~= sources);
        while k > 0
            invariant
                k <= sources.len(),
                sources == self@.sources,
                spec_path_index(sources, path@) == spec_path_index(sources.take(k as int), path@),
            decreases k,
        {
            assert(sources.take(k as int).drop_last() =~= sources.take(k - 1));
            assert(sources[k - 1].0 == self.source_breakpoints[k - 1].0@);
            if str_eq(self.source_breakpoints[k - 1].0.as_str(), path) {
                return Some(k - 1);
            }
            k = k - 1;
        }
        None
    }

    /// Replace the stored function breakpoints.
    pub fn update_function_breakpoints(
        &mut self,
        request: &[FunctionBreakpoint],
        response: &[Breakpoint],
    )
        ensures
            final(self)@.functions == spec_zip_function(request@, response@),
            final(self)@.sources == old(self)@.sources,
    {
        let ghost want = spec_zip_function(request@, response@);
        let n = if request.len() <= response.len() {
            request.len()
        } else {
            response.len()
        };
        let mut items: Vec<CachedBreakpoint> = Vec::new();
        let mut i: usize = 0;
        while i < n
            invariant
                i <= n,
                n == want.len(),
                n <= request@.len(),
                n <= response@.len(),
                want == spec_zip_function(request@, response@),
                breakpoint_views(items@) == want.take(i as int),
            decreases n - i,
        {
            let b = CachedBreakpoint::from_function(&request[i], &response[i]);
            let ghost before = breakpoint_views(items@);
            items.push(b);
            assert(breakpoint_views(items@) =~= before.push(b@));
            assert(want.take(i + 1) =~= want.take(i as int).push(want[i as int]));
            i = i + 1;
        }
        assert(want.take(n as int) =~= want);
        self.function_breakpoints = items;
    }

    /// Update a single breakpoint by ID, typically from a DAP `breakpoint` event.
    ///
    /// Returns `true` if a matching breakpoint was found and updated.
    pub fn update_by_id(&mut self, breakpoint: &Breakpoint) -> (r: bool)
        ensures
            match breakpoint.id {
                None => !r && final(self)@ == old(self)@,
                Some(id) => match spec_first_id_in(old(self)@.sources, id, 0) {
                    Some((k, j)) => r && final(self)@.functions == old(self)@.functions
                        && final(self)@.sources == old(self)@.sources.update(
                        k,
                        (
                            old(self)@.sources[k].0,
                            old(self)@.sources[k].1.update(
                                j,
                                spec_refresh(old(self)@.sources[k].1[j], *breakpoint),
                            ),
                        ),
                    ),
                    None => match spec_first_id(old(self)@.functions, id, 0) {
                        Some(j) => r && final(self)@.sources == old(self)@.sources
                            && final(self)@.functions == old(self)@.functions.update(
                            j,
                            spec_refresh(old(self)@.functions[j], *breakpoint),
                        ),
                        None => !r && final(self)@ == old(self)@,
                    },
                },
            },
    {
        let id = match breakpoint.id {
            Some(id) => id,
            None => {
                return false;
            },
        };
        let ghost sources = self@.sources;
        let ghost functions = self@.functions;
        let mut k: usize = 0;
        while k < self.source_breakpoints.len()
            invariant
                k <= sources.len(),
                sources == self@.sources,
                functions == self@.functions,
                sources == old(self)@.sources,
                functions == old(self)@.functions,
                breakpoint.id == Some(id),
                spec_first_id_in(sources, id, 0) == spec_first_id_in(sources, id, k as int),
            decreases sources.len() - k,
        {
            let list = &self.source_breakpoints[k].1;
            let ghost lv = breakpoint_views(list@);
            assert(sources[k as int].1 == lv);
            let mut j: usize = 0;
            while j < list.len()
                invariant
                    j <= lv.len(),
                    k < sources.len(),
                    lv == breakpoint_views(list@),
                    *list == self.source_breakpoints@[k as int].1,
                    sources[k as int].1 == lv,
                    sources == self@.sources,
                    functions == self@.functions,
                    sources == old(self)@.sources,
                    functions == old(self)@.functions,
                    breakpoint.id == Some(id),
                    spec_first_id_in(sources, id, 0) == spec_first_id_in(sources, id, k as int),
                    spec_first_id(lv, id, 0) == spec_first_id(lv, id, j as int),
                decreases lv.len() - j,
            {
                assert(lv[j as int] == list@[j as int]@);
                if list[j].id == Some(id) {
                    assert(spec_first_id(lv, id, j as int) == Some(j as int));
                    assert(spec_first_id_in(sources, id, k as int) == Some((k as int, j as int)));
                    let updated = list[j].refreshed(breakpoint);
                    let mut new_list = clone_list(list);
                    let ghost nl = breakpoint_views(new_list@);
                    new_list.set(j, updated);
                    assert(breakpoint_views(new_list@) =~= nl.update(j as int, updated@));
                    let path = self.source_breakpoints[k].0.clone();
                    self.source_breakpoints.set(k, (path, new_list));
                    assert(self@.sources =~= sources.update(
                        k as int,
                        (sources[k as int].0, lv.update(j as int, spec_refresh(lv[j as int], *breakpoint))),
                    ));
                    return true;
                }
                j = j + 1;
            }
            assert(spec_first_id_in(sources, id, k as int) == spec_first_id_in(sources, id, k + 1));
            k = k + 1;
        }
        let ghost fv = breakpoint_views(self.function_breakpoints@);
        let mut j: usize = 0;
        while j < self.function_breakpoints.len()
            invariant
                j <= fv.len(),
                fv == breakpoint_views(self.function_breakpoints@),
                sources == self@.sources,
                functions == fv,
                sources == old(self)@.sources,
                functions == old(self)@.functions,
                breakpoint.id == Some(id),
                spec_first_id_in(sources, id, 0) is None,
                spec_first_id(fv, id, 0) == spec_first_id(fv, id, j as int),
            decreases fv.len() - j,
        {
            assert(fv[j as int] == self.function_breakpoints@[j as int]@);
            if self.function_breakpoints[j].id == Some(id) {
                assert(spec_first_id(fv, id, j as int) == Some(j as int));
                let updated = self.function_breakpoints[j].refreshed(breakpoint);
                self.function_breakpoints.set(j, updated);
                assert(self@.functions =~= fv.update(j as int, spec_refresh(fv[j as int], *breakpoint)));
                return true;
            }
            j = j + 1;
        }
        false
    }

    /// Return all cached breakpoints with stored source paths unchanged.
    pub fn list(&self) -> (r: Vec<CachedBreakpoint>)
        ensures
            breakpoint_views(r@) == spec_all_sources(self@.sources) + self@.functions,
    {
        let ghost sources = self@.sources;
        let mut result: Vec<CachedBreakpoint> = Vec::new();
        let mut k: usize = 0;
        while k < self.source_breakpoints.len()
            invariant
                k <= sources.len(),
                sources == self@.sources,
                breakpoint_views(result@) == spec_all_sources(sources.take(k as int)),
            decreases sources.len() - k,
        {
            assert(sources.take(k + 1).drop_last() =~= sources.take(k as int));
            let list = &self.source_breakpoints[k].1;
            assert(sources[k as int].1 == breakpoint_views(list@));
            let mut copy = clone_list(list);
            let ghost before = breakpoint_views(result@);
            result.append(&mut copy);
            assert(breakpoint_views(result@) =~= before + breakpoint_views(list@));
            k = k + 1;
        }
        assert(sources.take(sources.len() as int) =~= sources);
        let mut fcopy = clone_list(&self.function_breakpoints);
        let ghost before = breakpoint_views(result@);
        result.append(&mut fcopy);
        assert(breakpoint_views(result@) =~= before + self@.functions);
        result
    }

    /// Remove all cached breakpoints.
    pub fn clear(&mut self)
        ensures
            final(self)@.sources.len() == 0,
            final(self)@.functions.len() == 0,
    {
        self.source_breakpoints.clear();
        self.function_breakpoints.clear();
    }
}

impl Default for BreakpointCache {
    fn default() -> (r: Self)
        ensures
            r@.sources.len() == 0,
            r@.functions.len() == 0,
    {
        BreakpointCache::new()
    }
}

// ── Laws ─────────────────────────────────────────────────────────────────

/// Setting the breakpoints of a file twice keeps only the second set: the
/// file's entry is replaced in place, never duplicated.
pub proof fn lemma_set_source_replaces(
    sources: Seq<(Seq<char>, Seq<CachedBreakpointView>)>,
    path: Seq<char>,
    first: Seq<CachedBreakpointView>,
    second: Seq<CachedBreakpointView>,
)
    ensures
        spec_set_source(spec_set_source(sources, path, first), path, second) == spec_set_source(
            sources,
            path,
            second,
        ),
{
    lemma_path_index(sources, path);
    let once = spec_set_source(sources, path, first);
    match spec_path_index(sources, path) {
        Some(k) => {
            lemma_path_index_at(once, path, k);
            assert(once.update(k, (path, second)) =~= sources.update(k, (path, second)));
        },
        None => {
            lemma_path_index_at(once, path, sources.len() as int);
            assert(once.update(sources.len() as int, (path, second)) =~= sources.push(
                (path, second),
            ));
        },
    }
}

/// `spec_path_index` finds the last entry for a path, or reports that there is none.
pub proof fn lemma_path_index(sources: Seq<(Seq<char>, Seq<CachedBreakpointView>)>, path: Seq<char>)
    ensures
        spec_path_index(sources, path) matches Some(k) ==> 0 <= k < sources.len() && sources[k].0
            == path && forall|j: int| k < j < sources.len() ==> sources[j].0 != path,
        spec_path_index(sources, path) is None ==> forall|j: int|
            0 <= j < sources.len() ==> sources[j].0 != path,
    decreases sources.len(),
{
    if sources.len() > 0 && sources.last().0 != path {
        lemma_path_index(sources.drop_last(), path);
        assert forall|j: int| 0 <= j < sources.len() - 1 implies sources[j] == sources.drop_last()[j] by {}
    }
}

/// The last entry for a path is the one `spec_path_index` finds.
proof fn lemma_path_index_at(sources: Seq<(Seq<char>, Seq<CachedBreakpointView>)>, path: Seq<char>, k: int)
    requires
        0 <= k < sources.len(),
        sources[k].0 == path,
        forall|j: int| k < j < sources.len() ==> sources[j].0 != path,
    ensures
        spec_path_index(sources, path) == Some(k),
    decreases sources.len(),
{
    if k < sources.len() - 1 {
        lemma_path_index_at(sources.drop_last(), path, k);
    }
}

/// After the breakpoints of a file are set, the file's stored list pairs
/// the requests with the responses in order, up to the shorter of the two:
/// the `i`-th entry has the `i`-th response's ID, verification and message,
/// the line and column the adapter reported (else the requested ones), and
/// the `i`-th request's conditions. Every other file keeps its list.
pub proof fn lemma_set_source_breakpoints_pairs(
    sources: Seq<(Seq<char>, Seq<CachedBreakpointView>)>,
    path: Seq<char>,
    request: Seq<SourceBreakpoint>,
    response: Seq<Breakpoint>,
)
    ensures
        ({
            let after = spec_set_source(sources, path, spec_zip_source(path, request, response));
            &&& spec_path_index(after, path) is Some
            &&& forall|j: int|
                0 <= j < sources.len() && sources[j].0 != path ==> after[j] == sources[j]
        }),
        ({
            let after = spec_set_source(sources, path, spec_zip_source(path, request, response));
            let items = after[spec_path_index(after, path)->0].1;
            &&& items.len() == if request.len() <= response.len() {
                request.len()
            } else {
                response.len()
            }
            &&& forall|i: int|
                0 <= i < items.len() ==> {
                    &&& (#[trigger] items[i]).id == response[i].id
                    &&& items[i].kind == BreakpointKind::Source
                    &&& items[i].source_path == Some(path)
                    &&& items[i].line == match response[i].line {
                        Some(l) => Some(l),
                        None => Some(request[i].line),
                    }
                    &&& items[i].column == match response[i].column {
                        Some(c) => Some(c),
                        None => request[i].column,
                    }
                    &&& items[i].function_name is None
                    &&& items[i].condition == spec_opt_text(request[i].condition)
                    &&& items[i].hit_condition == spec_opt_text(request[i].hit_condition)
                    &&& items[i].verified == response[i].verified
                    &&& items[i].message == spec_opt_text(response[i].message)
                }
        }),
{
    let items = spec_zip_source(path, request, response);
    let after = spec_set_source(sources, path, items);
    lemma_path_index(sources, path);
    match spec_path_index(sources, path) {
        Some(k) => {
            lemma_path_index_at(after, path, k);
        },
        None => {
            lemma_path_index_at(after, path, sources.len() as int);
        },
    }
}

} // verus!
