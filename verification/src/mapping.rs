//! Path mapping: bidirectional translation between AI-relative paths and
//! system absolute paths.
//!
//! AI assistants work with relative paths like `src/main.cpp`, while the
//! debugger works with absolute paths like `/home/user/project/src/main.cpp`.
//! Aliases map a relative prefix to an absolute directory; base directories
//! are tried for relative paths that match no alias.

use crate::text::{chars_of, spec_starts_with, string_of, vec_ends_with, vec_starts_with};
use vstd::prelude::*;
use vstd::string::*;

verus! {

// ── Trusted path primitives ──────────────────────────────────────────────

/// What `Path::join` gives for a base path and a relative path, as text.
pub uninterp spec fn spec_path_join(base: Seq<char>, rel: Seq<char>) -> Seq<char>;

/// What `Path::strip_prefix` gives for a path and a base, as text
/// (`None` when `base` is not a component-wise prefix of the path).
pub uninterp spec fn spec_path_strip_prefix(path: Seq<char>, base: Seq<char>) -> Option<Seq<char>>;

/// Joins a relative path onto a base path.
///
/// Trusted: calls `std::path::Path::join` and converts the resulting path
/// back to text; the contract only names the result.
#[verifier::external_body]
pub(crate) fn path_join(base: &str, rel: &str) -> (r: String)
    ensures
        r@ == spec_path_join(base@, rel@),
{
    std::path::Path::new(base).join(rel).to_string_lossy().to_string()
}

/// Strips a base path from the front of a path, component by component.
///
/// Trusted: calls `std::path::Path::strip_prefix`; the documentation says it
/// fails exactly when `base` is not a prefix of the path (that is, when
/// `Path::starts_with` is false), so `None` here means "does not start with".
/// The contract names the result, and says what the documentation's own
/// example shows: a path stripped of itself leaves the empty path.
#[verifier::external_body]
pub(crate) fn path_strip_prefix(path: &str, base: &str) -> (r: Option<String>)
    ensures
        r matches Some(s) ==> spec_path_strip_prefix(path@, base@) == Some(s@),
        r is None ==> spec_path_strip_prefix(path@, base@) is None,
        r is None ==> path@ != base@,
        r matches Some(s) ==> (path@ == base@ ==> s@.len() == 0),
{
    match std::path::Path::new(path).strip_prefix(base) {
        Ok(rem) => Some(rem.to_string_lossy().to_string()),
        Err(_) => None,
    }
}

/// Whether `Path::is_absolute` holds of a path, given as text.
pub uninterp spec fn spec_path_is_absolute(path: Seq<char>) -> bool;

/// Whether a path is absolute.
///
/// Trusted: calls `std::path::Path::is_absolute`, whose answer depends on
/// the platform's path syntax (a leading `/` on Unix, a drive or UNC prefix
/// with a root on Windows); the contract only names the result.
#[verifier::external_body]
pub(crate) fn path_is_absolute(path: &str) -> (r: bool)
    ensures
        r == spec_path_is_absolute(path@),
{
    std::path::Path::new(path).is_absolute()
}

/// Whether a file or directory exists at `path`.
///
/// Trusted: calls `std::path::Path::exists`, which asks the file system; the
/// answer depends on the disk, so nothing is stated about it.
#[verifier::external_body]
pub(crate) fn path_exists(path: &str) -> (r: bool) {
    std::path::Path::new(path).exists()
}

// ── Specification ────────────────────────────────────────────────────────

/// Replaces every backslash with a forward slash.
pub open spec fn spec_normalize(s: Seq<char>) -> Seq<char> {
    s.map_values(|c: char| if c == '\\' { '/' } else { c })
}

/// Length in bytes of the UTF-8 encoding of `s`, as `str::len` reports it.
pub open spec fn spec_byte_len(s: Seq<char>) -> usize {
    vstd::utf8::encode_utf8(s).len() as usize
}

/// The prefix a (normalized) alias must be followed by in a path.
pub open spec fn spec_alias_prefix(na: Seq<char>) -> Seq<char> {
    if na.len() > 0 && na.last() == '/' {
        na
    } else {
        na.push('/')
    }
}

/// Whether alias `a` matches the (normalized) path `np`, exactly or as a prefix.
pub open spec fn spec_alias_matches(a: Seq<char>, np: Seq<char>) -> bool {
    np == spec_normalize(a) || spec_starts_with(np, spec_alias_prefix(spec_normalize(a)))
}

/// Among the first `n` aliases, the index of the first longest one that matches `np`.
pub open spec fn spec_best_alias(aliases: Seq<(Seq<char>, Seq<char>)>, np: Seq<char>, n: int) -> Option<
    int,
>
    decreases n,
{
    if n <= 0 {
        None
    } else {
        let prev = spec_best_alias(aliases, np, n - 1);
        let a = aliases[n - 1].0;
        if spec_alias_matches(a, np) && (prev is None || spec_byte_len(a) > spec_byte_len(
            aliases[prev->0].0,
        )) {
            Some(n - 1)
        } else {
            prev
        }
    }
}

/// Among the first `n` aliases, the index of the first one whose directory is
/// the longest component-wise prefix of `abs`.
pub open spec fn spec_best_dir(aliases: Seq<(Seq<char>, Seq<char>)>, abs: Seq<char>, n: int) -> Option<
    int,
>
    decreases n,
{
    if n <= 0 {
        None
    } else {
        let prev = spec_best_dir(aliases, abs, n - 1);
        let d = aliases[n - 1].1;
        if spec_path_strip_prefix(abs, d) is Some && (prev is None || spec_byte_len(d)
            > spec_byte_len(aliases[prev->0].1)) {
            Some(n - 1)
        } else {
            prev
        }
    }
}

/// The index of the first base directory that `abs` can be stripped of.
pub open spec fn spec_first_base_strip(bases: Seq<Seq<char>>, abs: Seq<char>, from: int) -> Option<int>
    decreases bases.len() - from,
{
    if from < 0 || from >= bases.len() {
        None
    } else if spec_path_strip_prefix(abs, bases[from]) is Some {
        Some(from)
    } else {
        spec_first_base_strip(bases, abs, from + 1)
    }
}

/// The abstract content of a path mapper.
pub struct PathMapperView {
    /// Registered `(alias, absolute directory)` pairs, in registration order.
    pub aliases: Seq<(Seq<char>, Seq<char>)>,
    /// Registered base directories, in registration order.
    pub base_dirs: Seq<Seq<char>>,
}

/// The alias table as a map from alias to absolute directory.
pub open spec fn spec_alias_map(aliases: Seq<(Seq<char>, Seq<char>)>) -> Map<Seq<char>, Seq<char>>
    decreases aliases.len(),
{
    if aliases.len() == 0 {
        Map::empty()
    } else {
        spec_alias_map(aliases.drop_last()).insert(aliases.last().0, aliases.last().1)
    }
}

/// The text of each pair of strings.
pub open spec fn pair_views(t: Seq<(String, String)>) -> Seq<(Seq<char>, Seq<char>)> {
    t.map_values(|p: (String, String)| (p.0@, p.1@))
}

/// Whether the alias names in `aliases` are pairwise distinct.
pub open spec fn spec_distinct_keys<V>(aliases: Seq<(Seq<char>, V)>) -> bool {
    forall|i: int, j: int|
        0 <= i < aliases.len() && 0 <= j < aliases.len() && i != j ==> aliases[i].0 != aliases[j].0
}

/// Resolution of `path`, given the index of the first base-directory
/// candidate that exists on disk (`None` when none exists).
pub open spec fn spec_resolve_given(m: PathMapperView, path: Seq<char>, found: Option<int>) -> Option<
    Seq<char>,
> {
    let np = spec_normalize(path);
    if spec_path_is_absolute(path) {
        Some(spec_normalize(path))
    } else if let Some(i) = spec_best_alias(m.aliases, np, m.aliases.len() as int) {
        let a = m.aliases[i].0;
        let d = m.aliases[i].1;
        if np == spec_normalize(a) {
            Some(d)
        } else {
            let prefix = spec_alias_prefix(spec_normalize(a));
            Some(spec_normalize(spec_path_join(d, np.subrange(prefix.len() as int, np.len() as int))))
        }
    } else if let Some(k) = found {
        Some(spec_normalize(spec_path_join(m.base_dirs[k], path)))
    } else if m.base_dirs.len() > 0 {
        Some(spec_normalize(spec_path_join(m.base_dirs[0], path)))
    } else {
        None
    }
}

/// Reverse resolution of an absolute path to its most specific alias form.
pub open spec fn spec_reverse(m: PathMapperView, abs: Seq<char>) -> Option<Seq<char>> {
    if let Some(i) = spec_best_dir(m.aliases, abs, m.aliases.len() as int) {
        let a = m.aliases[i].0;
        let rem = spec_path_strip_prefix(abs, m.aliases[i].1)->0;
        if rem.len() == 0 {
            Some(a)
        } else {
            let nr = spec_normalize(rem);
            if nr.len() > 0 && nr[0] == '/' {
                Some(spec_normalize(a) + nr)
            } else {
                Some(spec_normalize(a) + seq!['/'] + nr)
            }
        }
    } else if let Some(k) = spec_first_base_strip(m.base_dirs, abs, 0) {
        spec_path_strip_prefix(abs, m.base_dirs[k])
    } else {
        None
    }
}

// ── Implementation ───────────────────────────────────────────────────────

/// Bi-directional path mapper for AI ↔ system path translation.
#[derive(Debug, Clone)]
pub struct PathMapper {
    /// Registered aliases: alias → resolved absolute path.
    aliases: Vec<(String, String)>,
    /// Reverse lookup cache: absolute path → alias prefix.
    reverse_cache: Vec<(String, String)>,
    /// Base directories for relative path resolution.
    base_dirs: Vec<String>,
}

impl View for PathMapper {
    type V = PathMapperView;

    closed spec fn view(&self) -> PathMapperView {
        PathMapperView {
            aliases: pair_views(self.aliases@),
            base_dirs: self.base_dirs@.map_values(|s: String| s@),
        }
    }
}

/// Replace the backslashes of `s` with forward slashes.
pub fn normalize_path(s: &str) -> (r: String)
    ensures
        r@ == spec_normalize(s@),
{
    let cs = chars_of(s);
    let mut out: Vec<char> = Vec::new();
    let mut i: usize = 0;
    while i < cs.len()
        invariant
            i <= cs.len(),
            cs@ == s@,
            out@ == spec_normalize(cs@.subrange(0, i as int)),
        decreases cs.len() - i,
    {
        let c = cs[i];
        if c == '\\' {
            out.push('/');
        } else {
            out.push(c);
        }
        assert(spec_normalize(cs@.subrange(0, i + 1)) =~= spec_normalize(
            cs@.subrange(0, i as int),
        ).push(if c == '\\' { '/' } else { c }));
        i = i + 1;
    }
    assert(cs@.subrange(0, cs.len() as int) =~= cs@);
    string_of(&out)
}

/// Whether alias `alias` matches the normalized path `np`; returns the
/// length of the prefix to strip on a prefix match.
fn alias_match(alias: &str, np: &Vec<char>) -> (r: Option<usize>)
    ensures
        r is Some <==> spec_alias_matches(alias@, np@),
        r matches Some(k) ==> k <= np@.len(),
        r matches Some(k) ==> (np@ == spec_normalize(alias@) && k == np@.len()) || (np@
            != spec_normalize(alias@) && k == spec_alias_prefix(spec_normalize(alias@)).len()),
{
    let na = chars_of(normalize_path(alias).as_str());
    let mut eq = na.len() == np.len();
    if eq {
        eq = vec_starts_with(np, &na);
        if eq {
            assert(np@.subrange(0, na@.len() as int) =~= np@);
        } else {
            assert(np@ != na@) by {
                if np@ == na@ {
                    assert(np@.subrange(0, na@.len() as int) =~= na@);
                }
            }
        }
    }
    if eq {
        return Some(np.len());
    }
    let mut prefix = na;
    let slash_end = prefix.len() > 0 && prefix[prefix.len() - 1] == '/';
    if !slash_end {
        prefix.push('/');
    }
    if vec_starts_with(np, &prefix) {
        Some(prefix.len())
    } else {
        None
    }
}

impl PathMapper {
    /// The mapper's internal consistency: alias names are unique.
    pub closed spec fn wf(&self) -> bool {
        spec_distinct_keys(self@.aliases) && spec_distinct_keys(
            pair_views(self.reverse_cache@),
        )
    }

    /// Create an empty path mapper.
    pub fn new() -> (r: Self)
        ensures
            r.wf(),
            r@.aliases == Seq::<(Seq<char>, Seq<char>)>::empty(),
            r@.base_dirs == Seq::<Seq<char>>::empty(),
    {
        let r = PathMapper { aliases: Vec::new(), reverse_cache: Vec::new(), base_dirs: Vec::new() };
        assert(r@.aliases =~= Seq::<(Seq<char>, Seq<char>)>::empty());
        assert(r@.base_dirs =~= Seq::<Seq<char>>::empty());
        r
    }

    /// Register a base directory. When resolving a relative path that doesn't
    /// match any alias prefix, the mapper will try joining with each base dir.
    pub fn register_base_dir(&mut self, dir: &str)
        requires
            old(self).wf(),
        ensures
            final(self).wf(),
            final(self)@.aliases == old(self)@.aliases,
            final(self)@.base_dirs == old(self)@.base_dirs.push(dir@),
    {
        let ghost before = self@;
        self.base_dirs.push(String::from_str(dir));
        assert(self@.base_dirs =~= before.base_dirs.push(dir@));
    }

    /// Insert or replace the entry for `key` in a key-unique table.
    fn upsert(table: &mut Vec<(String, String)>, key: &str, value: &str)
        requires
            spec_distinct_keys(pair_views(old(table)@)),
        ensures
            ({
                let before = pair_views(old(table)@);
                let after = pair_views(final(table)@);
                &&& spec_distinct_keys(after)
                &&& (exists|i: int|
                    0 <= i < before.len() && before[i].0 == key@ && after == before.update(
                        i,
                        (key@, value@),
                    )) || ((forall|i: int| 0 <= i < before.len() ==> before[i].0 != key@)
                    && after == before.push((key@, value@)))
            }),
    {
        let ghost before = pair_views(table@);
        let mut i: usize = 0;
        while i < table.len()
            invariant
                i <= table.len(),
                pair_views(table@) == before,
                before == pair_views(old(table)@),
                spec_distinct_keys(before),
                forall|j: int| 0 <= j < i ==> before[j].0 != key@,
            decreases table.len() - i,
        {
            if crate::text::str_eq(table[i].0.as_str(), key) {
                table.set(i, (String::from_str(key), String::from_str(value)));
                let ghost after = pair_views(table@);
                assert(after =~= before.update(i as int, (key@, value@)));
                assert(before[i as int].0 == key@);
                assert forall|a: int, b: int|
                    0 <= a < after.len() && 0 <= b < after.len() && a != b implies after[a].0
                    != after[b].0 by {
                    assert(after[a].0 == before[a].0);
                    assert(after[b].0 == before[b].0);
                }
                return;
            }
            i = i + 1;
        }
        table.push((String::from_str(key), String::from_str(value)));
        let ghost after = pair_views(table@);
        assert(after =~= before.push((key@, value@)));
        assert forall|a: int, b: int|
            0 <= a < after.len() && 0 <= b < after.len() && a != b implies after[a].0
            != after[b].0 by {
            if a < before.len() && b < before.len() {
                assert(after[a].0 == before[a].0);
                assert(after[b].0 == before[b].0);
            }
        }
    }

    /// Register an alias → absolute path mapping.
    ///
    /// After registration, any path starting with `alias` will resolve to
    /// `absolute_path` (with the alias prefix replaced).
    pub fn register_alias(&mut self, alias: &str, absolute_path: &str)
        requires
            old(self).wf(),
        ensures
            final(self).wf(),
            spec_alias_map(final(self)@.aliases) == spec_alias_map(old(self)@.aliases).insert(
                alias@,
                absolute_path@,
            ),
            final(self)@.base_dirs == old(self)@.base_dirs,
            (exists|i: int|
                0 <= i < old(self)@.aliases.len() && old(self)@.aliases[i].0 == alias@
                    && final(self)@.aliases == old(self)@.aliases.update(i, (alias@, absolute_path@)))
                || ((forall|i: int|
                0 <= i < old(self)@.aliases.len() ==> old(self)@.aliases[i].0 != alias@)
                && final(self)@.aliases == old(self)@.aliases.push((alias@, absolute_path@))),
    {
        let ghost before = self@;
        Self::upsert(&mut self.reverse_cache, absolute_path, alias);
        Self::upsert(&mut self.aliases, alias, absolute_path);
        proof {
            let after = self@.aliases;
            if after == before.aliases.push((alias@, absolute_path@)) {
                assert(after.drop_last() =~= before.aliases);
            } else {
                let i = choose|i: int|
                    0 <= i < before.aliases.len() && before.aliases[i].0 == alias@ && after
                        == before.aliases.update(i, (alias@, absolute_path@));
                lemma_alias_map_update(before.aliases, i, alias@, absolute_path@);
            }
        }
    }

    /// Register multiple alias mappings at once.
    pub fn register_aliases(&mut self, mappings: &Vec<(String, String)>)
        requires
            old(self).wf(),
        ensures
            final(self).wf(),
            final(self)@.base_dirs == old(self)@.base_dirs,
            spec_alias_map(final(self)@.aliases) == spec_alias_map_after(
                spec_alias_map(old(self)@.aliases),
                pair_views(mappings@),
            ),
    {
        let ghost m0 = spec_alias_map(self@.aliases);
        let ghost ms = pair_views(mappings@);
        let ghost bases = self@.base_dirs;
        let mut i: usize = 0;
        while i < mappings.len()
            invariant
                i <= mappings.len(),
                self.wf(),
                self@.base_dirs == bases,
                ms == pair_views(mappings@),
                spec_alias_map(self@.aliases) == spec_alias_map_after(m0, ms.take(i as int)),
            decreases mappings.len() - i,
        {
            self.register_alias(mappings[i].0.as_str(), mappings[i].1.as_str());
            assert(ms.take(i + 1).drop_last() =~= ms.take(i as int));
            i = i + 1;
        }
        assert(ms.take(mappings.len() as int) =~= ms);
    }

    /// The index of the first longest alias matching `np`, with the prefix
    /// length to strip.
    fn best_alias(&self, np: &Vec<char>) -> (r: Option<(usize, usize)>)
        ensures
            spec_best_alias(self@.aliases, np@, self@.aliases.len() as int) == (match r {
                Some(p) => Some(p.0 as int),
                None => None::<int>,
            }),
            r matches Some(p) ==> p.1 <= np@.len(),
            r matches Some(p) ==> p.0 < self@.aliases.len() && ((np@ == spec_normalize(
                self@.aliases[p.0 as int].0,
            ) && p.1 == np@.len()) || (np@ != spec_normalize(self@.aliases[p.0 as int].0)
                && p.1 == spec_alias_prefix(spec_normalize(self@.aliases[p.0 as int].0)).len())),
    {
        let mut best: Option<(usize, usize)> = None;
        let mut best_len: usize = 0;
        let mut i: usize = 0;
        while i < self.aliases.len()
            invariant
                i <= self.aliases.len(),
                spec_best_alias(self@.aliases, np@, i as int) == (match best {
                    Some(p) => Some(p.0 as int),
                    None => None::<int>,
                }),
                best matches Some(p) ==> p.1 <= np@.len(),
                best matches Some(p) ==> p.0 < i && best_len == spec_byte_len(
                    self@.aliases[p.0 as int].0,
                ) && ((np@ == spec_normalize(self@.aliases[p.0 as int].0) && p.1 == np@.len())
                    || (np@ != spec_normalize(self@.aliases[p.0 as int].0) && p.1
                    == spec_alias_prefix(spec_normalize(self@.aliases[p.0 as int].0)).len())),
            decreases self.aliases.len() - i,
        {
            let alias = self.aliases[i].0.as_str();
            let blen = alias.len();
            assert(self@.aliases[i as int].0 == alias@);
            match alias_match(alias, np) {
                Some(k) => {
                    if best.is_none() || blen > best_len {
                        best = Some((i, k));
                        best_len = blen;
                    }
                },
                None => {},
            }
            i = i + 1;
        }
        best
    }

    /// Resolve `path`, given the index of the first base-directory candidate
    /// known to exist on disk (`None` when none does).
    pub fn resolve_given(&self, path: &str, found: Option<usize>) -> (r: Option<String>)
        requires
            found matches Some(k) ==> k < self@.base_dirs.len(),
        ensures
            r matches Some(s) ==> spec_resolve_given(
                self@,
                path@,
                spec_opt_index(found),
            ) == Some(s@),
            r is None ==> spec_resolve_given(self@, path@, spec_opt_index(found)) is None,
    {
        if path_is_absolute(path) {
            return Some(normalize_path(path));
        }
        let np_s = normalize_path(path);
        let np = chars_of(np_s.as_str());
        match self.best_alias(&np) {
            Some((i, k)) => {
                let a = &self.aliases[i];
                assert(self@.aliases[i as int] == (a.0@, a.1@));
                let exact = k == np.len() && self.exact_alias(i, &np);
                if exact {
                    Some(a.1.clone())
                } else {
                    let rest = string_of(&slice_from(&np, k));
                    let joined = path_join(a.1.as_str(), rest.as_str());
                    Some(normalize_path(joined.as_str()))
                }
            },
            None => {
                match found {
                    Some(k) => {
                        let joined = path_join(self.base_dirs[k].as_str(), path);
                        assert(self@.base_dirs[k as int] == self.base_dirs[k as int]@);
                        Some(normalize_path(joined.as_str()))
                    },
                    None => {
                        if self.base_dirs.len() > 0 {
                            let joined = path_join(self.base_dirs[0].as_str(), path);
                            assert(self@.base_dirs[0] == self.base_dirs[0]@);
                            Some(normalize_path(joined.as_str()))
                        } else {
                            None
                        }
                    },
                }
            },
        }
    }

    /// Whether alias `i` normalizes to exactly `np`.
    fn exact_alias(&self, i: usize, np: &Vec<char>) -> (r: bool)
        requires
            i < self@.aliases.len(),
        ensures
            r == (np@ == spec_normalize(self@.aliases[i as int].0)),
    {
        let na = chars_of(normalize_path(self.aliases[i].0.as_str()).as_str());
        assert(self@.aliases[i as int].0 == self.aliases[i as int].0@);
        if na.len() != np.len() {
            return false;
        }
        let r = vec_starts_with(np, &na);
        assert(r ==> np@.subrange(0, na@.len() as int) =~= np@);
        assert(np@ == na@ ==> np@.subrange(0, na@.len() as int) =~= na@);
        r
    }

    /// The path that `path` names under each base directory, in
    /// registration order: the candidates whose existence `resolve` checks.
    pub fn base_candidates(&self, path: &str) -> (r: Vec<String>)
        ensures
            r@.len() == self@.base_dirs.len(),
            forall|i: int|
                0 <= i < r@.len() ==> (#[trigger] r@[i])@ == spec_path_join(
                    self@.base_dirs[i],
                    path@,
                ),
    {
        let mut r: Vec<String> = Vec::new();
        let mut i: usize = 0;
        while i < self.base_dirs.len()
            invariant
                i <= self.base_dirs.len(),
                r@.len() == i,
                forall|j: int|
                    0 <= j < i ==> (#[trigger] r@[j])@ == spec_path_join(
                        self@.base_dirs[j],
                        path@,
                    ),
            decreases self.base_dirs.len() - i,
        {
            assert(self@.base_dirs[i as int] == self.base_dirs[i as int]@);
            r.push(path_join(self.base_dirs[i].as_str(), path));
            i = i + 1;
        }
        r
    }

    /// Resolve a potentially relative or aliased path to an absolute system path.
    ///
    /// Resolution order:
    /// 1. If the path is already absolute, return it as-is.
    /// 2. If the path starts with a registered alias, replace the prefix.
    /// 3. If base directories are registered, the first whose candidate
    ///    (`base_candidates`) exists on disk, else the first one.
    /// 4. Otherwise, return `None`.
    ///
    /// Whether a candidate exists is the disk's answer; the result is the
    /// resolution given the first candidate reported to exist.
    pub fn resolve(&self, path: &str) -> (r: Option<String>)
        ensures
            exists|found: Option<int>|
                (found matches Some(k) ==> 0 <= k < self@.base_dirs.len()) && match r {
                    Some(s) => spec_resolve_given(self@, path@, found) == Some(s@),
                    None => spec_resolve_given(self@, path@, found) is None,
                },
    {
        let candidates = self.base_candidates(path);
        let mut found: Option<usize> = None;
        let mut i: usize = 0;
        while i < candidates.len()
            invariant
                i <= candidates.len(),
                candidates@.len() == self@.base_dirs.len(),
                found matches Some(k) ==> k < self@.base_dirs.len(),
            decreases candidates.len() - i,
        {
            if path_exists(candidates[i].as_str()) {
                found = Some(i);
                break;
            }
            i = i + 1;
        }
        let r = self.resolve_given(path, found);
        assert(spec_opt_index(found) matches Some(k) ==> 0 <= k < self@.base_dirs.len());
        r
    }

    /// The index of the first alias whose directory is the longest prefix of `abs`,
    /// with the stripped remainder.
    fn best_dir(&self, abs: &str) -> (r: Option<(usize, String)>)
        ensures
            spec_best_dir(self@.aliases, abs@, self@.aliases.len() as int) == (match r {
                Some(p) => Some(p.0 as int),
                None => None::<int>,
            }),
            r matches Some(p) ==> p.0 < self@.aliases.len() && spec_path_strip_prefix(
                abs@,
                self@.aliases[p.0 as int].1,
            ) == Some(p.1@),
    {
        let mut best: Option<(usize, String)> = None;
        let mut best_len: usize = 0;
        let mut i: usize = 0;
        while i < self.aliases.len()
            invariant
                i <= self.aliases.len(),
                spec_best_dir(self@.aliases, abs@, i as int) == (match best {
                    Some(p) => Some(p.0 as int),
                    None => None::<int>,
                }),
                best matches Some(p) ==> p.0 < i && best_len == spec_byte_len(
                    self@.aliases[p.0 as int].1,
                ) && spec_path_strip_prefix(abs@, self@.aliases[p.0 as int].1) == Some(p.1@),
            decreases self.aliases.len() - i,
        {
            let dir = self.aliases[i].1.as_str();
            assert(self@.aliases[i as int].1 == dir@);
            let dlen = dir.len();
            match path_strip_prefix(abs, dir) {
                Some(rem) => {
                    if best.is_none() || dlen > best_len {
                        best = Some((i, rem));
                        best_len = dlen;
                    }
                },
                None => {},
            }
            i = i + 1;
        }
        best
    }

    /// Reverse-resolve an absolute system path to the most specific registered alias.
    ///
    /// Returns the aliased path, or `None` if no alias matches.
    pub fn reverse(&self, absolute_path: &str) -> (r: Option<String>)
        ensures
            r matches Some(s) ==> spec_reverse(self@, absolute_path@) == Some(s@),
            r is None ==> spec_reverse(self@, absolute_path@) is None,
    {
        match self.best_dir(absolute_path) {
            Some((i, rem)) => {
                let alias = self.aliases[i].0.as_str();
                assert(self@.aliases[i as int].0 == alias@);
                if rem.unicode_len() == 0 {
                    return Some(String::from_str(alias));
                }
                let na = normalize_path(alias);
                let nr = normalize_path(rem.as_str());
                let nrc = chars_of(nr.as_str());
                let mut out = na;
                if nrc.len() > 0 && nrc[0] == '/' {
                    out.append(nr.as_str());
                } else {
                    out.append("/");
                    proof {
                        reveal_strlit("/");
                    }
                    out.append(nr.as_str());
                    assert(out@ =~= spec_normalize(alias@) + seq!['/'] + nr@);
                }
                Some(out)
            },
            None => {
                let mut j: usize = 0;
                while j < self.base_dirs.len()
                    invariant
                        j <= self.base_dirs.len(),
                        spec_best_dir(self@.aliases, absolute_path@, self@.aliases.len() as int)
                            is None,
                        spec_first_base_strip(self@.base_dirs, absolute_path@, 0)
                            == spec_first_base_strip(self@.base_dirs, absolute_path@, j as int),
                    decreases self.base_dirs.len() - j,
                {
                    assert(self@.base_dirs[j as int] == self.base_dirs[j as int]@);
                    match path_strip_prefix(absolute_path, self.base_dirs[j].as_str()) {
                        Some(rem) => {
                            return Some(rem);
                        },
                        None => {},
                    }
                    j = j + 1;
                }
                None
            },
        }
    }

    /// Returns the number of registered aliases.
    pub fn alias_count(&self) -> (r: usize)
        ensures
            r == self@.aliases.len(),
    {
        self.aliases.len()
    }

    /// Returns the number of registered base directories.
    pub fn base_dir_count(&self) -> (r: usize)
        ensures
            r == self@.base_dirs.len(),
    {
        self.base_dirs.len()
    }

    /// Returns true if no aliases or base directories are registered.
    pub fn is_empty(&self) -> (r: bool)
        ensures
            r == (self@.aliases.len() == 0 && self@.base_dirs.len() == 0),
    {
        self.aliases.len() == 0 && self.base_dirs.len() == 0
    }

    /// Remove all registered aliases and base directories.
    pub fn clear(&mut self)
        ensures
            final(self).wf(),
            final(self)@.aliases == Seq::<(Seq<char>, Seq<char>)>::empty(),
            final(self)@.base_dirs == Seq::<Seq<char>>::empty(),
    {
        self.aliases.clear();
        self.reverse_cache.clear();
        self.base_dirs.clear();
        assert(self@.aliases =~= Seq::<(Seq<char>, Seq<char>)>::empty());
        assert(self@.base_dirs =~= Seq::<Seq<char>>::empty());
    }
}

impl Default for PathMapper {
    fn default() -> (r: Self)
        ensures
            r.wf(),
            r@.aliases == Seq::<(Seq<char>, Seq<char>)>::empty(),
            r@.base_dirs == Seq::<Seq<char>>::empty(),
    {
        PathMapper::new()
    }
}

/// An optional exec index as a spec integer.
pub open spec fn spec_opt_index(o: Option<usize>) -> Option<int> {
    match o {
        Some(k) => Some(k as int),
        None => None,
    }
}

/// The characters of `v` from index `k` on.
fn slice_from(v: &Vec<char>, k: usize) -> (r: Vec<char>)
    requires
        k <= v.len(),
    ensures
        r@ == v@.subrange(k as int, v.len() as int),
{
    let mut r: Vec<char> = Vec::new();
    let mut i = k;
    while i < v.len()
        invariant
            k <= i <= v.len(),
            r@ == v@.subrange(k as int, i as int),
        decreases v.len() - i,
    {
        r.push(v[i]);
        assert(r@ =~= v@.subrange(k as int, i + 1));
        i = i + 1;
    }
    r
}

/// The alias table after registering `ms` in order on top of `m`.
pub open spec fn spec_alias_map_after(m: Map<Seq<char>, Seq<char>>, ms: Seq<(Seq<char>, Seq<char>)>) -> Map<
    Seq<char>,
    Seq<char>,
>
    decreases ms.len(),
{
    if ms.len() == 0 {
        m
    } else {
        spec_alias_map_after(m, ms.drop_last()).insert(ms.last().0, ms.last().1)
    }
}

/// Replacing the value of an existing alias in a key-unique table replaces
/// it in the map view.
pub proof fn lemma_alias_map_update(
    aliases: Seq<(Seq<char>, Seq<char>)>,
    i: int,
    a: Seq<char>,
    d: Seq<char>,
)
    requires
        spec_distinct_keys(aliases),
        0 <= i < aliases.len(),
        aliases[i].0 == a,
    ensures
        spec_alias_map(aliases.update(i, (a, d))) == spec_alias_map(aliases).insert(a, d),
    decreases aliases.len(),
{
    let u = aliases.update(i, (a, d));
    if i == aliases.len() - 1 {
        assert(u.drop_last() =~= aliases.drop_last());
        assert(spec_alias_map(u) =~= spec_alias_map(aliases).insert(a, d));
    } else {
        let init = aliases.drop_last();
        assert(u.drop_last() =~= init.update(i, (a, d)));
        lemma_alias_map_update(init, i, a, d);
        assert(aliases.last().0 != a);
        assert(spec_alias_map(u) =~= spec_alias_map(aliases).insert(a, d));
    }
}

/// In a key-unique table, the map view gives each alias its registered directory.
pub proof fn lemma_alias_map_lookup(aliases: Seq<(Seq<char>, Seq<char>)>, i: int)
    requires
        spec_distinct_keys(aliases),
        0 <= i < aliases.len(),
    ensures
        spec_alias_map(aliases).contains_key(aliases[i].0),
        spec_alias_map(aliases)[aliases[i].0] == aliases[i].1,
    decreases aliases.len(),
{
    if i < aliases.len() - 1 {
        lemma_alias_map_lookup(aliases.drop_last(), i);
    }
}

/// Every key of the alias table's map is a registered alias.
pub proof fn lemma_alias_map_key_index(aliases: Seq<(Seq<char>, Seq<char>)>, a: Seq<char>)
    requires
        spec_alias_map(aliases).contains_key(a),
    ensures
        exists|i: int| 0 <= i < aliases.len() && #[trigger] aliases[i].0 == a,
    decreases aliases.len(),
{
    if aliases.len() > 0 && aliases.last().0 != a {
        lemma_alias_map_key_index(aliases.drop_last(), a);
        let i = choose|i: int| 0 <= i < aliases.drop_last().len() && #[trigger] aliases.drop_last()[i].0 == a;
        assert(aliases[i].0 == a);
    } else if aliases.len() > 0 {
        assert(aliases[aliases.len() - 1].0 == a);
    }
}

/// Replacing backslashes keeps the UTF-8 length: both separators are one byte.
pub proof fn lemma_normalize_byte_len(s: Seq<char>)
    ensures
        vstd::utf8::encode_utf8(spec_normalize(s)).len() == vstd::utf8::encode_utf8(s).len(),
    decreases s.len(),
{
    if s.len() > 0 {
        assert(spec_normalize(s).drop_first() =~= spec_normalize(s.drop_first()));
        lemma_normalize_byte_len(s.drop_first());
    }
}

/// A proper prefix of a text has a shorter UTF-8 encoding.
pub proof fn lemma_proper_prefix_byte_len(p: Seq<char>, s: Seq<char>)
    requires
        p.len() < s.len(),
        s.subrange(0, p.len() as int) == p,
    ensures
        vstd::utf8::encode_utf8(p).len() < vstd::utf8::encode_utf8(s).len(),
    decreases p.len(),
{
    if p.len() > 0 {
        assert(p[0] == s[0]);
        assert(s.drop_first().subrange(0, p.drop_first().len() as int) =~= p.drop_first());
        lemma_proper_prefix_byte_len(p.drop_first(), s.drop_first());
    }
}

/// When alias `i` is, among the first `n`, the one matching alias with the
/// strictly greatest byte length, it is the one chosen.
pub proof fn lemma_best_alias_strict_max(
    aliases: Seq<(Seq<char>, Seq<char>)>,
    np: Seq<char>,
    n: int,
    i: int,
)
    requires
        0 <= i < n <= aliases.len(),
        spec_alias_matches(aliases[i].0, np),
        forall|j: int|
            0 <= j < n && j != i && spec_alias_matches(#[trigger] aliases[j].0, np) ==> spec_byte_len(
                aliases[j].0,
            ) < spec_byte_len(aliases[i].0),
    ensures
        spec_best_alias(aliases, np, n) == Some(i),
    decreases n,
{
    if n > i + 1 {
        lemma_best_alias_strict_max(aliases, np, n - 1, i);
    } else {
        lemma_best_alias_below(aliases, np, i, i);
    }
}

/// Below the strictly longest matching alias `i`, whatever is chosen is
/// shorter than it.
proof fn lemma_best_alias_below(aliases: Seq<(Seq<char>, Seq<char>)>, np: Seq<char>, n: int, i: int)
    requires
        0 <= n <= i < aliases.len(),
        forall|j: int|
            0 <= j < i && spec_alias_matches(#[trigger] aliases[j].0, np) ==> spec_byte_len(
                aliases[j].0,
            ) < spec_byte_len(aliases[i].0),
    ensures
        spec_best_alias(aliases, np, n) matches Some(k) ==> 0 <= k < n && spec_byte_len(aliases[k].0)
            < spec_byte_len(aliases[i].0),
    decreases n,
{
    if n > 0 {
        lemma_best_alias_below(aliases, np, n - 1, i);
    }
}

/// Resolution uses the longest matching alias: when alias `i` matches the
/// (relative) path and every other matching alias is shorter, the path is
/// its directory when it names the alias itself, and the rest of the path
/// joined onto that directory otherwise.
pub proof fn lemma_longest_alias_wins(m: PathMapper, path: Seq<char>, i: int, found: Option<int>)
    requires
        !spec_path_is_absolute(path),
        0 <= i < m@.aliases.len(),
        spec_alias_matches(m@.aliases[i].0, spec_normalize(path)),
        forall|j: int|
            0 <= j < m@.aliases.len() && j != i && spec_alias_matches(
                #[trigger] m@.aliases[j].0,
                spec_normalize(path),
            ) ==> spec_byte_len(m@.aliases[j].0) < spec_byte_len(m@.aliases[i].0),
    ensures
        ({
            let a = spec_normalize(m@.aliases[i].0);
            let d = m@.aliases[i].1;
            let np = spec_normalize(path);
            spec_resolve_given(m@, path, found) == if np == a {
                Some(d)
            } else {
                Some(
                    spec_normalize(
                        spec_path_join(
                            d,
                            np.subrange(spec_alias_prefix(a).len() as int, np.len() as int),
                        ),
                    ),
                )
            }
        }),
{
    lemma_best_alias_strict_max(
        m@.aliases,
        spec_normalize(path),
        m@.aliases.len() as int,
        i,
    );
}

/// What `register_alias` writes, `resolve` reads back: a relative alias
/// resolves to the directory registered for it, provided no other alias
/// reads the same once backslashes become slashes.
pub proof fn lemma_registered_alias_resolves(m: PathMapper, a: Seq<char>, found: Option<int>)
    requires
        m.wf(),
        spec_alias_map(m@.aliases).contains_key(a),
        !spec_path_is_absolute(a),
        forall|j: int|
            0 <= j < m@.aliases.len() && #[trigger] m@.aliases[j].0 != a ==> spec_normalize(
                m@.aliases[j].0,
            ) != spec_normalize(a),
        forall|j: int|
            0 <= j < m@.aliases.len() ==> vstd::utf8::encode_utf8(#[trigger] m@.aliases[j].0).len()
                <= usize::MAX,
    ensures
        spec_resolve_given(m@, a, found) == Some(spec_alias_map(m@.aliases)[a]),
{
    let al = m@.aliases;
    let np = spec_normalize(a);
    lemma_alias_map_key_index(al, a);
    let i = choose|i: int| 0 <= i < al.len() && #[trigger] al[i].0 == a;
    lemma_alias_map_lookup(al, i);
    assert(spec_alias_matches(al[i].0, np));
    assert forall|j: int|
        0 <= j < al.len() && j != i && spec_alias_matches(#[trigger] al[j].0, np) implies spec_byte_len(
        al[j].0,
    ) < spec_byte_len(al[i].0) by {
        let b = al[j].0;
        let nb = spec_normalize(b);
        assert(b != a);
        assert(nb != np);
        let pre = spec_alias_prefix(nb);
        assert(spec_starts_with(np, pre));
        assert(np.subrange(0, nb.len() as int) =~= nb) by {
            assert(pre.subrange(0, nb.len() as int) =~= nb);
        }
        assert(nb.len() < np.len()) by {
            if nb.len() == np.len() {
                assert(np =~= np.subrange(0, nb.len() as int));
            }
        }
        lemma_proper_prefix_byte_len(nb, np);
        lemma_normalize_byte_len(b);
        lemma_normalize_byte_len(a);
    }
    lemma_longest_alias_wins(m, a, i, found);
}

/// Below the strictly longest containing directory `i`, whatever is chosen
/// is shorter than it.
proof fn lemma_best_dir_below(aliases: Seq<(Seq<char>, Seq<char>)>, abs: Seq<char>, n: int, i: int)
    requires
        0 <= n <= i < aliases.len(),
        forall|j: int|
            0 <= j < i && spec_path_strip_prefix(abs, #[trigger] aliases[j].1) is Some
                ==> spec_byte_len(aliases[j].1) < spec_byte_len(aliases[i].1),
    ensures
        spec_best_dir(aliases, abs, n) matches Some(k) ==> 0 <= k < n && spec_byte_len(aliases[k].1)
            < spec_byte_len(aliases[i].1),
    decreases n,
{
    if n > 0 {
        lemma_best_dir_below(aliases, abs, n - 1, i);
    }
}

/// When directory `i` is, among the first `n`, the one containing `abs`
/// with the strictly greatest byte length, it is the one chosen.
pub proof fn lemma_best_dir_strict_max(aliases: Seq<(Seq<char>, Seq<char>)>, abs: Seq<char>, n: int, i: int)
    requires
        0 <= i < n <= aliases.len(),
        spec_path_strip_prefix(abs, aliases[i].1) is Some,
        forall|j: int|
            0 <= j < n && j != i && spec_path_strip_prefix(abs, #[trigger] aliases[j].1) is Some
                ==> spec_byte_len(aliases[j].1) < spec_byte_len(aliases[i].1),
    ensures
        spec_best_dir(aliases, abs, n) == Some(i),
    decreases n,
{
    if n > i + 1 {
        lemma_best_dir_strict_max(aliases, abs, n - 1, i);
    } else {
        lemma_best_dir_below(aliases, abs, i, i);
    }
}

/// What `register_alias` writes, `reverse` reads back: an alias's own
/// directory reverse-resolves to the alias, provided every other alias
/// directory that contains it is shorter.
pub proof fn lemma_registered_dir_reverses(m: PathMapper, i: int)
    requires
        0 <= i < m@.aliases.len(),
        spec_path_strip_prefix(m@.aliases[i].1, m@.aliases[i].1) matches Some(rem) && rem.len() == 0,
        forall|j: int|
            0 <= j < m@.aliases.len() && j != i && spec_path_strip_prefix(
                m@.aliases[i].1,
                #[trigger] m@.aliases[j].1,
            ) is Some ==> spec_byte_len(m@.aliases[j].1) < spec_byte_len(m@.aliases[i].1),
    ensures
        spec_reverse(m@, m@.aliases[i].1) == Some(m@.aliases[i].0),
{
    lemma_best_dir_strict_max(m@.aliases, m@.aliases[i].1, m@.aliases.len() as int, i);
}

/// Reverse then resolve comes back to the path. With one alias `a` for
/// directory `d`, an absolute path `p` under `d` reverse-resolves to `a`, a
/// slash and the rest of `p`, and resolving that gives `p` again. This holds
/// when `a` is non-empty, has no backslash and no trailing slash, the alias
/// form is relative, `p` has no backslash, and `Path::join` puts back what
/// `Path::strip_prefix` took off: joining `d` with the rest gives `p`.
pub proof fn lemma_reverse_then_resolve(
    m: PathMapperView,
    a: Seq<char>,
    d: Seq<char>,
    p: Seq<char>,
    rest: Seq<char>,
    found: Option<int>,
)
    requires
        m.aliases == seq![(a, d)],
        a.len() > 0,
        a.last() != '/',
        !a.contains('\\'),
        spec_normalize(p) == p,
        spec_path_strip_prefix(p, d) == Some(rest),
        rest.len() > 0,
        spec_normalize(rest)[0] != '/',
        !spec_path_is_absolute(a + seq!['/'] + spec_normalize(rest)),
        spec_path_join(d, spec_normalize(rest)) == p,
    ensures
        spec_reverse(m, p) == Some(a + seq!['/'] + spec_normalize(rest)),
        spec_resolve_given(m, a + seq!['/'] + spec_normalize(rest), found) == Some(p),
{
    reveal_with_fuel(spec_best_dir, 2);
    reveal_with_fuel(spec_best_alias, 2);
    let nr = spec_normalize(rest);
    let q = a + seq!['/'] + nr;
    assert(spec_normalize(a) =~= a) by {
        assert forall|k: int| 0 <= k < a.len() implies spec_normalize(a)[k] == a[k] by {
            if a[k] == '\\' {
                assert(a.contains('\\'));
            }
        }
    }
    assert(spec_normalize(q) =~= q) by {
        assert forall|k: int| 0 <= k < q.len() implies spec_normalize(q)[k] == q[k] by {
            if k < a.len() {
                assert(q[k] == a[k]);
                assert(spec_normalize(a)[k] == a[k]);
            } else if k > a.len() {
                assert(q[k] == nr[k - a.len() - 1]);
            }
        }
    }
    assert(spec_alias_prefix(a) =~= a.push('/'));
    assert(q.subrange(0, a.len() as int + 1) =~= a.push('/'));
    assert(spec_alias_matches(a, q));
    assert(q != a) by {
        assert(q.len() != a.len());
    }
    assert(q.subrange(a.len() as int + 1, q.len() as int) =~= nr);
}

/// Whether a path is absolute, on this platform's path syntax.
pub fn is_absolute_path(path: &str) -> (r: bool)
    ensures
        r == spec_path_is_absolute(path@),
{
    path_is_absolute(path)
}

} // verus!
