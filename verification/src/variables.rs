//! Variable expansion with depth limiting, paging and pointer recognition.

use crate::dap::types::Variable;
use crate::numtext::{spec_trim, trim_bounds};
use crate::text::{chars_of, spec_ends_with, spec_starts_with, vec_ends_with};
use vstd::prelude::*;
use vstd::string::*;

verus! {

/// Configuration for variable expansion behavior.
#[derive(Debug, Clone)]
pub struct ExpansionConfig {
    /// Maximum recursion depth (default: 3).
    pub max_depth: usize,
    /// Maximum total variables to fetch across the entire expansion (prevents explosion).
    pub max_total_variables: usize,
    /// Whether to automatically dereference pointers via `evaluate("*name")`.
    pub dereference_pointers: bool,
    /// Max array elements to expand (prevents huge array expansions).
    pub max_array_elements: usize,
    /// Whether to attempt STL container expansion (requires evaluate calls).
    pub expand_stl_containers: bool,
    /// Max string length to display inline.
    pub max_string_length: usize,
}

impl Default for ExpansionConfig {
    fn default() -> (r: Self)
        ensures
            r.max_depth == 3,
            r.max_total_variables == 500,
            r.dereference_pointers,
            r.max_array_elements == 50,
            !r.expand_stl_containers,
            r.max_string_length == 256,
    {
        ExpansionConfig {
            max_depth: 3,
            max_total_variables: 500,
            dereference_pointers: true,
            max_array_elements: 50,
            expand_stl_containers: false,
            max_string_length: 256,
        }
    }
}

/// A count that may be absent, read as zero when absent.
pub open spec fn spec_count(o: Option<u64>) -> nat {
    match o {
        Some(v) => v as nat,
        None => 0,
    }
}

/// A variable that may have children (expanded or not).
#[derive(Debug)]
pub struct ExpandedVariable {
    /// The variable data from the adapter.
    pub variable: Variable,
    /// Child variables, if expanded. None = not yet expanded.
    pub children: Option<Vec<ExpandedVariable>>,
    /// Depth from the root of this expansion tree.
    pub depth: usize,
}

impl ExpandedVariable {
    /// Create an unexpanded variable node.
    pub fn new(variable: Variable, depth: usize) -> (r: Self)
        ensures
            r.variable == variable,
            r.children is None,
            r.depth == depth,
    {
        ExpandedVariable { variable, children: None, depth }
    }

    /// Returns whether this variable has expandable children.
    pub fn is_expandable(&self) -> (r: bool)
        ensures
            r == (self.variable.variables_reference > 0),
    {
        self.variable.variables_reference > 0
    }

    /// Returns the number of child variables.
    pub fn child_count(&self) -> (r: usize)
        requires
            spec_count(self.variable.named_variables) + spec_count(
                self.variable.indexed_variables,
            ) <= usize::MAX,
        ensures
            r == spec_count(self.variable.named_variables) + spec_count(
                self.variable.indexed_variables,
            ),
    {
        let n: u64 = match self.variable.named_variables {
            Some(v) => v,
            None => 0,
        };
        let i: u64 = match self.variable.indexed_variables {
            Some(v) => v,
            None => 0,
        };
        n as usize + i as usize
    }
}

/// Whether a type name denotes a pointer: it ends with `*`, `*const` or `*mut`.
pub open spec fn spec_is_pointer_type_name(t: Seq<char>) -> bool {
    spec_ends_with(t, seq!['*']) || spec_ends_with(t, seq!['*', 'c', 'o', 'n', 's', 't'])
        || spec_ends_with(t, seq!['*', 'm', 'u', 't'])
}

/// Whether a character is an ASCII hexadecimal digit.
pub open spec fn spec_is_hex_digit(c: char) -> bool {
    ('0' <= c && c <= '9') || ('a' <= c && c <= 'f') || ('A' <= c && c <= 'F')
}

/// Whether a value reads as a memory address: after trimming it starts with
/// `0x`, or it is at least four hexadecimal digits, not all zero.
pub open spec fn spec_looks_like_pointer_value(value: Seq<char>) -> bool {
    let t = spec_trim(value);
    spec_starts_with(t, seq!['0', 'x']) || (t.len() >= 4 && (forall|i: int|
        0 <= i < t.len() ==> spec_is_hex_digit(#[trigger] t[i])) && !(forall|i: int|
        0 <= i < t.len() ==> #[trigger] t[i] == '0'))
}

/// Tracks expansion state to enforce depth and total-variable limits.
pub struct VariableExpander {
    /// The expansion limits.
    pub config: ExpansionConfig,
    /// The number of variables fetched so far.
    pub total_fetched: usize,
}

impl VariableExpander {
    /// Create a new expander with the given config.
    pub fn new(config: ExpansionConfig) -> (r: Self)
        ensures
            r.config == config,
            r.total_fetched == 0,
    {
        VariableExpander { config, total_fetched: 0 }
    }

    /// Returns the total number of variables fetched so far.
    pub fn total_fetched(&self) -> (r: usize)
        ensures
            r == self.total_fetched,
    {
        self.total_fetched
    }

    /// Returns true if the total variable cap has been reached.
    pub fn is_capped(&self) -> (r: bool)
        ensures
            r == (self.total_fetched >= self.config.max_total_variables),
    {
        self.total_fetched >= self.config.max_total_variables
    }

    /// Reset the fetched counter (useful for repeated expansions).
    pub fn reset(&mut self)
        ensures
            final(self).total_fetched == 0,
            final(self).config == old(self).config,
    {
        self.total_fetched = 0;
    }

    /// Returns true if the given variable looks like a pointer type.
    pub fn is_pointer_type(var: &Variable) -> (r: bool)
        ensures
            r == (match var.var_type {
                Some(t) => spec_is_pointer_type_name(t@),
                None => false,
            }),
    {
        match &var.var_type {
            Some(t) => {
                let cs = chars_of(t.as_str());
                let star: Vec<char> = vec!['*'];
                let star_const: Vec<char> = vec!['*', 'c', 'o', 'n', 's', 't'];
                let star_mut: Vec<char> = vec!['*', 'm', 'u', 't'];
                assert(star@ =~= seq!['*']);
                assert(star_const@ =~= seq!['*', 'c', 'o', 'n', 's', 't']);
                assert(star_mut@ =~= seq!['*', 'm', 'u', 't']);
                vec_ends_with(&cs, &star) || vec_ends_with(&cs, &star_const) || vec_ends_with(
                    &cs,
                    &star_mut,
                )
            },
            None => false,
        }
    }

    /// Returns true if the value looks like a memory address (hex pointer).
    pub fn looks_like_pointer_value(value: &str) -> (r: bool)
        ensures
            r == spec_looks_like_pointer_value(value@),
    {
        let cs = chars_of(value);
        let (a, b) = trim_bounds(&cs, 0, cs.len());
        assert(cs@.subrange(0, cs@.len() as int) =~= cs@);
        let ghost t = cs@.subrange(a as int, b as int);
        if b - a >= 2 && cs[a] == '0' && cs[a + 1] == 'x' {
            assert(t.subrange(0, 2) =~= seq!['0', 'x']);
            return true;
        }
        assert(!spec_starts_with(t, seq!['0', 'x'])) by {
            if spec_starts_with(t, seq!['0', 'x']) {
                assert(t.subrange(0, 2)[0] == t[0]);
                assert(t.subrange(0, 2)[1] == t[1]);
            }
        }
        if b - a < 4 {
            return false;
        }
        let mut all_hex = true;
        let mut all_zero = true;
        let mut i = a;
        while i < b
            invariant
                a <= i <= b <= cs@.len(),
                t == cs@.subrange(a as int, b as int),
                all_hex == (forall|j: int| 0 <= j < i - a ==> spec_is_hex_digit(#[trigger] t[j])),
                all_zero == (forall|j: int| 0 <= j < i - a ==> #[trigger] t[j] == '0'),
            decreases b - i,
        {
            let c = cs[i];
            assert(t[i - a] == c);
            if !(('0' <= c && c <= '9') || ('a' <= c && c <= 'f') || ('A' <= c && c <= 'F')) {
                all_hex = false;
            }
            if c != '0' {
                all_zero = false;
            }
            i = i + 1;
        }
        all_hex && !all_zero
    }
}

} // verus!
