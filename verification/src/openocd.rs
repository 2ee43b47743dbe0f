//! The decisions of the OpenOCD client: the command line, the collection of
//! a Tcl response up to its terminator, the bounded stdout line buffer and
//! the tail of a log file.
//!
//! Spawning OpenOCD, writing its stdin and reading its pipes and log files is
//! I/O and lives with the caller.

use crate::error::OpenOcdClientError;
use crate::mapping::{path_join, spec_path_join};
use crate::text::{chars_of, join_strs, spec_join, string_of};
use std::collections::VecDeque;
use vstd::prelude::*;
use vstd::string::*;

verus! {

/// Default timeout for Tcl command responses (5 seconds).
pub const DEFAULT_COMMAND_TIMEOUT_MS: u64 = 5000;

/// Maximum lines retained in the stdout line buffer.
pub const MAX_STDOUT_BUFFER_LINES: usize = 1000;

/// The texts of a list of strings.
pub open spec fn spec_texts(v: Seq<String>) -> Seq<Seq<char>> {
    v.map_values(|s: String| s@)
}

// ── Command line ─────────────────────────────────────────────────────────

/// `-f <config>` for each config file, in order.
pub open spec fn spec_config_args(configs: Seq<Seq<char>>) -> Seq<Seq<char>>
    decreases configs.len(),
{
    if configs.len() == 0 {
        Seq::empty()
    } else {
        spec_config_args(configs.drop_last()) + seq![seq!['-', 'f'], configs.last()]
    }
}

/// The arguments OpenOCD is started with: `-f <config>` for each config file
/// in order, then the extra arguments.
pub fn openocd_args(config_files: &[String], extra_args: &[String]) -> (r: Vec<String>)
    ensures
        spec_texts(r@) == spec_config_args(spec_texts(config_files@)) + spec_texts(extra_args@),
{
    let ghost cfgs = spec_texts(config_files@);
    let mut r: Vec<String> = Vec::new();
    let mut i: usize = 0;
    while i < config_files.len()
        invariant
            i <= config_files@.len(),
            cfgs == spec_texts(config_files@),
            spec_texts(r@) == spec_config_args(cfgs.take(i as int)),
        decreases config_files@.len() - i,
    {
        let ghost before = spec_texts(r@);
        let flag = String::from_str("-f");
        proof {
            reveal_strlit("-f");
        }
        assert(flag@ =~= seq!['-', 'f']);
        r.push(flag);
        assert(spec_texts(r@) =~= before.push(seq!['-', 'f']));
        let c = config_files[i].clone();
        let ghost mid = spec_texts(r@);
        r.push(c);
        assert(spec_texts(r@) =~= mid.push(config_files@[i as int]@));
        assert(cfgs.take(i + 1).drop_last() =~= cfgs.take(i as int));
        assert(cfgs.take(i + 1).last() == config_files@[i as int]@);
        assert(spec_texts(r@) =~= before + seq![seq!['-', 'f'], config_files@[i as int]@]);
        i = i + 1;
    }
    assert(cfgs.take(config_files@.len() as int) =~= cfgs);
    let ghost mid = spec_texts(r@);
    let mut j: usize = 0;
    while j < extra_args.len()
        invariant
            j <= extra_args@.len(),
            spec_texts(r@) == mid + spec_texts(extra_args@).take(j as int),
        decreases extra_args@.len() - j,
    {
        let ghost before = spec_texts(r@);
        r.push(extra_args[j].clone());
        assert(spec_texts(r@) =~= before.push(extra_args@[j as int]@));
        assert(spec_texts(extra_args@).take(j + 1) =~= spec_texts(extra_args@).take(j as int).push(
            extra_args@[j as int]@,
        ));
        j = j + 1;
    }
    assert(spec_texts(extra_args@).take(extra_args@.len() as int) =~= spec_texts(extra_args@));
    r
}

// ── Tcl responses ────────────────────────────────────────────────────────

/// Whether a line holds the response terminator `\x1a`.
pub open spec fn spec_has_terminator(line: Seq<char>) -> bool {
    line.contains('\u{1a}')
}

/// The characters that are not the terminator.
pub open spec fn spec_not_terminator() -> spec_fn(char) -> bool {
    |c: char| c != '\u{1a}'
}

/// A line with every `\x1a` removed.
pub open spec fn spec_without_terminator(line: Seq<char>) -> Seq<char> {
    line.filter(spec_not_terminator())
}

/// The lines collected for a response from the stdout lines read so far:
/// every line up to the first one holding the terminator, that one with its
/// terminators removed and kept only when something remains.
pub open spec fn spec_collect(lines: Seq<Seq<char>>) -> Seq<Seq<char>>
    decreases lines.len(),
{
    if lines.len() == 0 {
        Seq::empty()
    } else if spec_has_terminator(lines[0]) {
        let clean = spec_without_terminator(lines[0]);
        if clean.len() == 0 {
            Seq::empty()
        } else {
            seq![clean]
        }
    } else {
        seq![lines[0]] + spec_collect(lines.drop_first())
    }
}

/// Whether a terminator occurs among the lines.
pub open spec fn spec_any_terminator(lines: Seq<Seq<char>>) -> bool {
    exists|i: int| 0 <= i < lines.len() && spec_has_terminator(#[trigger] lines[i])
}

/// Collects the stdout lines of one Tcl response.
pub struct ResponseCollector {
    /// The lines collected so far.
    lines: Vec<String>,
    /// Whether the terminator has been seen.
    done: bool,
    /// The lines fed so far.
    fed: Ghost<Seq<Seq<char>>>,
}

impl ResponseCollector {
    /// The lines fed so far.
    pub closed spec fn fed(&self) -> Seq<Seq<char>> {
        self.fed@
    }

    /// Whether the terminator has been seen.
    pub closed spec fn is_done(&self) -> bool {
        self.done
    }

    /// The lines collected so far.
    pub closed spec fn collected(&self) -> Seq<Seq<char>> {
        spec_texts(self.lines@)
    }

    /// The collector's internal consistency.
    pub closed spec fn wf(&self) -> bool {
        &&& spec_texts(self.lines@) == spec_collect(self.fed@)
        &&& self.done == spec_any_terminator(self.fed@)
    }

    /// A collector that has seen nothing.
    pub fn new() -> (r: Self)
        ensures
            r.wf(),
            r.fed() == Seq::<Seq<char>>::empty(),
            !r.is_done(),
            r.collected() == Seq::<Seq<char>>::empty(),
    {
        let r = ResponseCollector { lines: Vec::new(), done: false, fed: Ghost(Seq::empty()) };
        assert(spec_texts(r.lines@) =~= Seq::<Seq<char>>::empty());
        r
    }

    /// Whether the terminator has been seen.
    pub fn done(&self) -> (r: bool)
        ensures
            r == self.is_done(),
    {
        self.done
    }

    /// Feed the next stdout line; returns whether the response is complete.
    pub fn feed(&mut self, line: String) -> (r: bool)
        requires
            old(self).wf(),
            !old(self).is_done(),
        ensures
            final(self).wf(),
            final(self).fed() == old(self).fed().push(line@),
            r == final(self).is_done(),
            r == spec_has_terminator(line@),
    {
        let ghost before = self.fed@;
        proof {
            lemma_collect_push(before, line@);
        }
        let cs = chars_of(line.as_str());
        let mut clean: Vec<char> = Vec::new();
        let mut found = false;
        let mut i: usize = 0;
        while i < cs.len()
            invariant
                i <= cs@.len(),
                cs@ == line@,
                clean@ == cs@.take(i as int).filter(spec_not_terminator()),
                found == cs@.take(i as int).contains('\u{1a}'),
            decreases cs@.len() - i,
        {
            let c = cs[i];
            assert(cs@.take(i + 1).drop_last() =~= cs@.take(i as int));
            assert(cs@.take(i + 1).last() == c);
            reveal(Seq::filter);
            if c == '\u{1a}' {
                assert(!spec_not_terminator()(c));
                found = true;
                assert(cs@.take(i + 1)[i as int] == c);
            } else {
                assert(spec_not_terminator()(c));
                clean.push(c);
                assert(cs@.take(i + 1).contains('\u{1a}') == cs@.take(i as int).contains('\u{1a}'))
                    by {
                    if cs@.take(i + 1).contains('\u{1a}') {
                        let k = choose|k: int| 0 <= k < i + 1 && #[trigger] cs@.take(i + 1)[k] == '\u{1a}';
                        assert(cs@.take(i as int)[k] == '\u{1a}');
                    }
                }
            }
            i = i + 1;
        }
        assert(cs@.take(cs@.len() as int) =~= cs@);
        self.fed = Ghost(before.push(line@));
        assert(found == spec_has_terminator(line@));
        assert(clean@ == spec_without_terminator(line@));
        let ghost lv = spec_texts(self.lines@);
        assert(lv == spec_collect(before));
        if found {
            if clean.len() > 0 {
                self.lines.push(string_of(&clean));
                assert(spec_texts(self.lines@) =~= lv + seq![clean@]);
            } else {
                assert(lv + Seq::<Seq<char>>::empty() =~= lv);
            }
            self.done = true;
            true
        } else {
            self.lines.push(line);
            assert(spec_texts(self.lines@) =~= lv + seq![cs@]);
            false
        }
    }

    /// The response: the collected lines joined with newlines. A command
    /// that timed out with nothing collected is an error; a partial response
    /// is returned as is.
    pub fn finish(self, command: &str, timeout_ms: u64) -> (r: Result<String, OpenOcdClientError>)
        requires
            self.wf(),
        ensures
            ({
                let text = spec_join(spec_collect(self.fed()), seq!['\n']);
                if !self.is_done() && text.len() == 0 {
                    r matches Err(OpenOcdClientError::Timeout { command: c, timeout_ms: t }) && c@
                        == command@ && t == timeout_ms
                } else {
                    r matches Ok(s) && s@ == text
                }
            }),
    {
        let mut parts: Vec<&str> = Vec::new();
        let mut i: usize = 0;
        while i < self.lines.len()
            invariant
                i <= self.lines@.len(),
                parts@.len() == i,
                forall|j: int| 0 <= j < i ==> #[trigger] parts@[j]@ == self.lines@[j]@,
            decreases self.lines@.len() - i,
        {
            parts.push(self.lines[i].as_str());
            i = i + 1;
        }
        assert(parts@.map_values(|p: &str| p@) =~= spec_texts(self.lines@));
        let response = join_strs(&parts, "\n");
        proof {
            reveal_strlit("\n");
            assert("\n"@ =~= seq!['\n']);
        }
        if !self.done && response.unicode_len() == 0 {
            Err(OpenOcdClientError::Timeout { command: String::from_str(command), timeout_ms })
        } else {
            Ok(response)
        }
    }
}

/// Feeding one more line extends the collection by what that line adds.
proof fn lemma_collect_push(lines: Seq<Seq<char>>, line: Seq<char>)
    requires
        !spec_any_terminator(lines),
    ensures
        spec_collect(lines.push(line)) == spec_collect(lines) + (if spec_has_terminator(line) {
            if spec_without_terminator(line).len() == 0 {
                Seq::<Seq<char>>::empty()
            } else {
                seq![spec_without_terminator(line)]
            }
        } else {
            seq![line]
        }),
        spec_any_terminator(lines.push(line)) == spec_has_terminator(line),
    decreases lines.len(),
{
    if lines.len() == 0 {
        assert(lines.push(line).drop_first() =~= Seq::<Seq<char>>::empty());
        assert(lines.push(line)[0] == line);
        assert(spec_collect(lines) =~= Seq::<Seq<char>>::empty());
        assert(spec_collect(lines.push(line).drop_first()) =~= Seq::<Seq<char>>::empty());
        if !spec_has_terminator(line) {
            assert(spec_collect(lines.push(line)) =~= seq![line]);
        }
        if spec_has_terminator(line) {
            assert(spec_any_terminator(lines.push(line))) by {
                assert(lines.push(line)[0] == line);
            }
        }
    } else {
        assert(!spec_has_terminator(lines[0]));
        assert(lines.push(line).drop_first() =~= lines.drop_first().push(line));
        assert(!spec_any_terminator(lines.drop_first())) by {
            if spec_any_terminator(lines.drop_first()) {
                let k = choose|k: int| 0 <= k < lines.drop_first().len() && spec_has_terminator(
                    #[trigger] lines.drop_first()[k],
                );
                assert(lines[k + 1] == lines.drop_first()[k]);
            }
        }
        lemma_collect_push(lines.drop_first(), line);
        assert(lines.push(line)[0] == lines[0]);
        assert(spec_collect(lines.push(line)) =~= seq![lines[0]] + spec_collect(
            lines.drop_first().push(line),
        ));
        assert(spec_collect(lines) =~= seq![lines[0]] + spec_collect(lines.drop_first()));
        let x = if spec_has_terminator(line) {
            if spec_without_terminator(line).len() == 0 {
                Seq::<Seq<char>>::empty()
            } else {
                seq![spec_without_terminator(line)]
            }
        } else {
            seq![line]
        };
        assert(seq![lines[0]] + (spec_collect(lines.drop_first()) + x) =~= (seq![lines[0]]
            + spec_collect(lines.drop_first())) + x);
        if spec_has_terminator(line) {
            assert(spec_has_terminator(lines.push(line)[lines.len() as int]));
        } else {
            assert(!spec_any_terminator(lines.push(line))) by {
                if spec_any_terminator(lines.push(line)) {
                    let k = choose|k: int| 0 <= k < lines.push(line).len() && spec_has_terminator(
                        #[trigger] lines.push(line)[k],
                    );
                    if k < lines.len() {
                        assert(lines.push(line)[k] == lines[k]);
                    }
                }
            }
        }
    }
}

// ── The stdout line buffer ───────────────────────────────────────────────

/// The buffer after a line arrives: the line is appended and the oldest lines
/// are dropped beyond `max` lines.
pub open spec fn spec_push_bounded(buf: Seq<Seq<char>>, line: Seq<char>, max: usize) -> Seq<Seq<char>> {
    let full = buf.push(line);
    if full.len() > max {
        full.subrange(full.len() - max, full.len() as int)
    } else {
        full
    }
}

/// Append a stdout line to the buffer, keeping at most `max` lines.
pub fn push_line_bounded(buf: &mut VecDeque<String>, line: String, max: usize)
    ensures
        spec_texts(final(buf)@) == spec_push_bounded(spec_texts(old(buf)@), line@, max),
{
    let ghost full = spec_texts(old(buf)@).push(line@);
    buf.push_back(line);
    assert(spec_texts(buf@) =~= full);
    while buf.len() > max
        invariant
            full.len() >= spec_texts(buf@).len(),
            spec_texts(buf@).len() >= (if full.len() > max {
                max as int
            } else {
                full.len() as int
            }),
            spec_texts(buf@) == full.subrange(full.len() - spec_texts(buf@).len(), full.len() as int),
        decreases buf@.len(),
    {
        let ghost before = spec_texts(buf@);
        let _ = buf.pop_front();
        assert(spec_texts(buf@) =~= before.drop_first());
        assert(before.drop_first() =~= full.subrange(
            full.len() - spec_texts(buf@).len(),
            full.len() as int,
        ));
    }
    proof {
        if full.len() <= max {
            assert(spec_texts(buf@).len() == full.len());
            assert(full.subrange(0, full.len() as int) =~= full);
        }
    }
}

// ── Log files ────────────────────────────────────────────────────────────

/// The message when output is asked for without a log directory.
pub open spec fn spec_no_log_dir_message() -> Seq<char> {
    "No log directory configured. Call openocd_start with log_dir to enable output capture."@
}

/// The path of the log file `name` in the configured log directory, or the
/// error that no log directory is configured.
pub fn log_file_path(log_dir: Option<&str>, name: &str) -> (r: Result<String, OpenOcdClientError>)
    ensures
        match log_dir {
            Some(dir) => r matches Ok(p) && p@ == spec_path_join(dir@, name@),
            None => r matches Err(OpenOcdClientError::NotConnected(m)) && m@
                == spec_no_log_dir_message(),
        },
{
    match log_dir {
        Some(dir) => Ok(path_join(dir, name)),
        None => Err(
            OpenOcdClientError::NotConnected(
                String::from_str(
                    "No log directory configured. Call openocd_start with log_dir to enable output capture.",
                ),
            ),
        ),
    }
}

/// The lines of a text as `str::lines` splits it: at each `\n`, dropping a
/// `\r` before it, with no line after a final `\n`.
pub open spec fn spec_lines(s: Seq<char>) -> Seq<Seq<char>>
    decreases s.len(),
{
    if s.len() == 0 {
        Seq::empty()
    } else {
        let k = spec_first_newline(s, 0);
        proof {
            lemma_first_newline_bounds(s, 0);
        }
        let raw = s.subrange(0, k);
        let line = if raw.len() > 0 && raw.last() == '\r' {
            raw.drop_last()
        } else {
            raw
        };
        if k < s.len() {
            seq![line] + spec_lines(s.subrange(k + 1, s.len() as int))
        } else {
            seq![line]
        }
    }
}

/// The index of the first `\n` at or after `i`, or the length of `s`.
pub open spec fn spec_first_newline(s: Seq<char>, i: int) -> int
    decreases s.len() - i,
{
    if i < 0 || i >= s.len() {
        s.len() as int
    } else if s[i] == '\n' {
        i
    } else {
        spec_first_newline(s, i + 1)
    }
}

/// The first newline lies within the text, at or after where the search starts.
pub proof fn lemma_first_newline_bounds(s: Seq<char>, i: int)
    ensures
        0 <= i <= s.len() ==> i <= spec_first_newline(s, i) <= s.len(),
        0 <= i ==> spec_first_newline(s, i) <= s.len(),
    decreases s.len() - i,
{
    if 0 <= i < s.len() && s[i] != '\n' {
        lemma_first_newline_bounds(s, i + 1);
    }
}

/// The last `count` lines of `s` (all of them when there are fewer).
pub open spec fn spec_tail_lines(s: Seq<char>, count: usize) -> Seq<Seq<char>> {
    let all = spec_lines(s);
    if all.len() > count {
        all.subrange(all.len() - count, all.len() as int)
    } else {
        all
    }
}


/// The characters `cs[lo..hi]` as a string.
fn string_of_range(cs: &Vec<char>, lo: usize, hi: usize) -> (r: String)
    requires
        lo <= hi <= cs@.len(),
    ensures
        r@ == cs@.subrange(lo as int, hi as int),
{
    let mut v: Vec<char> = Vec::new();
    let mut i = lo;
    while i < hi
        invariant
            lo <= i <= hi <= cs@.len(),
            v@ == cs@.subrange(lo as int, i as int),
        decreases hi - i,
    {
        v.push(cs[i]);
        assert(v@ =~= cs@.subrange(lo as int, i + 1));
        i = i + 1;
    }
    string_of(&v)
}

/// The lines of a text, as `str::lines` splits it.
pub fn lines_of(text: &str) -> (r: Vec<String>)
    ensures
        spec_texts(r@) == spec_lines(text@),
{
    let cs = chars_of(text);
    let n = cs.len();
    let mut r: Vec<String> = Vec::new();
    let mut i: usize = 0;
    assert(cs@.subrange(0, n as int) =~= cs@);
    assert(spec_texts(r@) + spec_lines(cs@) =~= spec_lines(cs@));
    while i < n
        invariant
            n == cs@.len(),
            cs@ == text@,
            i <= n,
            spec_lines(text@) == spec_texts(r@) + spec_lines(cs@.subrange(i as int, n as int)),
        decreases n - i,
    {
        let ghost rest = cs@.subrange(i as int, n as int);
        let mut k = i;
        while k < n && cs[k] != '\n'
            invariant
                i <= k <= n,
                n == cs@.len(),
                forall|j: int| i <= j < k ==> cs@[j] != '\n',
            decreases n - k,
        {
            k = k + 1;
        }
        proof {
            lemma_first_newline_at(rest, 0, k - i);
            assert(rest.subrange(0, k - i) =~= cs@.subrange(i as int, k as int));
        }
        let mut end = k;
        if end > i && cs[end - 1] == '\r' {
            end = end - 1;
        }
        let line = string_of_range(&cs, i, end);
        proof {
            let raw = cs@.subrange(i as int, k as int);
            if raw.len() > 0 && raw.last() == '\r' {
                assert(raw.drop_last() =~= cs@.subrange(i as int, end as int));
            }
        }
        let ghost before = spec_texts(r@);
        r.push(line);
        assert(spec_texts(r@) =~= before.push(line@));
        if k < n {
            assert(rest.subrange(k - i + 1, rest.len() as int) =~= cs@.subrange(k + 1, n as int));
            assert(spec_texts(r@) + spec_lines(cs@.subrange(k + 1, n as int)) =~= before + (seq![
                line@,
            ] + spec_lines(cs@.subrange(k + 1, n as int))));
            i = k + 1;
        } else {
            assert(cs@.subrange(n as int, n as int) =~= Seq::<char>::empty());
            assert(spec_lines(Seq::<char>::empty()) =~= Seq::<Seq<char>>::empty());
            assert(spec_texts(r@) + Seq::<Seq<char>>::empty() =~= before + seq![line@]);
            i = n;
        }
    }
    assert(cs@.subrange(n as int, n as int) =~= Seq::<char>::empty());
    assert(spec_lines(Seq::<char>::empty()) =~= Seq::<Seq<char>>::empty());
    assert(spec_texts(r@) + Seq::<Seq<char>>::empty() =~= spec_texts(r@));
    r
}

/// A newline found by scanning is the first one.
proof fn lemma_first_newline_at(s: Seq<char>, i: int, k: int)
    requires
        0 <= i <= k <= s.len(),
        forall|j: int| i <= j < k ==> s[j] != '\n',
        k == s.len() || s[k] == '\n',
    ensures
        spec_first_newline(s, i) == k,
    decreases k - i,
{
    if i < k {
        lemma_first_newline_at(s, i + 1, k);
    }
}

/// The last `count` lines of a log file's text (all of them when there are
/// fewer).
pub fn tail_lines(content: &str, count: usize) -> (r: Vec<String>)
    ensures
        spec_texts(r@) == spec_tail_lines(content@, count),
{
    if count == 0 {
        let r: Vec<String> = Vec::new();
        proof {
            let all = spec_lines(content@);
            if all.len() > 0 {
                assert(all.subrange(all.len() as int, all.len() as int) =~= Seq::<Seq<char>>::empty());
            } else {
                assert(all =~= Seq::<Seq<char>>::empty());
            }
        }
        assert(spec_texts(r@) =~= Seq::<Seq<char>>::empty());
        return r;
    }
    let all = lines_of(content);
    let start = if all.len() > count {
        all.len() - count
    } else {
        0
    };
    let mut r: Vec<String> = Vec::new();
    let mut i = start;
    while i < all.len()
        invariant
            start <= i <= all@.len(),
            spec_texts(r@) == spec_texts(all@).subrange(start as int, i as int),
        decreases all@.len() - i,
    {
        let ghost before = spec_texts(r@);
        let c = all[i].clone();
        r.push(c);
        assert(spec_texts(r@) =~= before.push(all@[i as int]@));
        assert(spec_texts(r@) =~= spec_texts(all@).subrange(start as int, i + 1));
        i = i + 1;
    }
    proof {
        if all@.len() <= count {
            assert(spec_texts(all@).subrange(0, all@.len() as int) =~= spec_texts(all@));
        }
    }
    r
}

} // verus!
