//! Context-chain assembly: structured snapshot of debug state at a halt point.
//!
//! Assembles the full hierarchy: Threads → StackFrames → Scopes → Variables.

use crate::dap::types::{Scope, StackFrame, Thread};
use crate::variables::ExpandedVariable;
use vstd::prelude::*;

verus! {

/// A complete snapshot of the debug context when execution halts.
#[derive(Debug)]
pub struct ContextChain {
    /// All threads in the debuggee.
    pub threads: Vec<ThreadContext>,
    /// Whether this context is stale (e.g., after an invalidated event).
    pub stale: bool,
}

/// Per-thread context: stack frames and their scopes/variables.
#[derive(Debug)]
pub struct ThreadContext {
    /// The thread metadata.
    pub thread: Thread,
    /// Stack frames for this thread (outermost first).
    pub frames: Vec<FrameContext>,
}

/// Per-frame context: scopes and their variables.
#[derive(Debug)]
pub struct FrameContext {
    /// The stack frame metadata.
    pub frame: StackFrame,
    /// Scopes for this frame (Locals, Arguments, Registers, etc.).
    pub scopes: Vec<ScopeContext>,
}

/// Per-scope context: variables within that scope.
#[derive(Debug)]
pub struct ScopeContext {
    /// The scope metadata.
    pub scope: Scope,
    /// Variables in this scope (may be partially expanded).
    pub variables: Vec<ExpandedVariable>,
}

/// The number of frames of the given threads.
pub open spec fn spec_frames_of(threads: Seq<ThreadContext>) -> nat
    decreases threads.len(),
{
    if threads.len() == 0 {
        0
    } else {
        spec_frames_of(threads.drop_last()) + threads.last().frames@.len()
    }
}

/// The number of variables of the given scopes.
pub open spec fn spec_scope_variables(scopes: Seq<ScopeContext>) -> nat
    decreases scopes.len(),
{
    if scopes.len() == 0 {
        0
    } else {
        spec_scope_variables(scopes.drop_last()) + scopes.last().variables@.len()
    }
}

/// The number of variables of the given frames.
pub open spec fn spec_frame_variables(frames: Seq<FrameContext>) -> nat
    decreases frames.len(),
{
    if frames.len() == 0 {
        0
    } else {
        spec_frame_variables(frames.drop_last()) + spec_scope_variables(frames.last().scopes@)
    }
}

/// The number of variables of the given threads.
pub open spec fn spec_thread_variables(threads: Seq<ThreadContext>) -> nat
    decreases threads.len(),
{
    if threads.len() == 0 {
        0
    } else {
        spec_thread_variables(threads.drop_last()) + spec_frame_variables(
            threads.last().frames@,
        )
    }
}

/// A sum over a prefix is at most the sum over the whole (frames of threads).
proof fn lemma_frames_prefix(threads: Seq<ThreadContext>, i: int)
    requires
        0 <= i <= threads.len(),
    ensures
        spec_frames_of(threads.take(i)) <= spec_frames_of(threads),
    decreases threads.len() - i,
{
    if i < threads.len() {
        lemma_frames_prefix(threads, i + 1);
        assert(threads.take(i + 1).drop_last() =~= threads.take(i));
    } else {
        assert(threads.take(i) =~= threads);
    }
}

/// A sum over a prefix is at most the sum over the whole (variables of scopes).
proof fn lemma_scope_variables_prefix(scopes: Seq<ScopeContext>, i: int)
    requires
        0 <= i <= scopes.len(),
    ensures
        spec_scope_variables(scopes.take(i)) <= spec_scope_variables(scopes),
    decreases scopes.len() - i,
{
    if i < scopes.len() {
        lemma_scope_variables_prefix(scopes, i + 1);
        assert(scopes.take(i + 1).drop_last() =~= scopes.take(i));
    } else {
        assert(scopes.take(i) =~= scopes);
    }
}

/// A sum over a prefix is at most the sum over the whole (variables of frames).
proof fn lemma_frame_variables_prefix(frames: Seq<FrameContext>, i: int)
    requires
        0 <= i <= frames.len(),
    ensures
        spec_frame_variables(frames.take(i)) <= spec_frame_variables(frames),
    decreases frames.len() - i,
{
    if i < frames.len() {
        lemma_frame_variables_prefix(frames, i + 1);
        assert(frames.take(i + 1).drop_last() =~= frames.take(i));
    } else {
        assert(frames.take(i) =~= frames);
    }
}

/// A sum over a prefix is at most the sum over the whole (variables of threads).
proof fn lemma_thread_variables_prefix(threads: Seq<ThreadContext>, i: int)
    requires
        0 <= i <= threads.len(),
    ensures
        spec_thread_variables(threads.take(i)) <= spec_thread_variables(threads),
    decreases threads.len() - i,
{
    if i < threads.len() {
        lemma_thread_variables_prefix(threads, i + 1);
        assert(threads.take(i + 1).drop_last() =~= threads.take(i));
    } else {
        assert(threads.take(i) =~= threads);
    }
}

/// The number of variables of the scopes of a frame.
fn scope_variables(scopes: &Vec<ScopeContext>) -> (r: usize)
    requires
        spec_scope_variables(scopes@) <= usize::MAX,
    ensures
        r == spec_scope_variables(scopes@),
{
    let mut sum: usize = 0;
    let mut i: usize = 0;
    while i < scopes.len()
        invariant
            i <= scopes@.len(),
            spec_scope_variables(scopes@) <= usize::MAX,
            sum == spec_scope_variables(scopes@.take(i as int)),
        decreases scopes@.len() - i,
    {
        assert(scopes@.take(i + 1).drop_last() =~= scopes@.take(i as int));
        proof {
            lemma_scope_variables_prefix(scopes@, i + 1);
        }
        sum = sum + scopes[i].variables.len();
        i = i + 1;
    }
    assert(scopes@.take(scopes@.len() as int) =~= scopes@);
    sum
}

/// The number of variables of the frames of a thread.
fn frame_variables(frames: &Vec<FrameContext>) -> (r: usize)
    requires
        spec_frame_variables(frames@) <= usize::MAX,
    ensures
        r == spec_frame_variables(frames@),
{
    let mut sum: usize = 0;
    let mut i: usize = 0;
    while i < frames.len()
        invariant
            i <= frames@.len(),
            spec_frame_variables(frames@) <= usize::MAX,
            sum == spec_frame_variables(frames@.take(i as int)),
        decreases frames@.len() - i,
    {
        assert(frames@.take(i + 1).drop_last() =~= frames@.take(i as int));
        proof {
            lemma_frame_variables_prefix(frames@, i + 1);
        }
        sum = sum + scope_variables(&frames[i].scopes);
        i = i + 1;
    }
    assert(frames@.take(frames@.len() as int) =~= frames@);
    sum
}

impl ContextChain {
    /// Create an empty context chain.
    pub fn new() -> (r: Self)
        ensures
            r.threads@.len() == 0,
            !r.stale,
    {
        ContextChain { threads: Vec::new(), stale: false }
    }

    /// Returns the total number of stack frames across all threads.
    pub fn total_frames(&self) -> (r: usize)
        requires
            spec_frames_of(self.threads@) <= usize::MAX,
        ensures
            r == spec_frames_of(self.threads@),
    {
        let mut sum: usize = 0;
        let mut i: usize = 0;
        while i < self.threads.len()
            invariant
                i <= self.threads@.len(),
                spec_frames_of(self.threads@) <= usize::MAX,
                sum == spec_frames_of(self.threads@.take(i as int)),
            decreases self.threads@.len() - i,
        {
            assert(self.threads@.take(i + 1).drop_last() =~= self.threads@.take(i as int));
            proof {
                lemma_frames_prefix(self.threads@, i + 1);
            }
            sum = sum + self.threads[i].frames.len();
            i = i + 1;
        }
        assert(self.threads@.take(self.threads@.len() as int) =~= self.threads@);
        sum
    }

    /// Returns the total number of variables across all scopes.
    pub fn total_variables(&self) -> (r: usize)
        requires
            spec_thread_variables(self.threads@) <= usize::MAX,
        ensures
            r == spec_thread_variables(self.threads@),
    {
        let mut sum: usize = 0;
        let mut i: usize = 0;
        while i < self.threads.len()
            invariant
                i <= self.threads@.len(),
                spec_thread_variables(self.threads@) <= usize::MAX,
                sum == spec_thread_variables(self.threads@.take(i as int)),
            decreases self.threads@.len() - i,
        {
            assert(self.threads@.take(i + 1).drop_last() =~= self.threads@.take(i as int));
            proof {
                lemma_thread_variables_prefix(self.threads@, i + 1);
            }
            sum = sum + frame_variables(&self.threads[i].frames);
            i = i + 1;
        }
        assert(self.threads@.take(self.threads@.len() as int) =~= self.threads@);
        sum
    }
}

impl Default for ContextChain {
    fn default() -> (r: Self)
        ensures
            r.threads@.len() == 0,
            !r.stale,
    {
        ContextChain::new()
    }
}

impl ThreadContext {
    /// Create a thread context with no frames.
    pub fn new(thread: Thread) -> (r: Self)
        ensures
            r.thread == thread,
            r.frames@.len() == 0,
    {
        ThreadContext { thread, frames: Vec::new() }
    }
}

impl FrameContext {
    /// Create a frame context with no scopes.
    pub fn new(frame: StackFrame) -> (r: Self)
        ensures
            r.frame == frame,
            r.scopes@.len() == 0,
    {
        FrameContext { frame, scopes: Vec::new() }
    }
}

impl ScopeContext {
    /// Create a scope context with no variables.
    pub fn new(scope: Scope) -> (r: Self)
        ensures
            r.scope == scope,
            r.variables@.len() == 0,
    {
        ScopeContext { scope, variables: Vec::new() }
    }
}

} // verus!
