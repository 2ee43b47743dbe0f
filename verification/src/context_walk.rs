//! The walk that assembles a context chain: threads, then the stack frames
//! of each thread, the scopes of each frame, the variables of each scope and
//! the children of each variable, one adapter request at a time.
//!
//! The walk decides; its caller performs each request and hands back the
//! reply. A thread whose stack trace cannot be had, and a frame whose scopes
//! cannot be had, are left out; a scope whose variables cannot be had is
//! kept with none.

use crate::context::{ContextChain, FrameContext, ScopeContext, ThreadContext};
use crate::dap::types::{Scope, StackFrame, Thread, Variable};
use crate::handlers::{AssembleContextParams, CONTEXT_CHILD_COUNT};
use crate::variables::ExpandedVariable;
use vstd::prelude::*;

verus! {

// ── Requests, replies and the answers they stand for ────────────────────

/// A request the walk asks its caller to perform.
#[derive(Debug)]
pub enum ContextRequest {
    /// `stackTrace` for a thread, with at most `levels` frames.
    StackTrace { thread_id: u64, levels: u64 },
    /// `scopes` for a frame.
    Scopes { frame_id: u64 },
    /// `variables` for a reference, with at most `count` of them when given;
    /// when `cache_as` is given, the variables that come back are also
    /// cached under that frame and scope name.
    Variables { reference: u64, count: Option<u64>, cache_as: Option<(u64, String)> },
}

/// What the walk asks for next, or the finished chain.
#[derive(Debug)]
pub enum ContextStep {
    Fetch(ContextRequest),
    Done(ContextChain),
}

/// The reply to a request; `None` when the request failed.
#[derive(Debug)]
pub enum ContextReply {
    Frames(Option<Vec<StackFrame>>),
    Scopes(Option<Vec<Scope>>),
    Variables(Option<Vec<Variable>>),
}

/// What a request asks about: the stack trace of a thread, the scopes of a
/// frame, the variables of a scope, or the children of a variable.
pub enum ContextAsk {
    Frames(u64),
    Scopes(u64),
    Variables(u64),
    Children(u64),
}

/// What a request asks about.
pub open spec fn spec_ask_of(req: ContextRequest) -> ContextAsk {
    match req {
        ContextRequest::StackTrace { thread_id, .. } => ContextAsk::Frames(thread_id),
        ContextRequest::Scopes { frame_id } => ContextAsk::Scopes(frame_id),
        ContextRequest::Variables { reference, count, .. } => match count {
            Some(_) => ContextAsk::Children(reference),
            None => ContextAsk::Variables(reference),
        },
    }
}

/// The frames a reply carries, `None` for a failure or a reply of another kind.
pub open spec fn spec_answer_frames(r: ContextReply) -> Option<Seq<StackFrame>> {
    match r {
        ContextReply::Frames(Some(v)) => Some(v@),
        _ => None,
    }
}

/// The scopes a reply carries, `None` for a failure or a reply of another kind.
pub open spec fn spec_answer_scopes(r: ContextReply) -> Option<Seq<Scope>> {
    match r {
        ContextReply::Scopes(Some(v)) => Some(v@),
        _ => None,
    }
}

/// The variables a reply carries, `None` for a failure or a reply of another
/// kind.
pub open spec fn spec_answer_variables(r: ContextReply) -> Option<Seq<Variable>> {
    match r {
        ContextReply::Variables(Some(v)) => Some(v@),
        _ => None,
    }
}

// ── The abstract chain ───────────────────────────────────────────────────

/// A variable of a scope: the variable, its depth and, when they were
/// fetched, its children with their depths.
pub struct VariableView {
    pub variable: Variable,
    pub depth: usize,
    pub children: Option<Seq<(Variable, usize)>>,
}

/// A scope with its variables.
pub struct ScopeView {
    pub scope: Scope,
    pub variables: Seq<VariableView>,
}

/// A frame with its scopes.
pub struct FrameView {
    pub frame: StackFrame,
    pub scopes: Seq<ScopeView>,
}

/// A thread with its frames.
pub struct ThreadView {
    pub thread: Thread,
    pub frames: Seq<FrameView>,
}

/// The children of a variable, each with its depth.
pub open spec fn spec_child_views(c: Seq<ExpandedVariable>) -> Seq<(Variable, usize)> {
    c.map_values(|x: ExpandedVariable| (x.variable, x.depth))
}

pub open spec fn spec_variable_view(e: ExpandedVariable) -> VariableView {
    VariableView {
        variable: e.variable,
        depth: e.depth,
        children: match e.children {
            Some(c) => Some(spec_child_views(c@)),
            None => None,
        },
    }
}

pub open spec fn spec_variable_views(v: Seq<ExpandedVariable>) -> Seq<VariableView> {
    v.map_values(|e: ExpandedVariable| spec_variable_view(e))
}

pub open spec fn spec_scope_view(s: ScopeContext) -> ScopeView {
    ScopeView { scope: s.scope, variables: spec_variable_views(s.variables@) }
}

pub open spec fn spec_scope_views(v: Seq<ScopeContext>) -> Seq<ScopeView> {
    v.map_values(|s: ScopeContext| spec_scope_view(s))
}

pub open spec fn spec_frame_view(f: FrameContext) -> FrameView {
    FrameView { frame: f.frame, scopes: spec_scope_views(f.scopes@) }
}

pub open spec fn spec_frame_views(v: Seq<FrameContext>) -> Seq<FrameView> {
    v.map_values(|f: FrameContext| spec_frame_view(f))
}

pub open spec fn spec_thread_view(t: ThreadContext) -> ThreadView {
    ThreadView { thread: t.thread, frames: spec_frame_views(t.frames@) }
}

pub open spec fn spec_thread_views(v: Seq<ThreadContext>) -> Seq<ThreadView> {
    v.map_values(|t: ThreadContext| spec_thread_view(t))
}

/// The threads of a chain, with everything below them.
pub open spec fn spec_chain_view(c: ContextChain) -> Seq<ThreadView> {
    spec_thread_views(c.threads@)
}

// ── The chain the answers give ───────────────────────────────────────────

/// Children one level down, none of them expanded further.
pub open spec fn spec_leaves(cs: Seq<Variable>) -> Seq<(Variable, usize)> {
    cs.map_values(|c: Variable| (c, 1usize))
}

/// The children recorded for a variable: fetched only when the expansion
/// goes deeper than the top level and the variable has children.
pub open spec fn spec_expected_children(
    ans: spec_fn(ContextAsk) -> ContextReply,
    expand: bool,
    v: Variable,
) -> Option<Seq<(Variable, usize)>> {
    if expand && v.variables_reference > 0 {
        match spec_answer_variables(ans(ContextAsk::Children(v.variables_reference))) {
            Some(cs) => Some(spec_leaves(cs)),
            None => None,
        }
    } else {
        None
    }
}

/// A top-level variable of a scope.
pub open spec fn spec_expected_variable(
    ans: spec_fn(ContextAsk) -> ContextReply,
    expand: bool,
    v: Variable,
) -> VariableView {
    VariableView { variable: v, depth: 0, children: spec_expected_children(ans, expand, v) }
}

/// The top-level variables of a scope, in order.
pub open spec fn spec_expected_variables(
    ans: spec_fn(ContextAsk) -> ContextReply,
    expand: bool,
    vs: Seq<Variable>,
) -> Seq<VariableView> {
    vs.map_values(|v: Variable| spec_expected_variable(ans, expand, v))
}

/// A scope: its variables are fetched only when it has a reference, and it
/// has none when they cannot be had.
pub open spec fn spec_expected_scope(
    ans: spec_fn(ContextAsk) -> ContextReply,
    expand: bool,
    s: Scope,
) -> ScopeView {
    ScopeView {
        scope: s,
        variables: if s.variables_reference > 0 {
            match spec_answer_variables(ans(ContextAsk::Variables(s.variables_reference))) {
                Some(vs) => spec_expected_variables(ans, expand, vs),
                None => Seq::empty(),
            }
        } else {
            Seq::empty()
        },
    }
}

/// The scopes of a frame, in order.
pub open spec fn spec_expected_scopes(
    ans: spec_fn(ContextAsk) -> ContextReply,
    expand: bool,
    ss: Seq<Scope>,
) -> Seq<ScopeView> {
    ss.map_values(|s: Scope| spec_expected_scope(ans, expand, s))
}

/// A frame, left out (`None`) when its scopes cannot be had.
pub open spec fn spec_expected_frame(
    ans: spec_fn(ContextAsk) -> ContextReply,
    expand: bool,
    f: StackFrame,
) -> Option<FrameView> {
    match spec_answer_scopes(ans(ContextAsk::Scopes(f.id))) {
        Some(ss) => Some(
            FrameView {
                frame: f,
                scopes: spec_expected_scopes(ans, expand, ss),
            },
        ),
        None => None,
    }
}

/// The frames kept of `fs`, in order.
pub open spec fn spec_expected_frames(
    ans: spec_fn(ContextAsk) -> ContextReply,
    expand: bool,
    fs: Seq<StackFrame>,
) -> Seq<FrameView>
    decreases fs.len(),
{
    if fs.len() == 0 {
        Seq::empty()
    } else {
        let prev = spec_expected_frames(ans, expand, fs.drop_last());
        match spec_expected_frame(ans, expand, fs.last()) {
            Some(v) => prev.push(v),
            None => prev,
        }
    }
}

/// A thread, left out (`None`) when its stack trace cannot be had.
pub open spec fn spec_expected_thread(
    ans: spec_fn(ContextAsk) -> ContextReply,
    expand: bool,
    t: Thread,
) -> Option<ThreadView> {
    match spec_answer_frames(ans(ContextAsk::Frames(t.id))) {
        Some(fs) => Some(ThreadView { thread: t, frames: spec_expected_frames(ans, expand, fs) }),
        None => None,
    }
}

/// The threads kept of `ts`, in order.
pub open spec fn spec_expected_threads(
    ans: spec_fn(ContextAsk) -> ContextReply,
    expand: bool,
    ts: Seq<Thread>,
) -> Seq<ThreadView>
    decreases ts.len(),
{
    if ts.len() == 0 {
        Seq::empty()
    } else {
        let prev = spec_expected_threads(ans, expand, ts.drop_last());
        match spec_expected_thread(ans, expand, ts.last()) {
            Some(v) => prev.push(v),
            None => prev,
        }
    }
}

// ── The walk ─────────────────────────────────────────────────────────────

/// The reply the walk waits for.
enum Awaiting {
    StackTrace,
    Scopes,
    Variables,
    Children,
    Nothing,
}

/// A context walk in progress.
pub struct ContextWalk {
    levels: u64,
    expand: bool,
    total: usize,
    awaiting: Awaiting,
    /// Threads not yet started, and those finished.
    threads: Vec<Thread>,
    threads_done: Vec<ThreadContext>,
    thread: Option<Thread>,
    /// Frames of the current thread not yet started, and those finished.
    frames: Vec<StackFrame>,
    frames_done: Vec<FrameContext>,
    frame: Option<StackFrame>,
    /// Scopes of the current frame not yet started, and those finished.
    scopes: Vec<Scope>,
    scopes_done: Vec<ScopeContext>,
    scope: Option<Scope>,
    /// Variables of the current scope not yet started, and those finished.
    vars: Vec<Variable>,
    vars_done: Vec<ExpandedVariable>,
    var: Option<Variable>,
    /// Every selected thread, and the frames, scopes and variables that
    /// came back for the current thread, frame and scope.
    selected: Ghost<Seq<Thread>>,
    frames_all: Ghost<Seq<StackFrame>>,
    scopes_all: Ghost<Seq<Scope>>,
    vars_all: Ghost<Seq<Variable>>,
}

/// Whether the walk's plan is the same in `a` and `b`.
pub open spec fn spec_same_plan(a: ContextWalk, b: ContextWalk) -> bool {
    &&& a.selected() == b.selected()
    &&& a.expands() == b.expands()
    &&& a.levels() == b.levels()
    &&& a.wf() == b.wf()
}

/// Whether `reply` is what the answers `ans` give to the request `w` waits on.
pub open spec fn spec_answered(
    w: ContextWalk,
    ans: spec_fn(ContextAsk) -> ContextReply,
    reply: ContextReply,
) -> bool {
    match w.pending() {
        Some(a) => ans(a) == reply,
        None => false,
    }
}

/// Whether `step` is what `w` asks for next, given the answers `ans`: the
/// request whose reply it waits for, or, when it waits for nothing, the
/// chain that the answers give for the selected threads.
pub open spec fn spec_step_ok(
    w: ContextWalk,
    step: ContextStep,
    ans: spec_fn(ContextAsk) -> ContextReply,
) -> bool {
    match step {
        ContextStep::Fetch(req) => w.request() == Some(req),
        ContextStep::Done(chain) => {
            &&& w.pending() is None
            &&& !chain.stale
            &&& spec_chain_view(chain) == spec_expected_threads(ans, w.expands(), w.selected())
        },
    }
}

impl ContextWalk {
    /// The selected threads, in order.
    pub closed spec fn selected(&self) -> Seq<Thread> {
        self.selected@
    }

    /// Whether variables are expanded one level down.
    pub closed spec fn expands(&self) -> bool {
        self.expand
    }

    /// The number of frames asked for per thread.
    pub closed spec fn levels(&self) -> u64 {
        self.levels
    }

    /// The walk's internal consistency.
    pub closed spec fn wf(&self) -> bool {
        self.total == self.selected@.len()
    }

    /// What the walk waits for, if anything.
    pub closed spec fn pending(&self) -> Option<ContextAsk> {
        match self.awaiting {
            Awaiting::StackTrace => match self.thread {
                Some(t) => Some(ContextAsk::Frames(t.id)),
                None => None,
            },
            Awaiting::Scopes => match self.frame {
                Some(f) => Some(ContextAsk::Scopes(f.id)),
                None => None,
            },
            Awaiting::Variables => match self.scope {
                Some(s) => Some(ContextAsk::Variables(s.variables_reference)),
                None => None,
            },
            Awaiting::Children => match self.var {
                Some(v) => Some(ContextAsk::Children(v.variables_reference)),
                None => None,
            },
            Awaiting::Nothing => None,
        }
    }

    /// The request the walk waits on: the stack trace of the current thread
    /// with the planned number of frames, the scopes of the current frame,
    /// the variables of the current scope (cached under the frame and the
    /// scope's name), or the first children of the current variable.
    pub closed spec fn request(&self) -> Option<ContextRequest> {
        match self.awaiting {
            Awaiting::StackTrace => match self.thread {
                Some(t) => Some(ContextRequest::StackTrace { thread_id: t.id, levels: self.levels }),
                None => None,
            },
            Awaiting::Scopes => match self.frame {
                Some(f) => Some(ContextRequest::Scopes { frame_id: f.id }),
                None => None,
            },
            Awaiting::Variables => match (self.frame, self.scope) {
                (Some(f), Some(s)) => Some(
                    ContextRequest::Variables {
                        reference: s.variables_reference,
                        count: None,
                        cache_as: Some((f.id, s.name)),
                    },
                ),
                _ => None,
            },
            Awaiting::Children => match self.var {
                Some(v) => Some(
                    ContextRequest::Variables {
                        reference: v.variables_reference,
                        count: Some(CONTEXT_CHILD_COUNT),
                        cache_as: None,
                    },
                ),
                None => None,
            },
            Awaiting::Nothing => None,
        }
    }

    // ── Progress, level by level ─────────────────────────────────────

    spec fn nt(&self) -> int {
        self.selected@.len() - self.threads@.len()
    }

    spec fn nf(&self) -> int {
        self.frames_all@.len() - self.frames@.len()
    }

    spec fn ns(&self) -> int {
        self.scopes_all@.len() - self.scopes@.len()
    }

    spec fn nv(&self) -> int {
        self.vars_all@.len() - self.vars@.len()
    }

    /// The first `closed` selected threads are finished.
    spec fn threads_at(&self, ans: spec_fn(ContextAsk) -> ContextReply, closed: int) -> bool {
        &&& self.threads@.len() <= self.selected@.len()
        &&& self.threads@ == self.selected@.subrange(self.nt(), self.selected@.len() as int)
        &&& 0 <= closed <= self.nt()
        &&& spec_thread_views(self.threads_done@)
            == spec_expected_threads(ans, self.expand, self.selected@.take(closed))
    }

    /// The current thread is the last one started.
    spec fn in_thread(&self, ans: spec_fn(ContextAsk) -> ContextReply) -> bool {
        &&& self.thread matches Some(t) && self.nt() >= 1 && t == self.selected@[self.nt() - 1]
        &&& self.threads_at(ans, self.nt() - 1)
    }

    /// The current thread's frames came back and the first `closed` are
    /// finished.
    spec fn frames_at(&self, ans: spec_fn(ContextAsk) -> ContextReply, closed: int) -> bool {
        &&& self.in_thread(ans)
        &&& self.thread matches Some(t) && spec_answer_frames(ans(ContextAsk::Frames(t.id)))
            == Some(self.frames_all@)
        &&& self.frames@.len() <= self.frames_all@.len()
        &&& self.frames@ == self.frames_all@.subrange(self.nf(), self.frames_all@.len() as int)
        &&& 0 <= closed <= self.nf()
        &&& spec_frame_views(self.frames_done@)
            == spec_expected_frames(ans, self.expand, self.frames_all@.take(closed))
    }

    /// The current frame is the last one started.
    spec fn in_frame(&self, ans: spec_fn(ContextAsk) -> ContextReply) -> bool {
        &&& self.frame matches Some(f) && self.nf() >= 1 && f == self.frames_all@[self.nf() - 1]
        &&& self.frames_at(ans, self.nf() - 1)
    }

    /// The current frame's scopes came back and the first `closed` are
    /// finished.
    spec fn scopes_at(&self, ans: spec_fn(ContextAsk) -> ContextReply, closed: int) -> bool {
        &&& self.in_frame(ans)
        &&& self.frame matches Some(f) && spec_answer_scopes(ans(ContextAsk::Scopes(f.id)))
            == Some(self.scopes_all@)
        &&& self.scopes@.len() <= self.scopes_all@.len()
        &&& self.scopes@ == self.scopes_all@.subrange(self.ns(), self.scopes_all@.len() as int)
        &&& 0 <= closed <= self.ns()
        &&& spec_scope_views(self.scopes_done@) == spec_expected_scopes(
            ans,
            self.expand,
            self.scopes_all@.take(closed),
        )
    }

    /// The current scope is the last one started, and it has a reference.
    spec fn in_scope(&self, ans: spec_fn(ContextAsk) -> ContextReply) -> bool {
        &&& self.scope matches Some(s) && self.ns() >= 1 && s == self.scopes_all@[self.ns() - 1]
            && s.variables_reference > 0
        &&& self.scopes_at(ans, self.ns() - 1)
    }

    /// The current scope's variables came back and the first `closed` are
    /// finished.
    spec fn vars_at(&self, ans: spec_fn(ContextAsk) -> ContextReply, closed: int) -> bool {
        &&& self.in_scope(ans)
        &&& self.scope matches Some(s) && spec_answer_variables(
            ans(ContextAsk::Variables(s.variables_reference)),
        ) == Some(self.vars_all@)
        &&& self.vars@.len() <= self.vars_all@.len()
        &&& self.vars@ == self.vars_all@.subrange(self.nv(), self.vars_all@.len() as int)
        &&& 0 <= closed <= self.nv()
        &&& spec_variable_views(self.vars_done@) == spec_expected_variables(
            ans,
            self.expand,
            self.vars_all@.take(closed),
        )
    }

    /// The current variable is the last one started, and its children are
    /// to be fetched.
    spec fn in_var(&self, ans: spec_fn(ContextAsk) -> ContextReply) -> bool {
        &&& self.var matches Some(v) && self.nv() >= 1 && v == self.vars_all@[self.nv() - 1]
            && self.expand && v.variables_reference > 0
        &&& self.vars_at(ans, self.nv() - 1)
    }

    /// Everything the walk has done so far agrees with the answers `ans`.
    pub closed spec fn follows(&self, ans: spec_fn(ContextAsk) -> ContextReply) -> bool {
        match self.awaiting {
            Awaiting::StackTrace => self.in_thread(ans),
            Awaiting::Scopes => self.in_frame(ans),
            Awaiting::Variables => self.in_scope(ans),
            Awaiting::Children => self.in_var(ans),
            Awaiting::Nothing => true,
        }
    }
}

impl ContextWalk {
    /// Starts the next selected thread by asking for its stack trace, or,
    /// when every thread is finished, hands out the chain.
    fn next_thread(&mut self) -> (r: ContextStep)
        ensures
            spec_same_plan(*final(self), *old(self)),
            old(self).thread is None ==> forall|ans: spec_fn(ContextAsk) -> ContextReply|
                #[trigger] old(self).threads_at(ans, old(self).nt()) ==> final(self).follows(ans)
                    && spec_step_ok(*final(self), r, ans),
    {
        let ghost old_self = *self;
        if self.threads.len() > 0 {
            let t = self.threads.remove(0);
            let id = t.id;
            self.thread = Some(t);
            self.awaiting = Awaiting::StackTrace;
            proof {
                assert(self.threads@ =~= old_self.threads@.subrange(1, old_self.threads@.len() as int));
                assert forall|ans: spec_fn(ContextAsk) -> ContextReply|
                    old_self.thread is None && #[trigger] old_self.threads_at(ans, old_self.nt())
                    implies self.in_thread(ans) by {
                    assert(self.nt() == old_self.nt() + 1);
                    assert(self.threads@ =~= self.selected@.subrange(
                        self.nt(),
                        self.selected@.len() as int,
                    ));
                    assert(old_self.threads@[0] == self.selected@[old_self.nt()]);
                }
            }
            ContextStep::Fetch(ContextRequest::StackTrace { thread_id: id, levels: self.levels })
        } else {
            let mut out: Vec<ThreadContext> = Vec::new();
            std::mem::swap(&mut out, &mut self.threads_done);
            self.awaiting = Awaiting::Nothing;
            let chain = ContextChain { threads: out, stale: false };
            proof {
                assert(self.selected@.take(self.selected@.len() as int) =~= self.selected@);
            }
            ContextStep::Done(chain)
        }
    }
}

impl ContextWalk {
    /// Starts the next frame of the current thread by asking for its
    /// scopes, or, when the thread's frames are finished, records the thread
    /// and moves on.
    fn next_frame(&mut self) -> (r: ContextStep)
        ensures
            spec_same_plan(*final(self), *old(self)),
            old(self).frame is None ==> forall|ans: spec_fn(ContextAsk) -> ContextReply|
                #[trigger] old(self).frames_at(ans, old(self).nf()) ==> final(self).follows(ans)
                    && spec_step_ok(*final(self), r, ans),
    {
        let ghost old_self = *self;
        if self.frames.len() > 0 {
            let f = self.frames.remove(0);
            let id = f.id;
            self.frame = Some(f);
            self.awaiting = Awaiting::Scopes;
            proof {
                assert(self.frames@ =~= old_self.frames@.subrange(1, old_self.frames@.len() as int));
                assert forall|ans: spec_fn(ContextAsk) -> ContextReply|
                    old_self.frame is None && #[trigger] old_self.frames_at(ans, old_self.nf())
                    implies self.in_frame(ans) by {
                    assert(self.nf() == old_self.nf() + 1);
                    assert(self.frames@ =~= self.frames_all@.subrange(
                        self.nf(),
                        self.frames_all@.len() as int,
                    ));
                    assert(old_self.frames@[0] == self.frames_all@[old_self.nf()]);
                }
            }
            ContextStep::Fetch(ContextRequest::Scopes { frame_id: id })
        } else {
            match self.thread.take() {
                Some(t) => {
                    let mut fd: Vec<FrameContext> = Vec::new();
                    std::mem::swap(&mut fd, &mut self.frames_done);
                    let tc = ThreadContext { thread: t, frames: fd };
                    let ghost gtc = tc;
                    self.threads_done.push(tc);
                    proof {
                        assert(spec_thread_views(self.threads_done@) =~= spec_thread_views(
                            old_self.threads_done@,
                        ).push(spec_thread_view(gtc)));
                        assert forall|ans: spec_fn(ContextAsk) -> ContextReply|
                            old_self.frame is None && #[trigger] old_self.frames_at(
                                ans,
                                old_self.nf(),
                            ) implies self.threads_at(ans, self.nt()) by {
                            let sel = self.selected@;
                            let n = self.nt();
                            assert(old_self.frames_all@.take(old_self.nf())
                                =~= old_self.frames_all@);
                            assert(sel.take(n).drop_last() =~= sel.take(n - 1));
                            assert(sel.take(n).last() == t);
                        }
                    }
                },
                None => {},
            }
            self.next_thread()
        }
    }
}

impl ContextWalk {
    /// Starts the next scope of the current frame that has a reference by
    /// asking for its variables (to be cached under the frame and the
    /// scope's name), recording each scope without a reference as having no
    /// variables; when the frame's scopes are finished, records the frame
    /// and moves on.
    fn next_scope(&mut self) -> (r: ContextStep)
        ensures
            spec_same_plan(*final(self), *old(self)),
            old(self).scope is None ==> forall|ans: spec_fn(ContextAsk) -> ContextReply|
                #[trigger] old(self).scopes_at(ans, old(self).ns()) ==> final(self).follows(ans)
                    && spec_step_ok(*final(self), r, ans),
    {
        let ghost old_self = *self;
        while self.scopes.len() > 0 && self.scopes[0].variables_reference == 0
            invariant
                spec_same_plan(*self, old_self),
                self.scope == old_self.scope,
                old_self.scope is None ==> forall|ans: spec_fn(ContextAsk) -> ContextReply|
                    #[trigger] old_self.scopes_at(ans, old_self.ns()) ==> self.scopes_at(
                        ans,
                        self.ns(),
                    ),
            decreases self.scopes@.len(),
        {
            let ghost before = *self;
            let s = self.scopes.remove(0);
            proof {
                assert(self.scopes@ =~= before.scopes@.subrange(1, before.scopes@.len() as int));
                assert(self.ns() == before.ns() + 1);
            }
            let sc = ScopeContext { scope: s, variables: Vec::new() };
            let ghost gsc = sc;
            self.scopes_done.push(sc);
            proof {
                assert(spec_scope_views(self.scopes_done@) =~= spec_scope_views(
                    before.scopes_done@,
                ).push(spec_scope_view(gsc)));
                assert(spec_variable_views(gsc.variables@) =~= Seq::<VariableView>::empty());
                assert forall|ans: spec_fn(ContextAsk) -> ContextReply|
                    old_self.scope is None && #[trigger] old_self.scopes_at(ans, old_self.ns())
                    implies self.scopes_at(ans, self.ns()) by {
                    assert(before.scopes_at(ans, before.ns()));
                    assert(self.scopes@ =~= self.scopes_all@.subrange(
                        self.ns(),
                        self.scopes_all@.len() as int,
                    ));
                    assert(before.scopes@[0] == self.scopes_all@[before.ns()]);
                    assert(spec_expected_scopes(ans, self.expand, self.scopes_all@.take(self.ns()))
                        =~= spec_expected_scopes(
                        ans,
                        self.expand,
                        self.scopes_all@.take(before.ns()),
                    ).push(spec_expected_scope(ans, self.expand, s)));
                }
            }
        }
        let ghost before = *self;
        if self.scopes.len() > 0 {
            let s = self.scopes.remove(0);
            proof {
                assert(self.scopes@ =~= before.scopes@.subrange(1, before.scopes@.len() as int));
                assert(self.ns() == before.ns() + 1);
            }
            let reference = s.variables_reference;
            let name = s.name.clone();
            let fid = match &self.frame {
                Some(f) => f.id,
                None => 0,
            };
            self.scope = Some(s);
            self.awaiting = Awaiting::Variables;
            proof {
                assert forall|ans: spec_fn(ContextAsk) -> ContextReply|
                    old_self.scope is None && #[trigger] old_self.scopes_at(ans, old_self.ns())
                    implies self.in_scope(ans) by {
                    assert(before.scopes_at(ans, before.ns()));
                    assert(self.scopes@ =~= self.scopes_all@.subrange(
                        self.ns(),
                        self.scopes_all@.len() as int,
                    ));
                    assert(before.scopes@[0] == self.scopes_all@[before.ns()]);
                }
            }
            ContextStep::Fetch(
                ContextRequest::Variables { reference, count: None, cache_as: Some((fid, name)) },
            )
        } else {
            match self.frame.take() {
                Some(f) => {
                    let mut sd: Vec<ScopeContext> = Vec::new();
                    std::mem::swap(&mut sd, &mut self.scopes_done);
                    let fc = FrameContext { frame: f, scopes: sd };
                    let ghost gfc = fc;
                    self.frames_done.push(fc);
                    proof {
                        assert(spec_frame_views(self.frames_done@) =~= spec_frame_views(
                            before.frames_done@,
                        ).push(spec_frame_view(gfc)));
                        assert forall|ans: spec_fn(ContextAsk) -> ContextReply|
                            old_self.scope is None && #[trigger] old_self.scopes_at(
                                ans,
                                old_self.ns(),
                            ) implies self.frames_at(ans, self.nf()) by {
                            assert(before.scopes_at(ans, before.ns()));
                            let fs = self.frames_all@;
                            let n = self.nf();
                            assert(before.scopes_all@.take(before.ns()) =~= before.scopes_all@);
                            assert(fs.take(n).drop_last() =~= fs.take(n - 1));
                            assert(fs.take(n).last() == f);
                        }
                    }
                },
                None => {},
            }
            self.next_frame()
        }
    }
}


impl ContextWalk {
    /// Starts the next variable of the current scope whose children are to
    /// be fetched by asking for them, recording every other variable without
    /// children; when the scope's variables are finished, records the scope
    /// and moves on.
    fn next_var(&mut self) -> (r: ContextStep)
        ensures
            spec_same_plan(*final(self), *old(self)),
            old(self).var is None ==> forall|ans: spec_fn(ContextAsk) -> ContextReply|
                #[trigger] old(self).vars_at(ans, old(self).nv()) ==> final(self).follows(ans)
                    && spec_step_ok(*final(self), r, ans),
    {
        let ghost old_self = *self;
        while self.vars.len() > 0 && !(self.expand && self.vars[0].variables_reference > 0)
            invariant
                spec_same_plan(*self, old_self),
                self.var == old_self.var,
                self.expand == old_self.expand,
                old_self.var is None ==> forall|ans: spec_fn(ContextAsk) -> ContextReply|
                    #[trigger] old_self.vars_at(ans, old_self.nv()) ==> self.vars_at(
                        ans,
                        self.nv(),
                    ),
            decreases self.vars@.len(),
        {
            let ghost before = *self;
            let v = self.vars.remove(0);
            proof {
                assert(self.vars@ =~= before.vars@.subrange(1, before.vars@.len() as int));
                assert(self.nv() == before.nv() + 1);
            }
            let e = ExpandedVariable::new(v, 0);
            let ghost ge = e;
            self.vars_done.push(e);
            proof {
                assert(spec_variable_views(self.vars_done@) =~= spec_variable_views(
                    before.vars_done@,
                ).push(spec_variable_view(ge)));
                assert forall|ans: spec_fn(ContextAsk) -> ContextReply|
                    old_self.var is None && #[trigger] old_self.vars_at(ans, old_self.nv())
                    implies self.vars_at(ans, self.nv()) by {
                    assert(before.vars_at(ans, before.nv()));
                    assert(self.vars@ =~= self.vars_all@.subrange(
                        self.nv(),
                        self.vars_all@.len() as int,
                    ));
                    assert(before.vars@[0] == self.vars_all@[before.nv()]);
                    assert(spec_expected_variables(ans, self.expand, self.vars_all@.take(self.nv()))
                        =~= spec_expected_variables(
                        ans,
                        self.expand,
                        self.vars_all@.take(before.nv()),
                    ).push(spec_expected_variable(ans, self.expand, v)));
                }
            }
        }
        let ghost before = *self;
        if self.vars.len() > 0 {
            let v = self.vars.remove(0);
            proof {
                assert(self.vars@ =~= before.vars@.subrange(1, before.vars@.len() as int));
                assert(self.nv() == before.nv() + 1);
            }
            let reference = v.variables_reference;
            self.var = Some(v);
            self.awaiting = Awaiting::Children;
            proof {
                assert forall|ans: spec_fn(ContextAsk) -> ContextReply|
                    old_self.var is None && #[trigger] old_self.vars_at(ans, old_self.nv())
                    implies self.in_var(ans) by {
                    assert(before.vars_at(ans, before.nv()));
                    assert(self.vars@ =~= self.vars_all@.subrange(
                        self.nv(),
                        self.vars_all@.len() as int,
                    ));
                    assert(before.vars@[0] == self.vars_all@[before.nv()]);
                }
            }
            ContextStep::Fetch(
                ContextRequest::Variables {
                    reference,
                    count: Some(CONTEXT_CHILD_COUNT),
                    cache_as: None,
                },
            )
        } else {
            match self.scope.take() {
                Some(sc) => {
                    let mut vd: Vec<ExpandedVariable> = Vec::new();
                    std::mem::swap(&mut vd, &mut self.vars_done);
                    let ctx = ScopeContext { scope: sc, variables: vd };
                    let ghost gctx = ctx;
                    self.scopes_done.push(ctx);
                    proof {
                        assert(spec_scope_views(self.scopes_done@) =~= spec_scope_views(
                            before.scopes_done@,
                        ).push(spec_scope_view(gctx)));
                        assert forall|ans: spec_fn(ContextAsk) -> ContextReply|
                            old_self.var is None && #[trigger] old_self.vars_at(
                                ans,
                                old_self.nv(),
                            ) implies self.scopes_at(ans, self.ns()) by {
                            assert(before.vars_at(ans, before.nv()));
                            let ss = self.scopes_all@;
                            let n = self.ns();
                            assert(before.vars_all@.take(before.nv()) =~= before.vars_all@);
                            assert(spec_expected_scopes(ans, self.expand, ss.take(n))
                                =~= spec_expected_scopes(ans, self.expand, ss.take(n - 1)).push(
                                spec_expected_scope(ans, self.expand, sc),
                            ));
                        }
                    }
                },
                None => {},
            }
            self.next_scope()
        }
    }
}

/// The children of a variable as unexpanded variables one level down.
fn leaves_of(cs: Vec<Variable>) -> (r: Vec<ExpandedVariable>)
    ensures
        spec_child_views(r@) == spec_leaves(cs@),
{
    let mut rest = cs;
    let ghost all = rest@;
    let mut r: Vec<ExpandedVariable> = Vec::new();
    while rest.len() > 0
        invariant
            r@.len() + rest@.len() == all.len(),
            rest@ == all.subrange(r@.len() as int, all.len() as int),
            spec_child_views(r@) == spec_leaves(all.take(r@.len() as int)),
        decreases rest@.len(),
    {
        let ghost k = r@.len() as int;
        let ghost before = rest@;
        let ghost old_r = r@;
        let c = rest.remove(0);
        assert(before[0] == all[k]);
        let e = ExpandedVariable::new(c, 1);
        let ghost ge = e;
        r.push(e);
        assert(rest@ =~= all.subrange(r@.len() as int, all.len() as int));
        assert(spec_child_views(r@) =~= spec_child_views(old_r).push((ge.variable, ge.depth)));
        assert(all.take(k + 1) =~= all.take(k).push(all[k]));
        assert(spec_leaves(all.take(k + 1)) =~= spec_leaves(all.take(k)).push((all[k], 1usize)));
    }
    assert(all.take(all.len() as int) =~= all);
    r
}

impl ContextWalk {
    /// Begins the walk over the threads that `p` selects of `threads`.
    pub fn begin(p: &AssembleContextParams, threads: Vec<Thread>) -> (r: (ContextWalk, ContextStep))
        ensures
            r.0.wf(),
            r.0.selected() == match p.thread_id {
                Some(tid) => threads@.filter(|t: Thread| t.id == tid),
                None => threads@,
            },
            r.0.expands() == (p.spec_depth() > 1),
            r.0.levels() == p.spec_frames() as u64,
            forall|ans: spec_fn(ContextAsk) -> ContextReply| #[trigger] r.0.follows(ans),
            forall|ans: spec_fn(ContextAsk) -> ContextReply| #[trigger] spec_step_ok(r.0, r.1, ans),
    {
        let sel = p.select_threads(threads);
        let ghost gsel = sel@;
        let total = sel.len();
        let mut w = ContextWalk {
            levels: p.frames() as u64,
            expand: p.depth() > 1,
            total,
            awaiting: Awaiting::Nothing,
            threads: sel,
            threads_done: Vec::new(),
            thread: None,
            frames: Vec::new(),
            frames_done: Vec::new(),
            frame: None,
            scopes: Vec::new(),
            scopes_done: Vec::new(),
            scope: None,
            vars: Vec::new(),
            vars_done: Vec::new(),
            var: None,
            selected: Ghost(gsel),
            frames_all: Ghost(Seq::empty()),
            scopes_all: Ghost(Seq::empty()),
            vars_all: Ghost(Seq::empty()),
        };
        proof {
            assert(w.threads@ =~= gsel.subrange(0, gsel.len() as int));
            assert forall|ans: spec_fn(ContextAsk) -> ContextReply| #[trigger]
                w.threads_at(ans, w.nt()) by {
                assert(spec_thread_views(w.threads_done@) =~= Seq::<ThreadView>::empty());
            }
        }
        let ghost w0 = w;
        let step = w.next_thread();
        let r = (w, step);
        proof {
            assert forall|ans: spec_fn(ContextAsk) -> ContextReply| #[trigger] r.0.follows(ans) by {
                assert(w0.threads_at(ans, w0.nt()));
            }
            assert forall|ans: spec_fn(ContextAsk) -> ContextReply| #[trigger] spec_step_ok(r.0, r.1, ans) by {
                assert(w0.threads_at(ans, w0.nt()));
            }
        }
        r
    }

    /// Takes the reply to the request the walk waits on and says what to do
    /// next. A thread whose stack trace failed and a frame whose scopes
    /// failed are left out; a scope whose variables failed has none; a
    /// variable whose children failed has none recorded.
    pub fn step(self, reply: ContextReply) -> (r: (ContextWalk, ContextStep))
        ensures
            spec_same_plan(r.0, self),
            forall|ans: spec_fn(ContextAsk) -> ContextReply|
                #[trigger] self.follows(ans) && spec_answered(self, ans, reply) ==> r.0.follows(ans)
                    && spec_step_ok(r.0, r.1, ans),
    {
        let ghost g = self;
        let ghost greply = reply;
        let mut w = self;
        let step = match w.awaiting {
            Awaiting::StackTrace => match reply {
                ContextReply::Frames(Some(fs)) => {
                    let ghost gfs = fs@;
                    w.frames = fs;
                    w.frames_all = Ghost(gfs);
                    w.frames_done = Vec::new();
                    w.frame = None;
                    proof {
                        assert forall|ans: spec_fn(ContextAsk) -> ContextReply|
                            g.follows(ans) && spec_answered(g, ans, greply) implies w.frames_at(ans, w.nf()) by {
                            assert(w.frames@ =~= gfs.subrange(0, gfs.len() as int));
                            assert(spec_frame_views(w.frames_done@) =~= Seq::<FrameView>::empty());
                        }
                    }
                    w.next_frame()
                },
                _ => {
                    w.thread = None;
                    proof {
                        assert forall|ans: spec_fn(ContextAsk) -> ContextReply|
                            g.follows(ans) && spec_answered(g, ans, greply) implies w.threads_at(ans, w.nt()) by {
                            let sel = w.selected@;
                            let n = w.nt();
                            assert(sel.take(n).drop_last() =~= sel.take(n - 1));
                        }
                    }
                    w.next_thread()
                },
            },
            Awaiting::Scopes => match reply {
                ContextReply::Scopes(Some(ss)) => {
                    let ghost gss = ss@;
                    w.scopes = ss;
                    w.scopes_all = Ghost(gss);
                    w.scopes_done = Vec::new();
                    w.scope = None;
                    proof {
                        assert forall|ans: spec_fn(ContextAsk) -> ContextReply|
                            g.follows(ans) && spec_answered(g, ans, greply) implies w.scopes_at(ans, w.ns()) by {
                            assert(w.scopes@ =~= gss.subrange(0, gss.len() as int));
                            assert(spec_scope_views(w.scopes_done@) =~= Seq::<ScopeView>::empty());
                            assert(spec_expected_scopes(ans, w.expand, gss.take(0))
                                =~= Seq::<ScopeView>::empty());
                        }
                    }
                    w.next_scope()
                },
                _ => {
                    w.frame = None;
                    proof {
                        assert forall|ans: spec_fn(ContextAsk) -> ContextReply|
                            g.follows(ans) && spec_answered(g, ans, greply) implies w.frames_at(ans, w.nf()) by {
                            let fs = w.frames_all@;
                            let n = w.nf();
                            assert(fs.take(n).drop_last() =~= fs.take(n - 1));
                        }
                    }
                    w.next_frame()
                },
            },
            Awaiting::Variables => match reply {
                ContextReply::Variables(Some(vs)) => {
                    let ghost gvs = vs@;
                    w.vars = vs;
                    w.vars_all = Ghost(gvs);
                    w.vars_done = Vec::new();
                    w.var = None;
                    proof {
                        assert forall|ans: spec_fn(ContextAsk) -> ContextReply|
                            g.follows(ans) && spec_answered(g, ans, greply) implies w.vars_at(ans, w.nv()) by {
                            assert(w.vars@ =~= gvs.subrange(0, gvs.len() as int));
                            assert(spec_variable_views(w.vars_done@) =~= Seq::<VariableView>::empty());
                            assert(spec_expected_variables(ans, w.expand, gvs.take(0))
                                =~= Seq::<VariableView>::empty());
                        }
                    }
                    w.next_var()
                },
                _ => {
                    match w.scope.take() {
                        Some(sc) => {
                            let ctx = ScopeContext { scope: sc, variables: Vec::new() };
                            let ghost gctx = ctx;
                            w.scopes_done.push(ctx);
                            proof {
                                assert(spec_scope_views(w.scopes_done@) =~= spec_scope_views(
                                    g.scopes_done@,
                                ).push(spec_scope_view(gctx)));
                                assert(spec_variable_views(gctx.variables@)
                                    =~= Seq::<VariableView>::empty());
                                assert forall|ans: spec_fn(ContextAsk) -> ContextReply|
                                    g.follows(ans) && spec_answered(g, ans, greply) implies w.scopes_at(ans, w.ns()) by {
                                    let ss = w.scopes_all@;
                                    let n = w.ns();
                                    assert(spec_expected_scopes(ans, w.expand, ss.take(n))
                                        =~= spec_expected_scopes(ans, w.expand, ss.take(n - 1)).push(
                                        spec_expected_scope(ans, w.expand, sc),
                                    ));
                                }
                            }
                        },
                        None => {},
                    }
                    w.next_scope()
                },
            },
            Awaiting::Children => {
                let children = match reply {
                    ContextReply::Variables(Some(cs)) => Some(leaves_of(cs)),
                    _ => None,
                };
                match w.var.take() {
                    Some(v) => {
                        let e = ExpandedVariable { variable: v, children, depth: 0 };
                        let ghost ge = e;
                        w.vars_done.push(e);
                        proof {
                            assert(spec_variable_views(w.vars_done@) =~= spec_variable_views(
                                g.vars_done@,
                            ).push(spec_variable_view(ge)));
                            assert forall|ans: spec_fn(ContextAsk) -> ContextReply|
                                g.follows(ans) && spec_answered(g, ans, greply) implies w.vars_at(ans, w.nv()) by {
                                let vs = w.vars_all@;
                                let n = w.nv();
                                assert(spec_expected_variables(ans, w.expand, vs.take(n))
                                    =~= spec_expected_variables(ans, w.expand, vs.take(n - 1)).push(
                                    spec_expected_variable(ans, w.expand, v),
                                ));
                            }
                        }
                    },
                    None => {},
                }
                w.next_var()
            },
            Awaiting::Nothing => ContextStep::Done(ContextChain { threads: Vec::new(), stale: false }),
        };
        (w, step)
    }

    /// The number of selected threads.
    pub fn total_threads(&self) -> (r: usize)
        ensures
            self.wf() ==> r == self.selected().len(),
    {
        self.total
    }
}

// ── Laws ─────────────────────────────────────────────────────────────────

/// The chain lists the given threads in order, leaving out exactly those
/// whose stack trace cannot be had.
pub proof fn lemma_chain_threads(
    ans: spec_fn(ContextAsk) -> ContextReply,
    expand: bool,
    ts: Seq<Thread>,
)
    ensures
        spec_expected_threads(ans, expand, ts).map_values(|v: ThreadView| v.thread) == ts.filter(
            |t: Thread| spec_answer_frames(ans(ContextAsk::Frames(t.id))) is Some,
        ),
    decreases ts.len(),
{
    reveal(Seq::filter);
    if ts.len() > 0 {
        lemma_chain_threads(ans, expand, ts.drop_last());
        let prev = spec_expected_threads(ans, expand, ts.drop_last());
        match spec_expected_thread(ans, expand, ts.last()) {
            Some(v) => {
                assert(prev.push(v).map_values(|v: ThreadView| v.thread) =~= prev.map_values(
                    |v: ThreadView| v.thread,
                ).push(ts.last()));
            },
            None => {},
        }
    }
}

/// A thread lists its frames in order, leaving out exactly those whose
/// scopes cannot be had.
pub proof fn lemma_chain_frames(
    ans: spec_fn(ContextAsk) -> ContextReply,
    expand: bool,
    fs: Seq<StackFrame>,
)
    ensures
        spec_expected_frames(ans, expand, fs).map_values(|v: FrameView| v.frame) == fs.filter(
            |f: StackFrame| spec_answer_scopes(ans(ContextAsk::Scopes(f.id))) is Some,
        ),
    decreases fs.len(),
{
    reveal(Seq::filter);
    if fs.len() > 0 {
        lemma_chain_frames(ans, expand, fs.drop_last());
        let prev = spec_expected_frames(ans, expand, fs.drop_last());
        match spec_expected_frame(ans, expand, fs.last()) {
            Some(v) => {
                assert(prev.push(v).map_values(|v: FrameView| v.frame) =~= prev.map_values(
                    |v: FrameView| v.frame,
                ).push(fs.last()));
            },
            None => {},
        }
    }
}

/// A scope has variables only when it has a reference, and a variable has
/// children recorded only when the expansion goes deeper than the top level
/// and it has a reference; variables are recorded at depth zero and their
/// children at depth one.
pub proof fn lemma_chain_expansion(
    ans: spec_fn(ContextAsk) -> ContextReply,
    expand: bool,
    s: Scope,
    v: Variable,
)
    ensures
        s.variables_reference == 0 ==> spec_expected_scope(ans, expand, s).variables.len() == 0,
        spec_expected_variable(ans, expand, v).depth == 0,
        spec_expected_variable(ans, expand, v).children is Some ==> expand
            && v.variables_reference > 0,
        spec_expected_variable(ans, expand, v).children matches Some(cs) ==> forall|i: int|
            0 <= i < cs.len() ==> (#[trigger] cs[i]).1 == 1,
{
}

/// What the walk waits on is what its request asks about; the stack trace
/// asks for the planned number of frames; variables are asked for only by a
/// reference, with a count only for children (then the fixed child count,
/// only when expanding, and without caching), and a scope's variables are
/// always cached.
pub proof fn lemma_walk_requests(w: ContextWalk, ans: spec_fn(ContextAsk) -> ContextReply)
    requires
        w.follows(ans),
    ensures
        w.request() matches Some(req) ==> {
            &&& w.pending() == Some(spec_ask_of(req))
            &&& req matches ContextRequest::StackTrace { levels, .. } ==> levels == w.levels()
            &&& req matches ContextRequest::Variables { reference, count, cache_as } ==> {
                &&& reference > 0
                &&& count is Some ==> count == Some(CONTEXT_CHILD_COUNT) && w.expands()
                    && cache_as is None
                &&& count is None ==> cache_as is Some
            }
        },
        w.request() is None <==> w.pending() is None,
{
}

} // verus!
