use vstd::prelude::*;
use crate::tmux::{copy_opt, ops_view, session_ops, Op, OpView, Session};

verus! {

/// The step of a build at which a multiplexer operation failed.
#[derive(Debug, Clone, Copy, PartialEq, Eq, Structural)]
pub enum Stage {
    SessionCreate,
    WindowCreate,
    CommandSend,
    Attach,
}

/// A failed build: the step that failed and the multiplexer's diagnostic.
#[derive(Debug, PartialEq)]
pub struct BuildError {
    pub stage: Stage,
    pub diagnostic: String,
}

/// What the caller does next.
#[derive(Debug, PartialEq)]
pub enum Action {
    /// Perform this operation and report its outcome.
    Run(Op),
    /// Every operation succeeded.
    Done,
    /// An operation failed; nothing more is to be run.
    Fail(BuildError),
}

/// The step that an operation belongs to.
pub open spec fn stage_of(o: OpView) -> Stage {
    match o {
        OpView::NewSession { .. } => Stage::SessionCreate,
        OpView::NewWindow { .. } => Stage::WindowCreate,
        OpView::SendKeys { .. } => Stage::CommandSend,
        OpView::AttachSession => Stage::Attach,
    }
}

/// `a` asks to run an operation whose model is `o`.
pub open spec fn runs(a: Action, o: OpView) -> bool {
    match a {
        Action::Run(op) => op@ == o,
        _ => false,
    }
}

/// `a` reports a failure at `stage` with the diagnostic `d`.
pub open spec fn fails(a: Action, stage: Stage, d: Seq<char>) -> bool {
    match a {
        Action::Fail(e) => e.stage == stage && e.diagnostic@ == d,
        _ => false,
    }
}

fn copy_op(o: &Op) -> (r: Op)
    ensures
        r@ == o@,
{
    match o {
        Op::NewSession { start_directory, session_name, window_name } => Op::NewSession {
            start_directory: start_directory.clone(),
            session_name: copy_opt(session_name),
            window_name: copy_opt(window_name),
        },
        Op::NewWindow { window_name, start_directory } => Op::NewWindow {
            window_name: copy_opt(window_name),
            start_directory: start_directory.clone(),
        },
        Op::SendKeys { keys } => Op::SendKeys { keys: keys.clone() },
        Op::AttachSession => Op::AttachSession,
    }
}

/// Runs a session's build one operation at a time: the caller performs the
/// pending operation and reports its outcome; the first failure ends the
/// build, and nothing after it is run.
pub struct BuildDriver {
    ops: Vec<Op>,
    pos: usize,
    finished: bool,
}

impl BuildDriver {
    /// The operations of the build, in order.
    pub closed spec fn plan(&self) -> Seq<OpView> {
        ops_view(self.ops@)
    }

    /// The index in the plan of the operation in progress (or, once all
    /// succeeded, the plan's length).
    pub closed spec fn position(&self) -> nat {
        self.pos as nat
    }

    /// The build has ended: every operation succeeded, or one failed.
    pub closed spec fn finished(&self) -> bool {
        self.finished
    }

    /// While the build goes on, an operation of the plan is pending.
    pub open spec fn inv(&self) -> bool {
        !self.finished() ==> self.position() < self.plan().len()
    }

    /// Starts the build of `session`; its first operation is pending.
    pub fn new(session: &Session) -> (r: BuildDriver)
        ensures
            r.plan() == session_ops(session@),
            r.position() == 0,
            !r.finished(),
            r.inv(),
    {
        let ops = session.build();
        BuildDriver { ops, pos: 0, finished: false }
    }

    /// Whether the build has ended.
    pub fn is_finished(&self) -> (r: bool)
        ensures
            r == self.finished(),
    {
        self.finished
    }

    /// The operation to perform now.
    pub fn pending(&self) -> (r: Op)
        requires
            self.inv(),
            !self.finished(),
        ensures
            r@ == self.plan()[self.position() as int],
    {
        copy_op(&self.ops[self.pos])
    }

    /// Takes the outcome of the pending operation. On success the next
    /// operation becomes pending, or the build is done after the last one; on
    /// failure the build ends with the step of the failed operation and its
    /// diagnostic.
    pub fn step(&mut self, outcome: Result<(), String>) -> (r: Action)
        requires
            old(self).inv(),
            !old(self).finished(),
        ensures
            final(self).inv(),
            final(self).plan() == old(self).plan(),
            match outcome {
                Ok(()) => {
                    &&& final(self).position() == old(self).position() + 1
                    &&& if final(self).position() < old(self).plan().len() {
                        !final(self).finished() && runs(
                            r,
                            old(self).plan()[final(self).position() as int],
                        )
                    } else {
                        final(self).finished() && r is Done
                    }
                },
                Err(d) => {
                    &&& final(self).finished()
                    &&& final(self).position() == old(self).position()
                    &&& fails(r, stage_of(old(self).plan()[old(self).position() as int]), d@)
                },
            },
    {
        assert(self.plan().len() == self.ops@.len());
        assert(self.pos < self.ops.len());
        match outcome {
            Ok(()) => {
                self.pos = self.pos + 1;
                if self.pos < self.ops.len() {
                    Action::Run(copy_op(&self.ops[self.pos]))
                } else {
                    self.finished = true;
                    Action::Done
                }
            },
            Err(diagnostic) => {
                self.finished = true;
                let stage = match &self.ops[self.pos] {
                    Op::NewSession { .. } => Stage::SessionCreate,
                    Op::NewWindow { .. } => Stage::WindowCreate,
                    Op::SendKeys { .. } => Stage::CommandSend,
                    Op::AttachSession => Stage::Attach,
                };
                Action::Fail(BuildError { stage, diagnostic })
            },
        }
    }
}

} // verus!
