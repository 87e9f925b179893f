//! The decisions of the recursive radiance estimator, apart from its colour
//! arithmetic. A path starts with a depth budget; while it asks to be traced,
//! the caller intersects the current ray with the world, scatters it off the
//! material that was hit, and reports what happened. The path ends black when
//! the budget is spent or the ray is absorbed, and on the background when the
//! ray escapes. The caller multiplies the attenuations met on the way.
use vstd::prelude::*;

verus! {

/// How a finished path contributes light.
#[derive(Clone, Copy, Debug, PartialEq, Eq, Structural)]
pub enum Terminal {
    /// No light: the depth budget is spent or the ray was absorbed.
    Black,
    /// The ray escaped: the background gradient of its direction.
    Background,
}

/// What the world did with the ray that was traced.
#[derive(Clone, Copy, Debug, PartialEq, Eq, Structural)]
pub enum Outcome {
    /// No surface was hit.
    Miss,
    /// A surface was hit and its material absorbed the ray.
    Absorbed,
    /// A surface was hit and its material scattered the ray.
    Scattered,
}

/// What the caller does next.
#[derive(Clone, Copy, Debug, PartialEq, Eq, Structural)]
pub enum Action {
    /// Intersect the current ray with the world and report the outcome.
    Trace,
    /// Stop: the path's light is the attenuation so far times this.
    Finish(Terminal),
}

/// One light path under construction.
#[derive(Clone, Copy, Debug, PartialEq, Eq, Structural)]
pub struct Path {
    /// Bounces still allowed.
    pub depth: i64,
    /// How the path ended, once it has.
    pub end: Option<Terminal>,
}

impl Path {
    /// What a path in this state asks for.
    pub open spec fn next_action(self) -> Action {
        match self.end {
            Some(t) => Action::Finish(t),
            None => if self.depth <= 0 {
                Action::Finish(Terminal::Black)
            } else {
                Action::Trace
            },
        }
    }

    /// The state after the traced ray had `outcome`.
    pub open spec fn after(self, outcome: Outcome) -> Path {
        match outcome {
            Outcome::Miss => Path { depth: self.depth, end: Some(Terminal::Background) },
            Outcome::Absorbed => Path { depth: self.depth, end: Some(Terminal::Black) },
            Outcome::Scattered => Path { depth: (self.depth - 1) as i64, end: None },
        }
    }

    /// A path that may bounce `depth` times.
    pub fn new(depth: i64) -> (r: Path)
        ensures
            r == (Path { depth, end: None }),
    {
        Path { depth, end: None }
    }

    /// What the caller does next.
    pub fn action(&self) -> (r: Action)
        ensures
            r == self.next_action(),
    {
        match self.end {
            Some(t) => Action::Finish(t),
            None => if self.depth <= 0 {
                Action::Finish(Terminal::Black)
            } else {
                Action::Trace
            },
        }
    }

    /// Records what became of the ray that was traced.
    pub fn observe(&mut self, outcome: Outcome)
        requires
            old(self).next_action() == Action::Trace,
        ensures
            *final(self) == old(self).after(outcome),
    {
        match outcome {
            Outcome::Miss => {
                self.end = Some(Terminal::Background);
            },
            Outcome::Absorbed => {
                self.end = Some(Terminal::Black);
            },
            Outcome::Scattered => {
                self.depth = self.depth - 1;
            },
        }
    }
}

/// The number of rays traced when the outcomes are reported in order, as
/// long as the path asks for them.
pub open spec fn traced(p: Path, outcomes: Seq<Outcome>) -> nat
    decreases outcomes.len(),
{
    if outcomes.len() == 0 || p.next_action() != Action::Trace {
        0
    } else {
        1 + traced(p.after(outcomes[0]), outcomes.drop_first())
    }
}

/// The state reached when the outcomes are reported in order, as long as the
/// path asks for them.
pub open spec fn reached(p: Path, outcomes: Seq<Outcome>) -> Path
    decreases outcomes.len(),
{
    if outcomes.len() == 0 || p.next_action() != Action::Trace {
        p
    } else {
        reached(p.after(outcomes[0]), outcomes.drop_first())
    }
}

/// The number of rays a path may still trace.
pub open spec fn budget(p: Path) -> nat {
    if p.end is None && p.depth > 0 {
        p.depth as nat
    } else {
        0
    }
}

/// From any state, a path traces at most its remaining budget of rays, and
/// it has finished once it has been told more outcomes than that budget.
pub proof fn lemma_budget_bounds_tracing(p: Path, outcomes: Seq<Outcome>)
    ensures
        traced(p, outcomes) <= budget(p),
        outcomes.len() > budget(p) ==> reached(p, outcomes).next_action() is Finish,
    decreases outcomes.len(),
{
    if outcomes.len() > 0 && p.next_action() == Action::Trace {
        lemma_budget_bounds_tracing(p.after(outcomes[0]), outcomes.drop_first());
    }
}

/// A path started with depth `depth` traces at most `depth` rays, whatever
/// the world does with them, and after `depth + 1` reported outcomes it has
/// certainly finished: the recursion of the estimator is bounded by its depth.
pub proof fn lemma_depth_bounds_recursion(depth: i64, outcomes: Seq<Outcome>)
    ensures
        traced(Path { depth, end: None }, outcomes) <= (if depth > 0 {
            depth as int
        } else {
            0
        }),
        outcomes.len() > depth ==> reached(Path { depth, end: None }, outcomes).next_action() is Finish,
{
    lemma_budget_bounds_tracing(Path { depth, end: None }, outcomes);
}

/// With no depth left, a path is black at once, whatever the ray and the
/// world: no ray is traced and the path finishes black.
pub proof fn lemma_no_depth_is_black(depth: i64, outcomes: Seq<Outcome>)
    requires
        depth <= 0,
    ensures
        traced(Path { depth, end: None }, outcomes) == 0,
        reached(Path { depth, end: None }, outcomes).next_action() == Action::Finish(
            Terminal::Black,
        ),
{
}

} // verus!
