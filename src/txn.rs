//! A sequence of file operations run one at a time by the caller, with the
//! decision after each result made here.

use vstd::prelude::*;

verus! {

/// One file-system operation that the caller performs.
pub enum FileOp {
    /// Copy the file at `from` over the file at `to`.
    Copy { from: String, to: String },
    /// Merge the pending edits into the freshly parsed configuration and write
    /// the result to `path`. The parser itself writes back any sourced file
    /// that an edit lands in while merging. The step fails when the merge
    /// cannot be made within the parsed section bounds.
    WriteMerged { path: String },
    /// Delete the file at `path`.
    Remove { path: String },
    /// Read `path` back and reload the displayed settings from it.
    Reload { path: String },
}

/// A file operation over the paths' characters.
pub enum OpView {
    Copy(Seq<char>, Seq<char>),
    WriteMerged(Seq<char>),
    Remove(Seq<char>),
    Reload(Seq<char>),
}

impl View for FileOp {
    type V = OpView;

    open spec fn view(&self) -> OpView {
        match self {
            FileOp::Copy { from, to } => OpView::Copy(from@, to@),
            FileOp::WriteMerged { path } => OpView::WriteMerged(path@),
            FileOp::Remove { path } => OpView::Remove(path@),
            FileOp::Reload { path } => OpView::Reload(path@),
        }
    }
}

/// A planned operation and what its failure means.
pub type StepView = (OpView, Option<Failure>);

/// What went wrong, as reported to the user.
#[derive(Clone, Copy, PartialEq, Eq, Structural, Debug)]
pub enum Failure {
    /// The configuration file could not be read.
    Read,
    /// A backup copy of the main file could not be made.
    Backup,
    /// A backup copy of a sourced file could not be made.
    SourcedBackup,
    /// The merged configuration could not be written.
    Write,
    /// A sourced file could not be restored from its backup.
    SourcedRestore,
    /// The main file could not be restored from its backup.
    Restore,
    /// The restored main file could not be read back.
    Reload,
}

/// How a save or an undo ended.
#[derive(Clone, Copy, PartialEq, Eq, Structural, Debug)]
pub enum Outcome {
    /// No edit was pending; nothing was touched.
    NothingToSave,
    /// The edits were written.
    Saved,
    /// No backup exists; nothing was touched.
    NothingToUndo,
    /// Every tracked file was restored from its backup.
    Undone,
    /// A step failed and the rest was not attempted.
    Failed(Failure),
}

/// One planned operation and what its failure means: `Some(f)` ends the run
/// with `f`, `None` is only a warning.
pub struct Step {
    pub op: FileOp,
    pub fatal: Option<Failure>,
}

/// The operations of one save or undo, in order, and the outcome when all of
/// them succeed or fail only with warnings.
pub struct Plan {
    pub steps: Vec<Step>,
    pub success: Outcome,
}

impl View for Step {
    type V = StepView;

    open spec fn view(&self) -> StepView {
        (self.op@, self.fatal)
    }
}

impl View for Plan {
    type V = (Seq<StepView>, Outcome);

    open spec fn view(&self) -> (Seq<StepView>, Outcome) {
        (self.steps@.map_values(|st: Step| st@), self.success)
    }
}

/// What the caller does next.
pub enum Action {
    /// Perform this operation and report whether it succeeded.
    Perform(FileOp),
    /// Stop with this outcome; `warnings` are the indices of the steps that
    /// failed without ending the run.
    Finish { outcome: Outcome, warnings: Vec<usize> },
}

/// The index of the first step among the first `n` whose failure ended the run.
pub open spec fn abort_index(steps: Seq<StepView>, results: Seq<bool>, n: int) -> Option<int>
    decreases n,
{
    if n <= 0 {
        None
    } else {
        match abort_index(steps, results, n - 1) {
            Some(i) => Some(i),
            None => if !results[n - 1] && steps[n - 1].1 is Some {
                Some(n - 1)
            } else {
                None
            },
        }
    }
}

/// The indices of the failed steps among the first `n`, in order.
pub open spec fn failed_steps(results: Seq<bool>, n: int) -> Seq<usize>
    decreases n,
{
    if n <= 0 {
        Seq::empty()
    } else if !results[n - 1] {
        failed_steps(results, n - 1).push((n - 1) as usize)
    } else {
        failed_steps(results, n - 1)
    }
}

/// The outcome of a run of `steps` whose performed steps gave `results`, once
/// it has stopped.
pub open spec fn run_outcome(steps: Seq<StepView>, success: Outcome, results: Seq<bool>) -> Outcome {
    match abort_index(steps, results, results.len() as int) {
        Some(i) => Outcome::Failed(steps[i].1->Some_0),
        None => success,
    }
}

/// Whether a run of `steps` with these results has stopped.
pub open spec fn run_finished(steps: Seq<StepView>, results: Seq<bool>) -> bool {
    abort_index(steps, results, results.len() as int) is Some || results.len() >= steps.len()
}

/// The warnings of a stopped run: the failed steps before the one that ended it.
pub open spec fn run_warnings(steps: Seq<StepView>, results: Seq<bool>) -> Seq<usize> {
    match abort_index(steps, results, results.len() as int) {
        Some(i) => failed_steps(results, i),
        None => failed_steps(results, results.len() as int),
    }
}

/// Once a run has stopped at a step, later results do not move that step.
proof fn lemma_abort_index_stable(steps: Seq<StepView>, results: Seq<bool>, n: int, m: int)
    requires
        0 <= n <= m,
        abort_index(steps, results, n) is Some,
    ensures
        abort_index(steps, results, m) == abort_index(steps, results, n),
    decreases m - n,
{
    if m > n {
        lemma_abort_index_stable(steps, results, n, m - 1);
    }
}

fn copy_op(op: &FileOp) -> (r: FileOp)
    ensures
        r == *op,
{
    match op {
        FileOp::Copy { from, to } => FileOp::Copy { from: from.clone(), to: to.clone() },
        FileOp::WriteMerged { path } => FileOp::WriteMerged { path: path.clone() },
        FileOp::Remove { path } => FileOp::Remove { path: path.clone() },
        FileOp::Reload { path } => FileOp::Reload { path: path.clone() },
    }
}

/// Decides what comes next in `plan`, given the results of the steps
/// performed so far, in order.
pub fn next_action(plan: &Plan, results: &Vec<bool>) -> (r: Action)
    requires
        results@.len() <= plan.steps@.len(),
    ensures
        run_finished(plan@.0, results@) ==> (r matches Action::Finish { outcome, warnings }
            && outcome == run_outcome(plan@.0, plan@.1, results@) && warnings@ == run_warnings(
            plan@.0,
            results@,
        )),
        !run_finished(plan@.0, results@) ==> (r matches Action::Perform(op) && op@
            == plan@.0[results@.len() as int].0),
{
    let ghost steps = plan@.0;
    let mut warnings: Vec<usize> = Vec::new();
    let mut i: usize = 0;
    while i < results.len()
        invariant
            steps == plan@.0,
            results@.len() <= plan.steps@.len(),
            0 <= i <= results@.len(),
            abort_index(steps, results@, i as int) is None,
            warnings@ == failed_steps(results@, i as int),
        decreases results@.len() - i,
    {
        assert(steps[i as int] == plan.steps@[i as int]@);
        if !results[i] {
            match plan.steps[i].fatal {
                Some(f) => {
                    proof {
                        assert(abort_index(steps, results@, i + 1) == Some(i as int));
                        lemma_abort_index_stable(steps, results@, i + 1, results@.len() as int);
                    }
                    return Action::Finish { outcome: Outcome::Failed(f), warnings };
                },
                None => {
                    warnings.push(i);
                },
            }
        }
        i = i + 1;
    }
    if results.len() < plan.steps.len() {
        assert(steps[results@.len() as int] == plan.steps@[results@.len() as int]@);
        Action::Perform(copy_op(&plan.steps[results.len()].op))
    } else {
        Action::Finish { outcome: plan.success, warnings }
    }
}

} // verus!
