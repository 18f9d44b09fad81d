//! Durable move of one filesystem object: which operations make it up, in
//! which order, and what the move comes to once they have been tried.
//!
//! The caller performs each step on the filesystem and reports how it went.
//! After the last step has succeeded the object's data and both directory
//! entries are on stable storage, as far as the filesystem honours the
//! order that the flushes imply.

use vstd::prelude::*;
use crate::model::FsError;
use crate::paths::{path_equal, path_parent};

verus! {

/// One operation of a durable move.
#[derive(Debug, PartialEq, Eq)]
pub enum MoveStep {
    /// Open the file at this path for reading and flush it to stable
    /// storage.
    SyncFile(String),
    /// Rename `from` to `to` atomically. What is at `to` is overwritten.
    Rename { from: String, to: String },
    /// Open the directory at this path and flush it to stable storage.
    SyncDir(String),
}

/// Mathematical content of a [`MoveStep`].
pub enum StepView {
    SyncFile(Seq<char>),
    Rename { from: Seq<char>, to: Seq<char> },
    SyncDir(Seq<char>),
}

impl View for MoveStep {
    type V = StepView;

    open spec fn view(&self) -> StepView {
        match self {
            MoveStep::SyncFile(path) => StepView::SyncFile(path@),
            MoveStep::Rename { from, to } => StepView::Rename { from: from@, to: to@ },
            MoveStep::SyncDir(path) => StepView::SyncDir(path@),
        }
    }
}

impl Clone for MoveStep {
    fn clone(&self) -> (copy: Self)
        ensures
            copy == *self,
    {
        match self {
            MoveStep::SyncFile(path) => MoveStep::SyncFile(path.clone()),
            MoveStep::Rename { from, to } => MoveStep::Rename {
                from: from.clone(),
                to: to.clone(),
            },
            MoveStep::SyncDir(path) => MoveStep::SyncDir(path.clone()),
        }
    }
}

/// The steps of a durable move of `src` to `dst`, in order: flush the
/// source, rename it, flush the source's directory and, where the
/// destination lies in another directory, flush that one too. A path
/// without a parent directory cannot be moved so.
pub open spec fn move_steps(src: Seq<char>, dst: Seq<char>) -> Option<Seq<StepView>> {
    match (path_parent(src), path_parent(dst)) {
        (Some(src_dir), Some(dst_dir)) => {
            let common = seq![
                StepView::SyncFile(src),
                StepView::Rename { from: src, to: dst },
                StepView::SyncDir(src_dir),
            ];
            if path_equal(src_dir, dst_dir) {
                Some(common)
            } else {
                Some(common.push(StepView::SyncDir(dst_dir)))
            }
        },
        _ => None,
    }
}

/// How far a move has come.
pub struct MoveProgress {
    /// The steps of the move.
    pub steps: Seq<StepView>,
    /// How many of them have succeeded.
    pub done: nat,
    /// The error of the step that failed, if one did.
    pub failure: Option<FsError>,
}

/// A move that has just been planned.
pub open spec fn planned(steps: Seq<StepView>) -> MoveProgress {
    MoveProgress { steps, done: 0, failure: None }
}

/// The step to perform next: none after a failure, none when all are done.
pub open spec fn pending_step(p: MoveProgress) -> Option<StepView> {
    if p.failure is None && p.done < p.steps.len() {
        Some(p.steps[p.done as int])
    } else {
        None
    }
}

/// Progress after the pending step went as `result` says. Where no step is
/// pending, nothing changes.
pub open spec fn advance(p: MoveProgress, result: Result<(), FsError>) -> MoveProgress {
    if pending_step(p) is None {
        p
    } else {
        match result {
            Ok(_) => MoveProgress { done: p.done + 1, ..p },
            Err(e) => MoveProgress { failure: Some(e), ..p },
        }
    }
}

/// What the move came to: the error of the step that failed, success when
/// every step succeeded, nothing while a step is pending.
pub open spec fn outcome_of(p: MoveProgress) -> Option<Result<(), FsError>> {
    match p.failure {
        Some(e) => Some(Err(e)),
        None => if p.done >= p.steps.len() {
            Some(Ok(()))
        } else {
            None
        },
    }
}

/// A durable move in progress.
#[derive(Debug, PartialEq, Eq)]
pub struct FileMutator {
    steps: Vec<MoveStep>,
    done: usize,
    failure: Option<FsError>,
}

impl View for FileMutator {
    type V = MoveProgress;

    closed spec fn view(&self) -> MoveProgress {
        MoveProgress {
            steps: self.steps@.map_values(|step: MoveStep| step@),
            done: self.done as nat,
            failure: self.failure,
        }
    }
}

impl FileMutator {
    /// Plans the durable move of `src` to `dst`. There is no plan where
    /// one of the two paths has no parent directory.
    pub fn durable_move(src: &String, dst: &String) -> (mover: Option<FileMutator>)
        ensures
            match move_steps(src@, dst@) {
                Some(steps) => mover is Some && mover->0@ == planned(steps),
                None => mover is None,
            },
    {
        let src_dir = match crate::paths::parent(src) {
            Some(dir) => dir,
            None => {
                return None;
            },
        };
        let dst_dir = match crate::paths::parent(dst) {
            Some(dir) => dir,
            None => {
                return None;
            },
        };
        let same_dir = crate::paths::same_path(&src_dir, &dst_dir);
        let mut steps: Vec<MoveStep> = Vec::new();
        steps.push(MoveStep::SyncFile(src.clone()));
        steps.push(MoveStep::Rename { from: src.clone(), to: dst.clone() });
        steps.push(MoveStep::SyncDir(src_dir));
        if !same_dir {
            steps.push(MoveStep::SyncDir(dst_dir));
        }
        let mover = FileMutator { steps, done: 0, failure: None };
        assert(mover@.steps =~= move_steps(src@, dst@)->0);
        Some(mover)
    }

    /// The step to perform next, if the move has not ended.
    pub fn next_step(&self) -> (step: Option<MoveStep>)
        ensures
            match pending_step(self@) {
                Some(view) => step is Some && step->0@ == view,
                None => step is None,
            },
    {
        if self.failure.is_none() && self.done < self.steps.len() {
            Some(self.steps[self.done].clone())
        } else {
            None
        }
    }

    /// Records how the pending step went.
    pub fn record(&mut self, result: Result<(), FsError>)
        ensures
            final(self)@ == advance(old(self)@, result),
    {
        if self.failure.is_none() && self.done < self.steps.len() {
            match result {
                Ok(_) => {
                    self.done = self.done + 1;
                },
                Err(e) => {
                    self.failure = Some(e);
                },
            }
        }
    }

    /// What the move came to, once it has ended.
    pub fn outcome(&self) -> (outcome: Option<Result<(), FsError>>)
        ensures
            outcome == outcome_of(self@),
    {
        match self.failure {
            Some(e) => Some(Err(e)),
            None => if self.done >= self.steps.len() {
                Some(Ok(()))
            } else {
                None
            },
        }
    }
}

/// A move starts with its source: the first step flushes the file at
/// `src`, and the rename is the step after it.
pub proof fn law_move_starts_at_source(src: Seq<char>, dst: Seq<char>)
    requires
        move_steps(src, dst) is Some,
    ensures
        pending_step(planned(move_steps(src, dst)->0)) == Some(StepView::SyncFile(src)),
        pending_step(advance(planned(move_steps(src, dst)->0), Ok(()))) == Some(
            StepView::Rename { from: src, to: dst },
        ),
{
}

/// A source that cannot be opened ends the move before anything is
/// renamed: the move fails with the error of that first step, unchanged,
/// and no further step is handed out.
pub proof fn law_absent_source_stops_move(src: Seq<char>, dst: Seq<char>, error: FsError)
    requires
        move_steps(src, dst) is Some,
    ensures
        ({
            let after = advance(planned(move_steps(src, dst)->0), Err(error));
            &&& outcome_of(after) == Some(Err::<(), FsError>(error))
            &&& pending_step(after) is None
            &&& forall|result: Result<(), FsError>| advance(after, result) == after
        }),
{
}

/// The error of a step ends the move and is its outcome, whichever step
/// it was.
pub proof fn law_step_error_is_outcome(p: MoveProgress, error: FsError)
    requires
        pending_step(p) is Some,
    ensures
        outcome_of(advance(p, Err(error))) == Some(Err::<(), FsError>(error)),
        pending_step(advance(p, Err(error))) is None,
{
}

/// A move succeeds only after each of its steps has succeeded.
pub proof fn law_success_takes_every_step(p: MoveProgress)
    requires
        outcome_of(p) == Some(Ok::<(), FsError>(())),
    ensures
        p.failure is None,
        p.done >= p.steps.len(),
        pending_step(p) is None,
{
}

} // verus!
