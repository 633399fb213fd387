use vstd::prelude::*;

use crate::diff::{committed_state, compute_diff, next_state, Diff};
use crate::entry::{EntryModel, FlatpakDefinition};
use crate::error::ReconcileError;
use crate::set::{models_of, set_of, EntrySet};
use crate::codec::{lemma_state_round_trip, state_json};
use crate::source::recorded_spec;

verus! {

/// Where a reconciliation run stands.
#[derive(Debug, Clone, Copy, PartialEq, Eq, Structural)]
pub enum Stage {
    /// There is work to do and no transaction has been opened yet.
    Planned,
    /// Operations are being added to the open transaction.
    Queueing,
    /// All operations are queued and the transaction must run.
    Executing,
    /// The new state must be written.
    Committing,
    /// The run is over and succeeded.
    Finished,
    /// The run stopped on an error; nothing is written.
    Aborted,
}

/// Why the package transaction refused to queue an operation.
#[derive(Debug, Clone, Copy, PartialEq, Eq, Structural)]
pub enum RejectKind {
    AlreadyInstalled,
    NotInstalled,
    Other,
}

/// What the package transaction answered when an operation was added.
#[derive(Debug)]
pub enum OpOutcome {
    Added,
    Rejected(RejectKind, String),
}

/// What the caller must do next.
#[derive(Debug)]
pub enum Action {
    /// Open a transaction on the system installation.
    OpenTransaction,
    /// Queue the installation of this entry from its remote.
    AddInstall(FlatpakDefinition),
    /// Queue the removal of this entry.
    AddUninstall(FlatpakDefinition),
    /// Run the transaction.
    Execute,
    /// Write the new state.
    Commit,
    /// Nothing is left to do.
    Done,
    /// Stop with this error.
    Fail(ReconcileError),
}

/// A refusal that counts as the operation being satisfied already: an
/// install of a package that is installed, or a removal of one that is not.
pub open spec fn tolerated(outcome: OpOutcome, is_install: bool) -> bool {
    match outcome {
        OpOutcome::Added => true,
        OpOutcome::Rejected(kind, _) => (is_install && kind == RejectKind::AlreadyInstalled) || (
        !is_install && kind == RejectKind::NotInstalled),
    }
}

/// The stage a run starts in: a run with nothing to change is over at once.
pub open spec fn initial_stage(desired: Set<EntryModel>, recorded: Set<EntryModel>) -> Stage {
    if desired == recorded {
        Stage::Finished
    } else {
        Stage::Planned
    }
}

/// Once a run from `recorded` to `desired` has committed its state, a second
/// run with the same desired set has nothing to install or remove, and starts
/// finished: it opens no transaction.
pub proof fn lemma_rerun_is_noop(desired: Set<EntryModel>, recorded: Set<EntryModel>)
    ensures
        ({
            let after = committed_state(
                recorded,
                desired.difference(recorded),
                recorded.difference(desired),
            );
            &&& desired.difference(after) == Set::<EntryModel>::empty()
            &&& after.difference(desired) == Set::<EntryModel>::empty()
            &&& initial_stage(desired, after) == Stage::Finished
        }),
{
    crate::diff::lemma_diff_correct(desired, recorded);
    crate::diff::lemma_second_diff_empty(desired, recorded);
}

/// A run that follows a committed one reads back the desired set and starts
/// finished, where the state text written by the first run parses to the
/// entries that were written.
pub proof fn lemma_rerun_after_commit(
    desired: Set<EntryModel>,
    recorded: Set<EntryModel>,
    written: Seq<FlatpakDefinition>,
    read: Seq<FlatpakDefinition>,
)
    requires
        set_of(written) == committed_state(
            recorded,
            desired.difference(recorded),
            recorded.difference(desired),
        ),
        models_of(read) == models_of(written),
    ensures
        recorded_spec(state_json(models_of(written)), Ok(models_of(read))) == Some(desired),
        initial_stage(desired, set_of(read)) == Stage::Finished,
{
    crate::diff::lemma_diff_correct(desired, recorded);
    lemma_state_round_trip(written, read);
}

/// The stage after the operation at `next - 1` was queued or satisfied.
pub open spec fn stage_after_queue(next: nat, total: nat, queued: bool) -> Stage {
    if next < total {
        Stage::Queueing
    } else if queued {
        Stage::Executing
    } else {
        Stage::Committing
    }
}

/// One reconciliation run: the diff between the desired and the recorded
/// packages, the state to commit, and how far the transaction has come.
/// Installs are queued first, in the order of `to_install`, then removals.
#[derive(Debug)]
pub struct Reconciliation {
    diff: Diff,
    new_state: EntrySet,
    in_removals: bool,
    index: usize,
    queued: bool,
    stage: Stage,
    error: Option<ReconcileError>,
}

impl Reconciliation {
    pub closed spec fn stage_spec(&self) -> Stage {
        self.stage
    }

    /// The entries to install, in queueing order.
    pub closed spec fn installs(&self) -> Seq<FlatpakDefinition> {
        self.diff.to_install.listing()
    }

    /// The entries to remove, in queueing order.
    pub closed spec fn removals(&self) -> Seq<FlatpakDefinition> {
        self.diff.to_remove.listing()
    }

    pub closed spec fn install_set(&self) -> Set<EntryModel> {
        self.diff.to_install@
    }

    pub closed spec fn remove_set(&self) -> Set<EntryModel> {
        self.diff.to_remove@
    }

    /// The state that a successful run commits.
    pub closed spec fn target(&self) -> Set<EntryModel> {
        self.new_state@
    }

    /// How many operations have been queued or found satisfied.
    pub closed spec fn position(&self) -> nat {
        if self.in_removals {
            (self.installs().len() + self.index) as nat
        } else {
            self.index as nat
        }
    }

    /// Whether the transaction holds any operation.
    pub closed spec fn has_queued(&self) -> bool {
        self.queued
    }

    pub closed spec fn error_spec(&self) -> Option<ReconcileError> {
        self.error
    }

    pub open spec fn total(&self) -> nat {
        self.installs().len() + self.removals().len()
    }

    pub closed spec fn wf(&self) -> bool {
        &&& self.diff.wf()
        &&& self.new_state.wf()
        &&& (!self.in_removals ==> self.index <= self.installs().len())
        &&& (self.in_removals ==> self.index <= self.removals().len())
        &&& (self.stage == Stage::Queueing ==> if self.in_removals {
            self.index < self.removals().len()
        } else {
            self.index < self.installs().len()
        })
        &&& (self.stage == Stage::Planned ==> !self.in_removals && self.index == 0 && !self.queued
            && self.total() > 0)
        &&& (self.stage == Stage::Aborted <==> self.error is Some)
    }

    /// Plans the run that takes `recorded` to `desired`.
    pub fn start(desired: &EntrySet, recorded: &EntrySet) -> (r: Reconciliation)
        requires
            desired.wf(),
            recorded.wf(),
        ensures
            r.wf(),
            r.install_set() == desired@.difference(recorded@),
            r.remove_set() == recorded@.difference(desired@),
            r.target() == committed_state(recorded@, r.install_set(), r.remove_set()),
            r.target() == desired@,
            r.position() == 0,
            !r.has_queued(),
            r.stage_spec() == initial_stage(desired@, recorded@),
            desired@ == recorded@ ==> r.stage_spec() == Stage::Finished,
    {
        let diff = compute_diff(desired, recorded);
        let new_state = next_state(recorded, &diff);
        proof {
            crate::diff::lemma_diff_correct(desired@, recorded@);
            crate::diff::lemma_empty_diff_iff_equal(desired@, recorded@);
            diff.to_install.lemma_view_is_listing();
            diff.to_remove.lemma_view_is_listing();
        }
        let empty = diff.is_empty();
        proof {
            if !empty {
                if diff.to_install@ != Set::<EntryModel>::empty() {
                    assert(diff.to_install.listing().len() > 0) by {
                        if diff.to_install.listing().len() == 0 {
                            assert(diff.to_install@ =~= Set::<EntryModel>::empty());
                        }
                    }
                } else {
                    assert(diff.to_remove.listing().len() > 0) by {
                        if diff.to_remove.listing().len() == 0 {
                            assert(diff.to_remove@ =~= Set::<EntryModel>::empty());
                        }
                    }
                }
            }
        }
        let stage = if empty {
            Stage::Finished
        } else {
            Stage::Planned
        };
        Reconciliation {
            diff,
            new_state,
            in_removals: false,
            index: 0,
            queued: false,
            stage,
            error: None,
        }
    }

    pub fn stage(&self) -> (r: Stage)
        ensures
            r == self.stage_spec(),
    {
        self.stage
    }

    pub fn to_install(&self) -> (r: &EntrySet)
        requires
            self.wf(),
        ensures
            r.wf(),
            r@ == self.install_set(),
            r.listing() == self.installs(),
    {
        &self.diff.to_install
    }

    pub fn to_remove(&self) -> (r: &EntrySet)
        requires
            self.wf(),
        ensures
            r.wf(),
            r@ == self.remove_set(),
            r.listing() == self.removals(),
    {
        &self.diff.to_remove
    }

    /// The state to write once the transaction has succeeded or was not needed.
    pub fn new_state(&self) -> (r: &EntrySet)
        requires
            self.wf(),
        ensures
            r.wf(),
            r@ == self.target(),
    {
        &self.new_state
    }

    /// Whether the transaction holds any operation so far.
    pub fn queued(&self) -> (r: bool)
        ensures
            r == self.has_queued(),
    {
        self.queued
    }

    /// The entry of the operation to queue next, and whether it is an install.
    pub open spec fn current(&self) -> (FlatpakDefinition, bool) {
        let n = self.installs().len();
        if self.position() < n {
            (self.installs()[self.position() as int], true)
        } else {
            (self.removals()[self.position() - n], false)
        }
    }

    /// What the caller must do next.
    pub fn action(&self) -> (r: Action)
        requires
            self.wf(),
        ensures
            self.stage_spec() == Stage::Planned ==> r is OpenTransaction,
            self.stage_spec() == Stage::Queueing ==> (if self.current().1 {
                r matches Action::AddInstall(e) && e@ == self.current().0@
            } else {
                r matches Action::AddUninstall(e) && e@ == self.current().0@
            }),
            self.stage_spec() == Stage::Executing ==> r is Execute,
            self.stage_spec() == Stage::Committing ==> r is Commit,
            self.stage_spec() == Stage::Finished ==> r is Done,
            self.stage_spec() == Stage::Aborted ==> r == Action::Fail(self.error_spec()->Some_0),
    {
        match self.stage {
            Stage::Planned => Action::OpenTransaction,
            Stage::Queueing => {
                if self.in_removals {
                    Action::AddUninstall(self.diff.to_remove.entries()[self.index].duplicate())
                } else {
                    Action::AddInstall(self.diff.to_install.entries()[self.index].duplicate())
                }
            },
            Stage::Executing => Action::Execute,
            Stage::Committing => Action::Commit,
            Stage::Finished => Action::Done,
            Stage::Aborted => match &self.error {
                Some(e) => Action::Fail(e.duplicate()),
                None => Action::Done,
            },
        }
    }

    /// Fields that no step but the one named changes.
    pub open spec fn same_plan(&self, other: &Reconciliation) -> bool {
        &&& self.installs() == other.installs()
        &&& self.removals() == other.removals()
        &&& self.install_set() == other.install_set()
        &&& self.remove_set() == other.remove_set()
        &&& self.target() == other.target()
    }

    fn abort(&mut self, e: ReconcileError)
        requires
            old(self).wf(),
        ensures
            final(self).wf(),
            final(self).same_plan(old(self)),
            final(self).position() == old(self).position(),
            final(self).has_queued() == old(self).has_queued(),
            final(self).stage_spec() == Stage::Aborted,
            final(self).error_spec() == Some(e),
    {
        self.stage = Stage::Aborted;
        self.error = Some(e);
    }

    /// Records whether the transaction could be opened.
    pub fn on_opened(&mut self, result: Result<(), String>)
        requires
            old(self).wf(),
        ensures
            final(self).wf(),
            final(self).same_plan(old(self)),
            final(self).position() == old(self).position(),
            final(self).has_queued() == old(self).has_queued(),
            old(self).stage_spec() != Stage::Planned ==> *final(self) == *old(self),
            old(self).stage_spec() == Stage::Planned ==> match result {
                Ok(_) => final(self).stage_spec() == Stage::Queueing,
                Err(m) => final(self).stage_spec() == Stage::Aborted && final(self).error_spec()
                    == Some(ReconcileError::Transaction(m)),
            },
    {
        if self.stage == Stage::Planned {
            match result {
                Ok(()) => {
                    if self.diff.to_install.entries().len() == 0 {
                        self.in_removals = true;
                    }
                    self.stage = Stage::Queueing;
                },
                Err(m) => {
                    self.abort(ReconcileError::Transaction(m));
                },
            }
        }
    }

    /// Records what the transaction answered to the operation just queued.
    /// An install of a package already installed, or a removal of one not
    /// installed, counts as done; any other refusal stops the run.
    pub fn on_added(&mut self, outcome: OpOutcome)
        requires
            old(self).wf(),
        ensures
            final(self).wf(),
            final(self).same_plan(old(self)),
            old(self).stage_spec() != Stage::Queueing ==> *final(self) == *old(self),
            old(self).stage_spec() == Stage::Queueing && tolerated(outcome, old(self).current().1)
                ==> {
                &&& final(self).position() == old(self).position() + 1
                &&& final(self).has_queued() == (old(self).has_queued() || outcome is Added)
                &&& final(self).stage_spec() == stage_after_queue(
                    final(self).position(),
                    final(self).total(),
                    final(self).has_queued(),
                )
            },
            old(self).stage_spec() == Stage::Queueing && !tolerated(outcome, old(self).current().1)
                ==> {
                &&& final(self).stage_spec() == Stage::Aborted
                &&& final(self).error_spec() == Some(
                    ReconcileError::Transaction(outcome->Rejected_1),
                )
            },
    {
        if self.stage != Stage::Queueing {
            return;
        }
        let is_install = !self.in_removals;
        let ok = match &outcome {
            OpOutcome::Added => true,
            OpOutcome::Rejected(kind, _) => (is_install && *kind == RejectKind::AlreadyInstalled)
                || (!is_install && *kind == RejectKind::NotInstalled),
        };
        if !ok {
            match outcome {
                OpOutcome::Rejected(_, m) => self.abort(ReconcileError::Transaction(m)),
                OpOutcome::Added => {},
            }
            return;
        }
        if let OpOutcome::Added = outcome {
            self.queued = true;
        }
        let ni = self.diff.to_install.entries().len();
        let nr = self.diff.to_remove.entries().len();
        self.index = self.index + 1;
        if !self.in_removals && self.index == ni {
            self.in_removals = true;
            self.index = 0;
        }
        if self.in_removals && self.index == nr {
            self.stage = if self.queued {
                Stage::Executing
            } else {
                Stage::Committing
            };
        }
    }

    /// Records whether the transaction ran.
    pub fn on_executed(&mut self, result: Result<(), String>)
        requires
            old(self).wf(),
        ensures
            final(self).wf(),
            final(self).same_plan(old(self)),
            final(self).position() == old(self).position(),
            final(self).has_queued() == old(self).has_queued(),
            old(self).stage_spec() != Stage::Executing ==> *final(self) == *old(self),
            old(self).stage_spec() == Stage::Executing ==> match result {
                Ok(_) => final(self).stage_spec() == Stage::Committing,
                Err(m) => final(self).stage_spec() == Stage::Aborted && final(self).error_spec()
                    == Some(ReconcileError::Transaction(m)),
            },
    {
        if self.stage == Stage::Executing {
            match result {
                Ok(()) => {
                    self.stage = Stage::Committing;
                },
                Err(m) => {
                    self.abort(ReconcileError::Transaction(m));
                },
            }
        }
    }

    /// Records whether the new state was written.
    pub fn on_committed(&mut self, result: Result<(), String>)
        requires
            old(self).wf(),
        ensures
            final(self).wf(),
            final(self).same_plan(old(self)),
            final(self).position() == old(self).position(),
            final(self).has_queued() == old(self).has_queued(),
            old(self).stage_spec() != Stage::Committing ==> *final(self) == *old(self),
            old(self).stage_spec() == Stage::Committing ==> match result {
                Ok(_) => final(self).stage_spec() == Stage::Finished,
                Err(m) => final(self).stage_spec() == Stage::Aborted && final(self).error_spec()
                    == Some(ReconcileError::Commit(m)),
            },
    {
        if self.stage == Stage::Committing {
            match result {
                Ok(()) => {
                    self.stage = Stage::Finished;
                },
                Err(m) => {
                    self.abort(ReconcileError::Commit(m));
                },
            }
        }
    }
}

} // verus!
