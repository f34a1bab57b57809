use vstd::prelude::*;

use crate::error::{ScoreError, WritePhase};

verus! {

/// What the caller performs next for a batch insert.
#[derive(Clone, Copy, Debug)]
pub enum InsertAction {
    /// Open a batch write scope on the store.
    OpenScope,
    /// Write the row at this index of the batch into the open scope.
    WriteRow(usize),
    /// Finalize the open scope.
    Commit,
    /// The insert is over, with this outcome.
    Finish(Result<(), ScoreError>),
}

/// What the store reported of the last action.
#[derive(Clone, Copy, Debug, PartialEq, Eq, Structural)]
pub enum InsertEvent {
    ScopeOpened,
    OpenFailed,
    RowWritten,
    WriteFailed,
    Committed,
    CommitFailed,
}

/// Where a batch insert stands.
#[derive(Clone, Copy, Debug)]
pub enum InsertState {
    Opening,
    Writing(usize),
    Committing,
    Finished(Result<(), ScoreError>),
}

/// The decisions of one batch insert of `total` rows: open a scope, write
/// each row in order, commit; stop at the first failure and report its step.
pub struct InsertSession {
    pub total: usize,
    pub state: InsertState,
}

/// The action that a state waits on.
pub open spec fn pending(state: InsertState) -> InsertAction {
    match state {
        InsertState::Opening => InsertAction::OpenScope,
        InsertState::Writing(k) => InsertAction::WriteRow(k),
        InsertState::Committing => InsertAction::Commit,
        InsertState::Finished(o) => InsertAction::Finish(o),
    }
}

pub open spec fn write_failure(phase: WritePhase) -> Result<(), ScoreError> {
    Err(ScoreError::StoreWriteFailure(phase))
}

/// The first state of an insert of `total` rows: an empty batch is done at
/// once, with success.
pub open spec fn initial_state(total: usize) -> InsertState {
    if total == 0 {
        InsertState::Finished(Ok(()))
    } else {
        InsertState::Opening
    }
}

/// The state after `event` in `state`. An event that does not answer the
/// pending action leaves the state as it is.
pub open spec fn next_state(total: usize, state: InsertState, event: InsertEvent) -> InsertState {
    match (state, event) {
        (InsertState::Opening, InsertEvent::ScopeOpened) => InsertState::Writing(0),
        (InsertState::Opening, InsertEvent::OpenFailed) => InsertState::Finished(
            write_failure(WritePhase::Open),
        ),
        (InsertState::Writing(k), InsertEvent::RowWritten) => if k + 1 < total {
            InsertState::Writing((k + 1) as usize)
        } else {
            InsertState::Committing
        },
        (InsertState::Writing(_), InsertEvent::WriteFailed) => InsertState::Finished(
            write_failure(WritePhase::Write),
        ),
        (InsertState::Committing, InsertEvent::Committed) => InsertState::Finished(Ok(())),
        (InsertState::Committing, InsertEvent::CommitFailed) => InsertState::Finished(
            write_failure(WritePhase::Commit),
        ),
        _ => state,
    }
}

/// The state after a sequence of events from the first state.
pub open spec fn state_after(total: usize, events: Seq<InsertEvent>) -> InsertState
    decreases events.len(),
{
    if events.len() == 0 {
        initial_state(total)
    } else {
        next_state(total, state_after(total, events.drop_last()), events.last())
    }
}

impl InsertSession {
    /// Every row index that the session can ask for lies in the batch.
    pub open spec fn wf(&self) -> bool {
        match self.state {
            InsertState::Opening => self.total > 0,
            InsertState::Writing(k) => k < self.total,
            InsertState::Committing => self.total > 0,
            InsertState::Finished(_) => true,
        }
    }

    /// Starts the insert of a batch of `total` rows and gives the first
    /// action: for an empty batch, success with no write at all.
    pub fn start(total: usize) -> (r: (InsertSession, InsertAction))
        ensures
            r.0.wf(),
            r.0.total == total,
            r.0.state == initial_state(total),
            r.1 == pending(r.0.state),
            total == 0 ==> r.1 == InsertAction::Finish(Ok(())),
            total > 0 ==> r.1 == InsertAction::OpenScope,
    {
        if total == 0 {
            (InsertSession { total, state: InsertState::Finished(Ok(())) }, InsertAction::Finish(Ok(())))
        } else {
            (InsertSession { total, state: InsertState::Opening }, InsertAction::OpenScope)
        }
    }

    /// Takes the store's answer to the pending action and gives the next one.
    pub fn step(&mut self, event: InsertEvent) -> (r: InsertAction)
        requires
            old(self).wf(),
        ensures
            final(self).wf(),
            final(self).total == old(self).total,
            final(self).state == next_state(old(self).total, old(self).state, event),
            r == pending(final(self).state),
    {
        let total = self.total;
        match (&self.state, event) {
            (InsertState::Opening, InsertEvent::ScopeOpened) => {
                self.state = InsertState::Writing(0);
                InsertAction::WriteRow(0)
            },
            (InsertState::Opening, InsertEvent::OpenFailed) => {
                self.state = InsertState::Finished(Err(ScoreError::StoreWriteFailure(WritePhase::Open)));
                InsertAction::Finish(Err(ScoreError::StoreWriteFailure(WritePhase::Open)))
            },
            (InsertState::Writing(k), InsertEvent::RowWritten) => {
                let k = *k;
                if k + 1 < total {
                    self.state = InsertState::Writing(k + 1);
                    InsertAction::WriteRow(k + 1)
                } else {
                    self.state = InsertState::Committing;
                    InsertAction::Commit
                }
            },
            (InsertState::Writing(_), InsertEvent::WriteFailed) => {
                self.state = InsertState::Finished(Err(ScoreError::StoreWriteFailure(WritePhase::Write)));
                InsertAction::Finish(Err(ScoreError::StoreWriteFailure(WritePhase::Write)))
            },
            (InsertState::Committing, InsertEvent::Committed) => {
                self.state = InsertState::Finished(Ok(()));
                InsertAction::Finish(Ok(()))
            },
            (InsertState::Committing, InsertEvent::CommitFailed) => {
                self.state = InsertState::Finished(Err(ScoreError::StoreWriteFailure(WritePhase::Commit)));
                InsertAction::Finish(Err(ScoreError::StoreWriteFailure(WritePhase::Commit)))
            },
            (InsertState::Opening, _) => InsertAction::OpenScope,
            (InsertState::Writing(k), _) => InsertAction::WriteRow(*k),
            (InsertState::Committing, _) => InsertAction::Commit,
            (InsertState::Finished(o), _) => InsertAction::Finish(*o),
        }
    }
}

/// An insert of an empty batch stays finished with success whatever the
/// store reports: it never asks to open a scope, write a row or commit.
pub proof fn lemma_empty_batch_never_writes(events: Seq<InsertEvent>)
    ensures
        state_after(0, events) == InsertState::Finished(Ok(())),
        pending(state_after(0, events)) == InsertAction::Finish(Ok(())),
    decreases events.len(),
{
    if events.len() > 0 {
        lemma_empty_batch_never_writes(events.drop_last());
    }
}

/// Rows are asked for in order: after `k` successful writes in a scope
/// that opened, the session asks for row `k`, or commits once every row of
/// the batch is written.
pub proof fn lemma_rows_written_in_order(total: usize, k: nat)
    requires
        total > 0,
    ensures
        ({
            let events = seq![InsertEvent::ScopeOpened] + Seq::new(k, |i: int| InsertEvent::RowWritten);
            &&& k < total ==> state_after(total, events) == InsertState::Writing(k as usize)
            &&& k >= total ==> state_after(total, events) == InsertState::Committing
        }),
    decreases k,
{
    let events = seq![InsertEvent::ScopeOpened] + Seq::new(k, |i: int| InsertEvent::RowWritten);
    if k == 0 {
        assert(events.drop_last() =~= Seq::<InsertEvent>::empty());
    } else {
        let prev = seq![InsertEvent::ScopeOpened] + Seq::new((k - 1) as nat, |i: int| InsertEvent::RowWritten);
        assert(events.drop_last() =~= prev);
        lemma_rows_written_in_order(total, (k - 1) as nat);
    }
}

} // verus!
