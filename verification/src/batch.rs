use vstd::prelude::*;
use crate::sql::Statement;

verus! {

/// How a batch of statements is run.
#[derive(Clone, Debug, PartialEq, Eq)]
pub enum BatchMode {
    /// Statements run one after the other; the first failure ends the batch
    /// with that failure (the caller owns any transaction around it).
    Direct,
    /// Statements run inside a transaction of the batch's own: the first
    /// failure rolls it back and ends the batch with that failure; after the
    /// last statement the transaction is committed.
    Transaction,
}

/// The statements of one write operation, in the order they run, and how
/// they are run.
#[derive(Clone, Debug, PartialEq, Eq)]
pub struct Batch {
    pub statements: Vec<Statement>,
    pub mode: BatchMode,
}

/// What the batch asks its driver to do next.
#[derive(Debug, PartialEq, Eq)]
pub enum BatchStep<E> {
    /// Execute the statement at this index of the plan.
    Execute(usize),
    /// Commit the transaction.
    Commit,
    /// Roll the transaction back.
    Rollback,
    /// The batch is over: the sum of the affected row counts, or the failure.
    Done(Result<usize, E>),
}

/// What the driver reports back.
#[derive(Debug, PartialEq, Eq)]
pub enum BatchEvent<E> {
    /// The statement it was asked to execute affected this many rows, or failed.
    Executed(Result<usize, E>),
    /// The commit succeeded or failed.
    Committed(Result<(), E>),
    /// The rollback is done.
    RolledBack,
}

/// Where a batch stands.
#[derive(Clone, Debug, PartialEq, Eq)]
pub enum BatchStatus {
    Running,
    Committing,
    RollingBack,
    Finished,
}

enum Phase<E> {
    Running,
    Committing,
    RollingBack(E),
    Finished,
}

/// The sum of the affected row counts `s`.
pub open spec fn total_rows(s: Seq<usize>) -> int
    decreases s.len(),
{
    if s.len() == 0 {
        0
    } else {
        total_rows(s.drop_last()) + s.last()
    }
}

/// The decisions of a batch of `len` statements: which statement to execute
/// next, when to commit or roll back, and what the batch returns.
pub struct BatchRun<E> {
    mode: BatchMode,
    len: usize,
    done: usize,
    total: usize,
    phase: Phase<E>,
    counts: Ghost<Seq<usize>>,
}

impl<E> BatchRun<E> {
    pub closed spec fn mode(&self) -> BatchMode {
        self.mode
    }

    /// The number of statements in the plan.
    pub closed spec fn len(&self) -> nat {
        self.len as nat
    }

    /// The affected row counts of the statements executed so far, in order.
    pub closed spec fn executed(&self) -> Seq<usize> {
        self.counts@
    }

    pub closed spec fn status(&self) -> BatchStatus {
        match self.phase {
            Phase::Running => BatchStatus::Running,
            Phase::Committing => BatchStatus::Committing,
            Phase::RollingBack(_) => BatchStatus::RollingBack,
            Phase::Finished => BatchStatus::Finished,
        }
    }

    /// The failure that a pending rollback will end the batch with.
    pub closed spec fn pending_error(&self) -> E
        recommends
            self.status() is RollingBack,
    {
        match self.phase {
            Phase::RollingBack(e) => e,
            _ => arbitrary(),
        }
    }

    pub closed spec fn wf(&self) -> bool {
        &&& self.total == total_rows(self.counts@)
        &&& self.done == self.counts@.len()
        &&& self.counts@.len() <= self.len
        &&& (self.phase is Running ==> self.counts@.len() < self.len)
        &&& (self.phase is Committing ==> self.mode is Transaction && self.counts@.len()
            == self.len)
        &&& (self.phase is RollingBack ==> self.mode is Transaction)
    }

    /// Whether `ev` is the kind of event that the batch waits for.
    pub open spec fn accepts(&self, ev: BatchEvent<E>) -> bool {
        match self.status() {
            BatchStatus::Running => match ev {
                BatchEvent::Executed(Ok(n)) => total_rows(self.executed()) + n <= usize::MAX,
                BatchEvent::Executed(Err(_)) => true,
                _ => false,
            },
            BatchStatus::Committing => ev is Committed,
            BatchStatus::RollingBack => ev is RolledBack,
            BatchStatus::Finished => false,
        }
    }

    /// Starts a batch of `len` statements.
    pub fn start(len: usize, mode: BatchMode) -> (res: (Self, BatchStep<E>))
        ensures
            res.0.wf(),
            res.0.mode() == mode,
            res.0.len() == len,
            res.0.executed() == Seq::<usize>::empty(),
            len > 0 ==> res.1 == BatchStep::<E>::Execute(0) && res.0.status() is Running,
            len == 0 && mode is Direct ==> res.1 == BatchStep::<E>::Done(Ok(0))
                && res.0.status() is Finished,
            len == 0 && mode is Transaction ==> res.1 is Commit && res.0.status() is Committing,
    {
        let ghost empty = Seq::<usize>::empty();
        if len > 0 {
            (
                BatchRun { mode, len, done: 0, total: 0, phase: Phase::Running, counts: Ghost(empty) },
                BatchStep::Execute(0),
            )
        } else {
            match mode {
                BatchMode::Direct => (
                    BatchRun { mode, len, done: 0, total: 0, phase: Phase::Finished, counts: Ghost(empty) },
                    BatchStep::Done(Ok(0)),
                ),
                BatchMode::Transaction => (
                    BatchRun {
                        mode,
                        len,
                        done: 0,
                        total: 0,
                        phase: Phase::Committing,
                        counts: Ghost(empty),
                    },
                    BatchStep::Commit,
                ),
            }
        }
    }

    /// The sum of the affected row counts so far.
    pub fn affected_rows(&self) -> (n: usize)
        requires
            self.wf(),
        ensures
            n == total_rows(self.executed()),
    {
        self.total
    }

    /// Takes in what the driver did and decides what comes next.
    pub fn step(&mut self, ev: BatchEvent<E>) -> (step: BatchStep<E>)
        requires
            old(self).wf(),
            old(self).accepts(ev),
        ensures
            final(self).wf(),
            final(self).mode() == old(self).mode(),
            final(self).len() == old(self).len(),
            match ev {
                BatchEvent::Executed(Ok(n)) => {
                    &&& final(self).executed() == old(self).executed().push(n)
                    &&& if final(self).executed().len() < final(self).len() {
                        step == BatchStep::<E>::Execute(final(self).executed().len() as usize)
                            && final(self).status() is Running
                    } else if old(self).mode() is Direct {
                        step == BatchStep::<E>::Done(
                            Ok(total_rows(final(self).executed()) as usize),
                        ) && final(self).status() is Finished
                    } else {
                        step is Commit && final(self).status() is Committing
                    }
                },
                BatchEvent::Executed(Err(e)) => {
                    &&& final(self).executed() == old(self).executed()
                    &&& if old(self).mode() is Direct {
                        step == BatchStep::<E>::Done(Err(e)) && final(self).status() is Finished
                    } else {
                        step is Rollback && final(self).status() is RollingBack
                            && final(self).pending_error() == e
                    }
                },
                BatchEvent::Committed(Ok(())) => {
                    &&& final(self).executed() == old(self).executed()
                    &&& step == BatchStep::<E>::Done(Ok(total_rows(old(self).executed()) as usize))
                    &&& final(self).status() is Finished
                },
                BatchEvent::Committed(Err(e)) => {
                    &&& final(self).executed() == old(self).executed()
                    &&& step == BatchStep::<E>::Done(Err(e))
                    &&& final(self).status() is Finished
                },
                BatchEvent::RolledBack => {
                    &&& final(self).executed() == old(self).executed()
                    &&& step == BatchStep::<E>::Done(Err(old(self).pending_error()))
                    &&& final(self).status() is Finished
                },
            },
            // Statements are executed in plan order, each once.
            step matches BatchStep::Execute(i) ==> i == final(self).executed().len() && i
                < final(self).len(),
            // Success means that every statement ran (and, in a transaction, that
            // the commit succeeded), and it returns the sum of their row counts.
            step matches BatchStep::Done(Ok(n)) ==> {
                &&& final(self).executed().len() == final(self).len()
                &&& n == total_rows(final(self).executed())
                &&& (final(self).mode() is Transaction ==> ev matches BatchEvent::Committed(Ok(_)))
            },
            // After a failed statement no other statement runs and nothing is committed.
            ev matches BatchEvent::Executed(Err(_)) ==> (step is Rollback || step is Done),
            // In a transaction, a failure is only returned after a rollback or a
            // failed commit.
            (final(self).mode() is Transaction && (step matches BatchStep::Done(Err(_)))) ==> (
            ev is RolledBack || (ev matches BatchEvent::Committed(Err(_)))),
    {
        let ghost old_counts = self.counts@;
        match ev {
            BatchEvent::Executed(Ok(n)) => {
                proof {
                    assert(old_counts.push(n).drop_last() =~= old_counts);
                }
                self.total = self.total + n;
                self.counts = Ghost(old_counts.push(n));
                self.done = self.done + 1;
                if self.done < self.len {
                    self.phase = Phase::Running;
                    BatchStep::Execute(self.done)
                } else {
                    match self.mode {
                        BatchMode::Direct => {
                            self.phase = Phase::Finished;
                            BatchStep::Done(Ok(self.total))
                        },
                        BatchMode::Transaction => {
                            self.phase = Phase::Committing;
                            BatchStep::Commit
                        },
                    }
                }
            },
            BatchEvent::Executed(Err(e)) => {
                match self.mode {
                    BatchMode::Direct => {
                        self.phase = Phase::Finished;
                        BatchStep::Done(Err(e))
                    },
                    BatchMode::Transaction => {
                        self.phase = Phase::RollingBack(e);
                        BatchStep::Rollback
                    },
                }
            },
            BatchEvent::Committed(Ok(())) => {
                self.phase = Phase::Finished;
                BatchStep::Done(Ok(self.total))
            },
            BatchEvent::Committed(Err(e)) => {
                self.phase = Phase::Finished;
                BatchStep::Done(Err(e))
            },
            BatchEvent::RolledBack => {
                let mut phase = Phase::Finished;
                std::mem::swap(&mut phase, &mut self.phase);
                match phase {
                    Phase::RollingBack(e) => BatchStep::Done(Err(e)),
                    _ => {
                        proof {
                            assert(false);
                        }
                        BatchStep::Done(Ok(self.total))
                    },
                }
            },
        }
    }
}

} // verus!
