//! Accounting for a batch of compressions that run side by side.
//!
//! Files arrive one by one, possibly from several invocations in quick
//! succession, and finish in any order. The files whose lifetimes overlap so
//! that the number in flight never drops to zero between them form one batch.
//! The unit of work whose completion empties the batch becomes its finalizer:
//! it waits for a grace period and then looks again. If nothing is in flight
//! at that moment it reports the totals; otherwise it stands down, and the
//! completion that next empties the batch takes over.
//!
//! All changes to a [`BatchState`] are expected to happen under one lock, so a
//! run of the system is a sequence of events. [`Ledger`] replays such a
//! sequence, and the proof functions at the end of this module state what
//! holds of every run.

use vstd::prelude::*;

verus! {

/// How long a finalizer waits before it looks at the batch again.
pub const GRACE_PERIOD_MS: u64 = 500;

/// How long a background process waits after its notification before it exits.
pub const EXIT_DELAY_MS: u64 = 300;

/// How the compression of one file ended.
#[derive(Debug, Clone, Copy, PartialEq, Eq, Structural)]
pub enum Outcome {
    Success,
    Failure,
}

/// The three counters of a batch, as natural numbers.
pub struct BatchCounts {
    pub pending: nat,
    pub successes: nat,
    pub failures: nat,
}

impl BatchCounts {
    /// No file in flight and nothing recorded.
    pub open spec fn idle() -> BatchCounts {
        BatchCounts { pending: 0, successes: 0, failures: 0 }
    }

    /// The number of files that the counters account for.
    pub open spec fn size(self) -> nat {
        self.pending + self.successes + self.failures
    }

    /// The counters after one more file was enqueued. A file that arrives
    /// while nothing is in flight starts a new batch, and the results of the
    /// previous one are dropped.
    pub open spec fn enqueue(self) -> BatchCounts {
        if self.pending == 0 {
            BatchCounts { pending: 1, successes: 0, failures: 0 }
        } else {
            BatchCounts { pending: self.pending + 1, ..self }
        }
    }

    /// The counters after `n` more files were enqueued, one after the other.
    pub open spec fn enqueue_many(self, n: nat) -> BatchCounts
        decreases n,
    {
        if n == 0 {
            self
        } else {
            self.enqueue_many((n - 1) as nat).enqueue()
        }
    }

    /// The counters after one file in flight has finished with `outcome`.
    pub open spec fn finish(self, outcome: Outcome) -> BatchCounts
        recommends
            self.pending > 0,
    {
        match outcome {
            Outcome::Success => BatchCounts {
                pending: (self.pending - 1) as nat,
                successes: self.successes + 1,
                ..self
            },
            Outcome::Failure => BatchCounts {
                pending: (self.pending - 1) as nat,
                failures: self.failures + 1,
                ..self
            },
        }
    }

    /// Whether the counters can take `n` more files without leaving the
    /// range of the machine integers that hold them.
    pub open spec fn has_room_for(self, n: nat) -> bool {
        if self.pending == 0 {
            n <= u64::MAX
        } else {
            self.size() + n <= u64::MAX
        }
    }

    /// What a finalizer reports when its grace period is over: the totals if
    /// nothing is in flight, nothing otherwise.
    pub open spec fn report(self) -> Option<(nat, nat)> {
        if self.pending == 0 {
            Some((self.successes, self.failures))
        } else {
            None
        }
    }
}

/// The right to close a batch. Only [`BatchState::file_done`] hands one out,
/// and only to the completion that emptied the batch; it is used up by
/// [`BatchState::grace_elapsed`].
pub struct FinalizerTicket {
    batch_size: u64,
}

impl FinalizerTicket {
    /// The number of files that the batch held when it ran empty.
    pub closed spec fn files(self) -> nat {
        self.batch_size as nat
    }

    /// The number of files that the batch held when it ran empty.
    pub fn batch_size(&self) -> (n: u64)
        ensures
            n == self.files(),
    {
        self.batch_size
    }
}

/// The counters of the batch that is running, or of the one that ran last.
pub struct BatchState {
    pending: u64,
    successes: u64,
    failures: u64,
}

impl View for BatchState {
    type V = BatchCounts;

    closed spec fn view(&self) -> BatchCounts {
        BatchCounts {
            pending: self.pending as nat,
            successes: self.successes as nat,
            failures: self.failures as nat,
        }
    }
}

impl BatchState {
    #[verifier::type_invariant]
    spec fn fits(self) -> bool {
        self.pending + self.successes + self.failures <= u64::MAX
    }

    /// A state in which nothing was ever enqueued.
    pub fn new() -> (state: BatchState)
        ensures
            state@ == BatchCounts::idle(),
    {
        BatchState { pending: 0, successes: 0, failures: 0 }
    }

    /// The number of files in flight.
    pub fn pending(&self) -> (n: u64)
        ensures
            n == self@.pending,
    {
        self.pending
    }

    /// The number of files of this batch that were compressed.
    pub fn successes(&self) -> (n: u64)
        ensures
            n == self@.successes,
    {
        self.successes
    }

    /// The number of files of this batch that could not be compressed.
    pub fn failures(&self) -> (n: u64)
        ensures
            n == self@.failures,
    {
        self.failures
    }

    /// Whether `n` more files can be enqueued.
    pub fn has_room_for(&self, n: usize) -> (room: bool)
        ensures
            room == self@.has_room_for(n as nat),
            self@.size() <= u64::MAX,
    {
        proof {
            use_type_invariant(self);
        }
        if self.pending == 0 {
            true
        } else {
            let used: u64 = self.pending + self.successes + self.failures;
            n as u64 <= u64::MAX - used
        }
    }

    /// Counts one more file as in flight. If nothing was in flight, a new
    /// batch starts and the recorded results go back to zero.
    pub fn enqueue_one(&mut self)
        requires
            old(self)@.has_room_for(1),
        ensures
            final(self)@ == old(self)@.enqueue(),
        no_unwind
    {
        proof {
            use_type_invariant(&*self);
        }
        if self.pending == 0 {
            self.successes = 0;
            self.failures = 0;
            self.pending = 1;
        } else {
            self.pending = self.pending + 1;
        }
    }

    /// Records how one file in flight ended. The result holds a ticket exactly
    /// when this completion left nothing in flight: the caller is then the
    /// finalizer of the batch and calls [`BatchState::grace_elapsed`] once
    /// [`GRACE_PERIOD_MS`] have passed.
    pub fn file_done(&mut self, outcome: Outcome) -> (ticket: Option<FinalizerTicket>)
        requires
            old(self)@.pending > 0,
        ensures
            final(self)@ == old(self)@.finish(outcome),
            ticket is Some <==> old(self)@.pending == 1,
            ticket is Some ==> ticket->0.files() == old(self)@.size(),
        no_unwind
    {
        proof {
            use_type_invariant(&*self);
        }
        match outcome {
            Outcome::Success => {
                self.pending = self.pending - 1;
                self.successes = self.successes + 1;
            },
            Outcome::Failure => {
                self.pending = self.pending - 1;
                self.failures = self.failures + 1;
            },
        }
        if self.pending == 0 {
            Some(FinalizerTicket { batch_size: self.successes + self.failures })
        } else {
            None
        }
    }

    /// The finalizer's second look, after the grace period. If files are in
    /// flight again the batch goes on and nothing is reported; the completion
    /// that next leaves nothing in flight gets a ticket of its own.
    pub fn grace_elapsed(&self, ticket: FinalizerTicket) -> (totals: Option<(u64, u64)>)
        ensures
            match totals {
                Some((successes, failures)) => self@.report() == Some(
                    (successes as nat, failures as nat),
                ),
                None => self@.report() is None,
            },
    {
        if self.pending == 0 {
            Some((self.successes, self.failures))
        } else {
            None
        }
    }
}

/// One step of a run, seen from the lock that guards the counters.
pub enum BatchEvent {
    /// A file was enqueued.
    Enqueued,
    /// A file in flight finished.
    Finished(Outcome),
    /// The grace period of a waiting finalizer ran out and it looked again.
    GraceElapsed,
}

/// What a run has done so far.
pub struct Ledger {
    /// The counters.
    pub counts: BatchCounts,
    /// The number of files enqueued since the running batch began.
    pub enqueued: nat,
    /// The number of finalizers whose grace period is running.
    pub waiting: nat,
    /// The sizes of the batches that ran empty, oldest first.
    pub drained: Seq<nat>,
    /// The totals that finalizers reported, oldest first.
    pub reports: Seq<(nat, nat)>,
}

impl Ledger {
    /// Before the first event.
    pub open spec fn start() -> Ledger {
        Ledger {
            counts: BatchCounts::idle(),
            enqueued: 0,
            waiting: 0,
            drained: Seq::empty(),
            reports: Seq::empty(),
        }
    }

    /// Whether `event` can happen now: a file can only finish while one is in
    /// flight, and only a waiting finalizer can look again.
    pub open spec fn admits(self, event: BatchEvent) -> bool {
        match event {
            BatchEvent::Enqueued => true,
            BatchEvent::Finished(_) => self.counts.pending > 0,
            BatchEvent::GraceElapsed => self.waiting > 0,
        }
    }

    /// Whether `event` leaves grace periods undisturbed: no file arrives
    /// while a finalizer waits.
    pub open spec fn undisturbed_by(self, event: BatchEvent) -> bool {
        event is Enqueued ==> self.waiting == 0
    }

    /// The ledger after `event`.
    pub open spec fn step(self, event: BatchEvent) -> Ledger {
        match event {
            BatchEvent::Enqueued => Ledger {
                counts: self.counts.enqueue(),
                enqueued: if self.counts.pending == 0 {
                    1
                } else {
                    self.enqueued + 1
                },
                ..self
            },
            BatchEvent::Finished(outcome) => if self.counts.pending == 1 {
                Ledger {
                    counts: self.counts.finish(outcome),
                    waiting: self.waiting + 1,
                    drained: self.drained.push(self.enqueued),
                    ..self
                }
            } else {
                Ledger { counts: self.counts.finish(outcome), ..self }
            },
            BatchEvent::GraceElapsed => match self.counts.report() {
                Some(totals) => Ledger {
                    waiting: (self.waiting - 1) as nat,
                    reports: self.reports.push(totals),
                    ..self
                },
                None => Ledger { waiting: (self.waiting - 1) as nat, ..self },
            },
        }
    }

    /// The ledger after all of `events`, in order.
    pub open spec fn replay(events: Seq<BatchEvent>) -> Ledger
        decreases events.len(),
    {
        if events.len() == 0 {
            Ledger::start()
        } else {
            Ledger::replay(events.drop_last()).step(events.last())
        }
    }

    /// Whether each of `events` could happen when it did.
    pub open spec fn admissible(events: Seq<BatchEvent>) -> bool
        decreases events.len(),
    {
        events.len() > 0 ==> Ledger::admissible(events.drop_last()) && Ledger::replay(
            events.drop_last(),
        ).admits(events.last())
    }

    /// Whether no file of `events` arrived during a grace period.
    pub open spec fn undisturbed(events: Seq<BatchEvent>) -> bool
        decreases events.len(),
    {
        events.len() > 0 ==> Ledger::undisturbed(events.drop_last()) && Ledger::replay(
            events.drop_last(),
        ).undisturbed_by(events.last())
    }

    /// What holds after every admissible run.
    pub open spec fn balanced(self) -> bool {
        &&& self.counts.size() == self.enqueued
        &&& self.reports.len() + self.waiting <= self.drained.len()
        &&& self.counts.pending == 0 && self.drained.len() > 0 ==> self.drained.last()
            == self.enqueued
        &&& self.waiting > 0 ==> self.drained.len() > 0
        &&& forall|i: int|
            0 <= i < self.reports.len() ==> self.drained.contains(
                (#[trigger] self.reports[i]).0 + self.reports[i].1,
            )
    }

    /// What holds in addition after a run whose grace periods were
    /// undisturbed.
    pub open spec fn settled(self) -> bool {
        &&& self.waiting <= 1
        &&& self.waiting == 1 ==> self.counts.pending == 0
        &&& self.reports.len() + self.waiting == self.drained.len()
        &&& forall|i: int|
            0 <= i < self.reports.len() ==> (#[trigger] self.reports[i]).0 + self.reports[i].1
                == self.drained[i]
    }
}

/// In every run the counters account for exactly the files that were enqueued
/// since the running batch began; finalizers never report more often than
/// batches ran empty; and the two numbers of every report add up to the size
/// of a batch that ran empty.
pub proof fn lemma_reports_account_for_batches(events: Seq<BatchEvent>)
    requires
        Ledger::admissible(events),
    ensures
        Ledger::replay(events).balanced(),
    decreases events.len(),
{
    if events.len() > 0 {
        let before = Ledger::replay(events.drop_last());
        let after = Ledger::replay(events);
        lemma_reports_account_for_batches(events.drop_last());
        assert forall|i: int| 0 <= i < after.reports.len() implies after.drained.contains(
            (#[trigger] after.reports[i]).0 + after.reports[i].1,
        ) by {
            if i < before.reports.len() {
                let n = before.reports[i].0 + before.reports[i].1;
                assert(before.drained.contains(n));
                let j = choose|j: int| 0 <= j < before.drained.len() && before.drained[j] == n;
                assert(after.drained[j] == n);
            } else {
                assert(after.drained.last() == before.enqueued);
            }
        }
    }
}

/// In a run in which no file arrives during a grace period, every batch that
/// ran empty is finalized exactly once, by the one finalizer that its last
/// completion elected, and the two numbers that this finalizer reports add up
/// to the number of files of that batch. At most one finalizer waits at any
/// time, and what it waits for is the batch that ran empty last.
pub proof fn lemma_one_finalization_per_batch(events: Seq<BatchEvent>)
    requires
        Ledger::admissible(events),
        Ledger::undisturbed(events),
    ensures
        Ledger::replay(events).settled(),
    decreases events.len(),
{
    if events.len() > 0 {
        let before = Ledger::replay(events.drop_last());
        lemma_one_finalization_per_batch(events.drop_last());
        lemma_reports_account_for_batches(events.drop_last());
    }
}

/// The counters move one file at a time: a completion takes one file out of
/// `pending` and puts it into `successes` or `failures`, so that the number
/// of files accounted for stays what it was; a file that joins a running
/// batch raises that number by one; and a file that arrives while nothing is
/// in flight starts the count again at one.
pub proof fn lemma_counts_move_one_file_at_a_time(counts: BatchCounts, outcome: Outcome)
    ensures
        counts.pending > 0 ==> counts.finish(outcome).size() == counts.size(),
        counts.pending > 0 ==> counts.finish(outcome).pending + 1 == counts.pending,
        counts.pending > 0 ==> counts.finish(outcome).successes + counts.finish(outcome).failures
            == counts.successes + counts.failures + 1,
        counts.pending > 0 ==> counts.enqueue().size() == counts.size() + 1,
        counts.pending == 0 ==> counts.enqueue() == (BatchCounts {
            pending: 1,
            successes: 0,
            failures: 0,
        }),
{
}

/// Enqueuing `n` files while `pending` is positive adds `n` to it and keeps
/// the recorded results; enqueuing `n > 0` files while nothing is in flight
/// starts a batch of `n` with nothing recorded.
pub proof fn lemma_enqueue_many(counts: BatchCounts, n: nat)
    ensures
        n == 0 ==> counts.enqueue_many(n) == counts,
        n > 0 && counts.pending == 0 ==> counts.enqueue_many(n) == (BatchCounts {
            pending: n,
            successes: 0,
            failures: 0,
        }),
        n > 0 && counts.pending > 0 ==> counts.enqueue_many(n) == (BatchCounts {
            pending: counts.pending + n,
            ..counts
        }),
    decreases n,
{
    if n > 0 {
        lemma_enqueue_many(counts, (n - 1) as nat);
    }
}

} // verus!
