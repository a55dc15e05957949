//! The scheduler: which thread may run a unit, and what happens to a unit
//! that is submitted.
//!
//! Units run on one thread only, the reactor thread. A unit submitted there
//! is handed straight back to be run, unless it woke itself while running;
//! every other unit goes into the queue, and the reactor thread takes it out
//! again when the notifier wakes it.
//!
//! A scheduler is used through `&mut self`, so that its contracts can speak of
//! what the queue holds. Callers on several threads share one scheduler behind
//! a lock, which they hold for one call at a time and never while a unit runs:
//! a running unit may submit units itself.

use crate::channel;
use async_task::Runnable;
use crossbeam_channel::{Receiver, Sender};
use vstd::multiset::Multiset;
use vstd::prelude::*;

verus! {

broadcast use vstd::multiset::group_multiset_axioms;

/// What a scheduler is, for its contracts.
pub struct Scheduling {
    /// The reactor thread, once it is known.
    pub reactor: Option<i64>,
    /// The units that wait in the queue.
    pub waiting: Multiset<Runnable>,
}

impl Scheduling {
    /// A scheduler that has seen no thread and no unit.
    pub open spec fn initial() -> Scheduling {
        Scheduling { reactor: None, waiting: Multiset::empty() }
    }

    /// Whether `tid` is the reactor thread. Until that thread is known, no
    /// thread is.
    pub open spec fn on_reactor(self, tid: i64) -> bool {
        self.reactor == Some(tid)
    }

    /// Whether a unit submitted by thread `tid` is run at once: only on the
    /// reactor thread, and only if the unit did not wake itself while running.
    pub open spec fn runs_inline(self, tid: i64, reentrant_wake: bool) -> bool {
        self.on_reactor(tid) && !reentrant_wake
    }

    /// The scheduler after the readiness callback has run on thread `tid`:
    /// the first such thread is the reactor thread from then on.
    pub open spec fn entered(self, tid: i64) -> Scheduling {
        Scheduling {
            reactor: if self.reactor is None { Some(tid) } else { self.reactor },
            waiting: self.waiting,
        }
    }

    /// What becomes of `unit` when thread `tid` submits it: it is handed back
    /// to be run at once, or it is queued.
    pub open spec fn dispatched(self, unit: Runnable, reentrant_wake: bool, tid: i64) -> Dispatch {
        if self.runs_inline(tid, reentrant_wake) {
            Dispatch::RunInline(unit)
        } else {
            Dispatch::Queued
        }
    }

    /// The scheduler after thread `tid` has submitted `unit`: a unit that is
    /// not run at once waits in the queue.
    pub open spec fn submitted(self, unit: Runnable, reentrant_wake: bool, tid: i64) -> Scheduling {
        if self.runs_inline(tid, reentrant_wake) {
            self
        } else {
            Scheduling { reactor: self.reactor, waiting: self.waiting.insert(unit) }
        }
    }

    /// The units that thread `tid` gets when it takes the waiting units out:
    /// all of them on the reactor thread, none on any other.
    pub open spec fn ready(self, tid: i64) -> Multiset<Runnable> {
        if self.on_reactor(tid) {
            self.waiting
        } else {
            Multiset::empty()
        }
    }

    /// The scheduler after thread `tid` has taken the waiting units out: the
    /// reactor thread empties the queue, any other thread leaves it alone.
    pub open spec fn drained(self, tid: i64) -> Scheduling {
        if self.on_reactor(tid) {
            Scheduling { reactor: self.reactor, waiting: Multiset::empty() }
        } else {
            self
        }
    }
}

/// One thing that is done with a scheduler.
pub enum Step {
    /// Thread `tid` submits `unit`; `reentrant_wake` says whether the unit
    /// woke itself while running.
    Submit { unit: Runnable, reentrant_wake: bool, tid: i64 },
    /// The readiness callback starts on thread `tid`.
    Enter { tid: i64 },
    /// Thread `tid` takes the waiting units out.
    Drain { tid: i64 },
}

impl Scheduling {
    /// The scheduler after one step.
    pub open spec fn step(self, step: Step) -> Scheduling {
        match step {
            Step::Submit { unit, reentrant_wake, tid } => self.submitted(unit, reentrant_wake, tid),
            Step::Enter { tid } => self.entered(tid),
            Step::Drain { tid } => self.drained(tid),
        }
    }

    /// The units that one step hands out to be run: the unit of a submission
    /// that is run at once, and the units that a drain takes out.
    pub open spec fn handed_out(self, step: Step) -> Multiset<Runnable> {
        match step {
            Step::Submit { unit, reentrant_wake, tid } => if self.runs_inline(
                tid,
                reentrant_wake,
            ) {
                Multiset::singleton(unit)
            } else {
                Multiset::empty()
            },
            Step::Enter { tid } => Multiset::empty(),
            Step::Drain { tid } => self.ready(tid),
        }
    }

    /// The scheduler after the steps `steps`, taken one after the other.
    pub open spec fn after(self, steps: Seq<Step>) -> Scheduling
        decreases steps.len(),
    {
        if steps.len() == 0 {
            self
        } else {
            self.after(steps.drop_last()).step(steps.last())
        }
    }

    /// All the units that the steps `steps` hand out to be run, each as often
    /// as it is handed out.
    pub open spec fn handed_out_over(self, steps: Seq<Step>) -> Multiset<Runnable>
        decreases steps.len(),
    {
        if steps.len() == 0 {
            Multiset::empty()
        } else {
            self.handed_out_over(steps.drop_last()).add(
                self.after(steps.drop_last()).handed_out(steps.last()),
            )
        }
    }
}

/// The units that are submitted in the steps `steps`, each as often as it is
/// submitted.
pub open spec fn submitted_in(steps: Seq<Step>) -> Multiset<Runnable>
    decreases steps.len(),
{
    if steps.len() == 0 {
        Multiset::empty()
    } else {
        match steps.last() {
            Step::Submit { unit, reentrant_wake, tid } => submitted_in(steps.drop_last()).insert(
                unit,
            ),
            _ => submitted_in(steps.drop_last()),
        }
    }
}

/// What became of a submitted unit.
#[derive(Debug)]
pub enum Dispatch {
    /// The unit is handed back: the caller is on the reactor thread and runs
    /// it now, before it returns to whoever submitted the unit.
    RunInline(Runnable),
    /// The unit is in the queue: the caller signals the notifier, once.
    Queued,
}

/// The queue of units that are ready to run, and the thread that runs them.
#[derive(Debug)]
pub struct Scheduler {
    reactor: Option<i64>,
    queue: (Sender<Runnable>, Receiver<Runnable>),
}

impl View for Scheduler {
    type V = Scheduling;

    closed spec fn view(&self) -> Scheduling {
        Scheduling { reactor: self.reactor, waiting: channel::waiting(self.queue) }
    }
}

impl Scheduler {
    #[verifier::type_invariant]
    spec fn queue_is_one_channel(self) -> bool {
        channel::is_channel(self.queue)
    }

    /// A scheduler with an empty queue, which knows no reactor thread yet.
    pub fn new() -> (s: Scheduler)
        ensures
            s@ == Scheduling::initial(),
    {
        Scheduler { reactor: None, queue: channel::open() }
    }

    /// Notes that the readiness callback runs on thread `tid`. The first call
    /// makes `tid` the reactor thread; later calls change nothing.
    pub fn enter_reactor(&mut self, tid: i64)
        ensures
            final(self)@ == old(self)@.entered(tid),
    {
        proof {
            use_type_invariant(&*self);
        }
        if self.reactor.is_none() {
            self.reactor = Some(tid);
        }
    }

    /// Whether thread `tid` is the reactor thread.
    fn on_reactor(&self, tid: i64) -> (yes: bool)
        ensures
            yes == self@.on_reactor(tid),
    {
        match self.reactor {
            Some(main_tid) => main_tid == tid,
            None => false,
        }
    }

    /// Takes a unit that thread `tid` submits. `reentrant_wake` says that the
    /// unit woke itself while it was running.
    ///
    /// On the reactor thread a unit that did not wake itself comes back as
    /// `RunInline`, for the caller to run before it returns, and the queue is
    /// as before. Any other unit goes into the queue and the result is
    /// `Queued`, for the caller to signal the notifier.
    pub fn schedule(&mut self, runnable: Runnable, reentrant_wake: bool, tid: i64) -> (r: Dispatch)
        ensures
            r == old(self)@.dispatched(runnable, reentrant_wake, tid),
            final(self)@ == old(self)@.submitted(runnable, reentrant_wake, tid),
    {
        proof {
            use_type_invariant(&*self);
        }
        let main = self.on_reactor(tid);
        if main && !reentrant_wake {
            Dispatch::RunInline(runnable)
        } else {
            match channel::send(&mut self.queue, runnable) {
                Ok(()) => Dispatch::Queued,
                Err(_) => unreached(),
            }
        }
    }

    /// Whether no unit waits in the queue.
    pub fn is_empty(&self) -> (empty: bool)
        ensures
            empty == (self@.waiting.len() == 0),
    {
        proof {
            use_type_invariant(self);
        }
        channel::is_empty(&self.queue)
    }

    /// Takes every waiting unit out of the queue, for thread `tid` to run.
    ///
    /// Only the reactor thread gets units: for any other thread the result is
    /// empty and the queue is as before.
    pub fn take_ready(&mut self, tid: i64) -> (ready: Vec<Runnable>)
        ensures
            ready@.to_multiset() == old(self)@.ready(tid),
            final(self)@ == old(self)@.drained(tid),
    {
        proof {
            use_type_invariant(&*self);
        }
        let mut ready: Vec<Runnable> = Vec::new();
        proof {
            lemma_none_taken(ready@, channel::waiting(self.queue));
        }
        if !self.on_reactor(tid) {
            return ready;
        }
        loop
            invariant
                self.reactor == old(self).reactor,
                channel::is_channel(self.queue),
                ready@.to_multiset().add(channel::waiting(self.queue)) == channel::waiting(
                    old(self).queue,
                ),
            ensures
                self.reactor == old(self).reactor,
                channel::is_channel(self.queue),
                channel::waiting(self.queue) == Multiset::<Runnable>::empty(),
                ready@.to_multiset() == channel::waiting(old(self).queue),
            decreases channel::waiting(self.queue).len(),
        {
            let ghost before = channel::waiting(self.queue);
            let ghost taken = ready@;
            match channel::try_recv(&mut self.queue) {
                Some(unit) => {
                    ready.push(unit);
                    proof {
                        lemma_one_more_taken(taken, before, unit);
                    }
                },
                None => {
                    proof {
                        lemma_all_taken(taken, before);
                    }
                    break ;
                },
            }
        }
        ready
    }
}

/// Whether thread `tid` is the reactor thread, the only one that may touch
/// what belongs to the reactor. Before the readiness callback has run for the
/// first time the answer is no, for every thread.
pub fn on_main_thread(scheduler: &Scheduler, tid: i64) -> (yes: bool)
    ensures
        yes == scheduler@.on_reactor(tid),
{
    scheduler.on_reactor(tid)
}

/// Schedules a new unit for the first time, on behalf of thread `tid`. A new
/// unit has not run yet, so it cannot have woken itself while running: on the
/// reactor thread it comes back to be run at once, on any other it is queued.
pub fn spawn(scheduler: &mut Scheduler, runnable: Runnable, tid: i64) -> (r: Dispatch)
    ensures
        r == old(scheduler)@.dispatched(runnable, false, tid),
        final(scheduler)@ == old(scheduler)@.submitted(runnable, false, tid),
{
    scheduler.schedule(runnable, false, tid)
}

/// Until the readiness callback has run, no thread counts as the reactor
/// thread, so nothing runs inline. The first thread that the callback runs on
/// is the reactor thread, and stays it.
pub proof fn lemma_first_to_enter_is_reactor(m: Scheduling, first: i64, later: i64, tid: i64)
    ensures
        !Scheduling::initial().on_reactor(tid),
        !Scheduling::initial().runs_inline(tid, false),
        Scheduling::initial().entered(first).on_reactor(tid) == (tid == first),
        m.entered(first).entered(later) == m.entered(first),
        m.entered(first).waiting == m.waiting,
{
}

/// Units run on one thread only. A thread that is not the reactor thread gets
/// no unit back when it submits one, and none when it takes the waiting units
/// out, which it leaves where they are. And once the reactor thread is known
/// it stays the same thread, whatever is done with the scheduler, so no two
/// threads are ever handed units to run.
pub proof fn lemma_one_thread_runs_every_unit(
    m: Scheduling,
    tid: i64,
    unit: Runnable,
    reentrant_wake: bool,
)
    ensures
        !m.on_reactor(tid) ==> !m.runs_inline(tid, reentrant_wake),
        !m.on_reactor(tid) ==> m.ready(tid) == Multiset::<Runnable>::empty(),
        !m.on_reactor(tid) ==> m.drained(tid) == m,
        m.reactor is Some ==> m.entered(tid).reactor == m.reactor,
        m.submitted(unit, reentrant_wake, tid).reactor == m.reactor,
        m.drained(tid).reactor == m.reactor,
{
}

/// A unit that is not run at once waits for the reactor thread: it is among
/// the units that the reactor thread takes out next, once more often than
/// before, and the queue is empty after that.
pub proof fn lemma_queued_unit_reaches_reactor(
    m: Scheduling,
    unit: Runnable,
    reentrant_wake: bool,
    tid: i64,
    reactor: i64,
)
    requires
        m.on_reactor(reactor),
        !m.runs_inline(tid, reentrant_wake),
    ensures
        m.dispatched(unit, reentrant_wake, tid) == Dispatch::Queued,
        m.submitted(unit, reentrant_wake, tid).ready(reactor).count(unit) == m.waiting.count(unit)
            + 1,
        m.submitted(unit, reentrant_wake, tid).drained(reactor).waiting.len() == 0,
{
}

/// No step loses or doubles a unit. Take any steps in any order: submissions
/// by any threads, starts of the readiness callback, drains. The units that
/// wait afterwards and the units that were handed out to be run on the way
/// are the units that waited before and the units that were submitted.
pub proof fn lemma_steps_keep_every_unit(m: Scheduling, steps: Seq<Step>)
    ensures
        m.after(steps).waiting.add(m.handed_out_over(steps)) == m.waiting.add(
            submitted_in(steps),
        ),
    decreases steps.len(),
{
    if steps.len() == 0 {
        assert(m.after(steps).waiting.add(m.handed_out_over(steps)) =~= m.waiting.add(
            submitted_in(steps),
        ));
    } else {
        let before = steps.drop_last();
        lemma_steps_keep_every_unit(m, before);
        let waited = m.after(before).waiting;
        let handed = m.handed_out_over(before);
        let units = submitted_in(before);
        assert forall|unit: Runnable|
            waited.count(unit) + handed.count(unit) == m.waiting.count(unit) + units.count(
                unit,
            ) by {
            assert(waited.add(handed).count(unit) == m.waiting.add(units).count(unit));
        }
        assert(m.after(steps).waiting.add(m.handed_out_over(steps)) =~= m.waiting.add(
            submitted_in(steps),
        ));
    }
}

/// Drain completeness. Start with an empty queue and take any steps in any
/// order, drains between the submissions as well as after them. Once the
/// queue is empty again, as it is after a drain on the reactor thread, every
/// submitted unit has been handed out to be run exactly as often as it was
/// submitted, at once or by a drain: none was skipped, none handed out twice,
/// and the numbers of units handed out add up to the number submitted.
pub proof fn lemma_drain_completeness(m: Scheduling, steps: Seq<Step>, reactor: i64)
    requires
        m.waiting.len() == 0,
    ensures
        m.after(steps).waiting.len() == 0 ==> m.handed_out_over(steps) == submitted_in(steps),
        m.after(steps).waiting.len() == 0 ==> m.handed_out_over(steps).len() == submitted_in(
            steps,
        ).len(),
        m.after(steps).waiting.len() == 0 ==> forall|unit: Runnable|
            m.handed_out_over(steps).count(unit) == #[trigger] submitted_in(steps).count(unit),
        m.after(steps).entered(reactor).on_reactor(reactor) ==> m.after(
            steps.push(Step::Enter { tid: reactor }).push(Step::Drain { tid: reactor }),
        ).waiting.len() == 0,
{
    lemma_steps_keep_every_unit(m, steps);
    vstd::multiset::lemma_multiset_empty_len(m.waiting);
    vstd::multiset::lemma_multiset_empty_len(m.after(steps).waiting);
    if m.after(steps).waiting.len() == 0 {
        assert(m.handed_out_over(steps) =~= m.after(steps).waiting.add(m.handed_out_over(steps)));
        assert(submitted_in(steps) =~= m.waiting.add(submitted_in(steps)));
    }
    let entered = steps.push(Step::Enter { tid: reactor });
    let drained = entered.push(Step::Drain { tid: reactor });
    assert(entered.drop_last() =~= steps);
    assert(drained.drop_last() =~= entered);
    assert(m.after(entered) == m.after(steps).entered(reactor));
    assert(m.after(drained) == m.after(entered).drained(reactor));
}

/// With nothing taken out yet, everything still waits.
proof fn lemma_none_taken(taken: Seq<Runnable>, waiting: Multiset<Runnable>)
    requires
        taken.len() == 0,
    ensures
        taken.to_multiset() == Multiset::<Runnable>::empty(),
        taken.to_multiset().add(waiting) == waiting,
{
    broadcast use vstd::seq_lib::group_to_multiset_ensures;

    vstd::multiset::lemma_multiset_empty_len(taken.to_multiset());
    assert(taken.to_multiset().add(waiting) =~= waiting);
}

/// Taking one waiting unit out moves it from the queue to what was taken, and
/// leaves the queue shorter.
proof fn lemma_one_more_taken(taken: Seq<Runnable>, waiting: Multiset<Runnable>, unit: Runnable)
    requires
        waiting.contains(unit),
    ensures
        taken.push(unit).to_multiset().add(waiting.remove(unit)) == taken.to_multiset().add(
            waiting,
        ),
        waiting.remove(unit).len() < waiting.len(),
{
    broadcast use vstd::seq_lib::group_to_multiset_ensures;

    assert(taken.push(unit).to_multiset().add(waiting.remove(unit)) =~= taken.to_multiset().add(
        waiting,
    ));
}

/// Once the queue is empty, what was taken is all there was.
proof fn lemma_all_taken(taken: Seq<Runnable>, waiting: Multiset<Runnable>)
    requires
        waiting.len() == 0,
    ensures
        waiting == Multiset::<Runnable>::empty(),
        taken.to_multiset().add(waiting) == taken.to_multiset(),
{
    vstd::multiset::lemma_multiset_empty_len(waiting);
    assert(taken.to_multiset().add(waiting) =~= taken.to_multiset());
}

} // verus!
