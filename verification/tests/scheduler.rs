use std::future::Future;
use std::pin::Pin;
use std::sync::atomic::{AtomicI64, AtomicUsize, Ordering};
use std::sync::{Arc, Mutex};
use std::task::{Context, Poll};

use async_task::{Runnable, ScheduleInfo, Task, WithInfo};
use ngx_tickle::spawn::{on_main_thread, spawn, Dispatch, Scheduler};

const REACTOR: i64 = 1;
const WORKER: i64 = 2;

/// A unit that is handed to the test and never rescheduled by itself.
fn unit<F>(future: F) -> (Runnable, Task<F::Output>)
where
    F: Future + Send + 'static,
    F::Output: Send + 'static,
{
    async_task::spawn(future, |_runnable: Runnable| {})
}

/// A future that is not ready the first time it is polled, wakes itself, and
/// is ready the second time.
struct YieldOnce {
    yielded: bool,
}

impl Future for YieldOnce {
    type Output = ();

    fn poll(mut self: Pin<&mut Self>, cx: &mut Context<'_>) -> Poll<()> {
        if self.yielded {
            Poll::Ready(())
        } else {
            self.yielded = true;
            cx.waker().wake_by_ref();
            Poll::Pending
        }
    }
}

/// What stands around a scheduler when it is in use: the thread that the
/// calls are made on, and the counts that the tests look at.
struct Harness {
    scheduler: Mutex<Scheduler>,
    current: AtomicI64,
    signals: AtomicUsize,
    inline_runs: AtomicUsize,
}

impl Harness {
    fn new() -> Arc<Harness> {
        Arc::new(Harness {
            scheduler: Mutex::new(Scheduler::new()),
            current: AtomicI64::new(WORKER),
            signals: AtomicUsize::new(0),
            inline_runs: AtomicUsize::new(0),
        })
    }

    fn on_thread(&self, tid: i64) {
        self.current.store(tid, Ordering::SeqCst);
    }

    fn tid(&self) -> i64 {
        self.current.load(Ordering::SeqCst)
    }

    fn act(&self, dispatch: Dispatch) {
        match dispatch {
            Dispatch::RunInline(runnable) => {
                self.inline_runs.fetch_add(1, Ordering::SeqCst);
                runnable.run();
            }
            Dispatch::Queued => {
                self.signals.fetch_add(1, Ordering::SeqCst);
            }
        }
    }

    fn schedule(&self, runnable: Runnable, info: ScheduleInfo) {
        let tid = self.tid();
        let dispatch = self
            .scheduler
            .lock()
            .unwrap()
            .schedule(runnable, info.woken_while_running, tid);
        self.act(dispatch);
    }

    fn spawn<F>(self: &Arc<Self>, future: F) -> Task<F::Output>
    where
        F: Future + Send + 'static,
        F::Output: Send + 'static,
    {
        let harness = Arc::clone(self);
        let (runnable, task) = async_task::spawn(
            future,
            WithInfo(move |runnable: Runnable, info: ScheduleInfo| harness.schedule(runnable, info)),
        );
        let tid = self.tid();
        let first = spawn(&mut self.scheduler.lock().unwrap(), runnable, tid);
        self.act(first);
        task
    }

    /// One run of the readiness callback on thread `tid`: the number of units
    /// that it ran.
    fn drain_cycle(&self, tid: i64) -> usize {
        self.on_thread(tid);
        self.scheduler.lock().unwrap().enter_reactor(tid);
        let mut processed = 0;
        while !self.scheduler.lock().unwrap().is_empty() {
            let ready = self.scheduler.lock().unwrap().take_ready(tid);
            if ready.is_empty() {
                break;
            }
            for runnable in ready {
                runnable.run();
                processed += 1;
            }
        }
        processed
    }
}

#[test]
fn new_scheduler_is_empty_and_knows_no_reactor() {
    let s = Scheduler::new();
    assert!(s.is_empty());
    assert!(!on_main_thread(&s, WORKER));
    assert!(!on_main_thread(&s, -1));
    assert!(!on_main_thread(&s, REACTOR));
    assert!(!on_main_thread(&s, 0));
}

#[test]
fn first_thread_to_enter_stays_the_reactor() {
    let mut s = Scheduler::new();
    s.enter_reactor(REACTOR);
    assert!(on_main_thread(&s, REACTOR));
    assert!(!on_main_thread(&s, WORKER));
    s.enter_reactor(WORKER);
    assert!(on_main_thread(&s, REACTOR));
    assert!(!on_main_thread(&s, WORKER));
}

#[test]
fn any_number_names_a_thread() {
    for reactor in [-1_i64, 0, i64::MIN, i64::MAX] {
        let mut s = Scheduler::new();
        assert!(!on_main_thread(&s, reactor));
        s.enter_reactor(reactor);
        assert!(on_main_thread(&s, reactor));
        assert!(!on_main_thread(&s, 1));
        let (runnable, _task) = unit(async {});
        assert!(matches!(s.schedule(runnable, false, reactor), Dispatch::RunInline(_)));
        let (runnable, _task) = unit(async {});
        assert!(matches!(s.schedule(runnable, false, 1), Dispatch::Queued));
    }
}

#[test]
fn unit_submitted_on_reactor_comes_back_to_run() {
    let mut s = Scheduler::new();
    s.enter_reactor(REACTOR);
    let (runnable, task) = unit(async { 40 + 2 });
    let dispatch = s.schedule(runnable, false, REACTOR);
    assert!(s.is_empty());
    match dispatch {
        Dispatch::RunInline(runnable) => {
            assert!(!task.is_finished());
            runnable.run();
            assert!(task.is_finished());
        }
        _ => panic!("the unit was not handed back"),
    }
    assert!(s.take_ready(REACTOR).is_empty());
}

#[test]
fn unit_submitted_off_reactor_is_queued() {
    let mut s = Scheduler::new();
    s.enter_reactor(REACTOR);
    let (runnable, task) = unit(async {});
    let dispatch = s.schedule(runnable, false, WORKER);
    assert!(matches!(dispatch, Dispatch::Queued));
    assert!(!s.is_empty());
    assert!(!task.is_finished());
    let ready = s.take_ready(REACTOR);
    assert_eq!(ready.len(), 1);
    assert!(s.is_empty());
    for runnable in ready {
        runnable.run();
    }
    assert!(task.is_finished());
}

#[test]
fn unit_that_woke_itself_is_queued_on_reactor() {
    let mut s = Scheduler::new();
    s.enter_reactor(REACTOR);
    let (runnable, _task) = unit(async {});
    let dispatch = s.schedule(runnable, true, REACTOR);
    assert!(matches!(dispatch, Dispatch::Queued));
    assert!(!s.is_empty());
    assert_eq!(s.take_ready(REACTOR).len(), 1);
}

#[test]
fn nothing_runs_inline_before_the_reactor_is_known() {
    let mut s = Scheduler::new();
    let (runnable, _task) = unit(async {});
    let dispatch = s.schedule(runnable, false, REACTOR);
    assert!(matches!(dispatch, Dispatch::Queued));
    let (runnable, _task) = unit(async {});
    let dispatch = spawn(&mut s, runnable, REACTOR);
    assert!(matches!(dispatch, Dispatch::Queued));
    assert!(!s.is_empty());
}

#[test]
fn spawn_is_a_first_submission() {
    let mut s = Scheduler::new();
    s.enter_reactor(REACTOR);
    let (runnable, _task) = unit(async {});
    assert!(matches!(spawn(&mut s, runnable, REACTOR), Dispatch::RunInline(_)));
    assert!(s.is_empty());
    let (runnable, _task) = unit(async {});
    assert!(matches!(spawn(&mut s, runnable, WORKER), Dispatch::Queued));
    assert!(!s.is_empty());
}

#[test]
fn only_the_reactor_takes_units_out() {
    let mut s = Scheduler::new();
    let (runnable, _task) = unit(async {});
    assert!(matches!(s.schedule(runnable, false, WORKER), Dispatch::Queued));
    assert!(s.take_ready(WORKER).is_empty());
    assert!(s.take_ready(REACTOR).is_empty());
    assert!(!s.is_empty());
    s.enter_reactor(REACTOR);
    assert!(s.take_ready(WORKER).is_empty());
    assert!(!s.is_empty());
    assert_eq!(s.take_ready(REACTOR).len(), 1);
    assert!(s.is_empty());
    assert!(s.take_ready(REACTOR).is_empty());
}

#[test]
fn every_submitted_unit_runs_exactly_once() {
    let mut s = Scheduler::new();
    s.enter_reactor(REACTOR);
    let runs: Vec<Arc<AtomicUsize>> = (0..10).map(|_| Arc::new(AtomicUsize::new(0))).collect();
    let mut tasks = Vec::new();
    let mut inline = Vec::new();
    for (i, count) in runs.iter().enumerate() {
        let count = Arc::clone(count);
        let (runnable, task) = unit(async move {
            count.fetch_add(1, Ordering::SeqCst);
        });
        tasks.push(task);
        let tid = (i % 4) as i64;
        let reentrant_wake = i % 5 == 0;
        match s.schedule(runnable, reentrant_wake, tid) {
            Dispatch::RunInline(runnable) => {
                assert!(tid == REACTOR && !reentrant_wake);
                inline.push(runnable);
            }
            Dispatch::Queued => assert!(tid != REACTOR || reentrant_wake),
        }
    }
    assert_eq!(inline.len(), 2);
    let ready = s.take_ready(REACTOR);
    assert_eq!(ready.len(), 8);
    for runnable in inline {
        runnable.run();
    }
    for runnable in ready {
        runnable.run();
    }
    assert!(s.is_empty());
    assert!(s.take_ready(REACTOR).is_empty());
    for count in runs.iter() {
        assert_eq!(count.load(Ordering::SeqCst), 1);
    }
    for task in tasks.iter() {
        assert!(task.is_finished());
    }
}

#[test]
fn one_unit_from_a_background_thread() {
    let harness = Harness::new();
    harness.on_thread(REACTOR);
    assert_eq!(harness.drain_cycle(REACTOR), 0);

    harness.on_thread(WORKER);
    let task = harness.spawn(async { 7 });
    assert_eq!(harness.signals.load(Ordering::SeqCst), 1);
    assert_eq!(harness.inline_runs.load(Ordering::SeqCst), 0);
    assert!(!task.is_finished());

    assert_eq!(harness.drain_cycle(REACTOR), 1);
    assert!(task.is_finished());
    assert_eq!(harness.signals.load(Ordering::SeqCst), 1);
    assert_eq!(harness.drain_cycle(REACTOR), 0);
}

#[test]
fn three_units_from_three_background_threads() {
    let harness = Harness::new();
    assert_eq!(harness.drain_cycle(REACTOR), 0);

    let ran_on: Arc<Mutex<Vec<(i64, i64)>>> = Arc::new(Mutex::new(Vec::new()));
    let mut tasks = Vec::new();
    for worker in [30_i64, 10, 20] {
        harness.on_thread(worker);
        let seen = Arc::clone(&ran_on);
        let inside = Arc::clone(&harness);
        tasks.push(harness.spawn(async move {
            seen.lock().unwrap().push((worker, inside.tid()));
        }));
    }
    assert_eq!(harness.signals.load(Ordering::SeqCst), 3);
    assert!(ran_on.lock().unwrap().is_empty());

    assert_eq!(harness.drain_cycle(REACTOR), 3);
    let mut seen = ran_on.lock().unwrap().clone();
    seen.sort();
    assert_eq!(seen, vec![(10, REACTOR), (20, REACTOR), (30, REACTOR)]);
    for task in tasks.iter() {
        assert!(task.is_finished());
    }
}

#[test]
fn unit_that_yields_goes_round_through_the_queue() {
    let harness = Harness::new();
    assert_eq!(harness.drain_cycle(REACTOR), 0);

    harness.on_thread(REACTOR);
    let task = harness.spawn(YieldOnce { yielded: false });
    // It ran at once on the reactor thread, woke itself while running, and
    // was queued for that instead of being run again inside its own run.
    assert_eq!(harness.inline_runs.load(Ordering::SeqCst), 1);
    assert_eq!(harness.signals.load(Ordering::SeqCst), 1);
    assert!(!task.is_finished());
    assert!(!harness.scheduler.lock().unwrap().is_empty());

    assert_eq!(harness.drain_cycle(REACTOR), 1);
    assert!(task.is_finished());
    assert_eq!(harness.inline_runs.load(Ordering::SeqCst), 1);
}

#[test]
fn a_unit_never_runs_twice_at_a_time() {
    let harness = Harness::new();
    assert_eq!(harness.drain_cycle(REACTOR), 0);

    let running = Arc::new(AtomicUsize::new(0));
    let most = Arc::new(AtomicUsize::new(0));
    let polls = Arc::new(AtomicUsize::new(0));
    let mut tasks = Vec::new();
    for worker in [REACTOR, WORKER, REACTOR, 5] {
        harness.on_thread(worker);
        let running = Arc::clone(&running);
        let most = Arc::clone(&most);
        let polls = Arc::clone(&polls);
        let mut left = 3;
        tasks.push(harness.spawn(std::future::poll_fn(move |cx: &mut Context<'_>| {
            let now = running.fetch_add(1, Ordering::SeqCst) + 1;
            most.fetch_max(now, Ordering::SeqCst);
            polls.fetch_add(1, Ordering::SeqCst);
            left -= 1;
            let done = left == 0;
            if !done {
                cx.waker().wake_by_ref();
            }
            running.fetch_sub(1, Ordering::SeqCst);
            if done {
                Poll::Ready(())
            } else {
                Poll::Pending
            }
        })));
    }
    // Two units were spawned on the reactor thread and polled once at that.
    assert_eq!(harness.inline_runs.load(Ordering::SeqCst), 2);
    assert_eq!(polls.load(Ordering::SeqCst), 2);
    // One cycle takes up every unit that is queued while it goes on.
    assert_eq!(harness.drain_cycle(REACTOR), 10);
    assert_eq!(harness.drain_cycle(REACTOR), 0);
    assert_eq!(harness.inline_runs.load(Ordering::SeqCst), 2);
    assert_eq!(harness.signals.load(Ordering::SeqCst), 10);
    assert_eq!(most.load(Ordering::SeqCst), 1);
    assert_eq!(polls.load(Ordering::SeqCst), 12);
    for task in tasks.iter() {
        assert!(task.is_finished());
    }
}

#[test]
fn drains_between_submissions_run_every_unit_once() {
    let harness = Harness::new();
    assert_eq!(harness.drain_cycle(REACTOR), 0);

    let runs: Vec<Arc<AtomicUsize>> = (0..9).map(|_| Arc::new(AtomicUsize::new(0))).collect();
    let mut tasks = Vec::new();
    let mut processed = Vec::new();
    for (i, count) in runs.iter().enumerate() {
        harness.on_thread(10 + i as i64);
        let count = Arc::clone(count);
        tasks.push(harness.spawn(async move {
            count.fetch_add(1, Ordering::SeqCst);
        }));
        // a cycle after the second, the third and the ninth submission
        if i == 1 || i == 2 || i == 8 {
            processed.push(harness.drain_cycle(REACTOR));
        }
    }
    assert_eq!(processed, vec![2, 1, 6]);
    assert_eq!(processed.iter().sum::<usize>(), 9);
    assert_eq!(harness.signals.load(Ordering::SeqCst), 9);
    assert_eq!(harness.inline_runs.load(Ordering::SeqCst), 0);
    assert_eq!(harness.drain_cycle(REACTOR), 0);
    for count in runs.iter() {
        assert_eq!(count.load(Ordering::SeqCst), 1);
    }
    for task in tasks.iter() {
        assert!(task.is_finished());
    }
}

#[test]
fn submission_off_reactor_adds_one_waiting_unit() {
    let mut s = Scheduler::new();
    s.enter_reactor(REACTOR);
    for n in 1..=3_usize {
        let (runnable, _task) = unit(async {});
        assert!(matches!(s.schedule(runnable, n == 2, WORKER), Dispatch::Queued));
        assert!(!s.is_empty());
    }
    assert_eq!(s.take_ready(REACTOR).len(), 3);
    assert!(s.is_empty());
}

#[test]
fn a_cycle_off_the_reactor_runs_nothing_and_ends() {
    let harness = Harness::new();
    assert_eq!(harness.drain_cycle(REACTOR), 0);
    harness.on_thread(WORKER);
    let task = harness.spawn(async {});
    assert_eq!(harness.drain_cycle(WORKER), 0);
    assert!(!task.is_finished());
    assert_eq!(harness.drain_cycle(REACTOR), 1);
    assert!(task.is_finished());
}
