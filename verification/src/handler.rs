//! `Handler`: something that runs posted jobs on its own thread (after
//! Android's `Handler`), and `Lifecycle`, the started/alive state that
//! handlers, wills and actors keep and the decisions their `start` and `stop`
//! make on it.

use std::sync::{Arc, Mutex};
use std::time::Duration;
use vstd::prelude::*;

use crate::common::RawFunc;
use crate::primitives::{lock, mutex_new};
use crate::sync::{BlockingQueue, Queue, QueueError};

verus! {

/// Receives jobs and runs them on its own thread.
pub trait Handler: Send + Sync + 'static {
    /// Whether it was started (whether or not it has stopped since).
    fn is_started(&mut self) -> bool;

    /// Whether it was started and has not stopped.
    fn is_alive(&mut self) -> bool;

    /// Starts it.
    fn start(&mut self);

    /// Stops it: later jobs are not run.
    fn stop(&mut self);

    /// Posts a job to run on it.
    fn post(&mut self, func: RawFunc);
}

/// Wraps `Option::<Arc<_>>::clone` on a handler pointer: the copy points at
/// the same handler. (A bare pointer to a `dyn` handler is moved only here,
/// outside the proved code.)
#[verifier::external_body]
pub(crate) fn share_handler(h: &Option<Arc<Mutex<dyn Handler>>>) -> (r: Option<Arc<Mutex<dyn Handler>>>)
    ensures
        r == *h,
{
    h.clone()
}

/// Posts `func` to the shared handler `h`.
pub fn post_to(h: &Arc<Mutex<dyn Handler>>, func: RawFunc) {
    let mut handler = lock(&**h);
    handler.post(func);
}

/// Posts `func` to the shared handler `h`, and answers (as a ghost value)
/// the job posted.
pub fn post_job(h: &Arc<Mutex<dyn Handler>>, func: RawFunc) -> (posted: Ghost<RawFunc>)
    ensures
        posted@ == func,
{
    let posted = Ghost(func);
    let mut handler = lock(&**h);
    handler.post(func);
    posted
}

/// Starts the shared handler `h`.
pub fn start_handler(h: &Arc<Mutex<dyn Handler>>) {
    let mut handler = lock(&**h);
    handler.start();
}

/// The state after a `start` from `s` (started, alive): the first start
/// makes it started and alive; a later one changes nothing.
pub open spec fn start_spec(s: (bool, bool)) -> (bool, bool) {
    if s.0 {
        s
    } else {
        (true, true)
    }
}

/// The state after a `stop` from `s` (started, alive): it is no longer
/// alive; whether it was started stays.
pub open spec fn stop_spec(s: (bool, bool)) -> (bool, bool) {
    (s.0, false)
}

/// The started/alive state of a handler, will, coroutine or actor. It is
/// never alive without having been started.
#[derive(Debug)]
pub struct Lifecycle {
    started: bool,
    alive: bool,
}

impl Lifecycle {
    #[verifier::type_invariant]
    spec fn inv(&self) -> bool {
        self.alive ==> self.started
    }

    /// (started, alive).
    pub closed spec fn view(&self) -> (bool, bool) {
        (self.started, self.alive)
    }

    /// Neither started nor alive.
    pub fn new() -> (r: Lifecycle)
        ensures
            r.view() == (false, false),
    {
        Lifecycle { started: false, alive: false }
    }

    /// Whether it was started.
    pub fn is_started(&self) -> (r: bool)
        ensures
            r == self.view().0,
    {
        self.started
    }

    /// Whether it is alive; only a started one is.
    pub fn is_alive(&self) -> (r: bool)
        ensures
            r == self.view().1,
            r ==> self.view().0,
    {
        proof {
            use_type_invariant(self);
        }
        self.alive
    }

    /// Starts it; answers whether this call is the first start, the one that
    /// must launch the work.
    pub fn start(&mut self) -> (launch: bool)
        ensures
            launch == !old(self).view().0,
            final(self).view() == start_spec(old(self).view()),
    {
        proof {
            use_type_invariant(&*self);
        }
        if self.started {
            return false;
        }
        self.started = true;
        self.alive = true;
        true
    }

    /// Stops it; answers whether it was alive.
    pub fn stop(&mut self) -> (was_alive: bool)
        ensures
            was_alive == old(self).view().1,
            final(self).view() == stop_spec(old(self).view()),
    {
        proof {
            use_type_invariant(&*self);
        }
        if !self.started {
            return false;
        }
        if !self.alive {
            return false;
        }
        self.alive = false;
        true
    }
}

/// Starting twice is starting once.
pub proof fn lemma_start_idempotent(s: (bool, bool))
    ensures
        start_spec(start_spec(s)) == start_spec(s),
{
}

/// After a start and a stop it is started and not alive, and starting again
/// does not revive it.
pub proof fn lemma_stop_after_start(s: (bool, bool))
    ensures
        stop_spec(start_spec(s)) == (true, false),
        start_spec(stop_spec(start_spec(s))) == (true, false),
{
}

/// A stop before any start changes nothing.
pub proof fn lemma_stop_before_start()
    ensures
        stop_spec((false, false)) == (false, false),
{
}

/// The state after the job loop of a handler thread is asked to start from
/// `s` (started, alive): it is alive and started either way; the loop runs
/// only when it had not been started.
pub open spec fn inner_start_spec(s: (bool, bool)) -> (bool, bool) {
    (true, true)
}

/// The decision of a start from `s` (started, alive): the next state, and
/// whether this start must run the job loop.
fn inner_start_step(s: (bool, bool)) -> (r: ((bool, bool), bool))
    ensures
        r.0 == inner_start_spec(s),
        r.1 == !s.0,
{
    ((true, true), !s.0)
}

/// Runs the job that a handler loop took (`got`) while the loop is alive
/// (`alive`); answers whether it ran. A job taken after a stop is dropped.
pub fn run_job(alive: bool, got: Result<RawFunc, QueueError>) -> (ran: bool)
    ensures
        ran <==> (alive && got is Ok),
        forall|f: RawFunc| ran && got == Ok::<RawFunc, QueueError>(f) ==> f.completes(),
{
    match got {
        Ok(f) => {
            if alive {
                f.invoke();
                true
            } else {
                false
            }
        },
        Err(_) => false,
    }
}

/// The job loop of a handler thread: a mailbox of jobs and its started and
/// alive flags, all shared by its clones. The thread that runs the loop
/// calls `begin`, then `run_next` while it `is_alive`.
#[derive(Clone)]
pub struct HandlerThreadInner {
    started_alive: Arc<Mutex<(bool, bool)>>,
    q: BlockingQueue<RawFunc>,
}

impl HandlerThreadInner {
    /// The mailbox's timeout and panic settings.
    pub closed spec fn mailbox_settings(&self) -> (Option<Duration>, bool) {
        self.q.settings()
    }

    /// Not started, not alive, with an empty mailbox that waits for jobs
    /// without a timeout and answers its failures rather than panicking.
    pub fn new() -> (r: HandlerThreadInner)
        ensures
            r.mailbox_settings() == (None::<Duration>, false),
    {
        HandlerThreadInner {
            started_alive: Arc::new(mutex_new((false, false))),
            q: BlockingQueue::new(),
        }
    }

    /// Whether the loop was started.
    pub fn is_started(&self) -> bool {
        let started_alive = lock(&*self.started_alive);
        started_alive.0
    }

    /// Whether the loop keeps taking jobs.
    pub fn is_alive(&self) -> bool {
        let started_alive = lock(&*self.started_alive);
        started_alive.1
    }

    /// Marks it started and alive; answers whether this call is the first
    /// start, the one whose thread must run the loop.
    pub fn begin(&self) -> bool {
        let mut started_alive = lock(&*self.started_alive);
        let (next, run) = inner_start_step(*started_alive);
        *started_alive = next;
        run
    }

    /// Stops the loop after the job it is running; jobs still queued are
    /// not run.
    pub fn stop(&self) {
        let mut started_alive = lock(&*self.started_alive);
        let started = started_alive.0;
        *started_alive = (started, false);
    }

    /// Queues `func` to run on the loop's thread.
    pub fn post(&mut self, func: RawFunc)
        ensures
            final(self).mailbox_settings() == old(self).mailbox_settings(),
    {
        self.q.put(func);
    }

    /// Takes the next job, waiting for one, and runs it unless the loop was
    /// stopped meanwhile (see `run_job`); when the mailbox fails instead, the
    /// loop is no longer alive. Answers whether a job ran.
    pub fn run_next(&mut self) -> (ran: bool)
        ensures
            final(self).mailbox_settings() == old(self).mailbox_settings(),
    {
        let got = self.q.take_result();
        let failed = got.is_err();
        let alive = self.is_alive();
        let ran = run_job(alive, got);
        if failed {
            self.stop();
        }
        ran
    }
}

} // verus!
