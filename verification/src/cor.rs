//! `Cor`: Python-generator-like coroutines that hand values to each other
//! with `yield_from` and `yield_ref` over channels.
//!
//! A coroutine runs its body once started (`begin` decides, `run_body`
//! runs); an asynchronous one runs on a thread of its own, which the caller
//! of `begin` spawns. Two synchronous coroutines that yield to each other
//! wait on each other forever: keep yield targets asynchronous.

use std::sync::mpsc::{Receiver, Sender};
use std::sync::{Arc, Mutex};
use vstd::prelude::*;

use crate::handler::Lifecycle;
use crate::primitives::{channel, lock, mutex_new, recv, send};
use crate::sync::QueueError;

verus! {

/// What a yield gives back: nothing when the yielding coroutine was not
/// alive (`alive`) or its request was not taken (`queued`), else the value
/// that came over the channel (`got`), nothing when the channel closed.
pub fn yield_answer<V>(alive: bool, queued: bool, got: Result<Option<V>, QueueError>) -> (r: Option<V>)
    ensures
        r == if !alive || !queued {
            None
        } else {
            match got {
                Ok(a) => a,
                Err(_) => None,
            }
        },
{
    if !alive || !queued {
        return None;
    }
    match got {
        Ok(a) => a,
        Err(_) => None,
    }
}

/// The answer of `Cor::begin` once its lifecycle has decided: when this
/// start launched the coroutine, whether its body runs on a thread of its
/// own; else nothing.
pub fn begin_answer(launch: bool, is_async: bool) -> (r: Option<bool>)
    ensures
        r == if launch {
            Some(is_async)
        } else {
            None
        },
{
    if launch {
        Some(is_async)
    } else {
        None
    }
}

/// A yield between coroutines: the value sent, and where the answer goes.
#[verifier::reject_recursive_types(RETURN)]
#[verifier::reject_recursive_types(RECEIVE)]
pub struct CorOp<RETURN: 'static, RECEIVE: 'static> {
    pub result_ch_sender: Arc<Mutex<Sender<Option<RETURN>>>>,
    pub val: Option<RECEIVE>,
}

/// The body of a coroutine: a closure run with the coroutine's own shared
/// handle. Its one field is a trait object whose argument is `Cor` itself;
/// a type that reaches itself through the arguments of a trait object
/// cannot be reasoned about, so the struct's field is hidden from the
/// proofs, and `effect_of` is the only way to make one.
#[verifier::external_body]
#[verifier::reject_recursive_types(RETURN)]
#[verifier::reject_recursive_types(RECEIVE)]
pub(crate) struct CorEffect<RETURN: 'static, RECEIVE: 'static> {
    func: Arc<dyn Fn(Arc<Mutex<Cor<RETURN, RECEIVE>>>) + Send + Sync>,
}

/// Puts `func` behind a shared trait object (an unsizing coercion, made
/// here, outside the proved code). Only closures that accept every
/// handle are taken, so `run_effect` may call the result on any handle.
#[verifier::external_body]
fn effect_of<RETURN: 'static, RECEIVE: 'static, F: Fn(Arc<Mutex<Cor<RETURN, RECEIVE>>>) + Send + Sync + 'static>(func: F) -> CorEffect<RETURN, RECEIVE>
    requires
        forall|this: Arc<Mutex<Cor<RETURN, RECEIVE>>>| call_requires(func, (this,)),
{
    CorEffect { func: Arc::new(func) }
}

/// Calls the closure behind `effect` with `this`; the closure was checked by
/// `effect_of` to accept any handle.
#[verifier::external_body]
fn run_effect<RETURN: 'static, RECEIVE: 'static>(effect: &CorEffect<RETURN, RECEIVE>, this: Arc<Mutex<Cor<RETURN, RECEIVE>>>) {
    (effect.func)(this)
}

/// Wraps `Arc::clone` on the closure behind `effect`: the copy runs the same
/// closure.
#[verifier::external_body]
fn share_effect<RETURN: 'static, RECEIVE: 'static>(effect: &CorEffect<RETURN, RECEIVE>) -> CorEffect<RETURN, RECEIVE> {
    CorEffect { func: Arc::clone(&effect.func) }
}

/// A Pythonic-generator-like coroutine: `RETURN` is what it yields out,
/// `RECEIVE` what it is sent.
#[verifier::reject_recursive_types(RETURN)]
#[verifier::reject_recursive_types(RECEIVE)]
pub struct Cor<RETURN: 'static, RECEIVE: 'static> {
    is_async: bool,
    started_alive: Arc<Mutex<Lifecycle>>,
    op_ch_sender: Arc<Mutex<Sender<CorOp<RETURN, RECEIVE>>>>,
    op_ch_receiver: Arc<Mutex<Receiver<CorOp<RETURN, RECEIVE>>>>,
    effect: CorEffect<RETURN, RECEIVE>,
}

impl<RETURN: 'static, RECEIVE: 'static> Clone for Cor<RETURN, RECEIVE> {
    /// A handle on the same coroutine: it shares the body, the state and the
    /// channels.
    fn clone(&self) -> (r: Self)
        ensures
            r.is_async() == self.is_async(),
    {
        Cor {
            is_async: self.is_async,
            started_alive: self.started_alive.clone(),
            op_ch_sender: self.op_ch_sender.clone(),
            op_ch_receiver: self.op_ch_receiver.clone(),
            effect: share_effect(&self.effect),
        }
    }
}

impl<RETURN: 'static, RECEIVE: 'static> Cor<RETURN, RECEIVE> {
    /// Whether the body runs on a thread of its own.
    pub closed spec fn is_async(&self) -> bool {
        self.is_async
    }
}

impl<
    RETURN: Send + Sync + Clone + 'static,
    RECEIVE: Send + Sync + Clone + 'static,
> Cor<RETURN, RECEIVE> {
    /// A coroutine running `effect`, asynchronous by default.
    pub fn new(
        effect: impl Fn(Arc<Mutex<Cor<RETURN, RECEIVE>>>) + Send + Sync + 'static,
    ) -> (r: Cor<RETURN, RECEIVE>)
        requires
            forall|this: Arc<Mutex<Cor<RETURN, RECEIVE>>>| call_requires(effect, (this,)),
        ensures
            r.is_async(),
    {
        let (op_ch_sender, op_ch_receiver) = channel();
        Cor {
            is_async: true,
            started_alive: Arc::new(mutex_new(Lifecycle::new())),
            op_ch_sender: Arc::new(mutex_new(op_ch_sender)),
            op_ch_receiver: Arc::new(mutex_new(op_ch_receiver)),
            effect: effect_of(effect),
        }
    }

    /// A new coroutine running `effect`, behind a shared lock.
    pub fn new_with_mutex(
        effect: impl Fn(Arc<Mutex<Cor<RETURN, RECEIVE>>>) + Send + Sync + 'static,
    ) -> Arc<Mutex<Cor<RETURN, RECEIVE>>>
        requires
            forall|this: Arc<Mutex<Cor<RETURN, RECEIVE>>>| call_requires(effect, (this,)),
    {
        Arc::new(mutex_new(Cor::new(effect)))
    }

    /// Sends `sent_to_inside` from `this` to `target` and waits for what
    /// `target` yields back; `None` when `this` or `target` is not alive when
    /// asked, or when the answer channel closes (see `yield_answer`).
    pub fn yield_from<
        RETURNTARGET: Send + Sync + Clone + 'static,
        RECEIVETARGET: Send + Sync + Clone + 'static,
    >(
        this: Arc<Mutex<Cor<RETURN, RECEIVE>>>,
        target: Arc<Mutex<Cor<RETURNTARGET, RECEIVETARGET>>>,
        sent_to_inside: Option<RECEIVETARGET>,
    ) -> Option<RETURNTARGET> {
        let alive = {
            let mut me = lock(&*this);
            me.is_alive()
        };
        let (result_ch_sender, result_ch_receiver) = channel();
        let queued = if alive {
            let mut target_cor = lock(&*target);
            target_cor.receive(Arc::new(mutex_new(result_ch_sender)), sent_to_inside)
        } else {
            false
        };
        let got = if queued {
            recv(&result_ch_receiver)
        } else {
            Err(QueueError::Disconnected)
        };
        yield_answer(alive, queued, got)
    }

    /// Yields `None` out of `this` and returns what it is sent next.
    pub fn yield_none(this: Arc<Mutex<Cor<RETURN, RECEIVE>>>) -> Option<RECEIVE> {
        Cor::yield_ref(this, None)
    }

    /// Waits for a value sent to `this`, answers it with `given_to_outside`
    /// and returns the value; `None` when `this` is not alive or its channel
    /// closes (see `yield_answer`).
    pub fn yield_ref(
        this: Arc<Mutex<Cor<RETURN, RECEIVE>>>,
        given_to_outside: Option<RETURN>,
    ) -> Option<RECEIVE> {
        let (alive, op_ch_receiver) = {
            let mut me = lock(&*this);
            (me.is_alive(), me.op_ch_receiver.clone())
        };
        let got = if alive {
            let op = {
                let receiver = lock(&*op_ch_receiver);
                recv(&*receiver)
            };
            match op {
                Ok(op) => {
                    {
                        let answer_to = lock(&*op.result_ch_sender);
                        let _sent = send(&*answer_to, given_to_outside);
                    }
                    Ok(op.val)
                },
                Err(e) => Err(e),
            }
        } else {
            Err(QueueError::Disconnected)
        };
        yield_answer(alive, true, got)
    }

    /// Marks `this` started if it was not; answers `Some(asynchronous)` when
    /// this call started it and its body must now run (on a thread of its
    /// own when asynchronous), `None` when it had been started before (see
    /// `begin_answer`).
    pub fn begin(this: &Arc<Mutex<Cor<RETURN, RECEIVE>>>) -> Option<bool> {
        let (is_async, started_alive) = {
            let me = lock(&**this);
            (me.is_async, me.started_alive.clone())
        };
        let mut lifecycle = lock(&*started_alive);
        let launch = lifecycle.start();
        begin_answer(launch, is_async)
    }

    /// Runs the body of `this`, then stops it.
    pub fn run_body(this: Arc<Mutex<Cor<RETURN, RECEIVE>>>) {
        let effect = {
            let me = lock(&*this);
            share_effect(&me.effect)
        };
        run_effect(&effect, this.clone());
        let mut me = lock(&*this);
        me.stop();
    }

    /// Makes the body run on a thread of its own (`true`, the default) or
    /// on the starting thread (`false`).
    pub fn set_async(&mut self, is_async: bool)
        ensures
            final(self).is_async() == is_async,
    {
        self.is_async = is_async;
    }

    /// Whether it was started (even if it stopped since).
    pub fn is_started(&mut self) -> bool {
        let lifecycle = lock(&*self.started_alive);
        lifecycle.is_started()
    }

    /// Whether it was started and has not stopped.
    pub fn is_alive(&mut self) -> bool {
        let lifecycle = lock(&*self.started_alive);
        lifecycle.is_alive()
    }

    /// Stops it: it is no longer alive, and its yields return `None`.
    pub fn stop(&mut self)
        ensures
            final(self).is_async() == old(self).is_async(),
    {
        let mut lifecycle = lock(&*self.started_alive);
        let _was_alive = lifecycle.stop();
    }

    /// Queues a request from another coroutine when this one is alive;
    /// answers whether it was queued.
    fn receive(
        &mut self,
        result_ch_sender: Arc<Mutex<Sender<Option<RETURN>>>>,
        given_as_request: Option<RECEIVE>,
    ) -> bool {
        if !self.is_alive() {
            return false;
        }
        let op_ch_sender = lock(&*self.op_ch_sender);
        send(&*op_ch_sender, CorOp { result_ch_sender, val: given_as_request }).is_ok()
    }
}

} // verus!
