//! The parts of `std` that the library's shared state and blocking calls rest
//! on, declared for the proofs: locks, condition variables, channels, the clock
//! and hasher seeds. Nothing here states what another thread did: a value
//! read from a shared cell is whatever it holds at that moment.

use std::collections::hash_map::RandomState;
use std::sync::mpsc::{Receiver, Sender};
use std::sync::{Arc, Condvar, Mutex, MutexGuard};
use std::time::{Duration, SystemTime};
use vstd::prelude::*;

verus! {

#[verifier::external_type_specification]
#[verifier::external_body]
#[verifier::reject_recursive_types(T)]
pub struct ExMutex<T: ?Sized>(Mutex<T>);

#[verifier::external_type_specification]
#[verifier::external_body]
#[verifier::reject_recursive_types(T)]
pub struct ExMutexGuard<'a, T: ?Sized + 'a>(MutexGuard<'a, T>);

#[verifier::external_type_specification]
#[verifier::external_body]
pub struct ExCondvar(Condvar);

#[verifier::external_type_specification]
#[verifier::external_body]
#[verifier::reject_recursive_types(T)]
pub struct ExSender<T>(Sender<T>);

#[verifier::external_type_specification]
#[verifier::external_body]
#[verifier::reject_recursive_types(T)]
pub struct ExReceiver<T>(Receiver<T>);

#[verifier::external_type_specification]
#[verifier::external_body]
pub struct ExSystemTime(SystemTime);

/// `MutexGuard::deref_mut`: the guarded value, whatever it holds.
pub assume_specification<'a, 'b, T: ?Sized>[<MutexGuard<'a, T> as core::ops::DerefMut>::deref_mut](
    guard: &'b mut MutexGuard<'a, T>,
) -> &'b mut T;

/// `MutexGuard::deref`: the guarded value, whatever it holds.
pub assume_specification<'a, 'b, T: ?Sized>[<MutexGuard<'a, T> as core::ops::Deref>::deref](
    guard: &'b MutexGuard<'a, T>,
) -> &'b T;

/// Wraps `Arc::clone`: the copy points at the same value.
#[verifier::external_body]
pub(crate) fn share_arc<A: ?Sized>(a: &Arc<A>) -> (r: Arc<A>)
    ensures
        r == *a,
{
    Arc::clone(a)
}

/// Wraps `Mutex::new`.
#[verifier::external_body]
pub(crate) fn mutex_new<T>(v: T) -> Mutex<T> {
    Mutex::new(v)
}

/// Wraps `Mutex::lock`. A lock poisoned by a panicking holder is taken over,
/// as the guarded data stays usable.
#[verifier::external_body]
pub(crate) fn lock<T: ?Sized>(m: &Mutex<T>) -> MutexGuard<'_, T> {
    m.lock().unwrap_or_else(|poisoned| poisoned.into_inner())
}

/// Wraps `Condvar::new`.
#[verifier::external_body]
pub(crate) fn condvar_new() -> Condvar {
    Condvar::new()
}

/// Wraps `Condvar::notify_all`.
#[verifier::external_body]
pub(crate) fn notify_all(c: &Condvar) {
    c.notify_all()
}

/// Wraps `Condvar::wait_while`: blocks until the guarded count is no longer
/// pending (`crate::sync::latch_pending`), and hands the guard back.
#[verifier::external_body]
pub(crate) fn wait_while_pending<'a>(c: &Condvar, guard: MutexGuard<'a, u64>) -> MutexGuard<'a, u64> {
    c.wait_while(guard, |count| crate::sync::latch_pending(*count)).unwrap_or_else(
        |poisoned| poisoned.into_inner(),
    )
}

/// Wraps `mpsc::channel`.
#[verifier::external_body]
pub(crate) fn channel<T>() -> (Sender<T>, Receiver<T>) {
    std::sync::mpsc::channel()
}

/// Wraps `Sender::send`. On failure the value comes back, as `SendError`
/// carries it.
#[verifier::external_body]
pub(crate) fn send<T>(s: &Sender<T>, v: T) -> (r: Result<(), T>)
    ensures
        r matches Err(x) ==> x == v,
{
    match s.send(v) {
        Ok(()) => Ok(()),
        Err(e) => Err(e.0),
    }
}

/// Wraps `Receiver::try_recv`; its errors are `Empty` and `Disconnected`.
#[verifier::external_body]
pub(crate) fn try_recv<T>(r: &Receiver<T>) -> (res: Result<T, crate::sync::QueueError>)
    ensures
        res matches Err(e) ==> e != crate::sync::QueueError::Timeout,
{
    match r.try_recv() {
        Ok(v) => Ok(v),
        Err(std::sync::mpsc::TryRecvError::Empty) => Err(crate::sync::QueueError::Empty),
        Err(std::sync::mpsc::TryRecvError::Disconnected) => Err(
            crate::sync::QueueError::Disconnected,
        ),
    }
}

/// Wraps `Receiver::recv`; its one error is `Disconnected`.
#[verifier::external_body]
pub(crate) fn recv<T>(r: &Receiver<T>) -> (res: Result<T, crate::sync::QueueError>)
    ensures
        res matches Err(e) ==> e == crate::sync::QueueError::Disconnected,
{
    match r.recv() {
        Ok(v) => Ok(v),
        Err(_) => Err(crate::sync::QueueError::Disconnected),
    }
}

/// Wraps `Receiver::recv_timeout`; its errors are `Timeout` and `Disconnected`.
#[verifier::external_body]
pub(crate) fn recv_timeout<T>(r: &Receiver<T>, d: Duration) -> (res: Result<T, crate::sync::QueueError>)
    ensures
        res matches Err(e) ==> e != crate::sync::QueueError::Empty,
{
    match r.recv_timeout(d) {
        Ok(v) => Ok(v),
        Err(std::sync::mpsc::RecvTimeoutError::Timeout) => Err(crate::sync::QueueError::Timeout),
        Err(std::sync::mpsc::RecvTimeoutError::Disconnected) => Err(
            crate::sync::QueueError::Disconnected,
        ),
    }
}

/// Wraps `SystemTime::now`.
#[verifier::external_body]
pub(crate) fn system_now() -> SystemTime {
    SystemTime::now()
}

/// Wraps `SystemTime::duration_since` from the Unix epoch; `None` for a
/// clock set before it.
#[verifier::external_body]
pub(crate) fn since_epoch(t: SystemTime) -> Option<Duration> {
    t.duration_since(std::time::UNIX_EPOCH).ok()
}

/// Wraps `Duration::default`, the zero duration.
#[verifier::external_body]
pub(crate) fn zero_duration() -> Duration {
    Duration::default()
}

/// Wraps `RandomState::new`: within a thread each call gets fresh keys.
#[verifier::external_body]
pub(crate) fn random_state() -> RandomState {
    RandomState::new()
}

/// Wraps `BuildHasher::hash_one` on the unit value: a fingerprint of the
/// state's keys.
#[verifier::external_body]
pub(crate) fn fingerprint(s: &RandomState) -> u64 {
    std::hash::BuildHasher::hash_one(s, ())
}

/// Formats an id from a clock reading and a fingerprint with `format!`; the
/// text always holds the separator, so it is never empty.
#[verifier::external_body]
pub(crate) fn format_id(d: &Duration, n: u64) -> (r: String)
    ensures
        r@.len() > 0,
{
    format!("{:?}-{}", d, n)
}

} // verus!
