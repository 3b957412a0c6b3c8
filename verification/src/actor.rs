//! Message-passing actors: the `Actor` and `Handle` interfaces and
//! `HandleAsync`, a mailbox endpoint over a shared `BlockingQueue`.

use std::collections::HashMap;
use std::sync::Mutex;
use vstd::prelude::*;

use crate::common::UniqueId;
use crate::handler::Lifecycle;
use crate::primitives::lock;
use crate::sync::{BlockingQueue, Queue, QueueError};

verus! {

/// Actor model: mailbox delivery, shared context and child spawning.
///
/// `HandleType` is typically `HandleAsync`; `Functor` is the child's
/// message handler.
pub trait Actor<Msg, ContextValue, HandleType, Functor>: UniqueId<String> {
    /// Handles one message.
    fn receive(
        &mut self,
        this: &mut Self,
        message: Msg,
        context: &mut HashMap<String, ContextValue>,
    );

    /// Spawns a child actor and returns a handle to its mailbox.
    fn spawn_with_handle(&self, func: Functor) -> HandleType;

    /// A handle to this actor's mailbox.
    fn get_handle(&self) -> HandleType;

    /// The handle of the child with id `name`, if any.
    fn get_handle_child(&self, name: impl Into<String>) -> Option<HandleType>;

    /// The parent's handle, if any.
    fn get_handle_parent(&self) -> Option<HandleType>;

    /// Calls `func` on each child's id and handle.
    fn for_each_child(&self, func: impl FnMut(&String, &mut HandleType));
}

/// Send-only mailbox endpoint.
pub trait Handle<Msg>: UniqueId<String> {
    /// Enqueues a message without blocking.
    fn send(&mut self, message: Msg);
}

/// A `Handle` over a shared `BlockingQueue`, with the id of the actor whose
/// mailbox it is.
#[derive(Debug, Clone)]
#[verifier::reject_recursive_types(Msg)]
pub struct HandleAsync<Msg> where Msg: Send + 'static {
    id: String,
    queue: BlockingQueue<Msg>,
}

impl<Msg> HandleAsync<Msg> where Msg: Send + 'static {
    /// The id of the actor whose mailbox this is.
    pub closed spec fn id_view(&self) -> Seq<char> {
        self.id@
    }

    /// The mailbox the handle sends to.
    pub closed spec fn mailbox(&self) -> BlockingQueue<Msg> {
        self.queue
    }

    /// A handle with id `id` to the mailbox `queue` (shared with it).
    pub fn new(id: String, queue: BlockingQueue<Msg>) -> (r: HandleAsync<Msg>)
        ensures
            r.id_view() == id@,
            r.mailbox() == queue,
    {
        HandleAsync { id, queue }
    }
}

impl<Msg> Handle<Msg> for HandleAsync<Msg> where Msg: Send + 'static {
    fn send(&mut self, message: Msg)
        ensures
            final(self).id_view() == old(self).id_view(),
            final(self).mailbox().settings() == old(self).mailbox().settings(),
    {
        self.queue.offer(message);
    }
}

impl<Msg> UniqueId<String> for HandleAsync<Msg> where Msg: Send + 'static {
    fn get_id(&self) -> (r: String)
        ensures
            r@ == self.id_view(),
    {
        self.id.clone()
    }
}

/// One step of an actor's mailbox loop: the next message, waiting for one.
/// When the mailbox fails instead, the actor whose state is `state` stops,
/// and the failure is handed back.
pub fn next_message<Msg: Send + 'static>(
    queue: &mut BlockingQueue<Msg>,
    state: &Mutex<Lifecycle>,
) -> (r: Result<Msg, QueueError>)
    ensures
        final(queue).settings() == old(queue).settings(),
        r matches Err(e) ==> e != QueueError::Empty,
        old(queue).settings().0 is None ==> !(r matches Err(QueueError::Timeout)),
{
    let next = queue.take_result();
    if next.is_err() {
        let mut lifecycle = lock(state);
        let _was_alive = lifecycle.stop();
    }
    next
}

} // verus!
