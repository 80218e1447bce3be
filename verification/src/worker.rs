//! The Python runtime's worker protocol.
//!
//! Dispatch workers take messages from a channel: a dispatch request is
//! handled and answered, a shutdown or a closed channel stops the worker,
//! and a timeout lets it wait again. The async worker registers each
//! request under a fresh id in a [`PendingRequests`] table and answers it
//! when Python reports its response.

use vstd::prelude::*;
use crate::config::ChimeraConfig;
use crate::error::{RuntimeError, RuntimeErrorView};
use std::collections::HashMap;

verus! {

broadcast use vstd::std_specs::hash::group_hash_axioms;

/// Capacity of the async request channel.
pub const ASYNC_CHANNEL_CAPACITY: usize = 1000;

/// How long a worker waits for a message before it looks again, in milliseconds.
pub const WORKER_POLL_MILLIS: u64 = 100;

/// How long the async worker waits for a message between polls of Python, in milliseconds.
pub const ASYNC_POLL_MILLIS: u64 = 10;

/// A message to a dispatch worker; `R` answers the request.
pub enum RuntimeMessage<R> {
    Dispatch { method: String, path: String, request_data: serde_json::Value, response_tx: R },
    Shutdown,
}

/// A message to the async worker.
pub enum AsyncRuntimeMessage {
    Dispatch { request_id: u64, method: String, path: String, request_data: serde_json::Value },
    Shutdown,
}

/// What waiting on a channel gave.
pub enum Received<M> {
    Message(M),
    Timeout,
    Disconnected,
}

/// What a dispatch worker does next.
pub enum WorkerStep<R> {
    /// Call the Python dispatcher and send the result on `response_tx`.
    Handle { method: String, path: String, request_data: serde_json::Value, response_tx: R },
    /// Wait for the next message.
    Continue,
    /// Leave the loop.
    Stop,
}

/// What a dispatch worker does with what it received: handle a dispatch,
/// stop on shutdown or on a closed channel, wait again on a timeout.
pub fn worker_step<R>(received: Received<RuntimeMessage<R>>) -> (res: WorkerStep<R>)
    ensures
        match received {
            Received::Message(RuntimeMessage::Dispatch { method, path, request_data, response_tx }) => res
                == (WorkerStep::Handle { method, path, request_data, response_tx }),
            Received::Message(RuntimeMessage::Shutdown) => res is Stop,
            Received::Timeout => res is Continue,
            Received::Disconnected => res is Stop,
        },
{
    match received {
        Received::Message(RuntimeMessage::Dispatch { method, path, request_data, response_tx }) => {
            WorkerStep::Handle { method, path, request_data, response_tx }
        },
        Received::Message(RuntimeMessage::Shutdown) => WorkerStep::Stop,
        Received::Timeout => WorkerStep::Continue,
        Received::Disconnected => WorkerStep::Stop,
    }
}

/// What the async worker does next.
pub enum AsyncWorkerStep {
    /// Submit the request to Python's event loop.
    Submit { request_id: u64, method: String, path: String, request_data: serde_json::Value },
    /// Poll again.
    Continue,
    /// Leave the loop.
    Stop,
}

/// What the async worker does with what it received: submit a dispatch,
/// stop on shutdown or on a closed channel, poll again on a timeout.
pub fn async_worker_step(received: Received<AsyncRuntimeMessage>) -> (res: AsyncWorkerStep)
    ensures
        match received {
            Received::Message(AsyncRuntimeMessage::Dispatch { request_id, method, path, request_data }) => res
                == (AsyncWorkerStep::Submit { request_id, method, path, request_data }),
            Received::Message(AsyncRuntimeMessage::Shutdown) => res is Stop,
            Received::Timeout => res is Continue,
            Received::Disconnected => res is Stop,
        },
{
    match received {
        Received::Message(AsyncRuntimeMessage::Dispatch { request_id, method, path, request_data }) => {
            AsyncWorkerStep::Submit { request_id, method, path, request_data }
        },
        Received::Message(AsyncRuntimeMessage::Shutdown) => AsyncWorkerStep::Stop,
        Received::Timeout => AsyncWorkerStep::Continue,
        Received::Disconnected => AsyncWorkerStep::Stop,
    }
}

/// The async requests that await a response, each under its id, and the
/// id the next request gets. Ids start at 1 and count up, wrapping after
/// `u64::MAX` as an atomic counter does.
pub struct PendingRequests<T> {
    waiters: HashMap<u64, T>,
    next_id: u64,
}

/// The mathematical value of a [`PendingRequests`].
pub struct PendingView<T> {
    pub waiters: Map<u64, T>,
    pub next_id: u64,
}

impl<T> View for PendingRequests<T> {
    type V = PendingView<T>;

    closed spec fn view(&self) -> PendingView<T> {
        PendingView { waiters: self.waiters@, next_id: self.next_id }
    }
}

/// Ids have not wrapped, and every waiting id was handed out before the
/// next one: ids are at least 1 and below `next_id`.
pub open spec fn pending_wf<T>(p: PendingView<T>) -> bool {
    &&& 1 <= p.next_id
    &&& forall|k: u64| #[trigger] p.waiters.contains_key(k) ==> 1 <= k < p.next_id
}

/// The id after `id`, wrapping to 0 after `u64::MAX`.
pub open spec fn spec_following_id(id: u64) -> u64 {
    if id == u64::MAX {
        0
    } else {
        (id + 1) as u64
    }
}

impl<T> PendingRequests<T> {
    /// An empty table whose first id is 1.
    pub fn new() -> (res: Self)
        ensures
            res@.waiters == Map::<u64, T>::empty(),
            res@.next_id == 1,
            pending_wf(res@),
    {
        PendingRequests { waiters: HashMap::new(), next_id: 1 }
    }

    /// The number of waiting requests.
    pub fn len(&self) -> (res: usize)
        ensures
            res == self@.waiters.len(),
    {
        self.waiters.len()
    }

    /// Registers a waiter under the next id and returns that id.
    pub fn register(&mut self, waiter: T) -> (id: u64)
        ensures
            id == old(self)@.next_id,
            final(self)@.next_id == spec_following_id(old(self)@.next_id),
            final(self)@.waiters == old(self)@.waiters.insert(id, waiter),
            pending_wf(old(self)@) && old(self)@.next_id < u64::MAX ==> !old(
                self,
            )@.waiters.contains_key(id) && pending_wf(final(self)@),
    {
        let id: u64 = self.next_id;
        self.next_id = if id == u64::MAX {
            0
        } else {
            id + 1
        };
        self.waiters.insert(id, waiter);
        id
    }

    /// Removes and returns the waiter registered under `id`, if any.
    pub fn complete(&mut self, id: u64) -> (res: Option<T>)
        ensures
            res == (if old(self)@.waiters.contains_key(id) {
                Some(old(self)@.waiters[id])
            } else {
                None
            }),
            final(self)@.waiters == old(self)@.waiters.remove(id),
            final(self)@.next_id == old(self)@.next_id,
            pending_wf(old(self)@) ==> pending_wf(final(self)@),
    {
        self.waiters.remove(&id)
    }
}

/// Starts an async dispatch: refused with `AsyncNotEnabled`, leaving the
/// table as it was, when async dispatch is disabled; otherwise the waiter
/// is registered and its id returned.
pub fn begin_async_dispatch<T>(async_enabled: bool, pending: &mut PendingRequests<T>, waiter: T) -> (res:
    Result<u64, RuntimeError>)
    ensures
        !async_enabled ==> (res matches Err(e) && e@ == RuntimeErrorView::AsyncNotEnabled),
        !async_enabled ==> final(pending)@ == old(pending)@,
        async_enabled ==> res == Ok::<u64, RuntimeError>(old(pending)@.next_id),
        async_enabled ==> final(pending)@.waiters == old(pending)@.waiters.insert(
            old(pending)@.next_id,
            waiter,
        ),
        async_enabled ==> final(pending)@.next_id == spec_following_id(old(pending)@.next_id),
{
    if !async_enabled {
        return Err(RuntimeError::AsyncNotEnabled);
    }
    Ok(pending.register(waiter))
}

/// How a runtime is laid out for a configuration.
#[derive(Debug, Clone, Copy, PartialEq, Eq)]
pub struct RuntimeLayout {
    /// Number of dispatch worker threads.
    pub dispatch_workers: usize,
    /// Capacity of the dispatch channel: two messages per worker.
    pub channel_capacity: usize,
    /// Whether Python's SIGINT handler is reset to the default.
    pub install_signal_handler: bool,
    /// Whether the asyncio thread is started.
    pub start_async: bool,
}

impl RuntimeLayout {
    /// The layout for a configuration.
    pub fn for_config(config: &ChimeraConfig) -> (res: RuntimeLayout)
        requires
            config.dispatch_workers <= usize::MAX / 2,
        ensures
            res.dispatch_workers == config.dispatch_workers,
            res.channel_capacity == 2 * config.dispatch_workers,
            res.install_signal_handler == !config.disable_signal_handler,
            res.start_async == config.enable_async,
    {
        RuntimeLayout {
            dispatch_workers: config.dispatch_workers,
            channel_capacity: config.dispatch_workers * 2,
            install_signal_handler: !config.disable_signal_handler,
            start_async: config.enable_async,
        }
    }
}

} // verus!
