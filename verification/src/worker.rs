//! Worker lifecycle, driving, and the thread-safe handle.
//!
//! A `Worker` owns one message channel and stands for one opaque execution
//! context. The context itself (script compilation, timers, network fetch)
//! lives outside this crate; a driver loop advances it one step at a time
//! and reports each step's outcome back as a `StepOutcome`. The worker turns
//! that stream of outcomes into its lifecycle: `Created` until the first
//! drive, then `Running`, then `Completed` — a terminal, irreversible state
//! reached when the context finishes naturally, reports an error, or is
//! explicitly terminated. On the completing transition the worker closes
//! both channel directions and removes its registry entry, exactly once.

use vstd::prelude::*;
use crate::channel::Direction;
use crate::channel::MessageChannel;
use crate::channel::RecvPoll;
use crate::channel::SendPoll;
use crate::registry::WorkerRegistry;

verus! {

/// A capability module wired into an execution context at construction:
/// a closed set of variants, each standing for one group of operations the
/// context's script may call.
#[derive(Clone, Copy, Debug, PartialEq, Eq, Structural)]
pub enum Capability {
    Runtime,
    WebWorkerOps,
    WorkerHost,
    ErrorSurfacing,
    Timers,
    Fetch,
}

/// What one driving step of the execution context reported: nothing to do,
/// some internal progress, or the context finished (naturally or with an
/// error message).
pub enum StepOutcome {
    Idle,
    Progressed,
    Completed(Result<(), String>),
}

/// The errors a worker surfaces to its owner. `ExecutionFault` carries the
/// execution context's own error text; `DriveTaskFailure` reports that the
/// driving tasks themselves faulted, identifying the offending workers by
/// id so the failure is never silently swallowed.
#[derive(Debug)]
pub enum WorkerError {
    ExecutionFault(String),
    DriveTaskFailure(Vec<u64>),
}

/// The worker lifecycle: `Created` until the first drive attempt, `Running`
/// while being driven, and finally `Completed` with the worker's single
/// owner-visible result.
#[derive(Debug)]
pub enum Lifecycle {
    Created,
    Running,
    Completed(Result<(), WorkerError>),
}

/// The owner-visible completion that a context result maps to: a context
/// error becomes an `ExecutionFault`, natural completion stays `Ok`.
pub open spec fn completion_of(r: Result<(), String>) -> Result<(), WorkerError> {
    match r {
        Ok(()) => Ok(()),
        Err(msg) => Err(WorkerError::ExecutionFault(msg)),
    }
}

/// One isolated worker: identity (a name, not required unique, plus a
/// registry-issued numeric id), the lifecycle, the startup payload handed to
/// the execution context, the capabilities wired into it, and the worker's
/// message channel.
pub struct Worker {
    pub name: String,
    pub id: u64,
    pub lifecycle: Lifecycle,
    pub startup_payload: Vec<u8>,
    pub capabilities: Vec<Capability>,
    pub channel: MessageChannel,
}

/// A cloneable, cross-thread reference to a worker's channel endpoints:
/// it carries the worker's identity and no ownership of the execution
/// context, so dropping every handle never terminates the worker.
#[derive(Clone, Copy, Debug, PartialEq, Eq, Structural)]
pub struct WorkerHandle {
    pub worker_id: u64,
}

impl Worker {
    pub open spec fn wf(&self) -> bool {
        self.channel.wf()
    }

    pub open spec fn is_completed(&self) -> bool {
        self.lifecycle is Completed
    }

    /// Construct a worker: channel open and empty in both directions, state
    /// `Created`, no capabilities yet, and a fresh id registered in the
    /// resource table.
    pub fn new(
        name: String,
        startup_payload: Vec<u8>,
        capacity: usize,
        registry: &mut WorkerRegistry,
    ) -> (w: Worker)
        requires
            1 <= capacity,
            old(registry).wf(),
            old(registry).next_id < u64::MAX,
        ensures
            w.wf(),
            w.name == name,
            w.startup_payload == startup_payload,
            w.id == old(registry).next_id,
            w.lifecycle is Created,
            w.capabilities@ == Seq::<Capability>::empty(),
            !w.channel.to_worker@.closed,
            !w.channel.from_worker@.closed,
            w.channel.to_worker@.msgs == Seq::<Vec<u8>>::empty(),
            w.channel.from_worker@.msgs == Seq::<Vec<u8>>::empty(),
            w.channel.to_worker@.cap == capacity as nat,
            w.channel.from_worker@.cap == capacity as nat,
            final(registry).wf(),
            final(registry).is_live(w.id),
            final(registry).live@ == old(registry).live@.push(w.id),
            final(registry).next_id == w.id + 1,
    {
        let id = registry.register();
        Worker {
            name,
            id,
            lifecycle: Lifecycle::Created,
            startup_payload,
            capabilities: Vec::new(),
            channel: MessageChannel::new(capacity),
        }
    }

    /// Wire one capability module into the execution context. Composition
    /// happens once, before the worker is first driven, and performs no I/O;
    /// it only records, in order, which operations the context exposes.
    pub fn install_capability(&mut self, c: Capability)
        requires
            old(self).wf(),
            old(self).lifecycle is Created,
        ensures
            final(self).wf(),
            final(self).capabilities@ == old(self).capabilities@.push(c),
            final(self).name == old(self).name,
            final(self).id == old(self).id,
            final(self).lifecycle == old(self).lifecycle,
            final(self).startup_payload == old(self).startup_payload,
            final(self).channel == old(self).channel,
    {
        self.capabilities.push(c);
    }

    /// A cheap, cloneable handle to this worker's channel, valid from any
    /// thread until the channel is closed.
    pub fn thread_safe_handle(&self) -> (h: WorkerHandle)
        ensures
            h.worker_id == self.id,
    {
        WorkerHandle { worker_id: self.id }
    }

    /// The worker side of the channel: take the next inbound message so it
    /// can be dispatched to the execution context. `Pending` means nothing
    /// is queued yet; `Closed` means the owner closed the direction and it
    /// is drained.
    pub fn take_inbound(&mut self) -> (r: RecvPoll<Vec<u8>>)
        requires
            old(self).wf(),
        ensures
            final(self).wf(),
            final(self).name == old(self).name,
            final(self).id == old(self).id,
            final(self).lifecycle == old(self).lifecycle,
            final(self).capabilities == old(self).capabilities,
            final(self).channel.from_worker == old(self).channel.from_worker,
            final(self).channel.to_worker@.closed == old(self).channel.to_worker@.closed,
            final(self).channel.to_worker@.cap == old(self).channel.to_worker@.cap,
            old(self).channel.to_worker@.msgs.len() > 0 ==> (r matches RecvPoll::Message(m) && m
                == old(self).channel.to_worker@.msgs[0]) && final(self).channel.to_worker@ == old(self).channel.to_worker@.received(),
            old(self).channel.to_worker@.recv_would_pend() ==> r is Pending && final(self).channel.to_worker@ == old(self).channel.to_worker@,
            old(self).channel.to_worker@.msgs.len() == 0 && old(self).channel.to_worker@.closed
                ==> r is Closed && final(self).channel.to_worker@ == old(self).channel.to_worker@,
    {
        self.channel.receive(Direction::ToWorker)
    }

    /// The worker side of the channel: post a reply from the execution
    /// context toward the owner.
    pub fn post_output(&mut self, m: Vec<u8>) -> (r: SendPoll<Vec<u8>>)
        requires
            old(self).wf(),
        ensures
            final(self).wf(),
            final(self).name == old(self).name,
            final(self).id == old(self).id,
            final(self).lifecycle == old(self).lifecycle,
            final(self).capabilities == old(self).capabilities,
            final(self).channel.to_worker == old(self).channel.to_worker,
            final(self).channel.from_worker@.closed == old(self).channel.from_worker@.closed,
            final(self).channel.from_worker@.cap == old(self).channel.from_worker@.cap,
            old(self).channel.from_worker@.closed ==> (r matches SendPoll::Closed(back) && back
                == m) && final(self).channel.from_worker@ == old(self).channel.from_worker@,
            old(self).channel.from_worker@.send_would_pend() ==> (r matches SendPoll::Pending(back)
                && back == m) && final(self).channel.from_worker@ == old(self).channel.from_worker@,
            old(self).channel.from_worker@.can_accept() ==> r is Sent && final(self).channel.from_worker@ == old(self).channel.from_worker@.sent(m),
            r is Sent <==> old(self).channel.from_worker@.can_accept(),
    {
        self.channel.send(Direction::FromWorker, m)
    }

    /// Drive the worker by one step: hand in what the execution context's
    /// latest step reported. The first drive moves `Created` to `Running`.
    /// A `Completed` outcome — the context finished naturally (for instance
    /// its script removed its message listener), or reported an error — is
    /// terminal: the worker moves to `Completed`, closes both channel
    /// directions (queued messages stay drainable) and removes its registry
    /// entry. Because a completed worker can never be driven again, the
    /// completion is signalled, and the entry removed, exactly once.
    pub fn drive_step(&mut self, outcome: StepOutcome, registry: &mut WorkerRegistry) -> (done:
        bool)
        requires
            old(self).wf(),
            !old(self).is_completed(),
            old(registry).wf(),
            old(registry).is_live(old(self).id),
        ensures
            final(self).wf(),
            final(registry).wf(),
            final(registry).next_id == old(registry).next_id,
            final(self).name == old(self).name,
            final(self).id == old(self).id,
            final(self).capabilities == old(self).capabilities,
            done == outcome is Completed,
            outcome matches StepOutcome::Completed(r) ==> {
                &&& final(self).lifecycle == (Lifecycle::Completed(completion_of(r)))
                &&& final(self).channel.to_worker@ == old(self).channel.to_worker@.closed_down()
                &&& final(self).channel.from_worker@ == old(self).channel.from_worker@.closed_down()
                &&& final(self).channel.all_closed()
                &&& !final(registry).is_live(old(self).id)
                &&& final(registry).live@.len() == old(registry).live@.len() - 1
                &&& forall|x: u64|
                    x != old(self).id ==> final(registry).is_live(x) == old(registry).is_live(x)
            },
            !(outcome is Completed) ==> {
                &&& final(self).lifecycle is Running
                &&& final(self).channel == old(self).channel
                &&& *final(registry) == *old(registry)
            },
    {
        match outcome {
            StepOutcome::Idle => {
                self.lifecycle = Lifecycle::Running;
                false
            },
            StepOutcome::Progressed => {
                self.lifecycle = Lifecycle::Running;
                false
            },
            StepOutcome::Completed(r) => {
                self.complete(completion_result(r), registry);
                true
            },
        }
    }

    /// Drive the worker until it completes, handing in the execution
    /// context's step outcomes in the order the context reported them. Each
    /// step dispatches at most one unit of work, then the loop re-checks for
    /// more; the worker completes at the first `Completed` outcome and the
    /// rest of the batch is discarded. Returns whether the worker completed
    /// within this batch; if not, it is left `Running` (or untouched when
    /// the batch was empty), to be driven again.
    pub fn drive_to_completion(
        &mut self,
        outcomes: Vec<StepOutcome>,
        registry: &mut WorkerRegistry,
    ) -> (done: bool)
        requires
            old(self).wf(),
            !old(self).is_completed(),
            old(registry).wf(),
            old(registry).is_live(old(self).id),
        ensures
            final(self).wf(),
            final(registry).wf(),
            final(registry).next_id == old(registry).next_id,
            final(self).name == old(self).name,
            final(self).id == old(self).id,
            final(self).capabilities == old(self).capabilities,
            done == (exists|j: int| 0 <= j < outcomes@.len() && outcomes@[j] is Completed),
            done ==> (exists|j: int|
                {
                    &&& 0 <= j < outcomes@.len()
                    &&& forall|k: int| 0 <= k < j ==> !(outcomes@[k] is Completed)
                    &&& (#[trigger] outcomes@[j]) matches StepOutcome::Completed(res)
                        && final(self).lifecycle == (Lifecycle::Completed(completion_of(res)))
                }),
            done ==> final(self).channel.all_closed() && !final(registry).is_live(old(self).id)
                && final(registry).live@.len() == old(registry).live@.len() - 1 && (forall|x: u64|
                x != old(self).id ==> final(registry).is_live(x) == old(registry).is_live(x)),
            !done ==> final(self).channel == old(self).channel && *final(registry) == *old(
                registry,
            ),
            !done && outcomes@.len() == 0 ==> final(self).lifecycle == old(self).lifecycle,
            !done && outcomes@.len() > 0 ==> final(self).lifecycle is Running,
    {
        let ghost all = outcomes@;
        let mut rest = outcomes;
        let total = rest.len();
        let mut i: usize = 0;
        while rest.len() > 0
            invariant
                all == outcomes@,
                total == all.len(),
                i + rest@.len() == all.len(),
                rest@ == all.subrange(i as int, all.len() as int),
                forall|k: int| 0 <= k < i ==> !(all[k] is Completed),
                self.wf(),
                !self.is_completed(),
                self.name == old(self).name,
                self.id == old(self).id,
                self.capabilities == old(self).capabilities,
                self.channel == old(self).channel,
                i == 0 ==> self.lifecycle == old(self).lifecycle,
                i > 0 ==> self.lifecycle is Running,
                *registry == *old(registry),
                registry.wf(),
                registry.is_live(self.id),
            decreases rest@.len(),
        {
            let oc = rest.remove(0);
            proof {
                assert(all.subrange(i as int, all.len() as int).remove(0) =~= all.subrange(
                    i as int + 1,
                    all.len() as int,
                ));
                assert(oc == all[i as int]);
            }
            let done = self.drive_step(oc, registry);
            if done {
                proof {
                    assert(all == outcomes@);
                    assert(0 <= i < outcomes@.len() && outcomes@[i as int] is Completed);
                    assert(forall|k: int| 0 <= k < i ==> !(outcomes@[k] is Completed));
                }
                return true;
            }
            i = i + 1;
        }
        false
    }

    /// Explicit external termination: the owner gives up on the worker and
    /// tears it down. The worker completes with `Ok(())`, closes its channel
    /// and removes its registry entry, exactly as a natural completion does.
    pub fn terminate(&mut self, registry: &mut WorkerRegistry)
        requires
            old(self).wf(),
            !old(self).is_completed(),
            old(registry).wf(),
            old(registry).is_live(old(self).id),
        ensures
            final(self).wf(),
            final(registry).wf(),
            final(registry).next_id == old(registry).next_id,
            final(self).name == old(self).name,
            final(self).id == old(self).id,
            final(self).capabilities == old(self).capabilities,
            final(self).lifecycle == (Lifecycle::Completed(Ok::<(), WorkerError>(()))),
            final(self).channel.to_worker@ == old(self).channel.to_worker@.closed_down(),
            final(self).channel.from_worker@ == old(self).channel.from_worker@.closed_down(),
            final(self).channel.all_closed(),
            !final(registry).is_live(old(self).id),
            final(registry).live@.len() == old(registry).live@.len() - 1,
            forall|x: u64| x != old(self).id ==> final(registry).is_live(x) == old(registry).is_live(x),
    {
        self.complete(Ok(()), registry);
    }

    /// The single completing transition, shared by natural completion,
    /// execution faults and explicit termination.
    fn complete(&mut self, result: Result<(), WorkerError>, registry: &mut WorkerRegistry)
        requires
            old(self).wf(),
            !old(self).is_completed(),
            old(registry).wf(),
            old(registry).is_live(old(self).id),
        ensures
            final(self).wf(),
            final(registry).wf(),
            final(registry).next_id == old(registry).next_id,
            final(self).name == old(self).name,
            final(self).id == old(self).id,
            final(self).capabilities == old(self).capabilities,
            final(self).lifecycle == (Lifecycle::Completed(result)),
            final(self).channel.to_worker@ == old(self).channel.to_worker@.closed_down(),
            final(self).channel.from_worker@ == old(self).channel.from_worker@.closed_down(),
            final(self).channel.all_closed(),
            !final(registry).is_live(old(self).id),
            final(registry).live@.len() == old(registry).live@.len() - 1,
            forall|x: u64| x != old(self).id ==> final(registry).is_live(x) == old(registry).is_live(x),
    {
        self.lifecycle = Lifecycle::Completed(result);
        self.channel.close_both();
        registry.unregister(self.id);
    }
}

/// The executable twin of `completion_of`: map the context's step result to
/// the owner-visible completion.
fn completion_result(r: Result<(), String>) -> (c: Result<(), WorkerError>)
    ensures
        c == completion_of(r),
{
    match r {
        Ok(()) => Ok(()),
        Err(msg) => Err(WorkerError::ExecutionFault(msg)),
    }
}

impl WorkerHandle {
    /// Post a message toward the worker's script, from any thread holding a
    /// clone of the handle. Accepted while the to-worker direction is open
    /// and below capacity; `Pending` is the suspension point (retry once the
    /// worker has drained); `Closed` hands the message back after the
    /// direction was closed.
    pub fn post_message(&self, w: &mut Worker, m: Vec<u8>) -> (r: SendPoll<Vec<u8>>)
        requires
            self.worker_id == old(w).id,
            old(w).wf(),
        ensures
            final(w).wf(),
            final(w).name == old(w).name,
            final(w).id == old(w).id,
            final(w).lifecycle == old(w).lifecycle,
            final(w).capabilities == old(w).capabilities,
            final(w).channel.from_worker == old(w).channel.from_worker,
            final(w).channel.to_worker@.closed == old(w).channel.to_worker@.closed,
            final(w).channel.to_worker@.cap == old(w).channel.to_worker@.cap,
            old(w).channel.to_worker@.closed ==> (r matches SendPoll::Closed(back) && back == m)
                && final(w).channel.to_worker@ == old(w).channel.to_worker@,
            old(w).channel.to_worker@.send_would_pend() ==> (r matches SendPoll::Pending(back)
                && back == m) && final(w).channel.to_worker@ == old(w).channel.to_worker@,
            old(w).channel.to_worker@.can_accept() ==> r is Sent && final(w).channel.to_worker@
                == old(w).channel.to_worker@.sent(m),
            r is Sent <==> old(w).channel.to_worker@.can_accept(),
    {
        w.channel.send(Direction::ToWorker, m)
    }

    /// Receive the worker's next reply. Yields queued replies in order (also
    /// after the worker completed, until drained), suspends while the
    /// direction is open and empty, and reports end-of-channel once it is
    /// closed and drained.
    pub fn get_message(&self, w: &mut Worker) -> (r: RecvPoll<Vec<u8>>)
        requires
            self.worker_id == old(w).id,
            old(w).wf(),
        ensures
            final(w).wf(),
            final(w).name == old(w).name,
            final(w).id == old(w).id,
            final(w).lifecycle == old(w).lifecycle,
            final(w).capabilities == old(w).capabilities,
            final(w).channel.to_worker == old(w).channel.to_worker,
            final(w).channel.from_worker@.closed == old(w).channel.from_worker@.closed,
            final(w).channel.from_worker@.cap == old(w).channel.from_worker@.cap,
            old(w).channel.from_worker@.msgs.len() > 0 ==> (r matches RecvPoll::Message(m) && m
                == old(w).channel.from_worker@.msgs[0]) && final(w).channel.from_worker@ == old(w).channel.from_worker@.received(),
            old(w).channel.from_worker@.recv_would_pend() ==> r is Pending && final(w).channel.from_worker@ == old(w).channel.from_worker@,
            old(w).channel.from_worker@.msgs.len() == 0 && old(w).channel.from_worker@.closed
                ==> r is Closed && final(w).channel.from_worker@ == old(w).channel.from_worker@,
    {
        w.channel.receive(Direction::FromWorker)
    }

    /// Owner-side close of the to-worker direction: the worker stops seeing
    /// new inbound messages, but in-flight script work is not halted and the
    /// worker's own replies stay drainable.
    pub fn close(&self, w: &mut Worker)
        requires
            self.worker_id == old(w).id,
            old(w).wf(),
        ensures
            final(w).wf(),
            final(w).name == old(w).name,
            final(w).id == old(w).id,
            final(w).lifecycle == old(w).lifecycle,
            final(w).capabilities == old(w).capabilities,
            final(w).channel.from_worker == old(w).channel.from_worker,
            final(w).channel.to_worker@ == old(w).channel.to_worker@.closed_down(),
    {
        w.channel.close(Direction::ToWorker)
    }
}

/// The capability modules of a web-worker-style specialization, in the
/// fixed, documented order they are wired in. `ErrorSurfacing` stands
/// before `Timers` and `Fetch` so that later modules can already report
/// errors through it; the order is deterministic, not incidental.
pub open spec fn web_worker_capabilities() -> Seq<Capability> {
    seq![
        Capability::Runtime,
        Capability::WebWorkerOps,
        Capability::WorkerHost,
        Capability::ErrorSurfacing,
        Capability::Timers,
        Capability::Fetch,
    ]
}

/// A worker specialized for Web-Worker-style use: a bare `Worker` with the
/// fixed capability set of `web_worker_capabilities` wired in at
/// construction. Pure composition — no new concurrency logic.
pub struct WebWorker(pub Worker);

impl WebWorker {
    /// Build the bare worker, then register the capability modules in their
    /// fixed order.
    pub fn new(
        name: String,
        startup_payload: Vec<u8>,
        capacity: usize,
        registry: &mut WorkerRegistry,
    ) -> (w: WebWorker)
        requires
            1 <= capacity,
            old(registry).wf(),
            old(registry).next_id < u64::MAX,
        ensures
            w.0.wf(),
            w.0.name == name,
            w.0.startup_payload == startup_payload,
            w.0.id == old(registry).next_id,
            w.0.lifecycle is Created,
            w.0.capabilities@ == web_worker_capabilities(),
            !w.0.channel.to_worker@.closed,
            !w.0.channel.from_worker@.closed,
            w.0.channel.to_worker@.msgs == Seq::<Vec<u8>>::empty(),
            w.0.channel.from_worker@.msgs == Seq::<Vec<u8>>::empty(),
            w.0.channel.to_worker@.cap == capacity as nat,
            w.0.channel.from_worker@.cap == capacity as nat,
            final(registry).wf(),
            final(registry).is_live(w.0.id),
            final(registry).live@ == old(registry).live@.push(w.0.id),
    {
        let mut worker = Worker::new(name, startup_payload, capacity, registry);
        worker.install_capability(Capability::Runtime);
        worker.install_capability(Capability::WebWorkerOps);
        worker.install_capability(Capability::WorkerHost);
        worker.install_capability(Capability::ErrorSurfacing);
        worker.install_capability(Capability::Timers);
        worker.install_capability(Capability::Fetch);
        proof {
            assert(worker.capabilities@ =~= web_worker_capabilities());
        }
        WebWorker(worker)
    }
}

} // verus!
