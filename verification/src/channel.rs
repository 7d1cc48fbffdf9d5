//! Bounded, ordered, bidirectional message channel between a worker and its
//! owner.
//!
//! Each direction is a FIFO queue with a fixed capacity chosen at
//! construction. Sending into a full direction and receiving from an empty
//! one are the two suspension points of the channel; both are modelled as a
//! `Pending` outcome that the caller retries, so that no call ever blocks.
//! Closing a direction is idempotent: it makes every later send resolve to
//! `Closed` and lets receives drain what is already queued before they too
//! resolve to `Closed`.

use vstd::prelude::*;
use std::collections::VecDeque;

verus! {

/// Outcome of one attempt to enqueue a message. `Pending` and `Closed` hand
/// the message back to the caller: `Pending` is the suspension point (the
/// queue is at capacity), to be retried once the other side has drained.
#[derive(Debug)]
pub enum SendPoll<T> {
    Sent,
    Pending(T),
    Closed(T),
}

/// Outcome of one attempt to dequeue a message. `Pending` is the suspension
/// point (nothing queued yet); `Closed` is the end of the channel, observed
/// only once the direction is both closed and drained.
#[derive(Debug)]
pub enum RecvPoll<T> {
    Message(T),
    Pending,
    Closed,
}

/// The two directions of a message channel.
#[derive(Clone, Copy, Debug, PartialEq, Eq, Structural)]
pub enum Direction {
    ToWorker,
    FromWorker,
}

/// Mathematical state of one direction: the queued messages in order, the
/// closed flag, and the capacity at which a send suspends.
pub struct PipeModel<T> {
    pub msgs: Seq<T>,
    pub closed: bool,
    pub cap: nat,
}

impl<T> PipeModel<T> {
    pub open spec fn wf(self) -> bool {
        self.msgs.len() <= self.cap && 1 <= self.cap
    }

    /// A send is accepted exactly here; otherwise it resolves to `Pending`
    /// (open but full) or `Closed`.
    pub open spec fn can_accept(self) -> bool {
        !self.closed && self.msgs.len() < self.cap
    }

    /// A send suspends exactly when the direction is open but at capacity.
    pub open spec fn send_would_pend(self) -> bool {
        !self.closed && self.msgs.len() >= self.cap
    }

    /// A receive suspends exactly when the direction is open and empty.
    pub open spec fn recv_would_pend(self) -> bool {
        !self.closed && self.msgs.len() == 0
    }

    /// The state after an accepted send: the message goes to the back.
    pub open spec fn sent(self, m: T) -> PipeModel<T> {
        PipeModel { msgs: self.msgs.push(m), ..self }
    }

    /// The state after a successful receive: the front message leaves.
    pub open spec fn received(self) -> PipeModel<T> {
        PipeModel { msgs: self.msgs.subrange(1, self.msgs.len() as int), ..self }
    }

    /// The state after closing: only the flag changes; queued messages stay
    /// so that the other side can still drain them.
    pub open spec fn closed_down(self) -> PipeModel<T> {
        PipeModel { closed: true, ..self }
    }
}

/// One direction of a message channel: a bounded FIFO queue of opaque
/// messages plus a closed flag.
pub struct Pipe<T> {
    pub queue: VecDeque<T>,
    pub closed: bool,
    pub cap: usize,
}

impl<T> View for Pipe<T> {
    type V = PipeModel<T>;

    open spec fn view(&self) -> PipeModel<T> {
        PipeModel { msgs: self.queue@, closed: self.closed, cap: self.cap as nat }
    }
}

impl<T> Pipe<T> {
    pub open spec fn wf(&self) -> bool {
        self@.wf()
    }

    /// A fresh, open, empty direction with the given suspension capacity.
    pub fn new(cap: usize) -> (p: Pipe<T>)
        requires
            1 <= cap,
        ensures
            p.wf(),
            p@.msgs == Seq::<T>::empty(),
            !p@.closed,
            p@.cap == cap as nat,
    {
        Pipe { queue: VecDeque::new(), closed: false, cap }
    }

    /// One attempt to enqueue `m`: accepted while the direction is open and
    /// below capacity, handed back as `Pending` at capacity, and handed back
    /// as `Closed` once the direction is closed.
    pub fn poll_send(&mut self, m: T) -> (r: SendPoll<T>)
        requires
            old(self).wf(),
        ensures
            final(self).wf(),
            final(self)@.cap == old(self)@.cap,
            final(self)@.closed == old(self)@.closed,
            old(self)@.closed ==> (r matches SendPoll::Closed(back) && back == m) && final(self)@ == old(self)@,
            old(self)@.send_would_pend() ==> (r matches SendPoll::Pending(back) && back == m)
                && final(self)@ == old(self)@,
            old(self)@.can_accept() ==> r is Sent && final(self)@ == old(self)@.sent(m),
            r is Sent <==> old(self)@.can_accept(),
    {
        if self.closed {
            SendPoll::Closed(m)
        } else if self.queue.len() >= self.cap {
            SendPoll::Pending(m)
        } else {
            self.queue.push_back(m);
            SendPoll::Sent
        }
    }

    /// One attempt to dequeue: yields the front message whenever one is
    /// queued (even after a close, so the queue drains), suspends while the
    /// direction is open and empty, and reports the end of the channel once
    /// it is closed and drained.
    pub fn poll_recv(&mut self) -> (r: RecvPoll<T>)
        requires
            old(self).wf(),
        ensures
            final(self).wf(),
            final(self)@.cap == old(self)@.cap,
            final(self)@.closed == old(self)@.closed,
            old(self)@.msgs.len() > 0 ==> (r matches RecvPoll::Message(m) && m == old(self)@.msgs[0])
                && final(self)@ == old(self)@.received(),
            old(self)@.recv_would_pend() ==> r is Pending && final(self)@ == old(self)@,
            old(self)@.msgs.len() == 0 && old(self)@.closed ==> r is Closed && final(self)@ == old(self)@,
    {
        match self.queue.pop_front() {
            Some(m) => RecvPoll::Message(m),
            None => {
                if self.closed {
                    RecvPoll::Closed
                } else {
                    RecvPoll::Pending
                }
            },
        }
    }

    /// Close this direction. Idempotent; queued messages are kept so the
    /// reader can still drain them.
    pub fn close(&mut self)
        requires
            old(self).wf(),
        ensures
            final(self).wf(),
            final(self)@ == old(self)@.closed_down(),
    {
        self.closed = true;
    }
}

/// The bidirectional channel: one direction carries messages to the worker's
/// script, the other carries its replies back to the owner.
pub struct MessageChannel {
    pub to_worker: Pipe<Vec<u8>>,
    pub from_worker: Pipe<Vec<u8>>,
}

impl MessageChannel {
    pub open spec fn dir(self, d: Direction) -> PipeModel<Vec<u8>> {
        match d {
            Direction::ToWorker => self.to_worker@,
            Direction::FromWorker => self.from_worker@,
        }
    }

    pub open spec fn wf(self) -> bool {
        self.to_worker.wf() && self.from_worker.wf()
    }

    /// Both directions of a channel are fully closed.
    pub open spec fn all_closed(self) -> bool {
        self.to_worker@.closed && self.from_worker@.closed
    }

    /// A fresh channel, both directions open and empty, with the same
    /// capacity each way.
    pub fn new(cap: usize) -> (c: MessageChannel)
        requires
            1 <= cap,
        ensures
            c.wf(),
            c.to_worker@.msgs == Seq::<Vec<u8>>::empty(),
            c.from_worker@.msgs == Seq::<Vec<u8>>::empty(),
            !c.to_worker@.closed,
            !c.from_worker@.closed,
            c.to_worker@.cap == cap as nat,
            c.from_worker@.cap == cap as nat,
    {
        MessageChannel { to_worker: Pipe::new(cap), from_worker: Pipe::new(cap) }
    }

    /// Enqueue a message in the given direction; the other direction is
    /// untouched.
    pub fn send(&mut self, d: Direction, m: Vec<u8>) -> (r: SendPoll<Vec<u8>>)
        requires
            old(self).wf(),
        ensures
            final(self).wf(),
            final(self).dir(d).cap == old(self).dir(d).cap,
            final(self).dir(d).closed == old(self).dir(d).closed,
            old(self).dir(d).closed ==> (r matches SendPoll::Closed(back) && back == m)
                && final(self).dir(d) == old(self).dir(d),
            old(self).dir(d).send_would_pend() ==> (r matches SendPoll::Pending(back) && back == m)
                && final(self).dir(d) == old(self).dir(d),
            old(self).dir(d).can_accept() ==> r is Sent && final(self).dir(d) == old(self).dir(d).sent(m),
            r is Sent <==> old(self).dir(d).can_accept(),
            d is ToWorker ==> final(self).from_worker == old(self).from_worker,
            d is FromWorker ==> final(self).to_worker == old(self).to_worker,
    {
        match d {
            Direction::ToWorker => self.to_worker.poll_send(m),
            Direction::FromWorker => self.from_worker.poll_send(m),
        }
    }

    /// Dequeue the front message of the given direction; the other direction
    /// is untouched.
    pub fn receive(&mut self, d: Direction) -> (r: RecvPoll<Vec<u8>>)
        requires
            old(self).wf(),
        ensures
            final(self).wf(),
            final(self).dir(d).cap == old(self).dir(d).cap,
            final(self).dir(d).closed == old(self).dir(d).closed,
            old(self).dir(d).msgs.len() > 0 ==> (r matches RecvPoll::Message(m) && m == old(
                self,
            ).dir(d).msgs[0]) && final(self).dir(d) == old(self).dir(d).received(),
            old(self).dir(d).recv_would_pend() ==> r is Pending && final(self).dir(d) == old(self).dir(d),
            old(self).dir(d).msgs.len() == 0 && old(self).dir(d).closed ==> r is Closed && final(self).dir(
                d,
            ) == old(self).dir(d),
            d is ToWorker ==> final(self).from_worker == old(self).from_worker,
            d is FromWorker ==> final(self).to_worker == old(self).to_worker,
    {
        match d {
            Direction::ToWorker => self.to_worker.poll_recv(),
            Direction::FromWorker => self.from_worker.poll_recv(),
        }
    }

    /// Close one direction; idempotent, and the other direction is untouched.
    pub fn close(&mut self, d: Direction)
        requires
            old(self).wf(),
        ensures
            final(self).wf(),
            final(self).dir(d) == old(self).dir(d).closed_down(),
            d is ToWorker ==> final(self).from_worker == old(self).from_worker,
            d is FromWorker ==> final(self).to_worker == old(self).to_worker,
    {
        match d {
            Direction::ToWorker => self.to_worker.close(),
            Direction::FromWorker => self.from_worker.close(),
        }
    }

    /// Close both directions, as happens when the worker completes.
    pub fn close_both(&mut self)
        requires
            old(self).wf(),
        ensures
            final(self).wf(),
            final(self).to_worker@ == old(self).to_worker@.closed_down(),
            final(self).from_worker@ == old(self).from_worker@.closed_down(),
            final(self).all_closed(),
    {
        self.to_worker.close();
        self.from_worker.close();
    }
}

/// The state of a direction after a batch of sends, each message appended in
/// turn by `PipeModel::sent`.
pub open spec fn sent_all<T>(p: PipeModel<T>, ms: Seq<T>) -> PipeModel<T>
    decreases ms.len(),
{
    if ms.len() == 0 {
        p
    } else {
        sent_all(p.sent(ms[0]), ms.subrange(1, ms.len() as int))
    }
}

/// Every send of the batch finds the direction open and below capacity, so
/// each one is accepted rather than suspended or refused.
pub open spec fn all_accepted<T>(p: PipeModel<T>, ms: Seq<T>) -> bool
    decreases ms.len(),
{
    ms.len() == 0 || (p.can_accept() && all_accepted(p.sent(ms[0]), ms.subrange(1, ms.len() as int)))
}

/// The messages yielded by `n` successive receives, each taking the front of
/// the queue as `PipeModel::received` does.
pub open spec fn receipts<T>(p: PipeModel<T>, n: nat) -> Seq<T>
    decreases n,
{
    if n == 0 || p.msgs.len() == 0 {
        Seq::empty()
    } else {
        seq![p.msgs[0]] + receipts(p.received(), (n - 1) as nat)
    }
}

/// A batch of sends appends exactly its messages, in order, and touches
/// neither the closed flag nor the capacity.
pub proof fn lemma_sent_all_appends<T>(p: PipeModel<T>, ms: Seq<T>)
    ensures
        sent_all(p, ms).msgs == p.msgs + ms,
        sent_all(p, ms).closed == p.closed,
        sent_all(p, ms).cap == p.cap,
    decreases ms.len(),
{
    if ms.len() == 0 {
        assert(p.msgs + ms =~= p.msgs);
    } else {
        let tail = ms.subrange(1, ms.len() as int);
        lemma_sent_all_appends(p.sent(ms[0]), tail);
        assert(p.msgs.push(ms[0]) + tail =~= p.msgs + ms);
    }
}

/// While a direction is open and has room for the whole batch, no send of
/// the batch suspends or fails.
pub proof fn lemma_room_means_all_accepted<T>(p: PipeModel<T>, ms: Seq<T>)
    requires
        !p.closed,
        p.msgs.len() + ms.len() <= p.cap,
    ensures
        all_accepted(p, ms),
    decreases ms.len(),
{
    if ms.len() > 0 {
        lemma_room_means_all_accepted(p.sent(ms[0]), ms.subrange(1, ms.len() as int));
    }
}

/// Receiving `n` times from a direction yields exactly its first `n` queued
/// messages, in queue order.
pub proof fn lemma_receipts_are_queue_prefix<T>(p: PipeModel<T>, n: nat)
    requires
        n <= p.msgs.len(),
    ensures
        receipts(p, n) == p.msgs.subrange(0, n as int),
    decreases n,
{
    if n == 0 {
        assert(receipts(p, n) =~= p.msgs.subrange(0, 0));
    } else {
        lemma_receipts_are_queue_prefix(p.received(), (n - 1) as nat);
        assert(seq![p.msgs[0]] + p.received().msgs.subrange(0, n as int - 1) =~= p.msgs.subrange(
            0,
            n as int,
        ));
    }
}

/// Law: messages posted while a direction is open are all accepted and are
/// received in exactly the order they were posted. This is the per-direction
/// FIFO guarantee of the channel: `send` appends (`PipeModel::sent`), and
/// `receive` takes the front (`PipeModel::received`), so a batch posted into
/// an empty direction with room for it comes out unchanged.
pub proof fn lemma_messages_received_in_send_order<T>(p: PipeModel<T>, ms: Seq<T>)
    requires
        !p.closed,
        p.msgs.len() == 0,
        ms.len() <= p.cap,
    ensures
        all_accepted(p, ms),
        receipts(sent_all(p, ms), ms.len()) == ms,
{
    lemma_room_means_all_accepted(p, ms);
    lemma_sent_all_appends(p, ms);
    lemma_receipts_are_queue_prefix(sent_all(p, ms), ms.len());
    assert((p.msgs + ms).subrange(0, ms.len() as int) =~= ms);
}

/// Law: closing a direction leaves no call suspended. After `closed_down`, a
/// send can no longer find the queue merely full (it resolves to `Closed`
/// and hands the message back), and a receive can no longer find the
/// direction merely empty (it yields a queued message or resolves to
/// `Closed`), while the already queued messages are kept for draining.
pub proof fn lemma_close_resolves_suspensions<T>(p: PipeModel<T>)
    ensures
        p.closed_down().closed,
        !p.closed_down().send_would_pend(),
        !p.closed_down().recv_would_pend(),
        p.closed_down().msgs == p.msgs,
        p.closed_down().closed_down() == p.closed_down(),
{
}

/// An accepted send goes to the back of the queue and moves no earlier
/// message: position `i` still holds what it held before.
pub proof fn lemma_send_keeps_earlier_messages<T>(p: PipeModel<T>, m: T, i: int)
    requires
        0 <= i < p.msgs.len(),
    ensures
        p.sent(m).msgs[i] == p.msgs[i],
        p.sent(m).msgs[p.msgs.len() as int] == m,
        p.sent(m).msgs.len() == p.msgs.len() + 1,
{
}

/// Law: senders never corrupt each other's order. Tag each message of an
/// interleaved batch with the identity of the handle that posted it: after
/// the whole batch is sent, the subsequence belonging to any one sender is
/// exactly that sender's messages in that sender's own posting order.
pub proof fn lemma_per_sender_fifo<T>(p: PipeModel<(u64, T)>, ms: Seq<(u64, T)>, who: u64)
    ensures
        (sent_all(p, ms).msgs.filter(|t: (u64, T)| t.0 == who) == p.msgs.filter(
            |t: (u64, T)| t.0 == who,
        ) + ms.filter(|t: (u64, T)| t.0 == who)),
{
    lemma_sent_all_appends(p, ms);
    Seq::filter_distributes_over_add(p.msgs, ms, |t: (u64, T)| t.0 == who);
}

} // verus!
