//! The duplex channel connecting a worker to its creator.
//!
//! A channel is a pair of bounded, ordered, closable one-direction pipes.
//! Payloads are opaque bytes; a distinguished control payload carries
//! lifecycle signals (termination requests).  Per direction, message order
//! is preserved, and closing the send half makes the receive half observe a
//! terminal end-of-stream indication exactly once, after all previously sent
//! payloads have been delivered.

use crate::errors::WorkerError;
use vstd::prelude::*;

verus! {

/// An out-of-band lifecycle signal carried over the channel.
#[derive(Clone, Copy, Debug, PartialEq, Eq, Structural)]
pub enum ControlSignal {
    /// The creator asks the worker to stop at its next safe point.
    Terminate,
}

/// One message: either an opaque user payload or a control signal.
#[derive(Clone, Debug, PartialEq, Eq)]
pub enum Message {
    /// An application-level payload; its format is opaque to this core.
    Data(Vec<u8>),
    /// A lifecycle signal, checked by the drive loop at safe points.
    Control(ControlSignal),
}

/// The mathematical value of a [`Message`].
pub enum MessageModel {
    Data(Seq<u8>),
    Control(ControlSignal),
}

impl View for Message {
    type V = MessageModel;

    open spec fn view(&self) -> MessageModel {
        match self {
            Message::Data(payload) => MessageModel::Data(payload@),
            Message::Control(signal) => MessageModel::Control(*signal),
        }
    }
}

/// What one receive attempt observed.
#[derive(Clone, Debug, PartialEq, Eq)]
pub enum RecvOutcome {
    /// The next payload, in send order.
    Payload(Message),
    /// The terminal end-of-stream indication: the send half is closed and
    /// every payload sent before the close has been delivered.  Produced
    /// exactly once per pipe.
    EndOfStream,
    /// Nothing available yet; the send half is still open, so a caller
    /// driving this as a task would suspend here.
    Pending,
    /// The stream already ended: end-of-stream was delivered earlier.
    Ended,
}

/// The mathematical value of a [`RecvOutcome`].
pub enum RecvModel {
    Payload(MessageModel),
    EndOfStream,
    Pending,
    Ended,
}

impl View for RecvOutcome {
    type V = RecvModel;

    open spec fn view(&self) -> RecvModel {
        match self {
            RecvOutcome::Payload(m) => RecvModel::Payload(m@),
            RecvOutcome::EndOfStream => RecvModel::EndOfStream,
            RecvOutcome::Pending => RecvModel::Pending,
            RecvOutcome::Ended => RecvModel::Ended,
        }
    }
}

/// One direction of a duplex channel: a bounded, ordered message queue with
/// a closable send half.
///
/// The ghost `history` records every message ever accepted by `send`, and
/// `taken` records every payload handed out by a receive; the
/// well-formedness invariant `taken + queue == history` is the ordering
/// guarantee: deliveries are always a prefix of sends, in send order, under
/// any interleaving of sends and receives.
pub struct Pipe {
    queue: Vec<Message>,
    capacity: usize,
    send_closed: bool,
    eos_delivered: bool,
    history: Ghost<Seq<MessageModel>>,
    taken: Ghost<Seq<MessageModel>>,
}

impl Pipe {
    /// The payloads currently queued, oldest first.
    pub closed spec fn queue(self) -> Seq<MessageModel> {
        self.queue@.map_values(|m: Message| m@)
    }

    /// The bound on how many payloads may be queued at once.
    pub closed spec fn capacity(self) -> nat {
        self.capacity as nat
    }

    /// Whether the send half has been closed.
    pub closed spec fn send_closed(self) -> bool {
        self.send_closed
    }

    /// Whether the terminal end-of-stream indication has been produced.
    pub closed spec fn eos_delivered(self) -> bool {
        self.eos_delivered
    }

    /// Every message ever accepted by `send`, in send order.
    pub closed spec fn history(self) -> Seq<MessageModel> {
        self.history@
    }

    /// Every message handed out by a receive, in delivery order.
    pub closed spec fn taken(self) -> Seq<MessageModel> {
        self.taken@
    }

    /// Well-formedness: deliveries plus the queue are exactly the sends, in
    /// order; the queue respects the bound; and once end-of-stream has been
    /// produced the pipe is closed and drained for good.
    pub open spec fn wf(self) -> bool {
        &&& self.taken() + self.queue() == self.history()
        &&& self.queue().len() <= self.capacity()
        &&& (self.eos_delivered() ==> self.send_closed() && self.queue().len() == 0)
    }

    /// What the next receive on this pipe observes.
    pub open spec fn recv_spec(self) -> RecvModel {
        if self.queue().len() > 0 {
            RecvModel::Payload(self.queue()[0])
        } else if self.send_closed() && !self.eos_delivered() {
            RecvModel::EndOfStream
        } else if self.send_closed() {
            RecvModel::Ended
        } else {
            RecvModel::Pending
        }
    }

    /// A fresh pipe with room for `capacity` queued payloads.
    pub fn new(capacity: usize) -> (p: Pipe)
        ensures
            p.wf(),
            p.queue() == Seq::<MessageModel>::empty(),
            p.capacity() == capacity as nat,
            !p.send_closed(),
            !p.eos_delivered(),
            p.history() == Seq::<MessageModel>::empty(),
            p.taken() == Seq::<MessageModel>::empty(),
    {
        let p = Pipe {
            queue: Vec::new(),
            capacity,
            send_closed: false,
            eos_delivered: false,
            history: Ghost(Seq::empty()),
            taken: Ghost(Seq::empty()),
        };
        proof {
            assert(p.queue() =~= Seq::<MessageModel>::empty());
            assert(p.taken() + p.queue() =~= p.history());
        }
        p
    }

    /// How many payloads are queued right now.
    pub fn len(&self) -> (n: usize)
        ensures
            n == self.queue().len(),
    {
        self.queue.len()
    }

    /// Whether the send half has been closed.
    pub fn is_closed(&self) -> (r: bool)
        ensures
            r == self.send_closed(),
    {
        self.send_closed
    }

    /// Whether the queue is at capacity.
    pub fn is_full(&self) -> (r: bool)
        ensures
            r == (self.queue().len() >= self.capacity()),
    {
        self.queue.len() >= self.capacity
    }

    /// Non-blocking enqueue.  Fails with `ChannelClosed` once the send half
    /// is closed and with `ChannelFull` while the bounded queue has no room;
    /// otherwise the payload is appended behind everything sent before it.
    pub fn send(&mut self, m: Message) -> (r: Result<(), WorkerError>)
        requires
            old(self).wf(),
        ensures
            send_rel(*old(self), *final(self), m@, r),
    {
        if self.send_closed {
            Err(WorkerError::ChannelClosed)
        } else if self.queue.len() >= self.capacity {
            Err(WorkerError::ChannelFull)
        } else {
            let ghost mv = m@;
            self.queue.push(m);
            self.history = Ghost(self.history@.push(mv));
            proof {
                assert(self.queue() =~= old(self).queue().push(mv));
                assert(self.taken() + self.queue() =~= self.history());
            }
            Ok(())
        }
    }

    /// Close the send half.  Idempotent; payloads already queued stay
    /// deliverable, and every later `send` fails with `ChannelClosed`.
    pub fn close(&mut self)
        requires
            old(self).wf(),
        ensures
            final(self).wf(),
            final(self).send_closed(),
            final(self).queue() == old(self).queue(),
            final(self).capacity() == old(self).capacity(),
            final(self).eos_delivered() == old(self).eos_delivered(),
            final(self).history() == old(self).history(),
            final(self).taken() == old(self).taken(),
    {
        self.send_closed = true;
    }

    /// Non-blocking receive.  Observes exactly [`Pipe::recv_spec`]: the
    /// oldest queued payload if any, the one-time end-of-stream indication
    /// once the pipe is closed and drained, `Ended` ever after, and
    /// `Pending` while the send half is open and nothing has arrived.
    pub fn try_receive(&mut self) -> (r: RecvOutcome)
        requires
            old(self).wf(),
        ensures
            recv_rel(*old(self), *final(self), r@),
    {
        if self.queue.len() > 0 {
            let m = self.queue.remove(0);
            let ghost mv = m@;
            self.taken = Ghost(self.taken@.push(mv));
            proof {
                assert(self.queue() =~= old(self).queue().drop_first());
                assert(self.taken() + self.queue() =~= self.history());
            }
            RecvOutcome::Payload(m)
        } else if self.send_closed && !self.eos_delivered {
            self.eos_delivered = true;
            RecvOutcome::EndOfStream
        } else if self.send_closed {
            RecvOutcome::Ended
        } else {
            RecvOutcome::Pending
        }
    }

    /// Take the oldest queued payload, known to exist.  Same delivery
    /// bookkeeping as [`Pipe::try_receive`] without wrapping the result.
    pub fn pop_front(&mut self) -> (m: Message)
        requires
            old(self).wf(),
            old(self).queue().len() > 0,
        ensures
            final(self).wf(),
            m@ == old(self).queue()[0],
            final(self).queue() == old(self).queue().drop_first(),
            final(self).taken() == old(self).taken().push(m@),
            final(self).capacity() == old(self).capacity(),
            final(self).send_closed() == old(self).send_closed(),
            final(self).eos_delivered() == old(self).eos_delivered(),
            final(self).history() == old(self).history(),
    {
        let m = self.queue.remove(0);
        let ghost mv = m@;
        self.taken = Ghost(self.taken@.push(mv));
        proof {
            assert(self.queue() =~= old(self).queue().drop_first());
            assert(self.taken() + self.queue() =~= self.history());
        }
        m
    }

    /// Borrow the oldest queued payload without delivering it.
    pub fn front(&self) -> (m: &Message)
        requires
            self.queue().len() > 0,
        ensures
            m@ == self.queue()[0],
    {
        &self.queue[0]
    }
}

/// What one `send` does to a pipe: the closed and full failures leave it
/// untouched, and an accepted payload is appended behind everything sent
/// before it.
pub open spec fn send_rel(pre: Pipe, post: Pipe, m: MessageModel, r: Result<
    (),
    WorkerError,
>) -> bool {
    &&& post.wf()
    &&& post.capacity() == pre.capacity()
    &&& post.send_closed() == pre.send_closed()
    &&& post.eos_delivered() == pre.eos_delivered()
    &&& post.taken() == pre.taken()
    &&& (pre.send_closed() ==> r == Err::<(), WorkerError>(WorkerError::ChannelClosed) && post
        == pre)
    &&& (!pre.send_closed() && pre.queue().len() >= pre.capacity() ==> r == Err::<
        (),
        WorkerError,
    >(WorkerError::ChannelFull) && post == pre)
    &&& (!pre.send_closed() && pre.queue().len() < pre.capacity() ==> r == Ok::<
        (),
        WorkerError,
    >(()) && post.queue() == pre.queue().push(m) && post.history() == pre.history().push(m))
}

/// What one receive attempt does to a pipe: it observes exactly
/// [`Pipe::recv_spec`], delivers the oldest payload if one is queued, and
/// marks end-of-stream as delivered the one time it is produced.
pub open spec fn recv_rel(pre: Pipe, post: Pipe, r: RecvModel) -> bool {
    &&& post.wf()
    &&& r == pre.recv_spec()
    &&& post.capacity() == pre.capacity()
    &&& post.send_closed() == pre.send_closed()
    &&& post.history() == pre.history()
    &&& (pre.queue().len() > 0 ==> post.queue() == pre.queue().drop_first() && post.taken()
        == pre.taken().push(pre.queue()[0]) && post.eos_delivered() == pre.eos_delivered())
    &&& (pre.queue().len() == 0 && pre.send_closed() && !pre.eos_delivered()
        ==> post.eos_delivered() && post.queue() == pre.queue() && post.taken() == pre.taken())
    &&& (pre.queue().len() == 0 && (!pre.send_closed() || pre.eos_delivered()) ==> post == pre)
}

/// Ordering law: under any interleaving of sends and receives, the payloads
/// a receiver has been handed, followed by those still queued, are exactly
/// the payloads sent, in send order.  In particular messages sent in some
/// order are received in that same order.
pub proof fn lemma_fifo_order(p: Pipe)
    requires
        p.wf(),
    ensures
        p.taken() + p.queue() == p.history(),
{
}

/// End-of-stream is produced at most once: after it has been delivered, no
/// receive ever observes it again.
pub proof fn lemma_eos_at_most_once(p: Pipe)
    requires
        p.wf(),
        p.eos_delivered(),
    ensures
        p.recv_spec() != RecvModel::EndOfStream,
{
}

/// End-of-stream is owed exactly once: as soon as the send half is closed
/// and every previously sent payload has been delivered, the very next
/// receive observes the terminal indication.
pub proof fn lemma_eos_after_drain(p: Pipe)
    requires
        p.wf(),
        p.send_closed(),
        p.queue().len() == 0,
        !p.eos_delivered(),
    ensures
        p.recv_spec() == RecvModel::EndOfStream,
{
}

/// The worker's bundle of channel endpoints: the receiving side of the pipe
/// its creator sends on, and the sending side of the pipe its creator
/// receives on.  Built by the creator and handed to the worker whole.
pub struct WorkerChannels {
    /// Creator-to-worker direction.
    pub to_worker: Pipe,
    /// Worker-to-creator direction.
    pub to_host: Pipe,
}

impl WorkerChannels {
    /// Both directions well formed.
    pub open spec fn wf(self) -> bool {
        self.to_worker.wf() && self.to_host.wf()
    }

    /// A fresh duplex channel whose two directions each hold up to
    /// `capacity` queued payloads.
    pub fn new(capacity: usize) -> (c: WorkerChannels)
        ensures
            c.wf(),
            c.to_worker.queue() == Seq::<MessageModel>::empty(),
            c.to_host.queue() == Seq::<MessageModel>::empty(),
            !c.to_worker.send_closed(),
            !c.to_host.send_closed(),
            !c.to_worker.eos_delivered(),
            !c.to_host.eos_delivered(),
            c.to_worker.capacity() == capacity as nat,
            c.to_host.capacity() == capacity as nat,
            c.to_worker.history() == Seq::<MessageModel>::empty(),
            c.to_host.history() == Seq::<MessageModel>::empty(),
            c.to_worker.taken() == Seq::<MessageModel>::empty(),
            c.to_host.taken() == Seq::<MessageModel>::empty(),
    {
        WorkerChannels { to_worker: Pipe::new(capacity), to_host: Pipe::new(capacity) }
    }
}

} // verus!
