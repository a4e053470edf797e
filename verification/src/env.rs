//! The execution environment.
//!
//! The real script engine is an external collaborator; what this core
//! coordinates is modeled here as plain values: the environment's pending
//! work (the units its event loop still has to run), and the set of host
//! operations registered into it.  Bootstrap data is a byte blob encoding
//! the pending work; a malformed blob fails construction.
//!
//! Blob format, one instruction after another:
//! * `0x01` — one unit of internal work (a timer, a microtask);
//! * `0x02 n b1..bn` — post the `n`-byte payload to the creator;
//! * `0x03` — block until the next payload from the creator arrives;
//! * `0x04` — raise an unrecoverable fault;
//! * anything else is malformed.

use crate::channel::ControlSignal;
use crate::channel::Message;
use crate::channel::MessageModel;
use crate::channel::Pipe;
use crate::errors::WorkerError;
use vstd::prelude::*;

verus! {

pub const TAG_COMPUTE: u8 = 1;

pub const TAG_EMIT: u8 = 2;

pub const TAG_AWAIT: u8 = 3;

pub const TAG_FAULT: u8 = 4;

/// One unit of pending work in an environment's event loop.
#[derive(Clone, Debug, PartialEq, Eq)]
pub enum WorkUnit {
    /// Internal work with no observable effect (a timer, a microtask).
    Compute,
    /// A messaging operation: post this payload to the creator.
    Emit(Vec<u8>),
    /// Block until the next payload from the creator arrives.
    AwaitMessage,
    /// The script raises an unrecoverable fault when this unit runs.
    Fault,
}

/// The mathematical value of a [`WorkUnit`].
pub enum UnitModel {
    Compute,
    Emit(Seq<u8>),
    AwaitMessage,
    Fault,
}

impl View for WorkUnit {
    type V = UnitModel;

    open spec fn view(&self) -> UnitModel {
        match self {
            WorkUnit::Compute => UnitModel::Compute,
            WorkUnit::Emit(payload) => UnitModel::Emit(payload@),
            WorkUnit::AwaitMessage => UnitModel::AwaitMessage,
            WorkUnit::Fault => UnitModel::Fault,
        }
    }
}

/// The mathematical value of a whole work queue.
pub open spec fn units_view(s: Seq<WorkUnit>) -> Seq<UnitModel> {
    s.map_values(|u: WorkUnit| u@)
}

/// What a bootstrap blob means: the work units it encodes, front first, or
/// `None` if it is malformed.
pub open spec fn parse_program(b: Seq<u8>) -> Option<Seq<UnitModel>>
    decreases b.len(),
{
    if b.len() == 0 {
        Some(Seq::empty())
    } else if b[0] == TAG_COMPUTE {
        match parse_program(b.drop_first()) {
            Some(rest) => Some(seq![UnitModel::Compute] + rest),
            None => None,
        }
    } else if b[0] == TAG_EMIT {
        if b.len() >= 2 + b[1] {
            match parse_program(b.skip(2 + b[1] as int)) {
                Some(rest) => Some(
                    seq![UnitModel::Emit(b.subrange(2, 2 + b[1] as int))] + rest,
                ),
                None => None,
            }
        } else {
            None
        }
    } else if b[0] == TAG_AWAIT {
        match parse_program(b.drop_first()) {
            Some(rest) => Some(seq![UnitModel::AwaitMessage] + rest),
            None => None,
        }
    } else if b[0] == TAG_FAULT {
        match parse_program(b.drop_first()) {
            Some(rest) => Some(seq![UnitModel::Fault] + rest),
            None => None,
        }
    } else {
        None
    }
}

/// Bootstrap data for a fresh environment: an opaque blob (script source,
/// snapshot, or equivalent) that the environment decodes at creation.
pub struct StartupData {
    payload: Vec<u8>,
}

impl StartupData {
    /// The raw blob.
    pub closed spec fn bytes(self) -> Seq<u8> {
        self.payload@
    }

    /// Wrap a blob.
    pub fn new(payload: Vec<u8>) -> (d: StartupData)
        ensures
            d.bytes() == payload@,
    {
        StartupData { payload }
    }
}

/// The outcome of driving a worker one step.
#[derive(Clone, Copy, Debug, PartialEq, Eq, Structural)]
pub enum StepResult {
    /// The environment still has outstanding work or open channel activity.
    Pending,
    /// The event loop drained (or the worker was told to terminate).
    Done,
    /// Script execution raised an unrecoverable fault.
    Fault,
}

/// The state a run of the event loop yields with: the remaining work, both
/// message queues, and the step's result.
pub struct StepModel {
    pub work: Seq<UnitModel>,
    pub inbox: Seq<MessageModel>,
    pub outbox: Seq<MessageModel>,
    pub result: StepResult,
}

/// What one drive step does: run pending work until the environment would
/// otherwise block — a unit awaiting a message that has not arrived, or a
/// post onto a full outbox — or until the event loop drains, a termination
/// request arrives, or the script faults.
pub open spec fn run_spec(
    work: Seq<UnitModel>,
    inbox: Seq<MessageModel>,
    in_closed: bool,
    outbox: Seq<MessageModel>,
    out_cap: nat,
) -> StepModel
    decreases work.len(),
{
    if work.len() == 0 {
        StepModel { work, inbox, outbox, result: StepResult::Done }
    } else {
        match work[0] {
            UnitModel::Compute => run_spec(work.drop_first(), inbox, in_closed, outbox, out_cap),
            UnitModel::Fault => StepModel {
                work: work.drop_first(),
                inbox,
                outbox,
                result: StepResult::Fault,
            },
            UnitModel::Emit(p) => if outbox.len() >= out_cap {
                StepModel { work, inbox, outbox, result: StepResult::Pending }
            } else {
                run_spec(
                    work.drop_first(),
                    inbox,
                    in_closed,
                    outbox.push(MessageModel::Data(p)),
                    out_cap,
                )
            },
            UnitModel::AwaitMessage => if inbox.len() > 0 {
                match inbox[0] {
                    MessageModel::Control(ControlSignal::Terminate) => StepModel {
                        work: work.drop_first(),
                        inbox: inbox.drop_first(),
                        outbox,
                        result: StepResult::Done,
                    },
                    MessageModel::Data(_) => run_spec(
                        work.drop_first(),
                        inbox.drop_first(),
                        in_closed,
                        outbox,
                        out_cap,
                    ),
                }
            } else if in_closed {
                StepModel { work, inbox, outbox, result: StepResult::Done }
            } else {
                StepModel { work, inbox, outbox, result: StepResult::Pending }
            },
        }
    }
}

/// The modeled execution environment: its pending work, front first, and
/// the host operations registered into it, in registration order.
pub struct Environment {
    work: Vec<WorkUnit>,
    ops: Vec<u64>,
}

/// What registering a list of operations, one after another, leaves behind:
/// the extended registry, or `None` as soon as one operation is already
/// present.
pub open spec fn register_all(ops: Seq<u64>, ids: Seq<u64>) -> Option<Seq<u64>>
    decreases ids.len(),
{
    if ids.len() == 0 {
        Some(ops)
    } else if ops.contains(ids[0]) {
        None
    } else {
        register_all(ops.push(ids[0]), ids.drop_first())
    }
}

proof fn lemma_view_drop_first(s: Seq<WorkUnit>)
    requires
        s.len() > 0,
    ensures
        units_view(s.drop_first()) == units_view(s).drop_first(),
{
    assert(units_view(s.drop_first()) =~= units_view(s).drop_first());
}

proof fn lemma_view_insert_front(s: Seq<WorkUnit>, u: WorkUnit)
    ensures
        units_view(s.insert(0, u)) == seq![u@] + units_view(s),
{
    s.insert_ensures(0, u);
    assert(units_view(s.insert(0, u)) =~= seq![u@] + units_view(s));
}

impl Environment {
    /// The pending work, front first.
    pub closed spec fn work_view(self) -> Seq<UnitModel> {
        units_view(self.work@)
    }

    /// The registered operations, in registration order.
    pub closed spec fn ops(self) -> Seq<u64> {
        self.ops@
    }

    /// Well-formedness: each operation is registered at most once.
    pub open spec fn wf(self) -> bool {
        forall|i: int, j: int|
            0 <= i < j < self.ops().len() ==> self.ops()[i] != self.ops()[j]
    }

    /// Decode a bootstrap blob into a fresh environment with no operations
    /// registered.  Fails with `EnvironmentInit` exactly when the blob is
    /// malformed; no environment is produced then.
    pub fn create(bootstrap: &StartupData) -> (r: Result<Environment, WorkerError>)
        ensures
            match r {
                Ok(env) => {
                    &&& env.wf()
                    &&& parse_program(bootstrap.bytes()) == Some(env.work_view())
                    &&& env.ops() == Seq::<u64>::empty()
                },
                Err(e) => e == WorkerError::EnvironmentInit && parse_program(bootstrap.bytes())
                    is None,
            },
    {
        match Self::parse_from(&bootstrap.payload, 0) {
            Ok(work) => {
                proof {
                    assert(bootstrap.payload@.skip(0) =~= bootstrap.payload@);
                }
                Ok(Environment { work, ops: Vec::new() })
            },
            Err(e) => {
                proof {
                    assert(bootstrap.payload@.skip(0) =~= bootstrap.payload@);
                }
                Err(e)
            },
        }
    }

    /// Decode the instructions from position `i` on.
    #[verifier::loop_isolation(false)]
    fn parse_from(bytes: &Vec<u8>, i: usize) -> (r: Result<Vec<WorkUnit>, WorkerError>)
        requires
            i <= bytes@.len(),
        ensures
            match r {
                Ok(units) => parse_program(bytes@.skip(i as int)) == Some(units_view(units@)),
                Err(e) => e == WorkerError::EnvironmentInit && parse_program(
                    bytes@.skip(i as int),
                ) is None,
            },
        decreases bytes@.len() - i,
    {
        let ghost b = bytes@.skip(i as int);
        if i == bytes.len() {
            let units: Vec<WorkUnit> = Vec::new();
            proof {
                assert(b =~= Seq::<u8>::empty());
                assert(units_view(units@) =~= Seq::<UnitModel>::empty());
            }
            return Ok(units);
        }
        let tag = bytes[i];
        assert(b[0] == tag);
        if tag == TAG_COMPUTE || tag == TAG_AWAIT || tag == TAG_FAULT {
            let unit = if tag == TAG_COMPUTE {
                WorkUnit::Compute
            } else if tag == TAG_AWAIT {
                WorkUnit::AwaitMessage
            } else {
                WorkUnit::Fault
            };
            proof {
                assert(b.drop_first() =~= bytes@.skip(i + 1));
            }
            match Self::parse_from(bytes, i + 1) {
                Ok(mut rest) => {
                    let ghost rv = rest@;
                    rest.insert(0, unit);
                    proof {
                        lemma_view_insert_front(rv, unit);
                    }
                    Ok(rest)
                },
                Err(e) => Err(e),
            }
        } else if tag == TAG_EMIT {
            if i + 1 == bytes.len() {
                return Err(WorkerError::EnvironmentInit);
            }
            let n = bytes[i + 1] as usize;
            assert(b[1] == n);
            if bytes.len() - (i + 2) < n {
                return Err(WorkerError::EnvironmentInit);
            }
            let mut payload: Vec<u8> = Vec::new();
            let mut j: usize = 0;
            while j < n
                invariant
                    j <= n,
                    i + 2 + n <= bytes@.len(),
                    payload@ =~= bytes@.subrange(i + 2, i + 2 + j),
                decreases n - j,
            {
                payload.push(bytes[i + 2 + j]);
                j = j + 1;
                proof {
                    assert(payload@ =~= bytes@.subrange(i + 2, i + 2 + j));
                }
            }
            proof {
                assert(b.subrange(2, 2 + n) =~= bytes@.subrange(i + 2, i + 2 + n));
                assert(b.skip(2 + n) =~= bytes@.skip(i + 2 + n));
            }
            match Self::parse_from(bytes, i + 2 + n) {
                Ok(mut rest) => {
                    let ghost rv = rest@;
                    let unit = WorkUnit::Emit(payload);
                    rest.insert(0, unit);
                    proof {
                        lemma_view_insert_front(rv, unit);
                    }
                    Ok(rest)
                },
                Err(e) => Err(e),
            }
        } else {
            Err(WorkerError::EnvironmentInit)
        }
    }

    /// Whether an operation is registered.
    pub fn has_op(&self, id: u64) -> (r: bool)
        ensures
            r == self.ops().contains(id),
    {
        let mut k: usize = 0;
        while k < self.ops.len()
            invariant
                k <= self.ops@.len(),
                forall|j: int| 0 <= j < k ==> self.ops@[j] != id,
            decreases self.ops@.len() - k,
        {
            if self.ops[k] == id {
                return true;
            }
            k = k + 1;
        }
        false
    }

    /// Install one host operation.  Fails with `Registration` exactly when
    /// an operation with this id is already present; the environment is
    /// unchanged then.
    pub fn register_op(&mut self, id: u64) -> (r: Result<(), WorkerError>)
        requires
            old(self).wf(),
        ensures
            final(self).wf(),
            final(self).work_view() == old(self).work_view(),
            old(self).ops().contains(id) ==> r == Err::<(), WorkerError>(WorkerError::Registration)
                && final(self).ops() == old(self).ops(),
            !old(self).ops().contains(id) ==> r == Ok::<(), WorkerError>(()) && final(self).ops()
                == old(self).ops().push(id),
    {
        if self.has_op(id) {
            Err(WorkerError::Registration)
        } else {
            self.ops.push(id);
            Ok(())
        }
    }

    /// Install a whole group of operations, one after another, atomically:
    /// on the first failure the registry is rolled back, so either every
    /// operation of the group is installed or none is.
    #[verifier::loop_isolation(false)]
    pub fn register_group(&mut self, ids: &Vec<u64>) -> (r: Result<(), WorkerError>)
        requires
            old(self).wf(),
        ensures
            final(self).wf(),
            final(self).work_view() == old(self).work_view(),
            match register_all(old(self).ops(), ids@) {
                Some(after) => r == Ok::<(), WorkerError>(()) && final(self).ops() == after,
                None => r == Err::<(), WorkerError>(WorkerError::Registration)
                    && final(self).ops() == old(self).ops(),
            },
    {
        let orig_len = self.ops.len();
        proof {
            assert(ids@.skip(0) =~= ids@);
            assert(self.ops().subrange(0, orig_len as int) =~= old(self).ops());
        }
        let mut k: usize = 0;
        while k < ids.len()
            invariant
                k <= ids@.len(),
                self.wf(),
                self.work_view() == old(self).work_view(),
                orig_len == old(self).ops().len(),
                self.ops().len() >= orig_len,
                self.ops().subrange(0, orig_len as int) =~= old(self).ops(),
                register_all(old(self).ops(), ids@) == register_all(
                    self.ops(),
                    ids@.skip(k as int),
                ),
            decreases ids@.len() - k,
        {
            let ghost pre_ops = self.ops();
            let ghost rest = ids@.skip(k as int);
            proof {
                assert(rest[0] == ids@[k as int]);
                assert(rest.drop_first() =~= ids@.skip(k + 1));
            }
            match self.register_op(ids[k]) {
                Ok(()) => {},
                Err(e) => {
                    self.ops.truncate(orig_len);
                    proof {
                        assert(self.ops() =~= old(self).ops());
                    }
                    return Err(e);
                },
            }
            proof {
                assert(self.ops().subrange(0, orig_len as int) =~= old(self).ops());
            }
            k = k + 1;
        }
        proof {
            assert(ids@.skip(k as int) =~= Seq::<u64>::empty());
        }
        Ok(())
    }

    /// Run the environment's pending work under the caller's exclusive
    /// access, to its next natural yield point: a blocked await, a post
    /// onto a full outbox (both `Pending`), a termination request or a
    /// drained event loop (`Done`), or a script fault (`Fault`).  Observes
    /// exactly [`run_spec`].
    #[verifier::loop_isolation(false)]
    pub fn run_pending(&mut self, inbox: &mut Pipe, outbox: &mut Pipe) -> (r: StepResult)
        requires
            old(self).wf(),
            old(inbox).wf(),
            old(outbox).wf(),
            !old(outbox).send_closed(),
        ensures
            final(self).wf(),
            final(inbox).wf(),
            final(outbox).wf(),
            final(self).ops() == old(self).ops(),
            final(inbox).capacity() == old(inbox).capacity(),
            final(inbox).send_closed() == old(inbox).send_closed(),
            final(inbox).eos_delivered() == old(inbox).eos_delivered(),
            final(inbox).history() == old(inbox).history(),
            final(outbox).capacity() == old(outbox).capacity(),
            !final(outbox).send_closed(),
            final(outbox).taken() == old(outbox).taken(),
            ({
                let m = run_spec(
                    old(self).work_view(),
                    old(inbox).queue(),
                    old(inbox).send_closed(),
                    old(outbox).queue(),
                    old(outbox).capacity(),
                );
                &&& final(self).work_view() == m.work
                &&& final(inbox).queue() == m.inbox
                &&& final(outbox).queue() == m.outbox
                &&& r == m.result
            }),
    {
        let ghost goal = run_spec(
            self.work_view(),
            inbox.queue(),
            inbox.send_closed(),
            outbox.queue(),
            outbox.capacity(),
        );
        let ghost ops0 = self.ops();
        let ghost in_cap0 = inbox.capacity();
        let ghost in_closed0 = inbox.send_closed();
        let ghost in_eos0 = inbox.eos_delivered();
        let ghost in_hist0 = inbox.history();
        let ghost out_cap0 = outbox.capacity();
        let ghost out_taken0 = outbox.taken();
        loop
            invariant
                self.wf(),
                inbox.wf(),
                outbox.wf(),
                !outbox.send_closed(),
                self.ops() == ops0,
                inbox.capacity() == in_cap0,
                inbox.send_closed() == in_closed0,
                inbox.eos_delivered() == in_eos0,
                inbox.history() == in_hist0,
                outbox.capacity() == out_cap0,
                outbox.taken() == out_taken0,
                run_spec(
                    self.work_view(),
                    inbox.queue(),
                    inbox.send_closed(),
                    outbox.queue(),
                    outbox.capacity(),
                ) == goal,
            decreases self.work@.len(),
        {
            let ghost wv = self.work@;
            let ghost inq = inbox.queue();
            let ghost outq = outbox.queue();
            if self.work.len() == 0 {
                // the event loop drained
                return StepResult::Done;
            }
            let unit = self.work.remove(0);
            proof {
                assert(self.work@ =~= wv.drop_first());
                lemma_view_drop_first(wv);
                assert(units_view(wv)[0] == wv[0]@);
            }
            match unit {
                WorkUnit::Compute => {
                    // one unit of internal work; nothing observable
                },
                WorkUnit::Fault => {
                    return StepResult::Fault;
                },
                WorkUnit::Emit(payload) => {
                    if outbox.is_full() {
                        // backpressure: leave the unit pending and yield
                        let unit_back = WorkUnit::Emit(payload);
                        let ghost shrunk = self.work@;
                        self.work.insert(0, unit_back);
                        proof {
                            lemma_view_insert_front(shrunk, unit_back);
                            assert(units_view(self.work@) =~= units_view(wv));
                        }
                        return StepResult::Pending;
                    } else {
                        let _ = outbox.send(Message::Data(payload));
                    }
                },
                WorkUnit::AwaitMessage => {
                    if inbox.len() > 0 {
                        let msg = inbox.pop_front();
                        match msg {
                            Message::Control(ControlSignal::Terminate) => {
                                // the creator asked this worker to stop
                                return StepResult::Done;
                            },
                            Message::Data(_) => {
                                // the script consumed its message
                            },
                        }
                    } else {
                        let unit_back = WorkUnit::AwaitMessage;
                        let ghost shrunk = self.work@;
                        self.work.insert(0, unit_back);
                        proof {
                            lemma_view_insert_front(shrunk, unit_back);
                            assert(units_view(self.work@) =~= units_view(wv));
                        }
                        if inbox.is_closed() {
                            // the creator is gone: nothing more can arrive
                            return StepResult::Done;
                        } else {
                            return StepResult::Pending;
                        }
                    }
                },
            }
        }
    }
}

} // verus!
