//! The nested-context worker variant.
//!
//! A `WebWorker` is a capability profile layered on the generic
//! [`Worker`]: it owns one and adds construction-time registration of two
//! host-operation groups — worker-messaging operations (exchanging messages
//! with the parent) and worker-host operations (spawning further nested
//! workers through the shared runtime state).  Everything else — driving,
//! channel access, teardown — is delegated unchanged, so a variant is
//! usable anywhere a generic worker is; the [`WorkerUnit`] trait makes that
//! interface explicit.

use crate::channel::ControlSignal;
use crate::channel::Message;
use crate::channel::MessageModel;
use crate::channel::RecvOutcome;
use crate::channel::WorkerChannels;
use crate::channel::recv_rel;
use crate::channel::send_rel;
use crate::env::StartupData;
use crate::env::StepResult;
use crate::env::parse_program;
use crate::env::register_all;
use crate::errors::WorkerError;
use crate::state::ThreadSafeState;
use crate::worker::Worker;
use crate::worker::drive_rel;
use vstd::prelude::*;

verus! {

/// Registering the variant's two operation groups into an empty registry:
/// the final registry, or `None` as soon as any single registration fails.
pub open spec fn variant_ops(messaging_ops: Seq<u64>, host_ops: Seq<u64>) -> Option<Seq<u64>> {
    match register_all(Seq::<u64>::empty(), messaging_ops) {
        Some(after) => register_all(after, host_ops),
        None => None,
    }
}

/// The interface a worker unit exposes to its creator: any variant behaves
/// exactly as the generic worker it owns.
pub trait WorkerUnit: Sized {
    /// The generic worker realizing this unit.
    spec fn unit(&self) -> Worker;

    /// Drive the unit one step; see [`drive_rel`].
    fn drive_step(&mut self) -> (r: StepResult)
        requires
            old(self).unit().wf(),
        ensures
            drive_rel(old(self).unit(), final(self).unit(), r),
    ;

    /// Tear the unit down without a graceful shutdown: the lock is free,
    /// both channel halves close, the task is terminal from now on, an
    /// already-reached terminal result is kept, and everything already
    /// queued or recorded stays as it was.
    fn cancel(&mut self)
        requires
            old(self).unit().wf(),
        ensures
            final(self).unit().wf(),
            !final(self).unit().lock_held(),
            final(self).unit().inbox_pipe().send_closed(),
            final(self).unit().outbox_pipe().send_closed(),
            final(self).unit().terminal() == (if old(self).unit().terminal() is Some {
                old(self).unit().terminal()
            } else {
                Some(StepResult::Done)
            }),
            final(self).unit().inbox_pipe().queue() == old(self).unit().inbox_pipe().queue(),
            final(self).unit().outbox_pipe().queue() == old(self).unit().outbox_pipe().queue(),
            final(self).unit().inbox_pipe().history() == old(self).unit().inbox_pipe().history(),
            final(self).unit().outbox_pipe().history() == old(self).unit().outbox_pipe().history(),
            final(self).unit().inbox_pipe().taken() == old(self).unit().inbox_pipe().taken(),
            final(self).unit().outbox_pipe().taken() == old(self).unit().outbox_pipe().taken(),
            final(self).unit().inbox_pipe().eos_delivered()
                == old(self).unit().inbox_pipe().eos_delivered(),
            final(self).unit().outbox_pipe().eos_delivered()
                == old(self).unit().outbox_pipe().eos_delivered(),
            final(self).unit().name_view() == old(self).unit().name_view(),
            final(self).unit().work_view() == old(self).unit().work_view(),
            final(self).unit().ops() == old(self).unit().ops(),
            final(self).unit().flags() == old(self).unit().flags(),
    ;
}

impl WorkerUnit for Worker {
    open spec fn unit(&self) -> Worker {
        *self
    }

    fn drive_step(&mut self) -> (r: StepResult) {
        self.drive_step()
    }

    fn cancel(&mut self) {
        self.cancel()
    }
}

/// A worker running nested-context script code: a child of whatever worker
/// created it, communicating with its parent over its channel endpoint.
pub struct WebWorker(Worker);

impl WebWorker {
    /// The generic worker this variant owns.
    pub closed spec fn inner(self) -> Worker {
        self.0
    }

    /// Construct the variant: build a generic worker from the bootstrap
    /// data, then — under the environment's exclusive lock, before any
    /// script code runs — register the worker-messaging group and the
    /// worker-host group, in that order.  If the bootstrap data is
    /// malformed the construction fails with `EnvironmentInit`; if any
    /// single operation fails to register it fails with `Registration`; in
    /// either case the partially built environment is discarded, never
    /// driven, so no partial registration is observable.
    pub fn new(
        name: String,
        startup_data: StartupData,
        state: ThreadSafeState,
        external_channels: WorkerChannels,
        messaging_ops: &Vec<u64>,
        host_ops: &Vec<u64>,
    ) -> (r: Result<WebWorker, WorkerError>)
        requires
            external_channels.wf(),
            !external_channels.to_host.send_closed(),
        ensures
            ({
                let parsed = parse_program(startup_data.bytes());
                let registered = variant_ops(messaging_ops@, host_ops@);
                match r {
                    Ok(ww) => {
                        let w = ww.inner();
                        &&& parsed == Some(w.work_view())
                        &&& registered == Some(w.ops())
                        &&& w.wf()
                        &&& !w.lock_held()
                        &&& w.terminal() is None
                        &&& w.name_view() == name@
                        &&& w.flags() == state.flags()
                        &&& w.duplex() == external_channels
                    },
                    Err(e) => {
                        &&& (e == WorkerError::EnvironmentInit || e == WorkerError::Registration)
                        &&& (e == WorkerError::EnvironmentInit <==> parsed is None)
                        &&& (e == WorkerError::Registration ==> registered is None)
                    },
                }
            }),
    {
        let mut worker = match Worker::new(name, startup_data, state, external_channels) {
            Ok(w) => w,
            Err(e) => {
                return Err(e);
            },
        };
        match worker.register_ops(messaging_ops) {
            Ok(()) => {},
            Err(e) => {
                return Err(e);
            },
        }
        match worker.register_ops(host_ops) {
            Ok(()) => {},
            Err(e) => {
                return Err(e);
            },
        }
        Ok(WebWorker(worker))
    }

    /// Borrow the generic worker, as a `Deref` target would.
    pub fn worker(&self) -> (w: &Worker)
        ensures
            *w == self.inner(),
    {
        &self.0
    }

    /// Creator side: enqueue a payload toward this worker.
    pub fn post_message(&mut self, m: Message) -> (r: Result<(), WorkerError>)
        requires
            old(self).inner().wf(),
        ensures
            final(self).inner().wf(),
            send_rel(old(self).inner().inbox_pipe(), final(self).inner().inbox_pipe(), m@, r),
            final(self).inner().outbox_pipe() == old(self).inner().outbox_pipe(),
            final(self).inner().name_view() == old(self).inner().name_view(),
            final(self).inner().flags() == old(self).inner().flags(),
            final(self).inner().work_view() == old(self).inner().work_view(),
            final(self).inner().ops() == old(self).inner().ops(),
            final(self).inner().terminal() == old(self).inner().terminal(),
            !final(self).inner().lock_held(),
    {
        self.0.post_message(m)
    }

    /// Creator side: observe the next payload from this worker.
    pub fn get_message(&mut self) -> (r: RecvOutcome)
        requires
            old(self).inner().wf(),
        ensures
            final(self).inner().wf(),
            recv_rel(old(self).inner().outbox_pipe(), final(self).inner().outbox_pipe(), r@),
            final(self).inner().inbox_pipe() == old(self).inner().inbox_pipe(),
            final(self).inner().name_view() == old(self).inner().name_view(),
            final(self).inner().flags() == old(self).inner().flags(),
            final(self).inner().work_view() == old(self).inner().work_view(),
            final(self).inner().ops() == old(self).inner().ops(),
            final(self).inner().terminal() == old(self).inner().terminal(),
            !final(self).inner().lock_held(),
    {
        self.0.get_message()
    }

    /// Creator side: ask this worker to stop at its next safe point, by
    /// sending the distinguished control payload in band.
    pub fn request_termination(&mut self) -> (r: Result<(), WorkerError>)
        requires
            old(self).inner().wf(),
        ensures
            final(self).inner().wf(),
            send_rel(
                old(self).inner().inbox_pipe(),
                final(self).inner().inbox_pipe(),
                MessageModel::Control(ControlSignal::Terminate),
                r,
            ),
            final(self).inner().outbox_pipe() == old(self).inner().outbox_pipe(),
            final(self).inner().name_view() == old(self).inner().name_view(),
            final(self).inner().work_view() == old(self).inner().work_view(),
            final(self).inner().ops() == old(self).inner().ops(),
            final(self).inner().flags() == old(self).inner().flags(),
            final(self).inner().terminal() == old(self).inner().terminal(),
            !final(self).inner().lock_held(),
    {
        self.0.request_termination()
    }

    /// Whether a host operation is registered in this worker's environment.
    pub fn has_op(&self, id: u64) -> (r: bool)
        ensures
            r == self.inner().ops().contains(id),
    {
        self.0.has_op(id)
    }

    /// The cached terminal result, if this worker's task has completed.
    pub fn terminal_result(&self) -> (t: Option<StepResult>)
        ensures
            t == self.inner().terminal(),
    {
        self.0.terminal_result()
    }
}

impl WorkerUnit for WebWorker {
    open spec fn unit(&self) -> Worker {
        self.inner()
    }

    fn drive_step(&mut self) -> (r: StepResult) {
        self.0.drive_step()
    }

    fn cancel(&mut self) {
        self.0.cancel()
    }
}

} // verus!
