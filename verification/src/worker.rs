//! The generic worker: an execution environment under an exclusive lock, a
//! shared-state handle, and one duplex channel endpoint, exposed as a task
//! that is driven one bounded step at a time.
//!
//! Each drive step acquires the environment's lock, runs pending work to the
//! next natural yield point, and releases the lock before returning — the
//! lock is never held across a suspension point, so no two steps on the same
//! worker can ever overlap.  A terminal result (`Done` or `Fault`) is cached
//! and returned idempotently by every later step, and reaching it closes
//! both channel halves so the creator observes end-of-stream rather than
//! waiting forever.

use crate::channel::ControlSignal;
use crate::channel::Message;
use crate::channel::MessageModel;
use crate::channel::Pipe;
use crate::channel::RecvOutcome;
use crate::channel::WorkerChannels;
use crate::channel::recv_rel;
use crate::channel::send_rel;
use crate::env::Environment;
use crate::env::StartupData;
use crate::env::StepResult;
use crate::env::UnitModel;
use crate::env::parse_program;
use crate::env::register_all;
use crate::env::run_spec;
use crate::errors::WorkerError;
use crate::lock::EnvLock;
use crate::state::ThreadSafeState;
use vstd::prelude::*;

verus! {

/// The generic worker unit.
pub struct Worker {
    name: String,
    env: Environment,
    lock: EnvLock,
    state: ThreadSafeState,
    channels: WorkerChannels,
    terminal: Option<StepResult>,
}

impl Worker {
    /// The worker's name (unique among siblings by convention only).
    pub closed spec fn name_view(self) -> Seq<char> {
        self.name@
    }

    /// The modeled execution environment.
    pub closed spec fn environment(self) -> Environment {
        self.env
    }

    /// The environment's pending work.
    pub closed spec fn work_view(self) -> Seq<UnitModel> {
        self.env.work_view()
    }

    /// The operations registered into the environment.
    pub closed spec fn ops(self) -> Seq<u64> {
        self.env.ops()
    }

    /// The environment's exclusive lock.
    pub closed spec fn env_lock(self) -> EnvLock {
        self.lock
    }

    /// Whether some accessor holds the environment's lock.
    pub open spec fn lock_held(self) -> bool {
        self.env_lock().held()
    }

    /// The shared runtime state's permission flags.
    pub closed spec fn flags(self) -> u64 {
        self.state.flags()
    }

    /// The duplex channel, both directions.
    pub closed spec fn duplex(self) -> WorkerChannels {
        self.channels
    }

    /// The creator-to-worker pipe.
    pub open spec fn inbox_pipe(self) -> Pipe {
        self.duplex().to_worker
    }

    /// The worker-to-creator pipe.
    pub open spec fn outbox_pipe(self) -> Pipe {
        self.duplex().to_host
    }

    /// The payloads queued toward the worker.
    pub open spec fn inbox(self) -> Seq<MessageModel> {
        self.inbox_pipe().queue()
    }

    /// The payloads queued toward the creator.
    pub open spec fn outbox(self) -> Seq<MessageModel> {
        self.outbox_pipe().queue()
    }

    /// The cached terminal result, if the task has completed.
    pub closed spec fn terminal(self) -> Option<StepResult> {
        self.terminal
    }

    /// Well-formedness, which holds at every suspension point: environment
    /// and channels well formed, the lock free, a terminal result never
    /// `Pending`, and the channel halves open until a terminal result is
    /// reached — and closed from then on.
    pub open spec fn wf(self) -> bool {
        &&& self.environment().wf()
        &&& self.duplex().wf()
        &&& !self.lock_held()
        &&& self.terminal() != Some(StepResult::Pending)
        &&& (self.terminal() is None ==> !self.outbox_pipe().send_closed())
        &&& (self.terminal() is Some ==> self.inbox_pipe().send_closed()
            && self.outbox_pipe().send_closed())
    }

    /// Construct a worker: decode the bootstrap data into a fresh
    /// environment (no operations registered, nothing run yet) and adopt
    /// the channel endpoint and shared-state handle.  Fails with
    /// `EnvironmentInit` exactly when the bootstrap data is malformed; no
    /// worker is produced then.
    pub fn new(
        name: String,
        startup_data: StartupData,
        state: ThreadSafeState,
        external_channels: WorkerChannels,
    ) -> (r: Result<Worker, WorkerError>)
        requires
            external_channels.wf(),
            !external_channels.to_host.send_closed(),
        ensures
            match r {
                Ok(w) => {
                    &&& w.wf()
                    &&& !w.lock_held()
                    &&& parse_program(startup_data.bytes()) == Some(w.work_view())
                    &&& w.ops() == Seq::<u64>::empty()
                    &&& w.terminal() is None
                    &&& w.name_view() == name@
                    &&& w.flags() == state.flags()
                    &&& w.duplex() == external_channels
                },
                Err(e) => e == WorkerError::EnvironmentInit && parse_program(startup_data.bytes())
                    is None,
            },
    {
        let env = match Environment::create(&startup_data) {
            Ok(env) => env,
            Err(e) => {
                return Err(e);
            },
        };
        Ok(
            Worker {
                name,
                env,
                lock: EnvLock::new(),
                state,
                channels: external_channels,
                terminal: None,
            },
        )
    }

    /// Install a group of host operations under the environment's exclusive
    /// lock — the same lock every drive step takes — before the worker is
    /// driven.  Either the whole group registers or the registry is left as
    /// it was and `Registration` is returned.
    pub fn register_ops(&mut self, ids: &Vec<u64>) -> (r: Result<(), WorkerError>)
        requires
            old(self).wf(),
        ensures
            final(self).wf(),
            !final(self).lock_held(),
            final(self).name_view() == old(self).name_view(),
            final(self).work_view() == old(self).work_view(),
            final(self).flags() == old(self).flags(),
            final(self).duplex() == old(self).duplex(),
            final(self).terminal() == old(self).terminal(),
            match register_all(old(self).ops(), ids@) {
                Some(after) => r == Ok::<(), WorkerError>(()) && final(self).ops() == after,
                None => r == Err::<(), WorkerError>(WorkerError::Registration)
                    && final(self).ops() == old(self).ops(),
            },
    {
        let acquired = self.lock.try_acquire();
        proof {
            assert(acquired);
        }
        let r = self.env.register_group(ids);
        self.lock.release();
        r
    }

    /// Drive the worker one step.  Acquires the environment's exclusive
    /// lock, runs pending work to the next natural yield point, and
    /// releases the lock before returning; a termination request at the
    /// step boundary is honored before any work runs, and a terminal result
    /// is cached and repeated idempotently.  Observes exactly
    /// [`drive_rel`].
    pub fn drive_step(&mut self) -> (r: StepResult)
        requires
            old(self).wf(),
        ensures
            drive_rel(*old(self), *final(self), r),
    {
        if let Some(t) = self.terminal {
            return t;
        }
        let acquired = self.lock.try_acquire();
        proof {
            assert(acquired);
        }
        // a termination request is honored at this safe point, before any
        // script work runs
        if self.channels.to_worker.len() > 0 {
            let at_front_is_terminate = match self.channels.to_worker.front() {
                Message::Control(ControlSignal::Terminate) => true,
                _ => false,
            };
            if at_front_is_terminate {
                let _ = self.channels.to_worker.pop_front();
                self.channels.to_worker.close();
                self.channels.to_host.close();
                self.terminal = Some(StepResult::Done);
                self.lock.release();
                return StepResult::Done;
            }
        }
        let res = self.env.run_pending(&mut self.channels.to_worker, &mut self.channels.to_host);
        match res {
            StepResult::Pending => {},
            _ => {
                self.channels.to_worker.close();
                self.channels.to_host.close();
                self.terminal = Some(res);
            },
        }
        self.lock.release();
        res
    }

    /// Creator side: enqueue a payload toward the worker.  Fails with
    /// `ChannelClosed` once the worker has reached a terminal state (or the
    /// creator closed its half), and with `ChannelFull` under backpressure.
    pub fn post_message(&mut self, m: Message) -> (r: Result<(), WorkerError>)
        requires
            old(self).wf(),
        ensures
            final(self).wf(),
            send_rel(old(self).inbox_pipe(), final(self).inbox_pipe(), m@, r),
            final(self).outbox_pipe() == old(self).outbox_pipe(),
            final(self).name_view() == old(self).name_view(),
            final(self).work_view() == old(self).work_view(),
            final(self).ops() == old(self).ops(),
            final(self).flags() == old(self).flags(),
            final(self).terminal() == old(self).terminal(),
            !final(self).lock_held(),
    {
        self.channels.to_worker.send(m)
    }

    /// Creator side: ask the worker to stop at its next safe point, by
    /// sending the distinguished control payload in band.
    pub fn request_termination(&mut self) -> (r: Result<(), WorkerError>)
        requires
            old(self).wf(),
        ensures
            final(self).wf(),
            send_rel(
                old(self).inbox_pipe(),
                final(self).inbox_pipe(),
                MessageModel::Control(ControlSignal::Terminate),
                r,
            ),
            final(self).outbox_pipe() == old(self).outbox_pipe(),
            final(self).name_view() == old(self).name_view(),
            final(self).work_view() == old(self).work_view(),
            final(self).ops() == old(self).ops(),
            final(self).flags() == old(self).flags(),
            final(self).terminal() == old(self).terminal(),
            !final(self).lock_held(),
    {
        self.post_message(Message::Control(ControlSignal::Terminate))
    }

    /// Creator side: observe the next payload from the worker, the one-time
    /// end-of-stream indication after the worker's half closed and drained,
    /// or `Pending` while the worker may still send.
    pub fn get_message(&mut self) -> (r: RecvOutcome)
        requires
            old(self).wf(),
        ensures
            final(self).wf(),
            recv_rel(old(self).outbox_pipe(), final(self).outbox_pipe(), r@),
            final(self).inbox_pipe() == old(self).inbox_pipe(),
            final(self).name_view() == old(self).name_view(),
            final(self).work_view() == old(self).work_view(),
            final(self).ops() == old(self).ops(),
            final(self).flags() == old(self).flags(),
            final(self).terminal() == old(self).terminal(),
            !final(self).lock_held(),
    {
        self.channels.to_host.try_receive()
    }

    /// Creator side: close the creator-to-worker send half.  Idempotent;
    /// the worker drains what was already sent and then observes
    /// end-of-stream.
    pub fn close_sender(&mut self)
        requires
            old(self).wf(),
        ensures
            final(self).wf(),
            final(self).inbox_pipe().send_closed(),
            final(self).inbox_pipe().queue() == old(self).inbox_pipe().queue(),
            final(self).inbox_pipe().history() == old(self).inbox_pipe().history(),
            final(self).inbox_pipe().taken() == old(self).inbox_pipe().taken(),
            final(self).inbox_pipe().capacity() == old(self).inbox_pipe().capacity(),
            final(self).inbox_pipe().eos_delivered() == old(self).inbox_pipe().eos_delivered(),
            final(self).outbox_pipe() == old(self).outbox_pipe(),
            final(self).name_view() == old(self).name_view(),
            final(self).work_view() == old(self).work_view(),
            final(self).ops() == old(self).ops(),
            final(self).flags() == old(self).flags(),
            final(self).terminal() == old(self).terminal(),
            !final(self).lock_held(),
    {
        self.channels.to_worker.close()
    }

    /// Dropping the worker's task without a graceful shutdown: release is
    /// immediate — the lock is free, both channel halves close so waiting
    /// peers observe end-of-stream rather than deadlocking, and the task is
    /// terminal from now on.  Payloads already queued stay deliverable, and
    /// an already-reached terminal result is kept.
    pub fn cancel(&mut self)
        requires
            old(self).wf(),
        ensures
            final(self).wf(),
            !final(self).lock_held(),
            final(self).inbox_pipe().send_closed(),
            final(self).outbox_pipe().send_closed(),
            final(self).terminal() == (if old(self).terminal() is Some {
                old(self).terminal()
            } else {
                Some(StepResult::Done)
            }),
            final(self).inbox_pipe().queue() == old(self).inbox_pipe().queue(),
            final(self).outbox_pipe().queue() == old(self).outbox_pipe().queue(),
            final(self).inbox_pipe().history() == old(self).inbox_pipe().history(),
            final(self).outbox_pipe().history() == old(self).outbox_pipe().history(),
            final(self).inbox_pipe().taken() == old(self).inbox_pipe().taken(),
            final(self).outbox_pipe().taken() == old(self).outbox_pipe().taken(),
            final(self).inbox_pipe().eos_delivered() == old(self).inbox_pipe().eos_delivered(),
            final(self).outbox_pipe().eos_delivered() == old(self).outbox_pipe().eos_delivered(),
            final(self).name_view() == old(self).name_view(),
            final(self).work_view() == old(self).work_view(),
            final(self).ops() == old(self).ops(),
            final(self).flags() == old(self).flags(),
    {
        self.channels.to_worker.close();
        self.channels.to_host.close();
        if self.terminal.is_none() {
            self.terminal = Some(StepResult::Done);
        }
    }

    /// Whether a host operation is registered in the environment.
    pub fn has_op(&self, id: u64) -> (r: bool)
        ensures
            r == self.ops().contains(id),
    {
        self.env.has_op(id)
    }

    /// Whether the environment's lock is held right now.  At every step
    /// boundary of a well-formed worker this is `false`.
    pub fn is_lock_held(&self) -> (r: bool)
        ensures
            r == self.lock_held(),
    {
        !self.lock.is_available()
    }

    /// The cached terminal result, if the task has completed.
    pub fn terminal_result(&self) -> (t: Option<StepResult>)
        ensures
            t == self.terminal(),
    {
        self.terminal
    }

    /// The completed task's result as whatever awaits the task observes
    /// it: `Ok(())` after a drained event loop or an honored termination,
    /// the execution fault as the terminal error, and nothing while the
    /// task is still running.
    pub fn task_result(&self) -> (r: Option<Result<(), WorkerError>>)
        ensures
            match self.terminal() {
                None => r is None,
                Some(StepResult::Done) => r == Some(Ok::<(), WorkerError>(())),
                Some(StepResult::Fault) => r == Some(
                    Err::<(), WorkerError>(WorkerError::ExecutionFault),
                ),
                Some(StepResult::Pending) => r is None,
            },
    {
        match self.terminal {
            None => None,
            Some(StepResult::Done) => Some(Ok(())),
            Some(StepResult::Fault) => Some(Err(WorkerError::ExecutionFault)),
            Some(StepResult::Pending) => None,
        }
    }

    /// The worker's name.
    pub fn name(&self) -> (n: &String)
        ensures
            n@ == self.name_view(),
    {
        &self.name
    }
}

/// What one drive step does, as a relation between the worker before, the
/// worker after, and the step's result:
/// * a cached terminal result is returned idempotently, with nothing else
///   touched;
/// * otherwise a termination request at the front of the inbox ends the
///   task before any work runs;
/// * otherwise the environment runs to its next yield point, observing
///   exactly [`run_spec`];
/// * reaching a terminal result closes both channel halves;
/// * and in every case the lock is free again when the step returns.
pub open spec fn drive_rel(pre: Worker, post: Worker, r: StepResult) -> bool {
    &&& post.wf()
    &&& !post.lock_held()
    &&& post.name_view() == pre.name_view()
    &&& post.ops() == pre.ops()
    &&& post.flags() == pre.flags()
    &&& post.inbox_pipe().history() == pre.inbox_pipe().history()
    &&& post.inbox_pipe().capacity() == pre.inbox_pipe().capacity()
    &&& post.inbox_pipe().eos_delivered() == pre.inbox_pipe().eos_delivered()
    &&& post.outbox_pipe().taken() == pre.outbox_pipe().taken()
    &&& post.outbox_pipe().capacity() == pre.outbox_pipe().capacity()
    &&& post.outbox_pipe().eos_delivered() == pre.outbox_pipe().eos_delivered()
    &&& match pre.terminal() {
        Some(t) => r == t && post == pre,
        None => ({
            if pre.inbox().len() > 0 && pre.inbox()[0] == MessageModel::Control(
                ControlSignal::Terminate,
            ) {
                &&& r == StepResult::Done
                &&& post.work_view() == pre.work_view()
                &&& post.inbox() == pre.inbox().drop_first()
                &&& post.outbox() == pre.outbox()
                &&& post.terminal() == Some(StepResult::Done)
                &&& post.inbox_pipe().send_closed()
                &&& post.outbox_pipe().send_closed()
            } else {
                let m = run_spec(
                    pre.work_view(),
                    pre.inbox(),
                    pre.inbox_pipe().send_closed(),
                    pre.outbox(),
                    pre.outbox_pipe().capacity(),
                );
                &&& r == m.result
                &&& post.work_view() == m.work
                &&& post.inbox() == m.inbox
                &&& post.outbox() == m.outbox
                &&& (r == StepResult::Pending ==> post.terminal() is None
                    && post.inbox_pipe().send_closed() == pre.inbox_pipe().send_closed()
                    && post.outbox_pipe().send_closed() == pre.outbox_pipe().send_closed())
                &&& (r != StepResult::Pending ==> post.terminal() == Some(r)
                    && post.inbox_pipe().send_closed() && post.outbox_pipe().send_closed())
            }
        }),
    }
}

/// A drive step never leaves the environment's lock held: whatever it did,
/// the lock is free again when the step returns, and the worker is well
/// formed.
pub proof fn lemma_step_releases_lock(pre: Worker, post: Worker, r: StepResult)
    requires
        drive_rel(pre, post, r),
    ensures
        !post.lock_held(),
        post.wf(),
{
}

/// No two drive steps on the same worker can overlap: at every step
/// boundary of a well-formed worker the lock is free, a step begins only by
/// successfully acquiring it, and while it is held every further
/// acquisition fails.
pub proof fn lemma_steps_exclusive(w: Worker)
    requires
        w.wf(),
    ensures
        w.env_lock().available(),
        forall|held: EnvLock| held.held() ==> !held.available(),
{
}

/// Polling after completion is defined and idempotent: once a terminal
/// result is cached, every further drive step returns that same result and
/// changes nothing.
pub proof fn lemma_terminal_idempotent(pre: Worker, post: Worker, r: StepResult)
    requires
        drive_rel(pre, post, r),
        pre.terminal() is Some,
    ensures
        Some(r) == pre.terminal(),
        post == pre,
{
}

} // verus!
