use web_worker::channel::ControlSignal;
use web_worker::channel::Message;
use web_worker::channel::RecvOutcome;
use web_worker::channel::WorkerChannels;
use web_worker::env::StartupData;
use web_worker::env::StepResult;
use web_worker::errors::WorkerError;
use web_worker::state::ThreadSafeState;
use web_worker::web_worker::WebWorker;
use web_worker::web_worker::WorkerUnit;
use web_worker::worker::Worker;

fn worker_with(program: Vec<u8>, capacity: usize) -> Worker {
    Worker::new(
        "w".to_string(),
        StartupData::new(program),
        ThreadSafeState::new(0),
        WorkerChannels::new(capacity),
    )
    .unwrap()
}

#[test]
fn construct_then_one_step_releases_the_lock() {
    let mut w = worker_with(vec![1, 1], 4);
    assert!(!w.is_lock_held());
    assert_eq!(w.drive_step(), StepResult::Done);
    assert!(!w.is_lock_held());
}

#[test]
fn empty_bootstrap_is_valid_and_completes_at_once() {
    let mut w = worker_with(vec![], 4);
    assert_eq!(w.terminal_result(), None);
    assert_eq!(w.drive_step(), StepResult::Done);
    assert_eq!(w.terminal_result(), Some(StepResult::Done));
}

#[test]
fn malformed_bootstrap_fails_construction() {
    let r = Worker::new(
        "w".to_string(),
        StartupData::new(vec![9]),
        ThreadSafeState::new(0),
        WorkerChannels::new(4),
    );
    assert!(matches!(r, Err(WorkerError::EnvironmentInit)));
}

#[test]
fn truncated_emit_is_malformed() {
    let r = Worker::new(
        "w".to_string(),
        StartupData::new(vec![2, 5, 1]),
        ThreadSafeState::new(0),
        WorkerChannels::new(4),
    );
    assert!(matches!(r, Err(WorkerError::EnvironmentInit)));
}

#[test]
fn fault_surfaces_once_and_is_cached() {
    let mut w = worker_with(vec![1, 4, 1], 4);
    assert_eq!(w.drive_step(), StepResult::Fault);
    assert_eq!(w.terminal_result(), Some(StepResult::Fault));
    // polling after the terminal state is idempotent
    assert_eq!(w.drive_step(), StepResult::Fault);
    assert_eq!(w.drive_step(), StepResult::Fault);
}

#[test]
fn emitted_messages_arrive_in_send_order() {
    // emit [10], then [11], then [12]
    let mut w = worker_with(vec![2, 1, 10, 2, 1, 11, 2, 1, 12], 8);
    assert_eq!(w.drive_step(), StepResult::Done);
    assert_eq!(w.get_message(), RecvOutcome::Payload(Message::Data(vec![10])));
    assert_eq!(w.get_message(), RecvOutcome::Payload(Message::Data(vec![11])));
    assert_eq!(w.get_message(), RecvOutcome::Payload(Message::Data(vec![12])));
    // completion closed the worker's half: exactly one end-of-stream
    assert_eq!(w.get_message(), RecvOutcome::EndOfStream);
    assert_eq!(w.get_message(), RecvOutcome::Ended);
}

#[test]
fn await_suspends_until_the_reply_arrives() {
    let mut w = worker_with(vec![3, 1], 4);
    assert_eq!(w.drive_step(), StepResult::Pending);
    assert_eq!(w.drive_step(), StepResult::Pending);
    assert_eq!(w.post_message(Message::Data(vec![42])), Ok(()));
    assert_eq!(w.drive_step(), StepResult::Done);
}

#[test]
fn termination_request_is_honored_at_a_safe_point() {
    let mut w = worker_with(vec![1, 1, 1], 4);
    assert_eq!(w.request_termination(), Ok(()));
    assert_eq!(w.drive_step(), StepResult::Done);
    assert_eq!(w.terminal_result(), Some(StepResult::Done));
    // the worker is gone: its half of the channel is closed
    assert_eq!(w.post_message(Message::Data(vec![1])), Err(WorkerError::ChannelClosed));
}

#[test]
fn termination_control_payload_ends_an_await() {
    let mut w = worker_with(vec![3], 4);
    assert_eq!(w.drive_step(), StepResult::Pending);
    assert_eq!(w.post_message(Message::Control(ControlSignal::Terminate)), Ok(()));
    assert_eq!(w.drive_step(), StepResult::Done);
}

#[test]
fn closing_the_sender_ends_a_waiting_worker() {
    let mut w = worker_with(vec![3], 4);
    w.close_sender();
    assert_eq!(w.drive_step(), StepResult::Done);
}

#[test]
fn cancel_releases_the_lock_and_closes_both_halves() {
    // emit [5], then wait for a reply that never comes
    let mut w = worker_with(vec![2, 1, 5, 3], 4);
    assert_eq!(w.drive_step(), StepResult::Pending);
    w.cancel();
    assert!(!w.is_lock_held());
    assert_eq!(w.terminal_result(), Some(StepResult::Done));
    // sends now fail rather than queueing forever
    assert_eq!(w.post_message(Message::Data(vec![1])), Err(WorkerError::ChannelClosed));
    // the peer drains what was already sent, then observes end-of-stream
    assert_eq!(w.get_message(), RecvOutcome::Payload(Message::Data(vec![5])));
    assert_eq!(w.get_message(), RecvOutcome::EndOfStream);
    assert_eq!(w.get_message(), RecvOutcome::Ended);
    // polling after cancellation is defined and idempotent
    assert_eq!(w.drive_step(), StepResult::Done);
}

#[test]
fn full_outbox_backpressures_the_worker() {
    // emit [1] and [2] into a channel with room for one payload
    let mut w = worker_with(vec![2, 1, 1, 2, 1, 2], 1);
    assert_eq!(w.drive_step(), StepResult::Pending);
    assert_eq!(w.get_message(), RecvOutcome::Payload(Message::Data(vec![1])));
    assert_eq!(w.drive_step(), StepResult::Done);
    assert_eq!(w.get_message(), RecvOutcome::Payload(Message::Data(vec![2])));
    assert_eq!(w.get_message(), RecvOutcome::EndOfStream);
}

#[test]
fn variant_registers_both_groups_before_the_first_step() {
    let ww = WebWorker::new(
        "child".to_string(),
        StartupData::new(vec![1]),
        ThreadSafeState::new(0),
        WorkerChannels::new(4),
        &vec![10],
        &vec![20],
    )
    .unwrap();
    assert!(ww.has_op(10));
    assert!(ww.has_op(20));
    assert!(!ww.has_op(30));
    assert_eq!(ww.terminal_result(), None);
}

#[test]
fn failing_second_registration_discards_the_whole_construction() {
    let r = WebWorker::new(
        "child".to_string(),
        StartupData::new(vec![1]),
        ThreadSafeState::new(0),
        WorkerChannels::new(4),
        &vec![10],
        &vec![10],
    );
    assert!(matches!(r, Err(WorkerError::Registration)));
}

#[test]
fn duplicate_inside_one_group_fails_registration() {
    let r = WebWorker::new(
        "child".to_string(),
        StartupData::new(vec![1]),
        ThreadSafeState::new(0),
        WorkerChannels::new(4),
        &vec![7, 7],
        &vec![],
    );
    assert!(matches!(r, Err(WorkerError::Registration)));
}

#[test]
fn ping_pong_drives_to_completion() {
    // Worker A: post "ping" to the parent, then wait for the reply.
    let mut a = WebWorker::new(
        "a".to_string(),
        StartupData::new(vec![2, 4, b'p', b'i', b'n', b'g', 3]),
        ThreadSafeState::new(0),
        WorkerChannels::new(4),
        &vec![1],
        &vec![2],
    )
    .unwrap();
    assert_eq!(a.drive_step(), StepResult::Pending);
    assert_eq!(a.get_message(), RecvOutcome::Payload(Message::Data(b"ping".to_vec())));
    assert_eq!(a.post_message(Message::Data(b"pong".to_vec())), Ok(()));
    assert_eq!(a.drive_step(), StepResult::Done);
    assert_eq!(a.terminal_result(), Some(StepResult::Done));
}

#[test]
fn variant_delegates_to_its_generic_worker() {
    let mut ww = WebWorker::new(
        "child".to_string(),
        StartupData::new(vec![1, 1]),
        ThreadSafeState::new(0),
        WorkerChannels::new(4),
        &vec![1],
        &vec![2],
    )
    .unwrap();
    assert_eq!(ww.worker().name().as_str(), "child");
    assert!(!ww.worker().is_lock_held());
    assert_eq!(ww.drive_step(), StepResult::Done);
    assert_eq!(ww.worker().terminal_result(), Some(StepResult::Done));
}

#[test]
fn cancelling_a_variant_behaves_like_the_generic_worker() {
    let mut ww = WebWorker::new(
        "child".to_string(),
        StartupData::new(vec![3]),
        ThreadSafeState::new(0),
        WorkerChannels::new(4),
        &vec![1],
        &vec![2],
    )
    .unwrap();
    assert_eq!(ww.drive_step(), StepResult::Pending);
    ww.cancel();
    assert_eq!(ww.get_message(), RecvOutcome::EndOfStream);
    assert_eq!(ww.terminal_result(), Some(StepResult::Done));
}

#[test]
fn task_result_mirrors_the_terminal_state() {
    let mut done = worker_with(vec![1], 4);
    assert_eq!(done.task_result(), None);
    assert_eq!(done.drive_step(), StepResult::Done);
    assert_eq!(done.task_result(), Some(Ok(())));

    let mut faulted = worker_with(vec![4], 4);
    assert_eq!(faulted.drive_step(), StepResult::Fault);
    assert_eq!(faulted.task_result(), Some(Err(WorkerError::ExecutionFault)));
}

#[test]
fn shared_state_handles_agree() {
    let s = ThreadSafeState::new(5);
    let t = s.share();
    assert_eq!(s.permission_flags(), 5);
    assert_eq!(t.permission_flags(), 5);
}

#[test]
fn errors_describe_themselves() {
    assert_eq!(WorkerError::EnvironmentInit.describe(), "malformed bootstrap data");
    assert_eq!(WorkerError::Registration.describe(), "operation registration failed");
    assert_eq!(
        WorkerError::ExecutionFault.describe(),
        "script raised an unrecoverable fault"
    );
}
