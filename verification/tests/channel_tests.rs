use web_worker::channel::ControlSignal;
use web_worker::channel::Message;
use web_worker::channel::Pipe;
use web_worker::channel::RecvOutcome;
use web_worker::errors::WorkerError;
use web_worker::lock::EnvLock;

#[test]
fn fifo_order_preserved() {
    let mut p = Pipe::new(8);
    let m1 = Message::Data(vec![1, 1]);
    let m2 = Message::Data(vec![2]);
    let m3 = Message::Data(vec![3, 3, 3]);
    assert_eq!(p.send(m1.clone()), Ok(()));
    assert_eq!(p.send(m2.clone()), Ok(()));
    assert_eq!(p.send(m3.clone()), Ok(()));
    assert_eq!(p.try_receive(), RecvOutcome::Payload(m1));
    assert_eq!(p.try_receive(), RecvOutcome::Payload(m2));
    assert_eq!(p.try_receive(), RecvOutcome::Payload(m3));
    assert_eq!(p.try_receive(), RecvOutcome::Pending);
}

#[test]
fn interleaved_sends_and_receives_stay_ordered() {
    let mut p = Pipe::new(4);
    assert_eq!(p.send(Message::Data(vec![1])), Ok(()));
    assert_eq!(p.send(Message::Data(vec![2])), Ok(()));
    assert_eq!(p.try_receive(), RecvOutcome::Payload(Message::Data(vec![1])));
    assert_eq!(p.send(Message::Data(vec![3])), Ok(()));
    assert_eq!(p.try_receive(), RecvOutcome::Payload(Message::Data(vec![2])));
    assert_eq!(p.try_receive(), RecvOutcome::Payload(Message::Data(vec![3])));
    assert_eq!(p.try_receive(), RecvOutcome::Pending);
}

#[test]
fn close_yields_exactly_one_end_of_stream() {
    let mut p = Pipe::new(8);
    assert_eq!(p.send(Message::Data(vec![7])), Ok(()));
    assert_eq!(p.send(Message::Data(vec![8])), Ok(()));
    p.close();
    // everything sent before the close is still delivered, in order
    assert_eq!(p.try_receive(), RecvOutcome::Payload(Message::Data(vec![7])));
    assert_eq!(p.try_receive(), RecvOutcome::Payload(Message::Data(vec![8])));
    // then end-of-stream, exactly once
    assert_eq!(p.try_receive(), RecvOutcome::EndOfStream);
    assert_eq!(p.try_receive(), RecvOutcome::Ended);
    assert_eq!(p.try_receive(), RecvOutcome::Ended);
}

#[test]
fn send_after_close_fails_and_close_is_idempotent() {
    let mut p = Pipe::new(2);
    p.close();
    p.close();
    assert_eq!(p.send(Message::Data(vec![1])), Err(WorkerError::ChannelClosed));
    assert_eq!(p.try_receive(), RecvOutcome::EndOfStream);
}

#[test]
fn bounded_queue_reports_full() {
    let mut p = Pipe::new(1);
    assert_eq!(p.send(Message::Data(vec![1])), Ok(()));
    assert_eq!(p.send(Message::Data(vec![2])), Err(WorkerError::ChannelFull));
    assert_eq!(p.try_receive(), RecvOutcome::Payload(Message::Data(vec![1])));
    assert_eq!(p.send(Message::Data(vec![2])), Ok(()));
}

#[test]
fn control_payload_travels_in_band() {
    let mut p = Pipe::new(2);
    assert_eq!(p.send(Message::Data(vec![1])), Ok(()));
    assert_eq!(p.send(Message::Control(ControlSignal::Terminate)), Ok(()));
    assert_eq!(p.try_receive(), RecvOutcome::Payload(Message::Data(vec![1])));
    assert_eq!(
        p.try_receive(),
        RecvOutcome::Payload(Message::Control(ControlSignal::Terminate))
    );
}

#[test]
fn lock_admits_one_holder_at_a_time() {
    let mut l = EnvLock::new();
    assert!(l.is_available());
    assert!(l.try_acquire());
    // a second acquisition fails while the first holder has not released
    assert!(!l.try_acquire());
    assert!(!l.is_available());
    l.release();
    assert!(l.try_acquire());
}
