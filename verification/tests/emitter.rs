use incro::emitter::{Arrival, Emitter, EmitterStep, OutputQueue};
use incro::event::InputEvent;
use incro::fault::Fault;

fn batch(codes: &[u16]) -> Vec<InputEvent> {
    let mut out = Vec::new();
    for code in codes {
        out.push(InputEvent::new(1, *code, 1));
    }
    out
}

#[test]
fn new_queue_is_empty() {
    let mut queue = OutputQueue::new();
    assert_eq!(queue.len(), 0);
    assert_eq!(queue.pop(), None);
    assert_eq!(queue.len(), 0);
}

#[test]
fn the_queue_is_first_in_first_out() {
    let mut queue = OutputQueue::new();
    queue.push(batch(&[1]));
    queue.push(batch(&[2, 3]));
    queue.push(batch(&[]));
    assert_eq!(queue.len(), 3);
    assert_eq!(queue.pop(), Some(batch(&[1])));
    queue.push(batch(&[4]));
    assert_eq!(queue.pop(), Some(batch(&[2, 3])));
    assert_eq!(queue.pop(), Some(batch(&[])));
    assert_eq!(queue.pop(), Some(batch(&[4])));
    assert_eq!(queue.pop(), None);
}

#[test]
fn new_emitter_has_met_no_fault() {
    assert_eq!(Emitter::new().fault(), None);
}

#[test]
fn a_batch_is_written_as_it_arrived() {
    let mut emitter = Emitter::new();
    assert_eq!(emitter.receive(Arrival::Batch(batch(&[30, 31]))), EmitterStep::Write(batch(&[30, 31])));
    assert_eq!(emitter.fault(), None);
}

#[test]
fn an_empty_batch_is_written_too() {
    let mut emitter = Emitter::new();
    assert_eq!(emitter.receive(Arrival::Batch(Vec::new())), EmitterStep::Write(Vec::new()));
}

#[test]
fn a_good_write_keeps_the_emitter_going() {
    let mut emitter = Emitter::new();
    assert_eq!(emitter.written(true), None);
    assert_eq!(emitter.fault(), None);
    assert_eq!(emitter.receive(Arrival::Batch(batch(&[1]))), EmitterStep::Write(batch(&[1])));
}

#[test]
fn a_failed_write_halts_the_emitter_for_good() {
    let mut emitter = Emitter::new();
    assert_eq!(emitter.written(false), Some(Fault::DeviceWriteFailure));
    assert_eq!(emitter.fault(), Some(Fault::DeviceWriteFailure));
    assert_eq!(
        emitter.receive(Arrival::Batch(batch(&[1]))),
        EmitterStep::Halt(Fault::DeviceWriteFailure)
    );
    assert_eq!(emitter.written(true), Some(Fault::DeviceWriteFailure));
    assert_eq!(emitter.receive(Arrival::Closed), EmitterStep::Halt(Fault::DeviceWriteFailure));
}

#[test]
fn a_closed_queue_halts_the_emitter() {
    let mut emitter = Emitter::new();
    assert_eq!(emitter.receive(Arrival::Closed), EmitterStep::Halt(Fault::ChannelClosed));
    assert_eq!(emitter.fault(), Some(Fault::ChannelClosed));
    assert_eq!(emitter.receive(Arrival::Batch(batch(&[1]))), EmitterStep::Halt(Fault::ChannelClosed));
    assert_eq!(emitter.written(false), Some(Fault::ChannelClosed));
}
