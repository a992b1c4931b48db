use std::time::Duration;

use vidplayer::{
    FrameQueue, MediaDuration, Packet, PacketQueue, PopOutcome, PushOutcome, Rational, StreamType,
    VideoFrame,
};

fn frame(n: u8) -> VideoFrame {
    VideoFrame::new(vec![n], 1, 1, Duration::from_millis(n as u64))
}

fn packet(n: u8) -> Packet {
    Packet::new(vec![n], None, None, MediaDuration(1), Rational::new(1, 25), false, StreamType::Audio)
}

#[test]
fn frame_queue_is_first_in_first_out() {
    let mut q = FrameQueue::new(3);
    assert!(q.is_empty());
    assert!(matches!(q.push(frame(1)), PushOutcome::Pushed));
    assert!(matches!(q.push(frame(2)), PushOutcome::Pushed));
    assert_eq!(q.len(), 2);
    assert_eq!(q.try_pop().unwrap().data, vec![1]);
    assert_eq!(q.try_pop().unwrap().data, vec![2]);
    assert!(q.try_pop().is_none());
}

#[test]
fn frame_queue_hands_back_when_full() {
    let mut q = FrameQueue::new(1);
    assert!(matches!(q.push(frame(1)), PushOutcome::Pushed));
    match q.push(frame(2)) {
        PushOutcome::Full(f) => assert_eq!(f.data, vec![2]),
        _ => panic!("a full queue hands the frame back"),
    }
    assert_eq!(q.len(), 1);
}

#[test]
fn frame_queue_close_and_reopen() {
    let mut q = FrameQueue::new(2);
    assert!(matches!(q.push(frame(1)), PushOutcome::Pushed));
    q.close();
    assert!(q.is_closed());
    assert!(matches!(q.push(frame(2)), PushOutcome::Closed));
    assert_eq!(q.len(), 1);
    assert_eq!(q.try_pop().unwrap().data, vec![1]);
    assert!(matches!(q.push(frame(3)), PushOutcome::Closed));
    q.reopen();
    assert!(!q.is_closed());
    assert!(q.is_empty());
    assert!(matches!(q.push(frame(4)), PushOutcome::Pushed));
}

#[test]
fn frame_queue_reopen_drops_frames() {
    let mut q = FrameQueue::new(2);
    assert!(matches!(q.push(frame(1)), PushOutcome::Pushed));
    q.reopen();
    assert_eq!(q.len(), 0);
    assert!(q.try_pop().is_none());
}

#[test]
fn packet_queue_order_and_end() {
    let mut q = PacketQueue::new(2);
    assert!(matches!(q.pop(), PopOutcome::Wait));
    assert!(matches!(q.push(packet(1)), PushOutcome::Pushed));
    assert!(matches!(q.push(packet(2)), PushOutcome::Pushed));
    assert!(matches!(q.push(packet(3)), PushOutcome::Full(_)));
    q.close();
    assert!(q.is_closed());
    match q.pop() {
        PopOutcome::Item(p) => assert_eq!(p.data, vec![1]),
        _ => panic!("queued packets are still handed out after close"),
    }
    match q.pop() {
        PopOutcome::Item(p) => assert_eq!(p.data, vec![2]),
        _ => panic!("second packet"),
    }
    assert!(matches!(q.pop(), PopOutcome::Finished));
    assert!(matches!(q.push(packet(4)), PushOutcome::Closed));
}

#[test]
fn packet_queue_clear_and_reopen() {
    let mut q = PacketQueue::new(4);
    assert!(matches!(q.push(packet(1)), PushOutcome::Pushed));
    q.close();
    q.clear();
    assert_eq!(q.len(), 0);
    assert!(q.is_closed());
    assert!(matches!(q.pop(), PopOutcome::Finished));
    q.reopen();
    assert!(!q.is_closed());
    assert!(matches!(q.pop(), PopOutcome::Wait));
}
