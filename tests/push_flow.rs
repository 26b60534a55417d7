use hardware::{
    BufferPushMessage, HardwareBufferRegistry, Servo, PushEvent, PushSession, PushStep, PushWait, ServoTarget, Window,
    BUFFER_CAPACITY,
};

fn publish(start: usize, end: usize, next: PushWait) -> PushStep {
    PushStep { publish: Some(Window { start, end }), next }
}

fn idle(next: PushWait) -> PushStep {
    PushStep { publish: None, next }
}

#[test]
fn short_push_publishes_once_then_waits_for_empty() {
    let (mut s, step) = PushSession::start(7);
    assert_eq!(step, publish(0, 7, PushWait::Empty));
    assert_eq!(s.on_event(PushEvent::Drain(10)), idle(PushWait::Empty));
    assert_eq!(s.on_event(PushEvent::Drain(3)), idle(PushWait::Empty));
    assert_eq!(s.on_event(PushEvent::Empty), idle(PushWait::Finished));
    assert_eq!(s.phase(), PushWait::Finished);
}

#[test]
fn push_of_exactly_capacity_is_one_window() {
    let (_s, step) = PushSession::start(BUFFER_CAPACITY);
    assert_eq!(step, publish(0, 20, PushWait::Empty));
}

#[test]
fn empty_push_only_waits_for_empty() {
    let (mut s, step) = PushSession::start(0);
    assert_eq!(step, idle(PushWait::Empty));
    assert_eq!(s.on_event(PushEvent::Empty), idle(PushWait::Finished));
}

#[test]
fn push_of_twenty_five_targets() {
    let registry: HardwareBufferRegistry<u8> = HardwareBufferRegistry::new();
    assert_eq!(registry.len(), 5);
    assert!(registry.get_for_servo(Servo::Joint0).is_ok());
    let targets: Vec<ServoTarget> = (0..25)
        .map(|i| ServoTarget::new(if i % 2 == 0 { 120 } else { 0 }, 200))
        .collect();
    let (mut s, step) = PushSession::start(targets.len());
    assert_eq!(step, publish(0, 20, PushWait::Drain));
    let first = BufferPushMessage::from_window(&targets, 0, 20);
    assert_eq!(first.targets().len(), 20);
    assert_eq!(first.targets()[1].angle(), 0);
    let step = s.on_event(PushEvent::Drain(10));
    assert_eq!(step, publish(20, 25, PushWait::Empty));
    let second = BufferPushMessage::from_window(&targets, 20, 25);
    assert_eq!(second.targets().len(), 5);
    assert_eq!(second.targets()[0].angle(), 120);
    assert_eq!(second.targets()[0].speed(), 200);
    assert_eq!(s.on_event(PushEvent::Empty), idle(PushWait::Finished));
}

#[test]
fn long_push_follows_announced_room() {
    let (mut s, step) = PushSession::start(50);
    assert_eq!(step, publish(0, 20, PushWait::Drain));
    assert_eq!(s.on_event(PushEvent::Empty), idle(PushWait::Drain));
    assert_eq!(s.on_event(PushEvent::Drain(0)), idle(PushWait::Drain));
    assert_eq!(s.on_event(PushEvent::Drain(-3)), idle(PushWait::Drain));
    assert_eq!(s.on_event(PushEvent::Drain(8)), publish(20, 28, PushWait::Drain));
    assert_eq!(s.on_event(PushEvent::Drain(20)), publish(28, 48, PushWait::Drain));
    assert_eq!(s.on_event(PushEvent::Drain(20)), publish(48, 50, PushWait::Empty));
    assert_eq!(s.on_event(PushEvent::Drain(20)), idle(PushWait::Empty));
    assert_eq!(s.on_event(PushEvent::Empty), idle(PushWait::Finished));
}

#[test]
fn cancelled_push_stops() {
    let (mut s, _) = PushSession::start(30);
    assert_eq!(s.on_event(PushEvent::Cancelled), idle(PushWait::Cancelled));
    assert_eq!(s.on_event(PushEvent::Drain(10)), idle(PushWait::Cancelled));
    assert_eq!(s.on_event(PushEvent::Empty), idle(PushWait::Cancelled));
}
