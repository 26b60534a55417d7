use hardware::{BufferWait, BufferWaiter, ServoBufferEvent, WaitOutcome, WaitSignal};

#[test]
fn empty_wait_ignores_drain() {
    let mut w = BufferWaiter::new(BufferWait::Empty);
    assert_eq!(w.observe(WaitSignal::Event(ServoBufferEvent::Drain(4))), WaitOutcome::Pending);
    assert_eq!(w.observe(WaitSignal::Event(ServoBufferEvent::Empty)), WaitOutcome::Emptied);
}

#[test]
fn drain_wait_ignores_empty() {
    let mut w = BufferWaiter::new(BufferWait::Drain);
    assert_eq!(w.observe(WaitSignal::Event(ServoBufferEvent::Empty)), WaitOutcome::Pending);
    assert_eq!(
        w.observe(WaitSignal::Event(ServoBufferEvent::Drain(12))),
        WaitOutcome::Drained(12)
    );
    assert_eq!(w.outcome(), WaitOutcome::Drained(12));
}

#[test]
fn cancelled_wait_stays_cancelled() {
    let mut w = BufferWaiter::new(BufferWait::Drain);
    assert_eq!(w.observe(WaitSignal::Cancel), WaitOutcome::Cancelled);
    assert_eq!(
        w.observe(WaitSignal::Event(ServoBufferEvent::Drain(3))),
        WaitOutcome::Cancelled
    );
    assert_eq!(w.outcome(), WaitOutcome::Cancelled);
}
