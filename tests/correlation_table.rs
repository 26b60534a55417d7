use hardware::{HardwareTaskError, ResponseOutcome, ResponseTable};

#[test]
fn ids_are_fresh_and_increasing() {
    let mut table: ResponseTable<u32> = ResponseTable::new();
    let a = table.register(10).unwrap();
    let b = table.register(20).unwrap();
    assert_eq!(a.id(), 0);
    assert_eq!(b.id(), 1);
    assert_eq!(a.topic(), "/nodes/hardware/response/0");
    assert_eq!(b.topic(), "/nodes/hardware/response/1");
    assert!(table.is_pending(0));
    assert!(table.is_pending(1));
}

#[test]
fn unanswered_request_times_out_with_no_answer() {
    let mut table: ResponseTable<u32> = ResponseTable::new();
    let p = table.register(7).unwrap();
    let (result, topic) = p.complete(&mut table, ResponseOutcome::TimedOut);
    assert_eq!(result, Ok(None));
    assert_eq!(topic, "/nodes/hardware/response/0");
    assert!(!table.is_pending(0));
}

#[test]
fn answered_request_returns_payload() {
    let mut table: ResponseTable<u32> = ResponseTable::new();
    let p = table.register(7).unwrap();
    assert_eq!(table.take(p.id()), Some(7));
    assert_eq!(table.take(p.id()), None);
    let (result, topic) = p.complete(
        &mut table,
        ResponseOutcome::Received("{\"angle\":12}".to_string()),
    );
    assert_eq!(result, Ok(Some("{\"angle\":12}".to_string())));
    assert_eq!(topic, "/nodes/hardware/response/0");
    assert!(!table.is_pending(0));
}

#[test]
fn cancelled_request_fails() {
    let mut table: ResponseTable<u32> = ResponseTable::new();
    let _first = table.register(1).unwrap();
    let p = table.register(2).unwrap();
    let (result, topic) = p.complete(&mut table, ResponseOutcome::Cancelled);
    assert_eq!(result, Err(HardwareTaskError::Cancelled));
    assert_eq!(topic, "/nodes/hardware/response/1");
    assert!(table.is_pending(0));
    assert!(!table.is_pending(1));
}

#[test]
fn closed_waiter_fails() {
    let mut table: ResponseTable<u32> = ResponseTable::new();
    let p = table.register(1).unwrap();
    let (result, _) = p.complete(&mut table, ResponseOutcome::Closed);
    assert_eq!(result, Err(HardwareTaskError::ResponseChannelClosed));
}
