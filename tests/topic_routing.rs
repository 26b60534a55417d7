use hardware::{
    buffer_push_message_topic, classify_topic, decimal_string, parse_decimal, response_id_of,
    response_topic, route_from_captures, same_chars, servo_buffer_drain_topic,
    servo_buffer_empty_topic, servo_from_segment, HardwareTaskError, InboundRoute, Servo,
};

#[test]
fn servo_topics() {
    assert_eq!(buffer_push_message_topic(Servo::Joint0), "/nodes/arduino/servo/0/buffer/push");
    assert_eq!(servo_buffer_drain_topic(Servo::Joint3), "/nodes/arduino/servo/3/buffer/drain");
    assert_eq!(servo_buffer_empty_topic(Servo::Joint4), "/nodes/arduino/servo/4/buffer/empty");
}

#[test]
fn response_topics() {
    assert_eq!(response_topic(0), "/nodes/hardware/response/0");
    assert_eq!(response_topic(1234), "/nodes/hardware/response/1234");
    assert_eq!(response_id_of("/nodes/hardware/response/1234"), Some(1234));
    assert_eq!(response_id_of("/nodes/hardware/response/0"), Some(0));
    assert_eq!(response_id_of("/nodes/hardware/response/007"), None);
    assert_eq!(response_id_of("/nodes/hardware/response/"), None);
    assert_eq!(response_id_of("/nodes/hardware/reply/12"), None);
}

#[test]
fn decimal_forms() {
    assert_eq!(decimal_string(0), "0");
    assert_eq!(decimal_string(907), "907");
    assert_eq!(decimal_string(u64::MAX), "18446744073709551615");
    assert_eq!(parse_decimal("18446744073709551615"), Some(u64::MAX));
    assert_eq!(parse_decimal("18446744073709551616"), None);
    assert_eq!(parse_decimal("42"), Some(42));
    assert_eq!(parse_decimal(""), None);
    assert_eq!(parse_decimal("4a"), None);
    assert_eq!(parse_decimal("-4"), None);
}

#[test]
fn char_comparison() {
    assert!(same_chars("abc", "abc"));
    assert!(!same_chars("abc", "abd"));
    assert!(!same_chars("abc", "ab"));
}

#[test]
fn index_segments() {
    assert_eq!(servo_from_segment("2"), Ok(Servo::Joint2));
    assert_eq!(servo_from_segment("5"), Err(HardwareTaskError::InvalidServoIndex(5)));
    assert_eq!(servo_from_segment("x"), Err(HardwareTaskError::MalformedServoIndex));
    assert_eq!(servo_from_segment("40000"), Err(HardwareTaskError::MalformedServoIndex));
}

#[test]
fn routes_from_captures() {
    let t = "/nodes/arduino/servo/1/buffer/empty";
    assert_eq!(
        route_from_captures(Some("1".to_string()), None, t),
        Ok(InboundRoute::BufferEmpty(Servo::Joint1))
    );
    let t = "/nodes/arduino/servo/3/buffer/drain";
    assert_eq!(
        route_from_captures(None, Some("3".to_string()), t),
        Ok(InboundRoute::BufferDrain(Servo::Joint3))
    );
    assert_eq!(
        route_from_captures(None, None, "/nodes/hardware/response/17"),
        Ok(InboundRoute::Response(17))
    );
    assert_eq!(route_from_captures(None, None, "/elsewhere"), Ok(InboundRoute::Ignored));
}

#[test]
fn out_of_range_index_is_rejected() {
    let t = "/nodes/arduino/servo/9/buffer/drain";
    assert_eq!(
        route_from_captures(None, Some("9".to_string()), t),
        Err(HardwareTaskError::InvalidServoIndex(9))
    );
    assert_eq!(classify_topic(t), Err(HardwareTaskError::InvalidServoIndex(9)));
    assert_eq!(
        classify_topic("/nodes/arduino/servo/5/buffer/empty"),
        Err(HardwareTaskError::InvalidServoIndex(5))
    );
}

#[test]
fn classifies_inbound_topics() {
    assert_eq!(
        classify_topic("/nodes/arduino/servo/0/buffer/empty"),
        Ok(InboundRoute::BufferEmpty(Servo::Joint0))
    );
    assert_eq!(
        classify_topic("/nodes/arduino/servo/4/buffer/drain"),
        Ok(InboundRoute::BufferDrain(Servo::Joint4))
    );
    assert_eq!(
        classify_topic("/nodes/hardware/response/3"),
        Ok(InboundRoute::Response(3))
    );
    assert_eq!(
        classify_topic("/nodes/arduino/servo/0/buffer/push"),
        Ok(InboundRoute::Ignored)
    );
    assert_eq!(
        classify_topic("/nodes/arduino/servo/12/buffer/drain"),
        Ok(InboundRoute::Ignored)
    );
}
