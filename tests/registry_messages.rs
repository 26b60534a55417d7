use hardware::{
    BufferDrainMessage, BufferGetCapacityMessageRequest, BufferGetCapacityMessageResponse,
    BufferPushMessage, HardwareBufferRegistry, Servo, ServoGetAngleMessageRequest,
    ServoGetAngleMessageResponse, ServoTarget,
};

#[test]
fn registry_has_a_channel_per_joint() {
    let registry: HardwareBufferRegistry<u8> = HardwareBufferRegistry::new();
    assert_eq!(registry.len(), 5);
    for servo in Servo::all() {
        assert!(registry.get_for_servo(servo).is_ok());
    }
}

#[test]
fn message_constructors() {
    let t = ServoTarget::new(120, 200);
    assert_eq!((t.angle(), t.speed()), (120, 200));
    let m = BufferPushMessage::new(vec![t, ServoTarget::new(0, 200)]);
    assert_eq!(m.targets().len(), 2);
    assert_eq!(m.targets()[1], ServoTarget::new(0, 200));
    let r = ServoGetAngleMessageRequest::new("/nodes/hardware/response/3".to_string());
    assert_eq!(r.response_topic(), "/nodes/hardware/response/3");
    let r = BufferGetCapacityMessageRequest::new("/nodes/hardware/response/4".to_string());
    assert_eq!(r.response_topic(), "/nodes/hardware/response/4");
    assert_eq!(ServoGetAngleMessageResponse::new(-30).angle(), -30);
    assert_eq!(BufferGetCapacityMessageResponse::new(20).capacity(), 20);
    assert_eq!(BufferDrainMessage { need: 10 }.need, 10);
}
