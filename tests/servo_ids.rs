use hardware::{HardwareTaskError, Servo, SERVO_COUNT};

#[test]
fn identifiers_round_trip_for_every_joint() {
    let all = Servo::all();
    assert_eq!(all.len(), SERVO_COUNT);
    for (position, servo) in all.iter().enumerate() {
        let id = servo.identifier();
        assert_eq!(id as usize, position);
        assert_eq!(Servo::from_identifier(id), Ok(*servo));
    }
}

#[test]
fn identifiers_are_stable() {
    assert_eq!(Servo::Joint0.identifier(), 0);
    assert_eq!(Servo::Joint2.identifier(), 2);
    assert_eq!(Servo::Joint4.identifier(), 4);
}

#[test]
fn unknown_identifier_is_rejected() {
    assert_eq!(Servo::from_identifier(5), Err(HardwareTaskError::InvalidServoIndex(5)));
    assert_eq!(Servo::from_identifier(-1), Err(HardwareTaskError::InvalidServoIndex(-1)));
    assert_eq!(Servo::from_identifier(9), Err(HardwareTaskError::InvalidServoIndex(9)));
}

#[test]
fn holding_register_addresses() {
    assert_eq!(Servo::Joint0.target_angle_holding_reg_addr(), 0x0001);
    assert_eq!(Servo::Joint1.target_angle_holding_reg_addr(), 0x0003);
    assert_eq!(Servo::Joint4.target_angle_holding_reg_addr(), 0x0009);
}
