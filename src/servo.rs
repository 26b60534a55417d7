use crate::error::HardwareTaskError;
use vstd::prelude::*;

verus! {

/// Number of joints in the identifier space.
pub const SERVO_COUNT: usize = 5;

/// One actuated joint of the rig.
#[derive(Clone, Copy, PartialEq, Eq, Debug, Hash, Structural)]
pub enum Servo {
    Joint0,
    Joint1,
    Joint2,
    Joint3,
    Joint4,
}

/// The wire identifier of a joint.
pub open spec fn servo_id(s: Servo) -> int {
    match s {
        Servo::Joint0 => 0,
        Servo::Joint1 => 1,
        Servo::Joint2 => 2,
        Servo::Joint3 => 3,
        Servo::Joint4 => 4,
    }
}

/// The joint with wire identifier `n`, if there is one.
pub open spec fn servo_of_id(n: int) -> Option<Servo> {
    if n == 0 {
        Some(Servo::Joint0)
    } else if n == 1 {
        Some(Servo::Joint1)
    } else if n == 2 {
        Some(Servo::Joint2)
    } else if n == 3 {
        Some(Servo::Joint3)
    } else if n == 4 {
        Some(Servo::Joint4)
    } else {
        None
    }
}

/// All joints, in identifier order.
pub open spec fn all_servos() -> Seq<Servo> {
    seq![Servo::Joint0, Servo::Joint1, Servo::Joint2, Servo::Joint3, Servo::Joint4]
}

impl Servo {
    /// The wire identifier used in topic strings and for positional indexing.
    pub fn identifier(&self) -> (r: i16)
        ensures
            r == servo_id(*self),
            0 <= r < SERVO_COUNT,
    {
        match self {
            Servo::Joint0 => 0,
            Servo::Joint1 => 1,
            Servo::Joint2 => 2,
            Servo::Joint3 => 3,
            Servo::Joint4 => 4,
        }
    }

    /// The address of the holding register that takes this joint's target angle.
    pub fn target_angle_holding_reg_addr(&self) -> (r: u16)
        ensures
            r == 2 * servo_id(*self) + 1,
    {
        match self {
            Servo::Joint0 => 0x0001,
            Servo::Joint1 => 0x0003,
            Servo::Joint2 => 0x0005,
            Servo::Joint3 => 0x0007,
            Servo::Joint4 => 0x0009,
        }
    }

    /// The joint with wire identifier `n`; `InvalidServoIndex(n)` when `n` is
    /// outside the identifier space.
    pub fn from_identifier(n: i16) -> (r: Result<Servo, HardwareTaskError>)
        ensures
            match servo_of_id(n as int) {
                Some(s) => r == Ok::<Servo, HardwareTaskError>(s),
                None => r == Err::<Servo, HardwareTaskError>(
                    HardwareTaskError::InvalidServoIndex(n),
                ),
            },
    {
        match n {
            0 => Ok(Servo::Joint0),
            1 => Ok(Servo::Joint1),
            2 => Ok(Servo::Joint2),
            3 => Ok(Servo::Joint3),
            4 => Ok(Servo::Joint4),
            _ => Err(HardwareTaskError::InvalidServoIndex(n)),
        }
    }

    /// Every joint, in the stable order of their identifiers.
    pub fn all() -> (r: Vec<Servo>)
        ensures
            r@ == all_servos(),
    {
        let r = vec![Servo::Joint0, Servo::Joint1, Servo::Joint2, Servo::Joint3, Servo::Joint4];
        assert(r@ =~= all_servos());
        r
    }
}

/// Decoding the wire identifier of any joint gives that joint back, and the
/// identifiers of the joints are exactly `0 .. SERVO_COUNT`, in enumeration order.
pub proof fn lemma_identifier_bijection(s: Servo, n: int)
    ensures
        servo_of_id(servo_id(s)) == Some(s),
        0 <= servo_id(s) < SERVO_COUNT,
        all_servos()[servo_id(s)] == s,
        servo_of_id(n) is Some <==> 0 <= n < SERVO_COUNT,
        servo_of_id(n) matches Some(t) ==> servo_id(t) == n,
{
}

} // verus!
