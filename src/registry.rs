use crate::error::HardwareTaskError;
use crate::servo::{all_servos, servo_id, Servo, SERVO_COUNT};
use vstd::prelude::*;

verus! {

/// One event channel per joint, created together for the whole identifier
/// space and never added to or removed from afterwards.
pub struct HardwareBufferRegistry<B> {
    buffers: Vec<B>,
}

impl<B> HardwareBufferRegistry<B> {
    #[verifier::type_invariant]
    closed spec fn inv(&self) -> bool {
        self.buffers@.len() == SERVO_COUNT
    }

    /// The channel of each joint, indexed by wire identifier.
    pub closed spec fn channels(&self) -> Seq<B> {
        self.buffers@
    }

    /// The channel of `servo`. The registry holds one for every joint, so
    /// this always succeeds; `ServoNotInRegistry` is the defensive answer for
    /// a joint outside it.
    pub fn get_for_servo(&self, servo: Servo) -> (r: Result<&B, HardwareTaskError>)
        ensures
            r matches Ok(b) && *b == self.channels()[servo_id(servo)],
    {
        proof {
            use_type_invariant(self);
        }
        let i = servo.identifier() as usize;
        if i < self.buffers.len() {
            Ok(&self.buffers[i])
        } else {
            Err(HardwareTaskError::ServoNotInRegistry(servo))
        }
    }

    /// Number of joints the registry serves.
    pub fn len(&self) -> (r: usize)
        ensures
            r == SERVO_COUNT,
            r == self.channels().len(),
    {
        proof {
            use_type_invariant(self);
        }
        self.buffers.len()
    }
}

impl<B: Default> HardwareBufferRegistry<B> {
    /// Creates a fresh channel for every joint of the identifier space.
    pub fn new() -> (r: HardwareBufferRegistry<B>)
        ensures
            r.channels().len() == SERVO_COUNT,
            r.channels().len() == all_servos().len(),
    {
        let servos = Servo::all();
        let mut buffers: Vec<B> = Vec::new();
        let mut i: usize = 0;
        while i < servos.len()
            invariant
                servos@ == all_servos(),
                buffers@.len() == i,
                i <= servos@.len(),
            decreases servos@.len() - i,
        {
            buffers.push(B::default());
            i = i + 1;
        }
        HardwareBufferRegistry { buffers }
    }
}

} // verus!
