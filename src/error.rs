use crate::servo::Servo;
use vstd::prelude::*;

verus! {

/// Failures of the protocol core.
#[derive(Clone, Copy, PartialEq, Eq, Debug, Structural)]
pub enum HardwareTaskError {
    /// A wait was aborted by its cancellation signal.
    Cancelled,
    /// The registry holds no buffer for the servo (unreachable for a registry
    /// built by `HardwareBufferRegistry::new`).
    ServoNotInRegistry(Servo),
    /// An inbound topic names a servo index outside the identifier space.
    InvalidServoIndex(i16),
    /// An inbound topic carries an index segment that is not a decimal number
    /// fitting in an `i16`.
    MalformedServoIndex,
    /// Every correlation id has been handed out.
    ResponseIdsExhausted,
    /// The waiter of a correlated request was dropped before it answered.
    ResponseChannelClosed,
}

} // verus!
