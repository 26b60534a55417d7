//! Flow control and request/response correlation for a multi-joint servo rig
//! driven over a publish/subscribe bus.
use vstd::prelude::*;

pub mod correlation;
pub mod error;
pub mod events;
pub mod messages;
pub mod publisher;
pub mod registry;
pub mod servo;
pub mod topics;

pub use correlation::{PendingResponse, ResponseOutcome, ResponseTable};
pub use error::HardwareTaskError;
pub use events::{BufferWait, BufferWaiter, ServoBufferEvent, WaitOutcome, WaitSignal};
pub use messages::{
    BufferDrainMessage, BufferEmptyMessage, BufferGetCapacityMessageRequest,
    BufferGetCapacityMessageResponse, BufferPushMessage, ServoGetAngleMessageRequest,
    ServoGetAngleMessageResponse, ServoTarget,
};
pub use publisher::{PushEvent, PushSession, PushStep, PushWait, Window, BUFFER_CAPACITY};
pub use registry::HardwareBufferRegistry;
pub use servo::{Servo, SERVO_COUNT};
pub use topics::{
    buffer_push_message_topic, classify_topic, decimal_string, parse_decimal, response_id_of,
    response_topic, route_from_captures, same_chars, servo_buffer_drain_topic,
    servo_buffer_empty_topic, servo_from_segment, InboundRoute,
};

verus! {

} // verus!
