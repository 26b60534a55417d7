use vstd::prelude::*;

verus! {

/// One motion target: the angle to move to and the speed to move at.
#[derive(Clone, Copy, PartialEq, Eq, Debug, Structural)]
pub struct ServoTarget {
    angle: i16,
    speed: i16,
}

impl ServoTarget {
    pub closed spec fn angle_spec(&self) -> i16 {
        self.angle
    }

    pub closed spec fn speed_spec(&self) -> i16 {
        self.speed
    }

    pub fn new(angle: i16, speed: i16) -> (r: Self)
        ensures
            r.angle_spec() == angle,
            r.speed_spec() == speed,
    {
        Self { angle, speed }
    }

    pub fn angle(&self) -> (r: i16)
        ensures
            r == self.angle_spec(),
    {
        self.angle
    }

    pub fn speed(&self) -> (r: i16)
        ensures
            r == self.speed_spec(),
    {
        self.speed
    }
}

/// The request for a servo's angle; the answer goes to `response_topic`.
pub struct ServoGetAngleMessageRequest {
    response_topic: String,
}

impl ServoGetAngleMessageRequest {
    pub closed spec fn response_topic_spec(&self) -> Seq<char> {
        self.response_topic@
    }

    pub fn new(response_topic: String) -> (r: Self)
        ensures
            r.response_topic_spec() == response_topic@,
    {
        Self { response_topic }
    }

    pub fn response_topic(&self) -> (r: &str)
        ensures
            r@ == self.response_topic_spec(),
    {
        self.response_topic.as_str()
    }
}

/// The answer to a servo angle request.
#[derive(Clone, Copy, PartialEq, Eq, Debug, Structural)]
pub struct ServoGetAngleMessageResponse {
    angle: i16,
}

impl ServoGetAngleMessageResponse {
    pub closed spec fn angle_spec(&self) -> i16 {
        self.angle
    }

    pub fn new(angle: i16) -> (r: Self)
        ensures
            r.angle_spec() == angle,
    {
        Self { angle }
    }

    pub fn angle(&self) -> (r: i16)
        ensures
            r == self.angle_spec(),
    {
        self.angle
    }
}

/// The request for a buffer's capacity; the answer goes to `response_topic`.
pub struct BufferGetCapacityMessageRequest {
    response_topic: String,
}

impl BufferGetCapacityMessageRequest {
    pub closed spec fn response_topic_spec(&self) -> Seq<char> {
        self.response_topic@
    }

    pub fn new(response_topic: String) -> (r: Self)
        ensures
            r.response_topic_spec() == response_topic@,
    {
        Self { response_topic }
    }

    pub fn response_topic(&self) -> (r: &str)
        ensures
            r@ == self.response_topic_spec(),
    {
        self.response_topic.as_str()
    }
}

/// The answer to a buffer capacity request.
#[derive(Clone, Copy, PartialEq, Eq, Debug, Structural)]
pub struct BufferGetCapacityMessageResponse {
    capacity: i16,
}

impl BufferGetCapacityMessageResponse {
    pub closed spec fn capacity_spec(&self) -> i16 {
        self.capacity
    }

    pub fn new(capacity: i16) -> (r: Self)
        ensures
            r.capacity_spec() == capacity,
    {
        Self { capacity }
    }

    pub fn capacity(&self) -> (r: i16)
        ensures
            r == self.capacity_spec(),
    {
        self.capacity
    }
}

/// One window of motion targets, in playback order.
pub struct BufferPushMessage {
    targets: Vec<ServoTarget>,
}

impl BufferPushMessage {
    pub closed spec fn targets_spec(&self) -> Seq<ServoTarget> {
        self.targets@
    }

    pub fn new(targets: Vec<ServoTarget>) -> (r: Self)
        ensures
            r.targets_spec() == targets@,
    {
        Self { targets }
    }

    /// The message for the targets at positions `start .. end` of `targets`.
    pub fn from_window(targets: &[ServoTarget], start: usize, end: usize) -> (r: Self)
        requires
            start <= end <= targets@.len(),
        ensures
            r.targets_spec() == targets@.subrange(start as int, end as int),
    {
        let mut v: Vec<ServoTarget> = Vec::new();
        let mut i: usize = start;
        while i < end
            invariant
                start <= i <= end <= targets@.len(),
                v@ == targets@.subrange(start as int, i as int),
            decreases end - i,
        {
            v.push(targets[i]);
            assert(v@ =~= targets@.subrange(start as int, i as int + 1));
            i = i + 1;
        }
        Self { targets: v }
    }

    pub fn targets(&self) -> (r: &[ServoTarget])
        ensures
            r@ == self.targets_spec(),
    {
        self.targets.as_slice()
    }
}

/// The controller's report of free room in its buffer.
#[derive(Clone, Copy, PartialEq, Eq, Debug, Structural)]
pub struct BufferDrainMessage {
    pub need: i16,
}

/// The controller's report that its buffer has played out.
#[derive(Clone, Copy, PartialEq, Eq, Debug, Structural)]
pub struct BufferEmptyMessage {}

} // verus!
