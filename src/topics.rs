use crate::error::HardwareTaskError;
use crate::servo::{servo_id, servo_of_id, Servo, SERVO_COUNT};
use vstd::prelude::*;

verus! {

/// The character of a decimal digit.
pub open spec fn digit_char(d: nat) -> char {
    if d == 0 {
        '0'
    } else if d == 1 {
        '1'
    } else if d == 2 {
        '2'
    } else if d == 3 {
        '3'
    } else if d == 4 {
        '4'
    } else if d == 5 {
        '5'
    } else if d == 6 {
        '6'
    } else if d == 7 {
        '7'
    } else if d == 8 {
        '8'
    } else {
        '9'
    }
}

/// The value of a decimal digit character.
pub open spec fn digit_value(c: char) -> Option<nat> {
    if c == '0' {
        Some(0)
    } else if c == '1' {
        Some(1)
    } else if c == '2' {
        Some(2)
    } else if c == '3' {
        Some(3)
    } else if c == '4' {
        Some(4)
    } else if c == '5' {
        Some(5)
    } else if c == '6' {
        Some(6)
    } else if c == '7' {
        Some(7)
    } else if c == '8' {
        Some(8)
    } else if c == '9' {
        Some(9)
    } else {
        None
    }
}

/// The shortest decimal representation of `n`.
pub open spec fn decimal(n: nat) -> Seq<char>
    decreases n,
{
    if n < 10 {
        seq![digit_char(n)]
    } else {
        decimal(n / 10).push(digit_char(n % 10))
    }
}

pub open spec fn all_digits(s: Seq<char>) -> bool {
    forall|i: int| 0 <= i < s.len() ==> (#[trigger] digit_value(s[i])) is Some
}

/// The number that a string of decimal digits denotes.
pub open spec fn decimal_value(s: Seq<char>) -> nat
    decreases s.len(),
{
    if s.len() == 0 {
        0
    } else {
        decimal_value(s.drop_last()) * 10 + digit_value(s.last()).unwrap_or(0)
    }
}

/// The number that `s` denotes, when `s` is a non-empty string of decimal
/// digits whose value fits in a `u64`.
pub open spec fn parse_decimal_spec(s: Seq<char>) -> Option<nat> {
    if s.len() > 0 && all_digits(s) && decimal_value(s) <= u64::MAX {
        Some(decimal_value(s))
    } else {
        None
    }
}

/// The decimal representation of a number is a string of digits that denotes it.
pub proof fn lemma_decimal_round_trip(n: nat)
    ensures
        decimal(n).len() > 0,
        all_digits(decimal(n)),
        decimal_value(decimal(n)) == n,
    decreases n,
{
    let d = n % 10;
    assert(digit_value(digit_char(d)) == Some(d));
    if n < 10 {
        assert(decimal(n).drop_last() =~= Seq::<char>::empty());
        assert(decimal(n).last() == digit_char(d));
        assert(decimal_value(decimal(n)) == decimal_value(decimal(n).drop_last()) * 10 + d);
    } else {
        lemma_decimal_round_trip(n / 10);
        let s = decimal(n);
        assert(s.drop_last() =~= decimal(n / 10));
        assert((n / 10) * 10 + d == n);
        assert(s.last() == digit_char(d));
        assert(decimal_value(s) == decimal_value(s.drop_last()) * 10 + d);
        assert forall|i: int| 0 <= i < s.len() implies (#[trigger] digit_value(s[i])) is Some by {
            if i < s.len() - 1 {
                assert(s[i] == decimal(n / 10)[i]);
            }
        }
    }
}

proof fn lemma_decimal_value_prefix(s: Seq<char>, i: int, j: int)
    requires
        0 <= i <= j <= s.len(),
    ensures
        decimal_value(s.subrange(0, i)) <= decimal_value(s.subrange(0, j)),
    decreases j - i,
{
    if i < j {
        lemma_decimal_value_prefix(s, i, j - 1);
        assert(s.subrange(0, j).drop_last() =~= s.subrange(0, j - 1));
    }
}

fn digit_of(c: char) -> (r: Option<u64>)
    ensures
        match digit_value(c) {
            Some(d) => r == Some(d as u64),
            None => r is None,
        },
{
    match c {
        '0' => Some(0),
        '1' => Some(1),
        '2' => Some(2),
        '3' => Some(3),
        '4' => Some(4),
        '5' => Some(5),
        '6' => Some(6),
        '7' => Some(7),
        '8' => Some(8),
        '9' => Some(9),
        _ => None,
    }
}

/// Reads a non-empty string of decimal digits as a `u64`; `None` for any other
/// string or a value that does not fit.
pub fn parse_decimal(s: &str) -> (r: Option<u64>)
    ensures
        match parse_decimal_spec(s@) {
            Some(v) => r == Some(v as u64),
            None => r is None,
        },
{
    let n = s.unicode_len();
    if n == 0 {
        return None;
    }
    let mut acc: u64 = 0;
    let mut i: usize = 0;
    while i < n
        invariant
            n == s@.len(),
            0 <= i <= n,
            all_digits(s@.subrange(0, i as int)),
            acc == decimal_value(s@.subrange(0, i as int)),
        decreases n - i,
    {
        let c = s.get_char(i);
        let prefix = Ghost(s@.subrange(0, i as int));
        let next = Ghost(s@.subrange(0, i as int + 1));
        assert(next@.drop_last() =~= prefix@);
        match digit_of(c) {
            None => {
                assert(!all_digits(s@)) by {
                    assert(digit_value(s@[i as int]) is None);
                }
                return None;
            },
            Some(d) => {
                if acc > (u64::MAX - d) / 10 {
                    proof {
                        lemma_decimal_value_prefix(s@, i as int + 1, n as int);
                        assert(s@.subrange(0, n as int) =~= s@);
                        assert(decimal_value(next@) == acc * 10 + d);
                        assert(acc * 10 + d > u64::MAX) by (nonlinear_arith)
                            requires
                                acc > (u64::MAX - d) / 10,
                                d <= 9,
                        ;
                    }
                    return None;
                }
                assert(acc * 10 + d <= u64::MAX) by (nonlinear_arith)
                    requires
                        acc <= (u64::MAX - d) / 10,
                        d <= 9,
                ;
                acc = acc * 10 + d;
                assert forall|k: int| 0 <= k < next@.len() implies (#[trigger] digit_value(
                    next@[k],
                )) is Some by {
                    if k < i {
                        assert(next@[k] == prefix@[k]);
                    }
                }
                i = i + 1;
            },
        }
    }
    assert(s@.subrange(0, n as int) =~= s@);
    Some(acc)
}

fn digit_str(d: u64) -> (r: &'static str)
    requires
        d < 10,
    ensures
        r@ == seq![digit_char(d as nat)],
{
    proof {
        reveal_strlit("0");
        reveal_strlit("1");
        reveal_strlit("2");
        reveal_strlit("3");
        reveal_strlit("4");
        reveal_strlit("5");
        reveal_strlit("6");
        reveal_strlit("7");
        reveal_strlit("8");
        reveal_strlit("9");
    }
    match d {
        0 => "0",
        1 => "1",
        2 => "2",
        3 => "3",
        4 => "4",
        5 => "5",
        6 => "6",
        7 => "7",
        8 => "8",
        _ => "9",
    }
}

/// The shortest decimal representation of `n`.
pub fn decimal_string(n: u64) -> (r: String)
    ensures
        r@ == decimal(n as nat),
    decreases n,
{
    if n < 10 {
        String::from_str(digit_str(n))
    } else {
        let mut s = decimal_string(n / 10);
        s.append(digit_str(n % 10));
        s
    }
}

pub open spec fn servo_topic_prefix() -> Seq<char> {
    "/nodes/arduino/servo/"@
}

/// The topic of a joint for one purpose (`/buffer/push`, `/buffer/drain`, ...).
pub open spec fn servo_topic(servo: Servo, purpose: Seq<char>) -> Seq<char> {
    servo_topic_prefix() + decimal(servo_id(servo) as nat) + purpose
}

pub open spec fn push_topic_spec(servo: Servo) -> Seq<char> {
    servo_topic(servo, "/buffer/push"@)
}

pub open spec fn drain_topic_spec(servo: Servo) -> Seq<char> {
    servo_topic(servo, "/buffer/drain"@)
}

pub open spec fn empty_topic_spec(servo: Servo) -> Seq<char> {
    servo_topic(servo, "/buffer/empty"@)
}

pub open spec fn response_topic_prefix() -> Seq<char> {
    "/nodes/hardware/response/"@
}

/// The topic on which the answer to correlated request `id` is published.
pub open spec fn response_topic_spec(id: nat) -> Seq<char> {
    response_topic_prefix() + decimal(id)
}

fn servo_topic_string(servo: Servo, purpose: &str) -> (r: String)
    ensures
        r@ == servo_topic(servo, purpose@),
{
    let mut t = String::from_str("/nodes/arduino/servo/");
    let id = servo.identifier();
    let digits = decimal_string(id as u64);
    t.append(digits.as_str());
    t.append(purpose);
    t
}

/// The topic to which the push messages of `servo` are published.
pub fn buffer_push_message_topic(servo: Servo) -> (r: String)
    ensures
        r@ == push_topic_spec(servo),
{
    servo_topic_string(servo, "/buffer/push")
}

/// The topic on which the controller of `servo` reports free buffer room.
pub fn servo_buffer_drain_topic(servo: Servo) -> (r: String)
    ensures
        r@ == drain_topic_spec(servo),
{
    servo_topic_string(servo, "/buffer/drain")
}

/// The topic on which the controller of `servo` reports an empty buffer.
pub fn servo_buffer_empty_topic(servo: Servo) -> (r: String)
    ensures
        r@ == empty_topic_spec(servo),
{
    servo_topic_string(servo, "/buffer/empty")
}

/// The topic on which the answer to correlated request `id` is expected.
pub fn response_topic(id: u64) -> (r: String)
    ensures
        r@ == response_topic_spec(id as nat),
{
    let mut t = String::from_str("/nodes/hardware/response/");
    let digits = decimal_string(id);
    t.append(digits.as_str());
    t
}

/// Whether two strings hold the same characters.
pub fn same_chars(a: &str, b: &str) -> (r: bool)
    ensures
        r == (a@ == b@),
{
    let n = a.unicode_len();
    if n != b.unicode_len() {
        return false;
    }
    let mut i: usize = 0;
    while i < n
        invariant
            n == a@.len() == b@.len(),
            0 <= i <= n,
            a@.subrange(0, i as int) == b@.subrange(0, i as int),
        decreases n - i,
    {
        if a.get_char(i) != b.get_char(i) {
            return false;
        }
        assert(a@.subrange(0, i as int + 1) =~= a@.subrange(0, i as int).push(a@[i as int]));
        assert(b@.subrange(0, i as int + 1) =~= b@.subrange(0, i as int).push(b@[i as int]));
        i = i + 1;
    }
    assert(a@ =~= a@.subrange(0, n as int));
    assert(b@ =~= b@.subrange(0, n as int));
    true
}

/// The correlation id whose response topic `topic` is, if it is one.
pub fn response_id_of(topic: &str) -> (r: Option<u64>)
    ensures
        forall|id: u64| r == Some(id) <==> topic@ == response_topic_spec(id as nat),
{
    proof {
        reveal_strlit("/nodes/hardware/response/");
    }
    let plen: usize = 25;
    assert(response_topic_prefix().len() == plen);
    let n = topic.unicode_len();
    if n <= plen {
        proof {
            assert forall|id: u64| topic@ != response_topic_spec(id as nat) by {
                lemma_decimal_round_trip(id as nat);
            }
        }
        return None;
    }
    let rest = topic.substring_char(plen, n);
    match parse_decimal(rest) {
        None => {
            proof {
                assert forall|id: u64| topic@ != response_topic_spec(id as nat) by {
                    lemma_decimal_round_trip(id as nat);
                    if topic@ == response_topic_spec(id as nat) {
                        assert(rest@ =~= decimal(id as nat));
                    }
                }
            }
            None
        },
        Some(v) => {
            let t = response_topic(v);
            if same_chars(t.as_str(), topic) {
                proof {
                    assert forall|id: u64| topic@ == response_topic_spec(id as nat) implies v
                        == id by {
                        lemma_decimal_round_trip(id as nat);
                        assert(rest@ =~= decimal(id as nat));
                    }
                }
                Some(v)
            } else {
                proof {
                    assert forall|id: u64| topic@ != response_topic_spec(id as nat) by {
                        lemma_decimal_round_trip(id as nat);
                        if topic@ == response_topic_spec(id as nat) {
                            assert(rest@ =~= decimal(id as nat));
                        }
                    }
                }
                None
            }
        },
    }
}

/// Where an inbound publish goes.
#[derive(Clone, Copy, PartialEq, Eq, Debug, Structural)]
pub enum InboundRoute {
    /// The controller of the servo reports an empty playback buffer.
    BufferEmpty(Servo),
    /// The controller of the servo reports free room in its playback buffer.
    BufferDrain(Servo),
    /// The answer to the correlated request with this id.
    Response(u64),
    /// A topic the protocol does not handle.
    Ignored,
}

/// The text that the group named `group` matched in the leftmost match of
/// regular expression `pattern` in `haystack`; `None` when the pattern is not a
/// valid regular expression, nothing matches, or the group took no part.
pub uninterp spec fn regex_group_capture(
    pattern: Seq<char>,
    group: Seq<char>,
    haystack: Seq<char>,
) -> Option<Seq<char>>;

/// Relies on regex's `Regex::new`, `Regex::captures` and `Captures::name`,
/// used together to read one named group of the leftmost match; the result
/// depends on the three strings alone.
#[verifier::external_body]
fn capture_group(pattern: &str, group: &str, haystack: &str) -> (r: Option<String>)
    ensures
        match r {
            Some(s) => regex_group_capture(pattern@, group@, haystack@) == Some(s@),
            None => regex_group_capture(pattern@, group@, haystack@) is None,
        },
{
    match regex::Regex::new(pattern) {
        Ok(re) => re.captures(haystack).and_then(|c| c.name(group)).map(
            |m| m.as_str().to_string(),
        ),
        Err(_) => None,
    }
}

/// Pattern of the topics on which controllers report an empty buffer; group
/// `n` is the servo index.
pub open spec fn empty_pattern() -> Seq<char> {
    "/nodes/arduino/servo/(?<n>[0-9])/buffer/empty"@
}

/// Pattern of the topics on which controllers report free buffer room; group
/// `n` is the servo index.
pub open spec fn drain_pattern() -> Seq<char> {
    "/nodes/arduino/servo/(?<n>[0-9])/buffer/drain"@
}

pub open spec fn index_group() -> Seq<char> {
    "n"@
}

/// The servo that an index segment of a topic names.
pub open spec fn servo_of_segment(seg: Seq<char>) -> Result<Servo, HardwareTaskError> {
    match parse_decimal_spec(seg) {
        Some(v) => if v <= i16::MAX {
            match servo_of_id(v as int) {
                Some(s) => Ok(s),
                None => Err(HardwareTaskError::InvalidServoIndex(v as i16)),
            }
        } else {
            Err(HardwareTaskError::MalformedServoIndex)
        },
        None => Err(HardwareTaskError::MalformedServoIndex),
    }
}

/// The route of a topic, given what the empty and drain patterns captured:
/// an empty report wins over a drain report, and a topic that neither pattern
/// matches is a response when it is the response topic of some id.
pub open spec fn route_spec(
    empty_capture: Option<Seq<char>>,
    drain_capture: Option<Seq<char>>,
    topic: Seq<char>,
) -> Result<InboundRoute, HardwareTaskError> {
    match empty_capture {
        Some(seg) => match servo_of_segment(seg) {
            Ok(s) => Ok(InboundRoute::BufferEmpty(s)),
            Err(e) => Err(e),
        },
        None => match drain_capture {
            Some(seg) => match servo_of_segment(seg) {
                Ok(s) => Ok(InboundRoute::BufferDrain(s)),
                Err(e) => Err(e),
            },
            None => if exists|id: u64| topic == response_topic_spec(id as nat) {
                Ok(InboundRoute::Response(choose|id: u64| topic == response_topic_spec(id as nat)))
            } else {
                Ok(InboundRoute::Ignored)
            },
        },
    }
}

/// The servo that an index segment of a topic names: `MalformedServoIndex`
/// unless it is a decimal number that fits in an `i16`, `InvalidServoIndex`
/// when no servo has that identifier.
pub fn servo_from_segment(seg: &str) -> (r: Result<Servo, HardwareTaskError>)
    ensures
        r == servo_of_segment(seg@),
{
    match parse_decimal(seg) {
        Some(v) => {
            if v <= 32767 {
                Servo::from_identifier(v as i16)
            } else {
                Err(HardwareTaskError::MalformedServoIndex)
            }
        },
        None => Err(HardwareTaskError::MalformedServoIndex),
    }
}

/// Routes an inbound topic from what the empty and drain patterns captured of
/// it (`None` where a pattern did not match).
pub fn route_from_captures(
    empty_capture: Option<String>,
    drain_capture: Option<String>,
    topic: &str,
) -> (r: Result<InboundRoute, HardwareTaskError>)
    ensures
        r == route_spec(
            match empty_capture {
                Some(c) => Some(c@),
                None => None,
            },
            match drain_capture {
                Some(c) => Some(c@),
                None => None,
            },
            topic@,
        ),
{
    match empty_capture {
        Some(seg) => match servo_from_segment(seg.as_str()) {
            Ok(s) => Ok(InboundRoute::BufferEmpty(s)),
            Err(e) => Err(e),
        },
        None => match drain_capture {
            Some(seg) => match servo_from_segment(seg.as_str()) {
                Ok(s) => Ok(InboundRoute::BufferDrain(s)),
                Err(e) => Err(e),
            },
            None => match response_id_of(topic) {
                Some(id) => {
                    proof {
                        assert(topic@ == response_topic_spec(id as nat));
                        let c = choose|c: u64| topic@ == response_topic_spec(c as nat);
                        assert(Some(id) == Some(c));
                    }
                    Ok(InboundRoute::Response(id))
                },
                None => Ok(InboundRoute::Ignored),
            },
        },
    }
}

/// Classifies the topic of an inbound publish: a buffer report of a servo, the
/// answer to a correlated request, or nothing the protocol handles. A report
/// whose index segment names no servo fails with `InvalidServoIndex`.
pub fn classify_topic(topic: &str) -> (r: Result<InboundRoute, HardwareTaskError>)
    ensures
        r == route_spec(
            regex_group_capture(empty_pattern(), index_group(), topic@),
            regex_group_capture(drain_pattern(), index_group(), topic@),
            topic@,
        ),
{
    let empty = capture_group("/nodes/arduino/servo/(?<n>[0-9])/buffer/empty", "n", topic);
    let drain = match empty {
        Some(_) => None,
        None => capture_group("/nodes/arduino/servo/(?<n>[0-9])/buffer/drain", "n", topic),
    };
    route_from_captures(empty, drain, topic)
}

/// A buffer report (empty or drain) whose index segment is the decimal form
/// of a number that is no joint's identifier fails with `InvalidServoIndex`
/// of that number.
pub proof fn lemma_unknown_index_rejected(
    n: nat,
    drain_capture: Option<Seq<char>>,
    topic: Seq<char>,
)
    requires
        SERVO_COUNT <= n <= i16::MAX,
    ensures
        route_spec(Some(decimal(n)), drain_capture, topic) == Err::<InboundRoute, HardwareTaskError>(
            HardwareTaskError::InvalidServoIndex(n as i16),
        ),
        route_spec(None, Some(decimal(n)), topic) == Err::<InboundRoute, HardwareTaskError>(
            HardwareTaskError::InvalidServoIndex(n as i16),
        ),
{
    lemma_decimal_round_trip(n);
}

} // verus!
