use vstd::prelude::*;
use vstd::slice::slice_index_get;
use vstd::std_specs::convert::TryFromSpecImpl;
use crate::error::{ClockError, DecodeError, ErrorKind};

verus! {

/// The number of bytes of a clock snapshot on the wire.
pub const CLOCK_PAYLOAD_LEN: usize = 15;

/// The four bytes of a 32-bit word, most significant first.
pub open spec fn be_bytes(word: u32) -> Seq<u8> {
    seq![
        (word / 0x100_0000) as u8,
        (word / 0x1_0000 % 0x100) as u8,
        (word / 0x100 % 0x100) as u8,
        (word % 0x100) as u8,
    ]
}

/// The 32-bit word that four bytes stand for, most significant first.
pub open spec fn be_word(bytes: Seq<u8>) -> u32 {
    (bytes[0] * 0x100_0000 + bytes[1] * 0x1_0000 + bytes[2] * 0x100 + bytes[3]) as u32
}

/// What a clock shows at one moment: the time of day, and the angle of each
/// hand in radians. An angle is held as the bits of its IEEE-754 single
/// precision form, which is what travels on the wire.
#[derive(Debug, Copy, Clone, PartialEq, Eq, Structural)]
pub struct ClockMessage {
    hours: u8,
    minutes: u8,
    seconds: u8,
    hours_angle: u32,
    minutes_angle: u32,
    seconds_angle: u32,
}

fn word_to_be(word: u32) -> (bytes: [u8; 4])
    ensures
        bytes@ == be_bytes(word),
{
    let b0: u8 = (word >> 24u32) as u8;
    let b1: u8 = ((word >> 16u32) & 0xFF) as u8;
    let b2: u8 = ((word >> 8u32) & 0xFF) as u8;
    let b3: u8 = (word & 0xFF) as u8;
    assert(word >> 24u32 == word / 0x100_0000 && (word >> 16u32) & 0xFF == word / 0x1_0000 % 0x100
        && (word >> 8u32) & 0xFF == word / 0x100 % 0x100 && word & 0xFF == word % 0x100)
        by (bit_vector);
    let bytes = [b0, b1, b2, b3];
    assert(bytes@ =~= be_bytes(word));
    bytes
}

fn word_from_be(b0: u8, b1: u8, b2: u8, b3: u8) -> (word: u32)
    ensures
        word == be_word(seq![b0, b1, b2, b3]),
{
    let w0: u32 = b0 as u32;
    let w1: u32 = b1 as u32;
    let w2: u32 = b2 as u32;
    let w3: u32 = b3 as u32;
    assert((w0 << 24u32) | (w1 << 16u32) | (w2 << 8u32) | w3 == w0 * 0x100_0000 + w1 * 0x1_0000
        + w2 * 0x100 + w3) by (bit_vector)
        requires
            w0 < 0x100,
            w1 < 0x100,
            w2 < 0x100,
            w3 < 0x100,
    ;
    (w0 << 24u32) | (w1 << 16u32) | (w2 << 8u32) | w3
}

impl ClockMessage {
    /// The hour shown.
    pub closed spec fn spec_hours(self) -> u8 {
        self.hours
    }

    /// The minute shown.
    pub closed spec fn spec_minutes(self) -> u8 {
        self.minutes
    }

    /// The second shown.
    pub closed spec fn spec_seconds(self) -> u8 {
        self.seconds
    }

    /// The bits of the hour hand's angle.
    pub closed spec fn spec_hours_angle(self) -> u32 {
        self.hours_angle
    }

    /// The bits of the minute hand's angle.
    pub closed spec fn spec_minutes_angle(self) -> u32 {
        self.minutes_angle
    }

    /// The bits of the second hand's angle.
    pub closed spec fn spec_seconds_angle(self) -> u32 {
        self.seconds_angle
    }

    /// The snapshot with the given time and angles.
    pub closed spec fn of_parts(
        hours: u8,
        minutes: u8,
        seconds: u8,
        hours_angle: u32,
        minutes_angle: u32,
        seconds_angle: u32,
    ) -> ClockMessage {
        ClockMessage { hours, minutes, seconds, hours_angle, minutes_angle, seconds_angle }
    }

    /// The fifteen bytes that stand for the snapshot on the wire: hour,
    /// minute, second, then the three angles, each most significant byte
    /// first.
    pub open spec fn payload(self) -> Seq<u8> {
        seq![self.spec_hours(), self.spec_minutes(), self.spec_seconds()] + be_bytes(
            self.spec_hours_angle(),
        ) + be_bytes(self.spec_minutes_angle()) + be_bytes(self.spec_seconds_angle())
    }

    /// The snapshot that the first fifteen bytes of a payload stand for.
    pub open spec fn of_payload(payload: Seq<u8>) -> ClockMessage {
        ClockMessage::of_parts(
            payload[0],
            payload[1],
            payload[2],
            be_word(payload.subrange(3, 7)),
            be_word(payload.subrange(7, 11)),
            be_word(payload.subrange(11, 15)),
        )
    }

    /// What a payload decodes to.
    pub open spec fn decode(payload: Seq<u8>) -> Result<ClockMessage, ClockError> {
        if payload.len() < CLOCK_PAYLOAD_LEN {
            Err(ClockError(ErrorKind::Decode(DecodeError::TooShort)))
        } else {
            Ok(ClockMessage::of_payload(payload))
        }
    }

    /// A snapshot of the given time, with the angles given by their bits.
    pub fn new(
        hours: u8,
        minutes: u8,
        seconds: u8,
        hours_angle: u32,
        minutes_angle: u32,
        seconds_angle: u32,
    ) -> (message: ClockMessage)
        ensures
            message == ClockMessage::of_parts(
                hours,
                minutes,
                seconds,
                hours_angle,
                minutes_angle,
                seconds_angle,
            ),
            message.spec_hours() == hours,
            message.spec_minutes() == minutes,
            message.spec_seconds() == seconds,
            message.spec_hours_angle() == hours_angle,
            message.spec_minutes_angle() == minutes_angle,
            message.spec_seconds_angle() == seconds_angle,
    {
        ClockMessage { hours, minutes, seconds, hours_angle, minutes_angle, seconds_angle }
    }

    /// The wire form of the snapshot, fifteen bytes.
    pub fn as_bytes(&self) -> (bytes: Vec<u8>)
        ensures
            bytes@ == self.payload(),
    {
        let mut v: Vec<u8> = Vec::new();
        v.push(self.hours);
        v.push(self.minutes);
        v.push(self.seconds);
        let h = word_to_be(self.hours_angle);
        let m = word_to_be(self.minutes_angle);
        let s = word_to_be(self.seconds_angle);
        v.push(h[0]);
        v.push(h[1]);
        v.push(h[2]);
        v.push(h[3]);
        v.push(m[0]);
        v.push(m[1]);
        v.push(m[2]);
        v.push(m[3]);
        v.push(s[0]);
        v.push(s[1]);
        v.push(s[2]);
        v.push(s[3]);
        assert(v@ =~= self.payload());
        v
    }

    /// Reads a snapshot from a payload: the bytes behind the header. The
    /// angles are taken as they stand, not computed again from the time.
    /// Bytes after the fifteenth are not read.
    pub fn from_payload(payload: &[u8]) -> (decoded: Result<ClockMessage, ClockError>)
        ensures
            decoded == ClockMessage::decode(payload@),
    {
        if payload.len() < CLOCK_PAYLOAD_LEN {
            return Err(ClockError(ErrorKind::Decode(DecodeError::TooShort)));
        }
        let hours_angle = word_from_be(
            *slice_index_get(payload, 3),
            *slice_index_get(payload, 4),
            *slice_index_get(payload, 5),
            *slice_index_get(payload, 6),
        );
        let minutes_angle = word_from_be(
            *slice_index_get(payload, 7),
            *slice_index_get(payload, 8),
            *slice_index_get(payload, 9),
            *slice_index_get(payload, 10),
        );
        let seconds_angle = word_from_be(
            *slice_index_get(payload, 11),
            *slice_index_get(payload, 12),
            *slice_index_get(payload, 13),
            *slice_index_get(payload, 14),
        );
        proof {
            let p = payload@;
            assert(p.subrange(3, 7) =~= seq![p[3], p[4], p[5], p[6]]);
            assert(p.subrange(7, 11) =~= seq![p[7], p[8], p[9], p[10]]);
            assert(p.subrange(11, 15) =~= seq![p[11], p[12], p[13], p[14]]);
        }
        Ok(
            ClockMessage {
                hours: *slice_index_get(payload, 0),
                minutes: *slice_index_get(payload, 1),
                seconds: *slice_index_get(payload, 2),
                hours_angle,
                minutes_angle,
                seconds_angle,
            },
        )
    }

    /// The hour shown.
    pub fn hours(&self) -> (hours: u8)
        ensures
            hours == self.spec_hours(),
    {
        self.hours
    }

    /// The minute shown.
    pub fn minutes(&self) -> (minutes: u8)
        ensures
            minutes == self.spec_minutes(),
    {
        self.minutes
    }

    /// The second shown.
    pub fn seconds(&self) -> (seconds: u8)
        ensures
            seconds == self.spec_seconds(),
    {
        self.seconds
    }

    /// The bits of the hour hand's angle.
    pub fn hours_angle(&self) -> (bits: u32)
        ensures
            bits == self.spec_hours_angle(),
    {
        self.hours_angle
    }

    /// The bits of the minute hand's angle.
    pub fn minutes_angle(&self) -> (bits: u32)
        ensures
            bits == self.spec_minutes_angle(),
    {
        self.minutes_angle
    }

    /// The bits of the second hand's angle.
    pub fn seconds_angle(&self) -> (bits: u32)
        ensures
            bits == self.spec_seconds_angle(),
    {
        self.seconds_angle
    }
}

impl TryFrom<Vec<u8>> for ClockMessage {
    type Error = ClockError;

    /// Reads a snapshot from its wire form.
    fn try_from(value: Vec<u8>) -> (decoded: Result<ClockMessage, ClockError>) {
        ClockMessage::from_payload(value.as_slice())
    }
}

impl TryFromSpecImpl<Vec<u8>> for ClockMessage {
    open spec fn obeys_try_from_spec() -> bool {
        true
    }

    open spec fn try_from_spec(value: Vec<u8>) -> Result<ClockMessage, ClockError> {
        ClockMessage::decode(value@)
    }
}

/// The snapshot made of six parts shows these parts.
pub proof fn lemma_parts(
    hours: u8,
    minutes: u8,
    seconds: u8,
    hours_angle: u32,
    minutes_angle: u32,
    seconds_angle: u32,
)
    ensures
        ({
            let message = ClockMessage::of_parts(
                hours,
                minutes,
                seconds,
                hours_angle,
                minutes_angle,
                seconds_angle,
            );
            &&& message.spec_hours() == hours
            &&& message.spec_minutes() == minutes
            &&& message.spec_seconds() == seconds
            &&& message.spec_hours_angle() == hours_angle
            &&& message.spec_minutes_angle() == minutes_angle
            &&& message.spec_seconds_angle() == seconds_angle
        }),
{
}

/// A snapshot is the snapshot made of the six parts that it shows: two
/// snapshots that show the same parts are the same.
pub proof fn lemma_made_of_its_parts(message: ClockMessage)
    ensures
        message == ClockMessage::of_parts(
            message.spec_hours(),
            message.spec_minutes(),
            message.spec_seconds(),
            message.spec_hours_angle(),
            message.spec_minutes_angle(),
            message.spec_seconds_angle(),
        ),
{
}

/// A word read from four bytes is written as these four bytes.
pub proof fn lemma_bytes_round_trip(bytes: Seq<u8>)
    requires
        bytes.len() == 4,
    ensures
        be_bytes(be_word(bytes)) == bytes,
{
    let b0 = bytes[0];
    let b1 = bytes[1];
    let b2 = bytes[2];
    let b3 = bytes[3];
    let word = be_word(bytes);
    assert(word == (b0 * 0x100_0000 + b1 * 0x1_0000 + b2 * 0x100 + b3) as u32);
    assert(word / 0x100_0000 == b0 && word / 0x1_0000 % 0x100 == b1 && word / 0x100 % 0x100 == b2
        && word % 0x100 == b3) by (bit_vector)
        requires
            word == (b0 * 0x100_0000 + b1 * 0x1_0000 + b2 * 0x100 + b3) as u32,
    ;
    assert(be_bytes(word) =~= bytes);
}

/// The wire form decides: fifteen bytes that are read as a snapshot are
/// written again as the same fifteen bytes, whatever time and angles they
/// hold.
pub proof fn lemma_wire_is_kept(bytes: Seq<u8>)
    requires
        bytes.len() >= CLOCK_PAYLOAD_LEN,
    ensures
        ClockMessage::decode(bytes) is Ok,
        ClockMessage::decode(bytes)->Ok_0.payload() == bytes.take(CLOCK_PAYLOAD_LEN as int),
{
    lemma_bytes_round_trip(bytes.subrange(3, 7));
    lemma_bytes_round_trip(bytes.subrange(7, 11));
    lemma_bytes_round_trip(bytes.subrange(11, 15));
    let message = ClockMessage::of_payload(bytes);
    assert(message.payload() =~= bytes.take(CLOCK_PAYLOAD_LEN as int));
}

/// Four bytes written from a word read back as that word.
pub proof fn lemma_word_round_trip(word: u32)
    ensures
        be_bytes(word).len() == 4,
        be_word(be_bytes(word)) == word,
{
}

/// A snapshot that is written to the wire and read back is the same
/// snapshot, and its wire form has fifteen bytes.
pub proof fn lemma_clock_round_trip(message: ClockMessage)
    ensures
        message.payload().len() == CLOCK_PAYLOAD_LEN,
        ClockMessage::decode(message.payload()) == Ok::<ClockMessage, ClockError>(message),
{
    let p = message.payload();
    lemma_word_round_trip(message.spec_hours_angle());
    lemma_word_round_trip(message.spec_minutes_angle());
    lemma_word_round_trip(message.spec_seconds_angle());
    assert(p.subrange(3, 7) =~= be_bytes(message.spec_hours_angle()));
    assert(p.subrange(7, 11) =~= be_bytes(message.spec_minutes_angle()));
    assert(p.subrange(11, 15) =~= be_bytes(message.spec_seconds_angle()));
}

} // verus!
