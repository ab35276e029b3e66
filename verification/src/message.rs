use vstd::prelude::*;
use vstd::slice::slice_subrange;
use vstd::std_specs::convert::{FromSpecImpl, TryFromSpecImpl};
use crate::alarm::{Alarm, ALARM_MESSAGE_HEADER, ALARM_PAYLOAD_LEN};
use crate::clock::{ClockMessage, CLOCK_PAYLOAD_LEN};
use crate::error::{ClockError, DecodeError, ErrorKind};

verus! {

/// The byte that opens the wire form of a clock snapshot.
pub const CLOCK_MESSAGE_HEADER: u8 = 0xFE;

/// What travels on the broadcast channel: a clock snapshot, or an alarm that
/// rings. On the wire a message is one header byte, which tells the two
/// apart, followed by the payload.
#[derive(Debug, Copy, Clone, PartialEq, Eq, Structural)]
pub enum Message {
    Clock(ClockMessage),
    Alarm(Alarm),
}

impl Message {
    /// The wire form of the message: its header, then its payload.
    pub open spec fn frame(self) -> Seq<u8> {
        match self {
            Message::Alarm(alarm) => seq![ALARM_MESSAGE_HEADER] + alarm.payload(),
            Message::Clock(clock) => seq![CLOCK_MESSAGE_HEADER] + clock.payload(),
        }
    }

    /// What a buffer decodes to: the header says which payload follows, and
    /// the bytes behind it are read as that payload.
    pub open spec fn decode(bytes: Seq<u8>) -> Result<Message, ClockError> {
        if bytes.len() == 0 {
            Err(ClockError(ErrorKind::Decode(DecodeError::Empty)))
        } else if bytes[0] == ALARM_MESSAGE_HEADER {
            match Alarm::decode(bytes.skip(1)) {
                Ok(alarm) => Ok(Message::Alarm(alarm)),
                Err(error) => Err(error),
            }
        } else if bytes[0] == CLOCK_MESSAGE_HEADER {
            match ClockMessage::decode(bytes.skip(1)) {
                Ok(clock) => Ok(Message::Clock(clock)),
                Err(error) => Err(error),
            }
        } else {
            Err(ClockError(ErrorKind::Decode(DecodeError::UnknownHeader)))
        }
    }

    /// The same message, an alarm in it taken as never stored.
    pub open spec fn unsaved(self) -> Message {
        match self {
            Message::Alarm(alarm) => Message::Alarm(alarm.unsaved()),
            Message::Clock(clock) => Message::Clock(clock),
        }
    }

    /// The wire form of the message.
    pub fn as_bytes(&self) -> (bytes: Vec<u8>)
        ensures
            bytes@ == self.frame(),
    {
        match self {
            Message::Alarm(alarm) => alarm.as_bytes(),
            Message::Clock(clock) => {
                let mut bytes: Vec<u8> = vec![CLOCK_MESSAGE_HEADER];
                let mut payload = clock.as_bytes();
                bytes.append(&mut payload);
                bytes
            },
        }
    }
}

impl TryFrom<Vec<u8>> for Message {
    type Error = ClockError;

    /// Reads a message from its wire form.
    fn try_from(value: Vec<u8>) -> (decoded: Result<Message, ClockError>) {
        if value.len() == 0 {
            return Err(ClockError(ErrorKind::Decode(DecodeError::Empty)));
        }
        let header = value[0];
        let payload = slice_subrange(value.as_slice(), 1, value.len());
        assert(payload@ =~= value@.skip(1));
        if header == ALARM_MESSAGE_HEADER {
            match Alarm::from_payload(payload) {
                Ok(alarm) => Ok(Message::Alarm(alarm)),
                Err(error) => Err(error),
            }
        } else if header == CLOCK_MESSAGE_HEADER {
            match ClockMessage::from_payload(payload) {
                Ok(clock) => Ok(Message::Clock(clock)),
                Err(error) => Err(error),
            }
        } else {
            Err(ClockError(ErrorKind::Decode(DecodeError::UnknownHeader)))
        }
    }
}

impl TryFromSpecImpl<Vec<u8>> for Message {
    open spec fn obeys_try_from_spec() -> bool {
        true
    }

    open spec fn try_from_spec(value: Vec<u8>) -> Result<Message, ClockError> {
        Message::decode(value@)
    }
}

impl From<ClockMessage> for Message {
    fn from(value: ClockMessage) -> (message: Message) {
        Message::Clock(value)
    }
}

impl FromSpecImpl<ClockMessage> for Message {
    open spec fn obeys_from_spec() -> bool {
        true
    }

    open spec fn from_spec(value: ClockMessage) -> Message {
        Message::Clock(value)
    }
}

impl From<Alarm> for Message {
    fn from(value: Alarm) -> (message: Message) {
        Message::Alarm(value)
    }
}

impl FromSpecImpl<Alarm> for Message {
    open spec fn obeys_from_spec() -> bool {
        true
    }

    open spec fn from_spec(value: Alarm) -> Message {
        Message::Alarm(value)
    }
}

/// A message that is written to the wire and read back is the same message,
/// but for the id of an alarm, which the wire does not carry.
pub proof fn lemma_message_round_trip(message: Message)
    ensures
        Message::decode(message.frame()) == Ok::<Message, ClockError>(message.unsaved()),
{
    match message {
        Message::Alarm(alarm) => {
            assert(message.frame().skip(1) =~= alarm.payload());
        },
        Message::Clock(clock) => {
            crate::clock::lemma_clock_round_trip(clock);
            assert(message.frame().skip(1) =~= clock.payload());
        },
    }
}

/// The header decides what a buffer is read as: an empty buffer and an
/// unknown header are refused whatever follows, and behind a known header
/// exactly the buffers that hold the whole payload are accepted.
pub proof fn lemma_decode_dispatch(bytes: Seq<u8>)
    ensures
        Message::decode(bytes) is Ok <==> bytes.len() > 0 && (bytes[0] == ALARM_MESSAGE_HEADER
            && bytes.len() >= 1 + ALARM_PAYLOAD_LEN || bytes[0] == CLOCK_MESSAGE_HEADER
            && bytes.len() >= 1 + CLOCK_PAYLOAD_LEN),
        Message::decode(bytes) matches Ok(Message::Alarm(_)) ==> bytes[0] == ALARM_MESSAGE_HEADER,
        Message::decode(bytes) matches Ok(Message::Clock(_)) ==> bytes[0] == CLOCK_MESSAGE_HEADER,
{
}

} // verus!
