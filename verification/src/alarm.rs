use vstd::prelude::*;
use vstd::slice::slice_index_get;
pub use crate::days::ActiveDays;
use crate::days::weekday_index;
use crate::error::{ClockError, DecodeError, ErrorKind};
use crate::moment::{second_of_day, Moment};

verus! {

/// The byte that opens the wire form of an alarm. It is a fixed constant of
/// the protocol: no clock snapshot starts with it, since an hour is below 24.
pub const ALARM_MESSAGE_HEADER: u8 = 0xFF;

/// The number of bytes of an alarm's payload on the wire.
pub const ALARM_PAYLOAD_LEN: usize = 4;

/// For how long an alarm rings from its time of day on, in nanoseconds: one
/// second. The window does not follow the cadence at which alarms are looked
/// at: looked at less often than once a second, an alarm can be missed.
pub const FIRING_WINDOW_NANOS: u64 = 1_000_000_000;

/// An alarm: the days on which it is active and its time of day. `id` is the
/// key of its row in the alarm table, and `None` until the alarm is stored.
#[derive(Debug, Copy, Clone, PartialEq, Eq, PartialOrd, Ord, Structural)]
pub struct Alarm {
    pub id: Option<i64>,
    pub active_days: ActiveDays,
    pub hour: u8,
    pub minute: u8,
    pub seconds: u8,
}

impl Alarm {
    /// The four bytes that stand for the alarm on the wire. The id is not
    /// among them.
    pub open spec fn payload(self) -> Seq<u8> {
        seq![self.active_days.0, self.hour, self.minute, self.seconds]
    }

    /// The wire form of the alarm: the header, then the payload.
    pub open spec fn frame(self) -> Seq<u8> {
        seq![ALARM_MESSAGE_HEADER] + self.payload()
    }

    /// The alarm that the first four bytes of a payload stand for.
    pub open spec fn of_payload(payload: Seq<u8>) -> Alarm {
        Alarm {
            id: None,
            active_days: ActiveDays(payload[0]),
            hour: payload[1],
            minute: payload[2],
            seconds: payload[3],
        }
    }

    /// What a payload decodes to.
    pub open spec fn decode(payload: Seq<u8>) -> Result<Alarm, ClockError> {
        if payload.len() < ALARM_PAYLOAD_LEN {
            Err(ClockError(ErrorKind::Decode(DecodeError::TooShort)))
        } else {
            Ok(Alarm::of_payload(payload))
        }
    }

    /// The same alarm as one that was never stored.
    pub open spec fn unsaved(self) -> Alarm {
        Alarm { id: None, ..self }
    }

    /// Whether hour, minute and seconds are a time of day.
    pub open spec fn has_time_of_day(self) -> bool {
        self.hour < 24 && self.minute < 60 && self.seconds < 60
    }

    /// The whole seconds between midnight and the alarm's time of day.
    pub open spec fn second_of_day(self) -> int {
        second_of_day(self.hour as int, self.minute as int, self.seconds as int)
    }

    /// The nanoseconds from the alarm's time of day to that of `now`.
    pub open spec fn elapsed_nanos(self, now: Moment) -> int {
        (now.second_of_day() - self.second_of_day()) * 1_000_000_000 + now.nanosecond
    }

    /// Whether the alarm rings at `now`: on an active day, not before its
    /// time of day, and less than the firing window after it.
    pub open spec fn rings_at(self, now: Moment) -> bool {
        &&& self.active_days.has(weekday_index(now.weekday))
        &&& now.second_of_day() >= self.second_of_day()
        &&& self.elapsed_nanos(now) < FIRING_WINDOW_NANOS
    }

    /// What looking at the alarm at `now` gives: whether it rings, or that
    /// it has no time of day.
    pub open spec fn verdict_at(self, now: Moment) -> Result<bool, ClockError> {
        if self.has_time_of_day() {
            Ok(self.rings_at(now))
        } else {
            Err(ClockError(ErrorKind::InvalidTime))
        }
    }

    /// Whether the alarm rings at the given moment.
    pub fn must_ring_at(&self, now: &Moment) -> (verdict: Result<bool, ClockError>)
        ensures
            verdict == self.verdict_at(*now),
    {
        if self.hour >= 24 || self.minute >= 60 || self.seconds >= 60 {
            return Err(ClockError(ErrorKind::InvalidTime));
        }
        if !self.active_days.contains(now.weekday) {
            return Ok(false);
        }
        let alarm_second: u64 = self.hour as u64 * 3600 + self.minute as u64 * 60
            + self.seconds as u64;
        let now_second: u64 = now.hour as u64 * 3600 + now.minute as u64 * 60 + now.second as u64;
        Ok(now_second == alarm_second && (now.nanosecond as u64) < FIRING_WINDOW_NANOS)
    }

    /// Whether the alarm rings now, by the local clock.
    pub fn must_ring(&self) -> (verdict: Result<bool, ClockError>)
        ensures
            exists|now: Moment| now.wf() && verdict == #[trigger] self.verdict_at(now),
    {
        let now = Moment::now();
        self.must_ring_at(&now)
    }

    /// The wire form of the alarm, five bytes.
    pub fn as_bytes(&self) -> (bytes: Vec<u8>)
        ensures
            bytes@ == self.frame(),
    {
        let bytes = vec![
            ALARM_MESSAGE_HEADER,
            self.active_days.0,
            self.hour,
            self.minute,
            self.seconds,
        ];
        assert(bytes@ =~= self.frame());
        bytes
    }

    /// Reads an alarm from its payload: the bytes behind the header. Bytes
    /// after the fourth are not read.
    pub fn from_payload(payload: &[u8]) -> (decoded: Result<Alarm, ClockError>)
        ensures
            decoded == Alarm::decode(payload@),
    {
        if payload.len() < ALARM_PAYLOAD_LEN {
            return Err(ClockError(ErrorKind::Decode(DecodeError::TooShort)));
        }
        Ok(
            Alarm {
                id: None,
                active_days: ActiveDays(*slice_index_get(payload, 0)),
                hour: *slice_index_get(payload, 1),
                minute: *slice_index_get(payload, 2),
                seconds: *slice_index_get(payload, 3),
            },
        )
    }

    /// Reads an alarm from its wire form. The first byte is taken to be the
    /// header and is not looked at; the next four are the payload.
    pub fn from(value: Vec<u8>) -> (alarm: Alarm)
        requires
            value.len() >= 1 + ALARM_PAYLOAD_LEN,
        ensures
            alarm == Alarm::of_payload(value@.skip(1)),
    {
        Alarm {
            id: None,
            active_days: ActiveDays(value[1]),
            hour: value[2],
            minute: value[3],
            seconds: value[4],
        }
    }
}

/// An alarm that is written to the wire and read back is the same alarm, but
/// for its id, which the wire does not carry.
pub proof fn lemma_alarm_round_trip(alarm: Alarm)
    ensures
        alarm.frame().len() == 1 + ALARM_PAYLOAD_LEN,
        Alarm::of_payload(alarm.frame().skip(1)) == alarm.unsaved(),
        Alarm::decode(alarm.payload()) == Ok::<Alarm, ClockError>(alarm.unsaved()),
{
}

/// An alarm rings exactly during the second that it is set to, on its
/// active days: the firing window is that one second.
pub proof fn lemma_rings_within_its_second(alarm: Alarm, now: Moment)
    ensures
        alarm.rings_at(now) <==> alarm.active_days.has(weekday_index(now.weekday))
            && now.second_of_day() == alarm.second_of_day() && now.nanosecond
            < FIRING_WINDOW_NANOS,
{
}

proof fn lemma_every_day(mask: u8)
    by (bit_vector)
    requires
        mask & 0x7F == 0x7F,
    ensures
        mask & 0x01 != 0,
        mask & 0x02 != 0,
        mask & 0x04 != 0,
        mask & 0x08 != 0,
        mask & 0x10 != 0,
        mask & 0x20 != 0,
        mask & 0x40 != 0,
{
}

/// An alarm that is active on all seven days and set to the hour, minute
/// and second of a moment rings at that moment, unless the moment lies in a
/// leap second.
pub proof fn lemma_rings_at_its_own_time(alarm: Alarm, now: Moment)
    requires
        now.wf(),
        now.nanosecond < FIRING_WINDOW_NANOS,
        alarm.active_days.0 & 0x7F == 0x7F,
        alarm.hour == now.hour,
        alarm.minute == now.minute,
        alarm.seconds == now.second,
    ensures
        alarm.verdict_at(now) == Ok::<bool, ClockError>(true),
{
    lemma_every_day(alarm.active_days.0);
}

/// An alarm does not ring on a day on which it is not active, nor at a
/// moment whose hour, minute or second is not the alarm's.
pub proof fn lemma_silent_off_day_or_off_time(alarm: Alarm, now: Moment)
    requires
        alarm.has_time_of_day(),
        now.wf(),
        !alarm.active_days.has(weekday_index(now.weekday)) || alarm.hour != now.hour
            || alarm.minute != now.minute || alarm.seconds != now.second,
    ensures
        alarm.verdict_at(now) == Ok::<bool, ClockError>(false),
{
}

/// An alarm set four hours ahead of a moment, round the clock, does not
/// ring at that moment, whatever its days.
pub proof fn lemma_silent_four_hours_ahead(alarm: Alarm, now: Moment)
    requires
        now.wf(),
        alarm.hour == (now.hour + 4) % 24,
        alarm.minute == now.minute,
        alarm.seconds == now.second,
    ensures
        alarm.verdict_at(now) == Ok::<bool, ClockError>(false),
{
}

} // verus!
