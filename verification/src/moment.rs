use vstd::prelude::*;

verus! {

/// A moment of local wall-clock time: the day of the week and the time of
/// day. `nanosecond` counts from the start of the second; from
/// 1,000,000,000 on it stands for a leap second.
#[derive(Debug, Copy, Clone)]
pub struct Moment {
    pub weekday: chrono::Weekday,
    pub hour: u32,
    pub minute: u32,
    pub second: u32,
    pub nanosecond: u32,
}

/// The number of seconds between midnight and a time of day.
pub open spec fn second_of_day(hour: int, minute: int, second: int) -> int {
    hour * 3600 + minute * 60 + second
}

impl Moment {
    /// Whether the fields are a time of day.
    pub open spec fn wf(self) -> bool {
        &&& self.hour < 24
        &&& self.minute < 60
        &&& self.second < 60
        &&& self.nanosecond < 2_000_000_000
    }

    /// The whole seconds since midnight.
    pub open spec fn second_of_day(self) -> int {
        second_of_day(self.hour as int, self.minute as int, self.second as int)
    }

    /// The moment with the given fields, if they are a time of day.
    pub fn new(weekday: chrono::Weekday, hour: u32, minute: u32, second: u32, nanosecond: u32) -> (moment:
        Option<Moment>)
        ensures
            moment is Some <==> (Moment { weekday, hour, minute, second, nanosecond }).wf(),
            moment is Some ==> moment->0 == (Moment { weekday, hour, minute, second, nanosecond }),
    {
        if hour < 24 && minute < 60 && second < 60 && nanosecond < 2_000_000_000 {
            Some(Moment { weekday, hour, minute, second, nanosecond })
        } else {
            None
        }
    }

    /// The current moment of local time.
    pub fn now() -> (moment: Moment)
        ensures
            moment.wf(),
    {
        local_now()
    }
}

/// Reads the local clock with `chrono::Local::now` and takes the weekday,
/// hour, minute, second and nanosecond of what it returns. Not proved: that
/// chrono keeps these within the ranges that its `Timelike` documents, which
/// is all that is claimed; which moment comes back is left open.
#[verifier::external_body]
fn local_now() -> (moment: Moment)
    ensures
        moment.wf(),
{
    let now = chrono::Local::now();
    Moment {
        weekday: chrono::Datelike::weekday(&now),
        hour: chrono::Timelike::hour(&now),
        minute: chrono::Timelike::minute(&now),
        second: chrono::Timelike::second(&now),
        nanosecond: chrono::Timelike::nanosecond(&now),
    }
}

} // verus!
