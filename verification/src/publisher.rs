use vstd::prelude::*;
use crate::alarm::Alarm;
use crate::clock::ClockMessage;
use crate::error::ClockError;
use crate::message::Message;
use crate::moment::Moment;

verus! {

/// Where the daemon's loop stands. `Stopped` is final.
#[derive(Debug, Copy, Clone, PartialEq, Eq, Structural)]
pub enum PublisherState {
    Running,
    Stopped,
}

/// What one tick of the daemon gives: the frames to publish, in their
/// order, and the failure of the store, if it could not be read.
pub struct Tick {
    pub frames: Vec<Vec<u8>>,
    pub store_failure: Option<ClockError>,
}

/// The wire forms of the alarms that ring at `now`, in the alarms' order. An
/// alarm without a time of day does not ring.
pub open spec fn ringing_frames(alarms: Seq<Alarm>, now: Moment) -> Seq<Seq<u8>>
    decreases alarms.len(),
{
    if alarms.len() == 0 {
        Seq::empty()
    } else if alarms.last().verdict_at(now) == Ok::<bool, ClockError>(true) {
        ringing_frames(alarms.drop_last(), now).push(Message::Alarm(alarms.last()).frame())
    } else {
        ringing_frames(alarms.drop_last(), now)
    }
}

/// The alarms that a reading of the store gives: none where it failed.
pub open spec fn alarms_read(stored: Result<Vec<Alarm>, ClockError>) -> Seq<Alarm> {
    match stored {
        Ok(alarms) => alarms@,
        Err(_) => Seq::empty(),
    }
}

/// The failure of a reading of the store, if it failed.
pub open spec fn failure_of(stored: Result<Vec<Alarm>, ClockError>) -> Option<ClockError> {
    match stored {
        Ok(_) => None,
        Err(error) => Some(error),
    }
}

/// The frames of one tick: those of the ringing alarms, then the clock's,
/// which is always there.
pub open spec fn tick_frames(
    stored: Result<Vec<Alarm>, ClockError>,
    now: Moment,
    clock: ClockMessage,
) -> Seq<Seq<u8>> {
    ringing_frames(alarms_read(stored), now).push(Message::Clock(clock).frame())
}

/// The frames of a tick as sequences of bytes.
pub open spec fn frames_of(frames: Seq<Vec<u8>>) -> Seq<Seq<u8>> {
    frames.map_values(|frame: Vec<u8>| frame@)
}

/// The state of the loop after the shutdown flag was looked at, which
/// happens between two ticks and nowhere else.
pub fn observe_shutdown(state: PublisherState, shutdown_requested: bool) -> (next: PublisherState)
    ensures
        next == if state == PublisherState::Running && !shutdown_requested {
            PublisherState::Running
        } else {
            PublisherState::Stopped
        },
{
    match state {
        PublisherState::Running => if shutdown_requested {
            PublisherState::Stopped
        } else {
            PublisherState::Running
        },
        PublisherState::Stopped => PublisherState::Stopped,
    }
}

/// Decides what one tick publishes, given what the store and the clock
/// gave. A store that could not be read counts as a store without alarms,
/// and its failure is handed back to be logged.
pub fn plan_tick(stored: Result<Vec<Alarm>, ClockError>, now: &Moment, clock: &ClockMessage) -> (tick:
    Tick)
    ensures
        frames_of(tick.frames@) == tick_frames(stored, *now, *clock),
        tick.store_failure == failure_of(stored),
{
    let mut frames: Vec<Vec<u8>> = Vec::new();
    let mut store_failure: Option<ClockError> = None;
    match &stored {
        Ok(alarms) => {
            let mut i: usize = 0;
            while i < alarms.len()
                invariant
                    i <= alarms.len(),
                    frames_of(frames@) == ringing_frames(alarms@.take(i as int), *now),
                decreases alarms.len() - i,
            {
                let alarm = alarms[i];
                let ghost before = frames@;
                proof {
                    let read = alarms@.take(i + 1);
                    assert(read.drop_last() =~= alarms@.take(i as int));
                    assert(read.last() == alarm);
                }
                match alarm.must_ring_at(now) {
                    Ok(true) => {
                        frames.push(Message::Alarm(alarm).as_bytes());
                        assert(frames_of(frames@) =~= frames_of(before).push(
                            Message::Alarm(alarm).frame(),
                        ));
                    },
                    _ => {},
                }
                i = i + 1;
            }
            assert(alarms@.take(i as int) =~= alarms@);
        },
        Err(error) => {
            store_failure = Some(*error);
            assert(frames_of(frames@) =~= Seq::<Seq<u8>>::empty());
        },
    }
    let ghost before = frames@;
    frames.push(Message::Clock(*clock).as_bytes());
    assert(frames_of(frames@) =~= frames_of(before).push(Message::Clock(*clock).frame()));
    Tick { frames, store_failure }
}

/// One tick of the daemon: reads the alarms of the store and the local
/// clock, and decides what to publish. `clock` is the snapshot to send.
pub fn tick(conn: &sqlite::Connection, clock: &ClockMessage) -> (tick: Tick)
    ensures
        exists|stored: Result<Vec<Alarm>, ClockError>, now: Moment|
            now.wf() && frames_of(tick.frames@) == #[trigger] tick_frames(stored, now, *clock)
                && tick.store_failure == failure_of(stored),
{
    let stored = Alarm::all(conn);
    let now = Moment::now();
    plan_tick(stored, &now, clock)
}

/// Every tick publishes the clock, last, whatever the store gave.
pub proof fn lemma_tick_ends_with_clock(
    stored: Result<Vec<Alarm>, ClockError>,
    now: Moment,
    clock: ClockMessage,
)
    ensures
        tick_frames(stored, now, clock).len() >= 1,
        tick_frames(stored, now, clock).last() == Message::Clock(clock).frame(),
{
}

/// A tick publishes at most one frame for each alarm, beside the clock's.
pub proof fn lemma_ringing_at_most_all(alarms: Seq<Alarm>, now: Moment)
    ensures
        ringing_frames(alarms, now).len() <= alarms.len(),
    decreases alarms.len(),
{
    if alarms.len() > 0 {
        lemma_ringing_at_most_all(alarms.drop_last(), now);
    }
}

} // verus!
