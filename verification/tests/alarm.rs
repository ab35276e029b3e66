use chrono::{Local, Timelike, Weekday};
use libclockrobustus::alarm::{ActiveDays, Alarm, FIRING_WINDOW_NANOS};
use libclockrobustus::error::{ClockError, ErrorKind};
use libclockrobustus::moment::Moment;

#[test]
fn test_must_ring() {
    let now = Local::now();
    let time = now.time();
    let alarm = Alarm {
        id: None,
        active_days: ActiveDays(0xFF),
        hour: time.hour() as u8,
        minute: time.minute() as u8,
        seconds: time.second() as u8,
    };

    assert!(alarm.must_ring().unwrap());

    let alarm = Alarm {
        id: None,
        active_days: ActiveDays(0x01),
        hour: ((time.hour() + 4) % 24) as u8,
        minute: time.minute() as u8,
        seconds: time.second() as u8,
    };

    assert!(!alarm.must_ring().unwrap());
}

#[test]
fn test_binary_conversion() {
    let alarm = Alarm {
        id: None,
        active_days: ActiveDays(0x02),
        hour: 13,
        minute: 12,
        seconds: 9,
    };

    let alarm2 = Alarm::from(alarm.as_bytes());

    assert_eq!(alarm, alarm2);
}

#[test]
fn alarm_as_bytes_is_header_then_fields() {
    let alarm = Alarm {
        id: None,
        active_days: ActiveDays(0x01),
        hour: 12,
        minute: 9,
        seconds: 9,
    };
    assert_eq!(alarm.as_bytes(), vec![0xff, 0x01, 12, 9, 9]);
}

#[test]
fn alarm_wire_form_drops_the_id() {
    let alarm = Alarm {
        id: Some(42),
        active_days: ActiveDays(0x7F),
        hour: 23,
        minute: 59,
        seconds: 58,
    };
    let bytes = alarm.as_bytes();
    assert_eq!(bytes.len(), 5);
    let back = Alarm::from(bytes);
    assert_eq!(back.id, None);
    assert_eq!(back, Alarm { id: None, ..alarm });
}

#[test]
fn alarm_from_payload_reads_four_bytes() {
    let decoded = Alarm::from_payload(&[0x01, 12, 0, 0]).unwrap();
    assert_eq!(
        decoded,
        Alarm {
            id: None,
            active_days: ActiveDays(0x01),
            hour: 12,
            minute: 0,
            seconds: 0
        }
    );
    let longer = Alarm::from_payload(&[0x02, 13, 12, 9, 77, 78]).unwrap();
    assert_eq!(
        longer,
        Alarm {
            id: None,
            active_days: ActiveDays(0x02),
            hour: 13,
            minute: 12,
            seconds: 9
        }
    );
}

#[test]
fn alarm_from_payload_refuses_short_buffers() {
    let too_short = ClockError(ErrorKind::Decode(
        libclockrobustus::error::DecodeError::TooShort,
    ));
    assert_eq!(Alarm::from_payload(&[]), Err(too_short));
    assert_eq!(Alarm::from_payload(&[1]), Err(too_short));
    assert_eq!(Alarm::from_payload(&[1, 2, 3]), Err(too_short));
}

#[test]
fn alarm_rings_during_its_second_only() {
    let alarm = Alarm {
        id: Some(1),
        active_days: ActiveDays(0x04),
        hour: 7,
        minute: 30,
        seconds: 15,
    };
    let at = |hour, minute, second, nanosecond| {
        Moment::new(Weekday::Wed, hour, minute, second, nanosecond).unwrap()
    };
    assert_eq!(alarm.must_ring_at(&at(7, 30, 15, 0)), Ok(true));
    assert_eq!(alarm.must_ring_at(&at(7, 30, 15, 999_999_999)), Ok(true));
    assert_eq!(alarm.must_ring_at(&at(7, 30, 16, 0)), Ok(false));
    assert_eq!(alarm.must_ring_at(&at(7, 30, 14, 999_999_999)), Ok(false));
    assert_eq!(alarm.must_ring_at(&at(7, 31, 15, 0)), Ok(false));
    assert_eq!(alarm.must_ring_at(&at(8, 30, 15, 0)), Ok(false));
    assert_eq!(alarm.must_ring_at(&at(19, 30, 15, 0)), Ok(false));
}

#[test]
fn alarm_is_silent_on_other_days() {
    let alarm = Alarm {
        id: None,
        active_days: ActiveDays(0x01),
        hour: 12,
        minute: 0,
        seconds: 0,
    };
    let monday = Moment::new(Weekday::Mon, 12, 0, 0, 5).unwrap();
    let tuesday = Moment::new(Weekday::Tue, 12, 0, 0, 5).unwrap();
    let sunday = Moment::new(Weekday::Sun, 12, 0, 0, 5).unwrap();
    assert_eq!(alarm.must_ring_at(&monday), Ok(true));
    assert_eq!(alarm.must_ring_at(&tuesday), Ok(false));
    assert_eq!(alarm.must_ring_at(&sunday), Ok(false));
}

#[test]
fn alarm_four_hours_ahead_is_silent() {
    let now = Moment::new(Weekday::Mon, 22, 10, 5, 0).unwrap();
    let alarm = Alarm {
        id: None,
        active_days: ActiveDays(0x01),
        hour: 2,
        minute: 10,
        seconds: 5,
    };
    assert_eq!(alarm.must_ring_at(&now), Ok(false));
}

#[test]
fn alarm_is_silent_in_a_leap_second() {
    let alarm = Alarm {
        id: None,
        active_days: ActiveDays(0x7F),
        hour: 23,
        minute: 59,
        seconds: 59,
    };
    let leap = Moment::new(Weekday::Fri, 23, 59, 59, 1_500_000_000).unwrap();
    let plain = Moment::new(Weekday::Fri, 23, 59, 59, 500_000_000).unwrap();
    assert_eq!(alarm.must_ring_at(&leap), Ok(false));
    assert_eq!(alarm.must_ring_at(&plain), Ok(true));
}

#[test]
fn alarm_without_a_time_of_day_is_refused() {
    let invalid = ClockError(ErrorKind::InvalidTime);
    let now = Moment::new(Weekday::Mon, 0, 0, 0, 0).unwrap();
    for (hour, minute, seconds) in [(24u8, 0u8, 0u8), (0, 60, 0), (0, 0, 60), (255, 255, 255)] {
        let alarm = Alarm {
            id: None,
            active_days: ActiveDays(0x7F),
            hour,
            minute,
            seconds,
        };
        assert_eq!(alarm.must_ring_at(&now), Err(invalid));
        assert_eq!(alarm.must_ring(), Err(invalid));
    }
}

#[test]
fn alarm_without_days_never_rings() {
    let alarm = Alarm {
        id: None,
        active_days: ActiveDays(0x80),
        hour: 0,
        minute: 0,
        seconds: 0,
    };
    assert_eq!(alarm.must_ring(), Ok(false));
}

#[test]
fn firing_window_is_one_second() {
    assert_eq!(FIRING_WINDOW_NANOS, 1_000_000_000);
}

#[test]
fn moment_new_checks_the_ranges() {
    assert!(Moment::new(Weekday::Mon, 23, 59, 59, 1_999_999_999).is_some());
    assert!(Moment::new(Weekday::Mon, 24, 0, 0, 0).is_none());
    assert!(Moment::new(Weekday::Mon, 0, 60, 0, 0).is_none());
    assert!(Moment::new(Weekday::Mon, 0, 0, 60, 0).is_none());
    assert!(Moment::new(Weekday::Mon, 0, 0, 0, 2_000_000_000).is_none());
    let moment = Moment::new(Weekday::Thu, 1, 2, 3, 4).unwrap();
    assert_eq!(moment.weekday, Weekday::Thu);
    assert_eq!(
        (moment.hour, moment.minute, moment.second, moment.nanosecond),
        (1, 2, 3, 4)
    );
}

#[test]
fn moment_now_is_a_time_of_day() {
    let now = Moment::now();
    assert!(now.hour < 24 && now.minute < 60 && now.second < 60);
    assert!(now.nanosecond < 2_000_000_000);
    let again = Local::now();
    assert!(again.time().hour() >= now.hour || now.hour == 23);
}
