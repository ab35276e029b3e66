use libclockrobustus::alarm::{ActiveDays, Alarm};
use libclockrobustus::error::{ClockError, ErrorKind};
use libclockrobustus::store::after_step;
use sqlite::Connection;

#[test]
fn test_saving() {
    let conn = Connection::open(":memory:").unwrap();
    let alarm = Alarm {
        id: None,
        active_days: ActiveDays(0xFF),
        hour: 12,
        minute: 0,
        seconds: 0,
    };
    // Create
    assert!(alarm.save(&conn).is_ok());

    let alarms = Alarm::all(&conn).unwrap();

    assert!(!alarms.is_empty());

    // Update
    let mut current_alarm = alarms[0];

    current_alarm.hour = 13;
    current_alarm.minute = 42;
    current_alarm.seconds = 22;

    assert!(current_alarm.save(&conn).is_ok());

    let alarms = Alarm::all(&conn).unwrap();
    // Update check
    assert_eq!(alarms[0], current_alarm);
}

#[test]
fn store_insert_then_update_keeps_one_row() {
    let conn = Connection::open(":memory:").unwrap();
    let alarm = Alarm {
        id: None,
        active_days: ActiveDays(0x15),
        hour: 6,
        minute: 30,
        seconds: 5,
    };
    alarm.save(&conn).unwrap();
    let alarms = Alarm::all(&conn).unwrap();
    assert_eq!(alarms.len(), 1);
    assert_eq!(alarms[0], Alarm { id: Some(1), ..alarm });

    let changed = Alarm {
        id: alarms[0].id,
        active_days: ActiveDays(0x40),
        hour: 7,
        minute: 31,
        seconds: 6,
    };
    changed.save(&conn).unwrap();
    let alarms = Alarm::all(&conn).unwrap();
    assert_eq!(alarms, vec![changed]);
}

#[test]
fn store_lists_rows_with_their_ids() {
    let conn = Connection::open(":memory:").unwrap();
    assert_eq!(Alarm::all(&conn).unwrap(), vec![]);
    for hour in [1u8, 2, 3] {
        Alarm {
            id: None,
            active_days: ActiveDays(hour),
            hour,
            minute: 10 * hour,
            seconds: 59,
        }
        .save(&conn)
        .unwrap();
    }
    let alarms = Alarm::all(&conn).unwrap();
    assert_eq!(alarms.len(), 3);
    for (index, alarm) in alarms.iter().enumerate() {
        let hour = index as u8 + 1;
        assert_eq!(alarm.id, Some(index as i64 + 1));
        assert_eq!(alarm.active_days, ActiveDays(hour));
        assert_eq!((alarm.hour, alarm.minute, alarm.seconds), (hour, 10 * hour, 59));
    }
}

#[test]
fn store_update_of_a_missing_row_changes_nothing() {
    let conn = Connection::open(":memory:").unwrap();
    let stored = Alarm {
        id: None,
        active_days: ActiveDays(0x01),
        hour: 12,
        minute: 0,
        seconds: 0,
    };
    stored.save(&conn).unwrap();
    let ghost = Alarm {
        id: Some(999),
        active_days: ActiveDays(0x02),
        hour: 1,
        minute: 1,
        seconds: 1,
    };
    assert_eq!(ghost.save(&conn), Ok(()));
    assert_eq!(Alarm::all(&conn).unwrap(), vec![Alarm { id: Some(1), ..stored }]);
}

#[test]
fn store_remove_deletes_the_row() {
    let conn = Connection::open(":memory:").unwrap();
    let alarm = Alarm {
        id: None,
        active_days: ActiveDays(0x01),
        hour: 12,
        minute: 0,
        seconds: 0,
    };
    alarm.save(&conn).unwrap();
    alarm.save(&conn).unwrap();

    let alarms = Alarm::all(&conn).unwrap();
    assert_eq!(alarms.len(), 2);
    assert!(alarms[0].remove(&conn).is_ok());
    let left = Alarm::all(&conn).unwrap();
    assert_eq!(left, vec![alarms[1]]);
}

#[test]
fn store_remove_of_an_unsaved_alarm_fails() {
    let conn = Connection::open(":memory:").unwrap();
    let alarm3 = Alarm {
        id: None,
        active_days: ActiveDays(0x02),
        hour: 12,
        minute: 13,
        seconds: 25,
    };

    assert!(alarm3.remove(&conn).is_err());
    assert_eq!(alarm3.remove(&conn), Err(ClockError(ErrorKind::UnsavedEntity)));
}

#[test]
fn store_remove_of_a_missing_row_is_no_error() {
    let conn = Connection::open(":memory:").unwrap();
    let stored = Alarm {
        id: None,
        active_days: ActiveDays(0x01),
        hour: 12,
        minute: 0,
        seconds: 0,
    };
    stored.save(&conn).unwrap();
    let ghost = Alarm { id: Some(-5), ..stored };
    assert_eq!(ghost.remove(&conn), Ok(()));
    assert_eq!(Alarm::all(&conn).unwrap().len(), 1);
}

#[test]
fn store_check_table_may_run_twice() {
    let conn = Connection::open(":memory:").unwrap();
    assert_eq!(Alarm::check_table(&conn), Ok(()));
    assert_eq!(Alarm::check_table(&conn), Ok(()));
    conn.execute("INSERT INTO alarms (active_days, hour, minute, seconds) VALUES (1, 2, 3, 4)")
        .unwrap();
    assert_eq!(Alarm::check_table(&conn), Ok(()));
    assert_eq!(
        Alarm::all(&conn).unwrap(),
        vec![Alarm {
            id: Some(1),
            active_days: ActiveDays(1),
            hour: 2,
            minute: 3,
            seconds: 4
        }]
    );
}

#[test]
fn store_failures_are_storage_errors() {
    let conn = Connection::open(":memory:").unwrap();
    conn.execute("CREATE TABLE alarms (id INTEGER PRIMARY KEY, something TEXT)")
        .unwrap();
    let alarm = Alarm {
        id: None,
        active_days: ActiveDays(0x01),
        hour: 12,
        minute: 0,
        seconds: 0,
    };
    assert_eq!(alarm.save(&conn), Err(ClockError(ErrorKind::Storage)));
    assert_eq!(Alarm::all(&conn), Ok(vec![]));
    conn.execute("INSERT INTO alarms (something) VALUES ('x')")
        .unwrap();
    assert_eq!(Alarm::all(&conn), Err(ClockError(ErrorKind::Storage)));
    let stored = Alarm { id: Some(1), ..alarm };
    assert_eq!(stored.save(&conn), Err(ClockError(ErrorKind::Storage)));
    assert_eq!(stored.remove(&conn), Ok(()));
}

#[test]
fn store_statements_spell_out_the_fields() {
    let alarm = Alarm {
        id: None,
        active_days: ActiveDays(0xFF),
        hour: 12,
        minute: 0,
        seconds: 9,
    };
    assert_eq!(
        alarm.save_statement(),
        "INSERT INTO alarms (active_days, hour, minute, seconds) VALUES (255, 12, 0, 9)"
    );
    let stored = Alarm { id: Some(-42), ..alarm };
    assert_eq!(
        stored.save_statement(),
        "UPDATE alarms SET active_days = 255, hour = 12, minute = 0, seconds = 9 WHERE id = -42"
    );
    assert_eq!(Alarm::remove_statement(17), "DELETE FROM alarms WHERE id = 17");
    assert_eq!(
        Alarm::remove_statement(i64::MIN),
        format!("DELETE FROM alarms WHERE id = {}", i64::MIN)
    );
    assert_eq!(
        Alarm::remove_statement(i64::MAX),
        format!("DELETE FROM alarms WHERE id = {}", i64::MAX)
    );
}

#[test]
fn store_rows_are_cut_to_bytes() {
    assert_eq!(
        Alarm::from_row(5, 0x103, 256 + 12, -1, 59),
        Alarm {
            id: Some(5),
            active_days: ActiveDays(3),
            hour: 12,
            minute: 255,
            seconds: 59
        }
    );
    assert_eq!(
        Alarm::from_row(i64::MIN, 1, 2, 3, 4),
        Alarm {
            id: Some(i64::MIN),
            active_days: ActiveDays(1),
            hour: 2,
            minute: 3,
            seconds: 4
        }
    );
    let conn = Connection::open(":memory:").unwrap();
    Alarm::check_table(&conn).unwrap();
    conn.execute("INSERT INTO alarms (id, active_days, hour, minute, seconds) VALUES (-7, 511, 280, 60, 1000)")
        .unwrap();
    assert_eq!(
        Alarm::all(&conn).unwrap(),
        vec![Alarm {
            id: Some(-7),
            active_days: ActiveDays(0xFF),
            hour: 24,
            minute: 60,
            seconds: 232
        }]
    );
}

#[test]
fn store_step_failure_is_an_error_not_the_end() {
    assert_eq!(after_step(Ok(sqlite::State::Row)), Ok(true));
    assert_eq!(after_step(Ok(sqlite::State::Done)), Ok(false));
    let failure = sqlite::Error {
        code: Some(5),
        message: Some("database is locked".to_string()),
    };
    assert_eq!(after_step(Err(failure)), Err(ClockError(ErrorKind::Storage)));
    let bare = sqlite::Error {
        code: None,
        message: None,
    };
    assert_eq!(after_step(Err(bare)), Err(ClockError(ErrorKind::Storage)));
}

#[test]
fn store_step_failure_ends_the_listing_with_an_error() {
    let flags = sqlite::OpenFlags::new()
        .with_create()
        .with_read_write()
        .with_uri();
    let path = "file:step_failure?mode=memory&cache=shared";
    let writer = Connection::open_with_flags(path, flags).unwrap();
    let reader = Connection::open_with_flags(path, flags).unwrap();
    let alarm = Alarm {
        id: None,
        active_days: ActiveDays(0x01),
        hour: 12,
        minute: 0,
        seconds: 0,
    };
    alarm.save(&writer).unwrap();
    assert_eq!(Alarm::all(&reader), Ok(vec![Alarm { id: Some(1), ..alarm }]));

    // While the writer's change is not committed, the table is locked: the
    // reader's statement can be prepared, and its first step fails.
    writer.execute("BEGIN").unwrap();
    alarm.save(&writer).unwrap();
    assert_eq!(Alarm::check_table(&reader), Ok(()));
    let mut statement = reader.prepare("SELECT * FROM alarms").unwrap();
    assert!(statement.next().is_err());
    drop(statement);
    assert_eq!(Alarm::all(&reader), Err(ClockError(ErrorKind::Storage)));

    writer.execute("COMMIT").unwrap();
    assert_eq!(Alarm::all(&reader).unwrap().len(), 2);
}
