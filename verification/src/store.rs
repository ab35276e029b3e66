use vstd::prelude::*;
use vstd::string::StringExecFns;
use crate::alarm::Alarm;
use crate::days::ActiveDays;
use crate::error::{ClockError, ErrorKind};
use crate::text::{append_integer, decimal};

verus! {

/// A connection to an sqlite database. Nothing is known of what it holds.
#[verifier::external_type_specification]
#[verifier::external_body]
pub struct ExConnection(sqlite::Connection);

/// A statement that sqlite has prepared on a connection. Nothing is known of
/// what it holds.
#[verifier::external_type_specification]
#[verifier::external_body]
pub struct ExStatement<'l>(sqlite::Statement<'l>);

/// Where a prepared statement stands after a step: at a row, or at its end.
/// The two variants are read from the bindings themselves.
#[verifier::external_type_specification]
pub struct ExState(sqlite::State);

/// The name of the alarm table.
pub const TABLE: &'static str = "alarms";

/// The statement that looks for a table by its name.
pub const FIND_TABLE: &'static str =
    "SELECT name FROM sqlite_master WHERE type='table' AND name = ?";

/// The statement that creates the alarm table.
pub const CREATE_TABLE: &'static str =
    "CREATE TABLE alarms (id INTEGER PRIMARY KEY, active_days INTEGER NOT NULL, hour INTEGER NOT NULL, minute INTEGER NOT NULL, seconds INTEGER NOT NULL)";

/// The statement that reads every row of the alarm table.
pub const SELECT_ALL: &'static str = "SELECT * FROM alarms";

/// The statement that stores an alarm as a new row. The store gives the row
/// its id.
pub open spec fn insert_statement(alarm: Alarm) -> Seq<char> {
    "INSERT INTO alarms (active_days, hour, minute, seconds) VALUES ("@ + decimal(
        alarm.active_days.0 as int,
    ) + ", "@ + decimal(alarm.hour as int) + ", "@ + decimal(alarm.minute as int) + ", "@
        + decimal(alarm.seconds as int) + ")"@
}

/// The statement that sets the four data fields of the row with the given id.
pub open spec fn update_statement(alarm: Alarm, id: i64) -> Seq<char> {
    "UPDATE alarms SET active_days = "@ + decimal(alarm.active_days.0 as int) + ", hour = "@
        + decimal(alarm.hour as int) + ", minute = "@ + decimal(alarm.minute as int)
        + ", seconds = "@ + decimal(alarm.seconds as int) + " WHERE id = "@ + decimal(id as int)
}

/// The statement that deletes the row with the given id.
pub open spec fn delete_statement(id: i64) -> Seq<char> {
    "DELETE FROM alarms WHERE id = "@ + decimal(id as int)
}

/// Runs a statement with `sqlite::Connection::execute`, which hands it to
/// sqlite and reports sqlite's error, or that the text holds a zero byte.
/// Nothing is claimed of the outcome.
#[verifier::external_body]
fn execute(conn: &sqlite::Connection, statement: &str) -> (done: Result<(), sqlite::Error>) {
    conn.execute(statement)
}

/// Prepares a statement with `sqlite::Connection::prepare`. Nothing is
/// claimed of the outcome.
#[verifier::external_body]
fn prepare<'l>(conn: &'l sqlite::Connection, statement: &str) -> (prepared: Result<
    sqlite::Statement<'l>,
    sqlite::Error,
>) {
    conn.prepare(statement)
}

/// Binds a text to the parameter of the given index, the first being 1, with
/// `sqlite::Statement::bind`. Nothing is claimed of the outcome.
#[verifier::external_body]
fn bind_text(statement: &mut sqlite::Statement<'_>, index: usize, value: &str) -> (bound: Result<
    (),
    sqlite::Error,
>) {
    statement.bind((index, value))
}

/// Moves a prepared statement on with `sqlite::Statement::next`. Nothing is
/// claimed of the outcome.
#[verifier::external_body]
fn step(statement: &mut sqlite::Statement<'_>) -> (state: Result<sqlite::State, sqlite::Error>) {
    statement.next()
}

/// Reads the column of the given name as an integer, from the row at which
/// the statement stands, with `sqlite::Statement::read`. Nothing is claimed
/// of the outcome.
#[verifier::external_body]
fn read_integer(statement: &sqlite::Statement<'_>, column: &str) -> (value: Result<
    i64,
    sqlite::Error,
>) {
    statement.read::<i64, _>(column)
}

/// What a step of a prepared statement means to the library: whether there
/// is a row to read, or that the store failed. A failed step is an error of
/// the operation, never the end of the rows.
pub fn after_step(state: Result<sqlite::State, sqlite::Error>) -> (next: Result<bool, ClockError>)
    ensures
        next == (match state {
            Ok(sqlite::State::Row) => Ok::<bool, ClockError>(true),
            Ok(sqlite::State::Done) => Ok::<bool, ClockError>(false),
            Err(_) => Err::<bool, ClockError>(ClockError(ErrorKind::Storage)),
        }),
{
    match state {
        Ok(sqlite::State::Row) => Ok(true),
        Ok(sqlite::State::Done) => Ok(false),
        Err(error) => Err(ClockError::from(error)),
    }
}

impl Alarm {
    /// The alarm that a row of the table stands for. A column that holds
    /// more than a byte is cut to its lowest byte.
    pub open spec fn of_row(id: i64, active_days: i64, hour: i64, minute: i64, seconds: i64) -> Alarm {
        Alarm {
            id: Some(id),
            active_days: ActiveDays(active_days as u8),
            hour: hour as u8,
            minute: minute as u8,
            seconds: seconds as u8,
        }
    }

    /// The statement that saves the alarm: an update of its row if it has an
    /// id, the insertion of a new row if it has none.
    pub open spec fn save_text(self) -> Seq<char> {
        match self.id {
            Some(id) => update_statement(self, id),
            None => insert_statement(self),
        }
    }

    /// The alarm that the five columns of a row stand for.
    pub fn from_row(id: i64, active_days: i64, hour: i64, minute: i64, seconds: i64) -> (alarm:
        Alarm)
        ensures
            alarm == Alarm::of_row(id, active_days, hour, minute, seconds),
    {
        Alarm {
            id: Some(id),
            active_days: ActiveDays(#[verifier::truncate] (active_days as u8)),
            hour: #[verifier::truncate] (hour as u8),
            minute: #[verifier::truncate] (minute as u8),
            seconds: #[verifier::truncate] (seconds as u8),
        }
    }

    /// The statement that saves the alarm.
    pub fn save_statement(&self) -> (statement: String)
        ensures
            statement@ == self.save_text(),
    {
        match self.id {
            Some(id) => {
                let mut text = String::from_str("UPDATE alarms SET active_days = ");
                append_integer(&mut text, self.active_days.0 as i64);
                text.append(", hour = ");
                append_integer(&mut text, self.hour as i64);
                text.append(", minute = ");
                append_integer(&mut text, self.minute as i64);
                text.append(", seconds = ");
                append_integer(&mut text, self.seconds as i64);
                text.append(" WHERE id = ");
                append_integer(&mut text, id);
                text
            },
            None => {
                let mut text = String::from_str(
                    "INSERT INTO alarms (active_days, hour, minute, seconds) VALUES (",
                );
                append_integer(&mut text, self.active_days.0 as i64);
                text.append(", ");
                append_integer(&mut text, self.hour as i64);
                text.append(", ");
                append_integer(&mut text, self.minute as i64);
                text.append(", ");
                append_integer(&mut text, self.seconds as i64);
                text.append(")");
                text
            },
        }
    }

    /// The statement that removes the row with the given id.
    pub fn remove_statement(id: i64) -> (statement: String)
        ensures
            statement@ == delete_statement(id),
    {
        let mut text = String::from_str("DELETE FROM alarms WHERE id = ");
        append_integer(&mut text, id);
        text
    }

    /// Makes sure that the alarm table exists: creates it if the database
    /// has no table of its name. Every other operation begins with this. A
    /// failure of the store on the way is handed back.
    pub fn check_table(conn: &sqlite::Connection) -> (checked: Result<(), ClockError>)
        ensures
            checked matches Err(error) ==> error == ClockError(ErrorKind::Storage),
    {
        let mut found = match prepare(conn, FIND_TABLE) {
            Ok(statement) => statement,
            Err(error) => {
                return Err(ClockError::from(error));
            },
        };
        match bind_text(&mut found, 1, TABLE) {
            Ok(()) => {},
            Err(error) => {
                return Err(ClockError::from(error));
            },
        }
        match after_step(step(&mut found)) {
            Ok(true) => Ok(()),
            Ok(false) => match execute(conn, CREATE_TABLE) {
                Ok(()) => Ok(()),
                Err(error) => Err(ClockError::from(error)),
            },
            Err(error) => Err(error),
        }
    }

    /// Saves the alarm. With an id, the row of that id gets the alarm's four
    /// data fields; if there is no such row, nothing changes and nothing is
    /// reported. Without an id, a new row is made, whose id shows in the
    /// next listing.
    pub fn save(&self, conn: &sqlite::Connection) -> (saved: Result<(), ClockError>)
        ensures
            saved matches Err(error) ==> error == ClockError(ErrorKind::Storage),
    {
        match Alarm::check_table(conn) {
            Ok(()) => {},
            Err(error) => {
                return Err(error);
            },
        }
        let statement = self.save_statement();
        match execute(conn, statement.as_str()) {
            Ok(()) => Ok(()),
            Err(error) => Err(ClockError::from(error)),
        }
    }

    /// Every alarm of the table, in the order in which the store hands out
    /// its rows. Each has the id of its row. The listing ends where the
    /// store has no further row to give; a failure of the store on the way
    /// is handed back, and no part of the list with it.
    pub fn all(conn: &sqlite::Connection) -> (alarms: Result<Vec<Alarm>, ClockError>)
        ensures
            alarms matches Err(error) ==> error == ClockError(ErrorKind::Storage),
            alarms matches Ok(list) ==> forall|i: int|
                0 <= i < list.len() ==> (#[trigger] list[i]).id is Some,
    {
        match Alarm::check_table(conn) {
            Ok(()) => {},
            Err(error) => {
                return Err(error);
            },
        }
        let mut statement = match prepare(conn, SELECT_ALL) {
            Ok(statement) => statement,
            Err(error) => {
                return Err(ClockError::from(error));
            },
        };
        let mut res: Vec<Alarm> = Vec::new();
        // A list holds no more than `usize::MAX` items.
        while res.len() < usize::MAX
            invariant
                forall|i: int| 0 <= i < res.len() ==> (#[trigger] res[i]).id is Some,
            decreases usize::MAX - res.len(),
        {
            match after_step(step(&mut statement)) {
                Ok(true) => {},
                Ok(false) => {
                    break ;
                },
                Err(error) => {
                    return Err(error);
                },
            }
            let id = match read_integer(&statement, "id") {
                Ok(value) => value,
                Err(error) => {
                    return Err(ClockError::from(error));
                },
            };
            let active_days = match read_integer(&statement, "active_days") {
                Ok(value) => value,
                Err(error) => {
                    return Err(ClockError::from(error));
                },
            };
            let hour = match read_integer(&statement, "hour") {
                Ok(value) => value,
                Err(error) => {
                    return Err(ClockError::from(error));
                },
            };
            let minute = match read_integer(&statement, "minute") {
                Ok(value) => value,
                Err(error) => {
                    return Err(ClockError::from(error));
                },
            };
            let seconds = match read_integer(&statement, "seconds") {
                Ok(value) => value,
                Err(error) => {
                    return Err(ClockError::from(error));
                },
            };
            res.push(Alarm::from_row(id, active_days, hour, minute, seconds));
        }
        Ok(res)
    }

    /// Removes the alarm's row. An alarm without an id was never stored and
    /// is refused before the store is touched. If no row has the id, nothing
    /// changes and nothing is reported.
    pub fn remove(&self, conn: &sqlite::Connection) -> (removed: Result<(), ClockError>)
        ensures
            self.id is None ==> removed == Err::<(), ClockError>(
                ClockError(ErrorKind::UnsavedEntity),
            ),
            self.id is Some ==> removed is Ok || removed == Err::<(), ClockError>(
                ClockError(ErrorKind::Storage),
            ),
    {
        let id = match self.id {
            Some(id) => id,
            None => {
                return Err(ClockError(ErrorKind::UnsavedEntity));
            },
        };
        match Alarm::check_table(conn) {
            Ok(()) => {},
            Err(error) => {
                return Err(error);
            },
        }
        let statement = Alarm::remove_statement(id);
        match execute(conn, statement.as_str()) {
            Ok(()) => Ok(()),
            Err(error) => Err(ClockError::from(error)),
        }
    }
}

} // verus!
