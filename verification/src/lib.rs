//! Wire protocol, alarm rules and loop decisions of a small time-keeping
//! service: a daemon broadcasts clock snapshots and alarm triggers, listeners
//! decode and dispatch them.

use vstd::prelude::*;
use vstd::string::StringExecFns;

pub mod alarm;
pub mod clock;
pub mod days;
pub mod env;
pub mod error;
pub mod message;
pub mod moment;
pub mod publisher;
pub mod queue;
pub mod store;
pub mod text;

verus! {

/// The directory of the alarm database, below a home directory.
pub open spec fn spec_database_directory(home: Seq<char>) -> Seq<char> {
    home + "/.config/clockrobustus"@
}

/// The file of the alarm database, below a home directory.
pub open spec fn spec_database_path(home: Seq<char>) -> Seq<char> {
    home + "/.config/clockrobustus/dbase.sqlite"@
}

/// The directory that holds the alarm database of the user whose home
/// directory is `home`.
pub fn database_directory(home: &str) -> (directory: String)
    ensures
        directory@ == spec_database_directory(home@),
{
    let mut directory = String::from_str(home);
    directory.append("/.config/clockrobustus");
    directory
}

/// The file that holds the alarm database of the user whose home directory
/// is `home`.
pub fn database_path(home: &str) -> (path: String)
    ensures
        path@ == spec_database_path(home@),
{
    let mut path = String::from_str(home);
    path.append("/.config/clockrobustus/dbase.sqlite");
    path
}

/// The database file lies in the database directory.
pub proof fn lemma_path_in_directory(home: Seq<char>)
    ensures
        spec_database_path(home) == spec_database_directory(home) + "/dbase.sqlite"@,
{
    reveal_strlit("/.config/clockrobustus");
    reveal_strlit("/.config/clockrobustus/dbase.sqlite");
    reveal_strlit("/dbase.sqlite");
    assert(spec_database_path(home) =~= spec_database_directory(home) + "/dbase.sqlite"@);
}

} // verus!
