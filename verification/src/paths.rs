//! Where the timer keeps its files: a directory under the user's home
//! directory, with one file for each channel.

use crate::error::TimerError;
use crate::text::str_equal;
use vstd::prelude::*;
use vstd::string::*;

verus! {

/// The directory of the timer, below the home directory.
pub const TIMER_DIRECTORY: &'static str = "/.productivity-timer";

/// The name of the database file in the timer's directory.
pub const DATABASE_NAME: &'static str = "time_gained";

/// Whether `name` is the name of one of the timer's files.
pub open spec fn is_timer_file(name: Seq<char>) -> bool {
    name == "in"@ || name == "out"@ || name == "err"@ || name == "misc"@ || name == "tag"@ || name
        == "timer.pid"@ || name == "time-gained"@ || name == "durations-count"@ || name
        == "durations-average"@
}

/// The timer's directory for the home directory `home`.
pub open spec fn directory_in(home: Seq<char>) -> Seq<char> {
    home + TIMER_DIRECTORY@
}

/// The path of the timer's file `name` for the home directory `home`.
pub open spec fn path_in(home: Seq<char>, name: Seq<char>) -> Seq<char> {
    home + TIMER_DIRECTORY@ + "/"@ + name
}

/// The path of the file `filename`, given the home directory if there is
/// one: a name that is not one of the timer's files is turned away first,
/// and without a home directory there is no path.
pub open spec fn filepath_spec(home: Option<Seq<char>>, filename: Seq<char>) -> Result<
    Seq<char>,
    TimerError,
> {
    if !is_timer_file(filename) {
        Err(TimerError::InvalidFileName)
    } else {
        match home {
            Some(h) => Ok(path_in(h, filename)),
            None => Err(TimerError::NoHomeDirectory),
        }
    }
}

/// Calls `dirs::home_dir` and gives the path as text, as `Path::display`
/// shows it. The answer depends on the environment of the process:
/// nothing is claimed of it.
#[verifier::external_body]
fn home_directory() -> Option<String> {
    match dirs::home_dir() {
        Some(path) => Some(path.as_path().display().to_string()),
        None => None,
    }
}

/// Whether `name` is the name of one of the timer's files.
pub fn names_timer_file(name: &str) -> (r: bool)
    ensures
        r == is_timer_file(name@),
{
    str_equal(name, "in") || str_equal(name, "out") || str_equal(name, "err") || str_equal(
        name,
        "misc",
    ) || str_equal(name, "tag") || str_equal(name, "timer.pid") || str_equal(name, "time-gained")
        || str_equal(name, "durations-count") || str_equal(name, "durations-average")
}

/// The timer's directory below `home`.
pub fn working_directory_in(home: &str) -> (r: String)
    ensures
        r@ == directory_in(home@),
{
    String::from_str(home).concat(TIMER_DIRECTORY)
}

/// The path of the timer's file `filename` below `home`, if there is a
/// home directory.
pub fn filepath_in(home: Option<String>, filename: &str) -> (r: Result<String, TimerError>)
    ensures
        match filepath_spec(crate::pt_duration::tag_view(home), filename@) {
            Ok(path) => r is Ok && r->Ok_0@ == path,
            Err(e) => r is Err && r->Err_0 == e,
        },
{
    if !names_timer_file(filename) {
        return Err(TimerError::InvalidFileName);
    }
    match home {
        Some(h) => Ok(h.concat(TIMER_DIRECTORY).concat("/").concat(filename)),
        None => Err(TimerError::NoHomeDirectory),
    }
}

/// The path of the timer's file `filename` for the user who runs the
/// process. Which home directory is used is for the environment to say.
pub fn get_filepath(filename: &str) -> (r: Result<String, TimerError>)
    ensures
        !is_timer_file(filename@) ==> r is Err && r->Err_0 == TimerError::InvalidFileName,
        exists|home: Option<Seq<char>>|
            match #[trigger] filepath_spec(home, filename@) {
                Ok(path) => r is Ok && r->Ok_0@ == path,
                Err(e) => r is Err && r->Err_0 == e,
            },
{
    let home = home_directory();
    let r = filepath_in(home, filename);
    assert(match filepath_spec(crate::pt_duration::tag_view(home), filename@) {
        Ok(path) => r is Ok && r->Ok_0@ == path,
        Err(e) => r is Err && r->Err_0 == e,
    });
    r
}

/// The timer's directory for the user who runs the process.
pub fn working_directory() -> (r: Result<String, TimerError>)
    ensures
        match r {
            Ok(path) => exists|home: Seq<char>| path@ == #[trigger] directory_in(home),
            Err(e) => e == TimerError::NoHomeDirectory,
        },
{
    match home_directory() {
        Some(h) => {
            let path = working_directory_in(h.as_str());
            assert(path@ == directory_in(h@));
            Ok(path)
        },
        None => Err(TimerError::NoHomeDirectory),
    }
}

/// The path of the database below `home`.
pub fn database_filename_in(home: &str) -> (r: String)
    ensures
        r@ == directory_in(home@) + "/"@ + DATABASE_NAME@,
{
    working_directory_in(home).concat("/").concat(DATABASE_NAME)
}

/// The path of the database for the user who runs the process.
pub fn database_filename() -> (r: Result<String, TimerError>)
    ensures
        match r {
            Ok(path) => exists|home: Seq<char>|
                path@ == #[trigger] directory_in(home) + "/"@ + DATABASE_NAME@,
            Err(e) => e == TimerError::NoHomeDirectory,
        },
{
    match home_directory() {
        Some(h) => {
            let path = database_filename_in(h.as_str());
            assert(path@ == directory_in(h@) + "/"@ + DATABASE_NAME@);
            Ok(path)
        },
        None => Err(TimerError::NoHomeDirectory),
    }
}

} // verus!
