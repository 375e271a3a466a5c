//! The clock, and the places of the application's files.

use crate::text::concat2;
use std::time::{Duration, SystemTime, SystemTimeError, UNIX_EPOCH};
use vstd::prelude::*;
use vstd::string::*;

verus! {

/// A reading of the system clock.
#[verifier::external_type_specification]
#[verifier::external_body]
pub struct ExSystemTime(SystemTime);

/// The error of a clock that shows a time before the one it is held
/// against.
#[verifier::external_type_specification]
#[verifier::external_body]
pub struct ExSystemTimeError(SystemTimeError);

/// The time that the system clock shows.
///
/// Trusted: calls `SystemTime::now`. Nothing is claimed of the time.
#[verifier::external_body]
fn system_now() -> SystemTime {
    SystemTime::now()
}

/// The time that has passed since the start of 1970, or an error for a
/// time before it.
///
/// Trusted: calls `SystemTime::duration_since`. Nothing is claimed of the
/// result.
#[verifier::external_body]
fn since_epoch(time: &SystemTime) -> Result<Duration, SystemTimeError> {
    time.duration_since(UNIX_EPOCH)
}

/// The whole seconds of a span of time.
///
/// Trusted: calls `Duration::as_secs`. Nothing is claimed of the number.
#[verifier::external_body]
fn whole_seconds(span: &Duration) -> u64 {
    span.as_secs()
}

/// The current time in whole seconds since the start of 1970: the
/// timestamp that `timestamp_from` gives for what the system clock shows,
/// so that a clock that shows a time before 1970 reads as 0.
pub fn current_timestamp() -> (r: i64)
    ensures
        r >= 0,
{
    let now = system_now();
    let reading = match since_epoch(&now) {
        Ok(span) => Some(whole_seconds(&span)),
        Err(_) => None,
    };
    timestamp_from(reading)
}

/// The timestamp that a reading of the clock gives. The reading is the
/// number of whole seconds since the start of 1970, or nothing for a clock
/// that shows a time before it, which reads as 0. A number of seconds beyond
/// the greatest timestamp reads as the greatest timestamp.
pub open spec fn timestamp_of(seconds_since_epoch: Option<u64>) -> i64 {
    match seconds_since_epoch {
        Some(seconds) => if seconds > i64::MAX {
            i64::MAX
        } else {
            seconds as i64
        },
        None => 0,
    }
}

/// Turns a reading of the clock into a timestamp.
pub fn timestamp_from(seconds_since_epoch: Option<u64>) -> (r: i64)
    ensures
        r == timestamp_of(seconds_since_epoch),
{
    match seconds_since_epoch {
        Some(seconds) => {
            if seconds > 0x7FFF_FFFF_FFFF_FFFF {
                0x7FFF_FFFF_FFFF_FFFF
            } else {
                seconds as i64
            }
        },
        None => 0,
    }
}

/// The path of `rel` below `base`: a separator stands between the two
/// unless `base` is empty or ends in one.
pub open spec fn joined(base: Seq<char>, rel: Seq<char>) -> Seq<char> {
    if base.len() == 0 {
        rel
    } else if base.last() == '/' {
        base + rel
    } else {
        base + "/"@ + rel
    }
}

/// The path of the relative path `rel` below `base`.
pub fn join_path(base: &str, rel: &str) -> (r: String)
    ensures
        r@ == joined(base@, rel@),
{
    let n = base.unicode_len();
    if n == 0 {
        rel.to_string()
    } else if base.get_char(n - 1) == '/' {
        concat2(base, rel)
    } else {
        let mut s = concat2(base, "/");
        s.append(rel);
        s
    }
}

/// The application's data directory, relative to the user's home.
pub open spec fn data_dir_name() -> Seq<char> {
    "Library/Application Support/Tallr"@
}

/// The message for a user whose home directory is not known.
pub open spec fn no_home() -> Seq<char> {
    "Unable to find HOME directory"@
}

/// The path of the file `name` in the data directory below `home`, or the
/// message that no home directory is known.
pub open spec fn data_file(home: Option<&str>, name: Seq<char>, r: Result<String, String>) -> bool {
    match home {
        Some(h) => r matches Ok(path) && path@ == joined(joined(h@, data_dir_name()), name),
        None => r matches Err(message) && message@ == no_home(),
    }
}

/// The application's data directory. `home` is the user's home directory,
/// where it is known.
pub fn get_app_data_dir(home: Option<&str>) -> (r: Result<String, String>)
    ensures
        match home {
            Some(h) => r matches Ok(path) && path@ == joined(h@, data_dir_name()),
            None => r matches Err(message) && message@ == no_home(),
        },
{
    match home {
        Some(h) => Ok(join_path(h, "Library/Application Support/Tallr")),
        None => Err("Unable to find HOME directory".to_string()),
    }
}

fn data_file_path(home: Option<&str>, name: &str) -> (r: Result<String, String>)
    ensures
        data_file(home, name@, r),
{
    match get_app_data_dir(home) {
        Ok(dir) => Ok(join_path(dir.as_str(), name)),
        Err(message) => Err(message),
    }
}

/// The path of the persisted snapshot.
pub fn get_sessions_file_path(home: Option<&str>) -> (r: Result<String, String>)
    ensures
        data_file(home, "sessions.json"@, r),
{
    data_file_path(home, "sessions.json")
}

/// The path under which a snapshot that could not be understood is set
/// aside.
pub fn get_sessions_backup_path(home: Option<&str>) -> (r: Result<String, String>)
    ensures
        data_file(home, "sessions.json.backup"@, r),
{
    data_file_path(home, "sessions.json.backup")
}

/// The path of the file that holds the shared secret.
pub fn get_auth_token_file_path(home: Option<&str>) -> (r: Result<String, String>)
    ensures
        data_file(home, "auth.token"@, r),
{
    data_file_path(home, "auth.token")
}

/// The path of the marker that is present once the first-run setup is done.
pub fn get_setup_flag_path(home: Option<&str>) -> (r: Result<String, String>)
    ensures
        data_file(home, ".setup_completed"@, r),
{
    data_file_path(home, ".setup_completed")
}

} // verus!
