//! Where the program keeps its files, what time it is, and a small helper
//! for options.

use std::path::PathBuf;
use std::time::{Duration, SystemTime, SystemTimeError};
use vstd::prelude::*;
use crate::text::chars_of;

verus! {

/// The directory, under the home directory, that holds the program's data.
pub const DATA_PATH_SUFFIX: &'static str = ".wfm_cli/";

/// The name of the configuration file in the data directory.
pub const DATA_CONFIG_FILE: &'static str = "config.wfm.json";

/// A path of the file system. Nothing is known of what it holds.
#[verifier::external_type_specification]
#[verifier::external_body]
pub struct ExPathBuf(PathBuf);

/// `home::home_dir`: the home directory of the user as the environment has
/// it, if it has one. Nothing is claimed of the answer.
pub assume_specification[ home::home_dir ]() -> (dir: Option<PathBuf>)
;

/// `PathBuf::push`: extends `path` by `segment`. What the path is afterwards
/// depends on the platform, and nothing is claimed of it.
#[verifier::external_body]
fn push_segment(path: &mut PathBuf, segment: &str) {
    path.push(segment)
}

/// The home directory of the user could not be found.
#[derive(Clone, Copy, Debug, PartialEq, Eq, Structural)]
pub struct NoHomeDirectory;

impl NoHomeDirectory {
    /// What the user is told.
    pub fn message(&self) -> (text: &'static str)
        ensures
            text@ == "Failed to find home directory!"@,
    {
        "Failed to find home directory!"
    }
}

/// `Path::to_str`: the path as text, where it is text. Nothing is claimed of
/// the answer.
#[verifier::external_body]
fn path_text(path: &PathBuf) -> (text: Option<&str>) {
    path.to_str()
}

/// `PathBuf::from`: the path that `text` spells. Nothing is claimed of the
/// answer.
#[verifier::external_body]
fn path_of(text: &str) -> (path: PathBuf) {
    PathBuf::from(text)
}

/// `segment` behind `dir`, with a `/` between the two unless `dir` is empty
/// or ends in one.
pub open spec fn joined(dir: Seq<char>, segment: Seq<char>) -> Seq<char> {
    if dir.len() == 0 || dir.last() == '/' {
        dir + segment
    } else {
        dir + seq!['/'] + segment
    }
}

/// The data directory under the home directory `home`: the home directory,
/// then `.wfm_cli/`.
pub open spec fn data_dir_under(home: Seq<char>) -> Seq<char> {
    joined(home, DATA_PATH_SUFFIX@)
}

/// The configuration file under the home directory `home`: the home
/// directory, then `.wfm_cli/`, then `config.wfm.json`.
pub open spec fn config_file_under(home: Seq<char>) -> Seq<char> {
    joined(data_dir_under(home), DATA_CONFIG_FILE@)
}

/// `segment` behind `dir`, as `joined` says.
pub fn join_path(dir: &str, segment: &str) -> (path: String)
    ensures
        path@ == joined(dir@, segment@),
{
    let chars = chars_of(dir);
    let mut path = String::from_str(dir);
    if chars.len() > 0 && chars[chars.len() - 1] != '/' {
        proof {
            reveal_strlit("/");
            assert("/"@ =~= seq!['/']);
        }
        path.append("/");
    }
    path.append(segment);
    path
}

/// The data directory under the home directory `home_dir`, as text, or the
/// error where there is no home directory.
pub fn data_path_under(home_dir: Option<&str>) -> (path: Result<String, NoHomeDirectory>)
    ensures
        home_dir is None ==> path == Err::<String, NoHomeDirectory>(NoHomeDirectory),
        home_dir is Some ==> path is Ok && path->Ok_0@ == data_dir_under(home_dir->Some_0@),
{
    match home_dir {
        Some(home) => Ok(join_path(home, DATA_PATH_SUFFIX)),
        None => Err(NoHomeDirectory),
    }
}

/// The configuration file under the home directory `home_dir`, as text, or
/// the error where there is no home directory.
pub fn config_path_under(home_dir: Option<&str>) -> (path: Result<String, NoHomeDirectory>)
    ensures
        home_dir is None ==> path == Err::<String, NoHomeDirectory>(NoHomeDirectory),
        home_dir is Some ==> path is Ok && path->Ok_0@ == config_file_under(home_dir->Some_0@),
{
    match data_path_under(home_dir) {
        Ok(dir) => Ok(join_path(dir.as_str(), DATA_CONFIG_FILE)),
        Err(missing) => Err(missing),
    }
}

/// The path that `text` spells, where it spells one.
fn as_path(text: Result<String, NoHomeDirectory>) -> (path: Result<PathBuf, NoHomeDirectory>)
    ensures
        path is Err <==> text is Err,
{
    match text {
        Ok(text) => Ok(path_of(text.as_str())),
        Err(missing) => Err(missing),
    }
}

/// The data directory of the user whom the environment names. The
/// environment alone decides whether there is one: `data_path_under` says
/// which path it is for a home directory whose name is text. A home
/// directory whose name is no text is extended segment by segment.
pub fn data_path() -> (path: Result<PathBuf, NoHomeDirectory>) {
    match home::home_dir() {
        Some(mut dir) => {
            let found = match path_text(&dir) {
                Some(home) => Some(data_path_under(Some(home))),
                None => None,
            };
            match found {
                Some(text) => as_path(text),
                None => {
                    push_segment(&mut dir, DATA_PATH_SUFFIX);
                    Ok(dir)
                },
            }
        },
        None => as_path(data_path_under(None)),
    }
}

/// The configuration file of the user whom the environment names. The
/// environment alone decides whether there is one: `config_path_under` says
/// which path it is for a home directory whose name is text. A home
/// directory whose name is no text is extended segment by segment.
pub fn config_path() -> (path: Result<PathBuf, NoHomeDirectory>) {
    match home::home_dir() {
        Some(mut dir) => {
            let found = match path_text(&dir) {
                Some(home) => Some(config_path_under(Some(home))),
                None => None,
            };
            match found {
                Some(text) => as_path(text),
                None => {
                    push_segment(&mut dir, DATA_PATH_SUFFIX);
                    push_segment(&mut dir, DATA_CONFIG_FILE);
                    Ok(dir)
                },
            }
        },
        None => as_path(config_path_under(None)),
    }
}

/// A moment of the system clock. Nothing is known of what it holds.
#[verifier::external_type_specification]
#[verifier::external_body]
pub struct ExSystemTime(SystemTime);

/// What the system clock answers when asked for the time since a moment
/// that lies ahead of it. Nothing is known of what it holds.
#[verifier::external_type_specification]
#[verifier::external_body]
pub struct ExSystemTimeError(SystemTimeError);

/// `SystemTime::now`: the present moment of the system clock. Nothing is
/// claimed of the answer.
#[verifier::external_body]
fn system_now() -> (now: SystemTime) {
    SystemTime::now()
}

/// `SystemTime::duration_since`, asked for the time from the beginning of
/// 1970 to `moment`. Nothing is claimed of the answer.
#[verifier::external_body]
fn since_epoch(moment: &SystemTime) -> (elapsed: Result<Duration, SystemTimeError>) {
    moment.duration_since(SystemTime::UNIX_EPOCH)
}

/// `Duration::as_secs`: the whole seconds of `elapsed`. Nothing is claimed
/// of the answer.
#[verifier::external_body]
fn whole_seconds(elapsed: &Duration) -> (seconds: u64) {
    elapsed.as_secs()
}

/// The system clock stands before the beginning of 1970.
#[derive(Clone, Copy, Debug, PartialEq, Eq, Structural)]
pub struct ClockBeforeEpoch;

/// What an answer of the system clock means. `elapsed` is what the clock
/// said when asked for the whole seconds since the beginning of 1970: the
/// seconds are the timestamp, and the clock's refusal means that it stands
/// before 1970.
pub fn timestamp_from_clock(elapsed: Result<u64, SystemTimeError>) -> (seconds: Result<
    u64,
    ClockBeforeEpoch,
>)
    ensures
        elapsed is Ok ==> seconds == Ok::<u64, ClockBeforeEpoch>(elapsed->Ok_0),
        elapsed is Err ==> seconds == Err::<u64, ClockBeforeEpoch>(ClockBeforeEpoch),
{
    match elapsed {
        Ok(seconds) => Ok(seconds),
        Err(_) => Err(ClockBeforeEpoch),
    }
}

/// The timestamp in `timestamp`, or `None` where it holds the error.
pub fn timestamp_if_any(timestamp: Result<u64, ClockBeforeEpoch>) -> (seconds: Option<u64>)
    ensures
        timestamp is Ok ==> seconds == Some(timestamp->Ok_0),
        timestamp is Err ==> seconds is None,
{
    match timestamp {
        Ok(seconds) => Some(seconds),
        Err(_) => None,
    }
}

/// The time now, in whole seconds since the beginning of 1970, or the error
/// where the system clock stands before that. The clock alone decides which
/// it is: `timestamp_from_clock` says what becomes of its answer.
pub fn unix_timestamp() -> (seconds: Result<u64, ClockBeforeEpoch>) {
    let now = system_now();
    let elapsed = match since_epoch(&now) {
        Ok(elapsed) => Ok(whole_seconds(&elapsed)),
        Err(refusal) => Err(refusal),
    };
    timestamp_from_clock(elapsed)
}

/// The time now, in whole seconds since the beginning of 1970, or `None`
/// where the system clock stands before that. The clock alone decides which
/// it is: `timestamp_if_any` says what becomes of the timestamp read.
pub fn get_unix_timestamp() -> (seconds: Option<u64>) {
    timestamp_if_any(unix_timestamp())
}

/// A copy of what `v` refers to, if it refers to anything.
pub fn clone_option_with_inner_ref<T: Clone>(v: Option<&T>) -> (copy: Option<T>)
    ensures
        copy is None <==> v is None,
        v is Some ==> cloned(*v->Some_0, copy->Some_0),
{
    match v {
        Some(inner) => Some(inner.clone()),
        None => None,
    }
}

} // verus!
