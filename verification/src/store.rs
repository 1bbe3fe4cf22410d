//! The store: what is read from the history file and written to it, and
//! the plan by which the working directory and its two files are made.
//!
//! The library touches no file. The caller reads and writes; what is said
//! here is which text to write and what to do next.

use vstd::prelude::*;
use crate::codec::{read_text, written_text};
use crate::error::StoreError;
use crate::pomodoro::{Pomodoro, Pomodoros, Session};

verus! {

/// The history that the text of a history file stands for, or
/// `MalformedHistory`. A file with a time outside the years 0000 to 9999 is
/// refused with the rest.
pub fn load_history(text: &str) -> (r: Result<Pomodoros, StoreError>)
    ensures
        match read_text(text@) {
            Some(h) => r matches Ok(poms) && poms@ == h,
            None => r == Err::<Pomodoros, StoreError>(StoreError::MalformedHistory),
        },
{
    Pomodoros::from_str(text)
}

/// The text that is to take the place of the history file: the text of
/// the history, which is read back as that history. A history that has no
/// such text gives `SerializationFailure`.
pub fn save_history(history: &Pomodoros) -> (r: Result<String, StoreError>)
    ensures
        match written_text(history@) {
            Some(text) => r matches Ok(s) && s@ == text,
            None => r == Err::<String, StoreError>(StoreError::SerializationFailure),
        },
        r matches Ok(s) ==> read_text(s@) == Some(history@),
{
    match history.to_string() {
        Ok(text) => Ok(text),
        Err(_) => Err(StoreError::SerializationFailure),
    }
}

/// The text of the history file after `pom` was added behind the sessions
/// that the file holds now. A file that is no history gives
/// `MalformedHistory`; a history that cannot be saved gives
/// `SerializationFailure`.
pub fn append_session(text: &str, pom: Pomodoro) -> (r: Result<String, StoreError>)
    ensures
        match read_text(text@) {
            Some(h) => match written_text(h.push(pom@)) {
                Some(new_text) => r matches Ok(s) && s@ == new_text,
                None => r == Err::<String, StoreError>(StoreError::SerializationFailure),
            },
            None => r == Err::<String, StoreError>(StoreError::MalformedHistory),
        },
        r matches Ok(s) ==> read_text(text@) matches Some(h) && read_text(s@) == Some(
            h.push(pom@),
        ),
{
    match load_history(text) {
        Ok(mut history) => {
            history.push(pom);
            save_history(&history)
        },
        Err(e) => Err(e),
    }
}

/// The three objects of a store, in the order in which they are made.
#[derive(Clone, Copy, Debug, PartialEq, Eq, Structural)]
pub enum StoreObject {
    /// The directory that holds the two files.
    WorkingDir,
    /// The configuration file. It is made empty.
    ConfigFile,
    /// The history file. It is made with the text of an empty history.
    HistoryFile,
}

/// What the caller is to do next.
#[derive(Clone, Copy, Debug, PartialEq, Eq, Structural)]
pub enum InitStep {
    /// Try to make this object, and never replace one that is there.
    Create(StoreObject),
    /// The store is laid out.
    Done,
    /// Give up: this object could not be made, for this reason.
    Abort(StoreObject, StoreError),
}

/// The object that is made after `object`, if any is.
pub open spec fn object_after(object: StoreObject) -> InitStep {
    match object {
        StoreObject::WorkingDir => InitStep::Create(StoreObject::ConfigFile),
        StoreObject::ConfigFile => InitStep::Create(StoreObject::HistoryFile),
        StoreObject::HistoryFile => InitStep::Done,
    }
}

/// The step that follows an attempt to make `object`. An object that was
/// made, or was there already, is followed by the next one; any other
/// failure ends the plan.
pub open spec fn step_after(object: StoreObject, attempt: Result<(), StoreError>) -> InitStep {
    match attempt {
        Ok(_) => object_after(object),
        Err(StoreError::AlreadyExists) => object_after(object),
        Err(e) => InitStep::Abort(object, e),
    }
}

/// The name of an object: of the working directory under the root, of a
/// file under the working directory.
pub open spec fn name_of(object: StoreObject) -> Seq<char> {
    match object {
        StoreObject::WorkingDir => ".zeit"@,
        StoreObject::ConfigFile => "config.toml"@,
        StoreObject::HistoryFile => "history.toml"@,
    }
}

/// The step with which a store is laid out: the working directory first.
pub fn first_step() -> (r: InitStep)
    ensures
        r == InitStep::Create(StoreObject::WorkingDir),
{
    InitStep::Create(StoreObject::WorkingDir)
}

/// The step that follows an attempt to make `object`.
pub fn next_step(object: StoreObject, attempt: Result<(), StoreError>) -> (r: InitStep)
    ensures
        r == step_after(object, attempt),
{
    match attempt {
        Ok(_) | Err(StoreError::AlreadyExists) => match object {
            StoreObject::WorkingDir => InitStep::Create(StoreObject::ConfigFile),
            StoreObject::ConfigFile => InitStep::Create(StoreObject::HistoryFile),
            StoreObject::HistoryFile => InitStep::Done,
        },
        Err(e) => InitStep::Abort(object, e),
    }
}

/// The name of an object.
pub fn object_name(object: StoreObject) -> (r: &'static str)
    ensures
        r@ == name_of(object),
{
    match object {
        StoreObject::WorkingDir => ".zeit",
        StoreObject::ConfigFile => "config.toml",
        StoreObject::HistoryFile => "history.toml",
    }
}

/// The text with which an object is made: none for the working
/// directory, the empty text for the configuration file, the text of an
/// empty history for the history file.
pub fn initial_text(object: StoreObject) -> (r: Result<Option<String>, StoreError>)
    ensures
        match object {
            StoreObject::WorkingDir => r == Ok::<Option<String>, StoreError>(None),
            StoreObject::ConfigFile => r matches Ok(Some(text)) && text@ == Seq::<char>::empty(),
            StoreObject::HistoryFile => match written_text(Seq::<Session>::empty()) {
                Some(text) => r matches Ok(Some(s)) && s@ == text && read_text(s@) == Some(
                    Seq::<Session>::empty(),
                ),
                None => r == Err::<Option<String>, StoreError>(StoreError::SerializationFailure),
            },
        },
{
    match object {
        StoreObject::WorkingDir => Ok(None),
        StoreObject::ConfigFile => Ok(Some(String::new())),
        StoreObject::HistoryFile => match save_history(&Pomodoros::new()) {
            Ok(text) => Ok(Some(text)),
            Err(e) => Err(e),
        },
    }
}

/// What is on disk of a store: whether the working directory is there, and
/// the text of each file that is there.
pub struct Disk {
    pub working_dir: bool,
    pub config: Option<Seq<char>>,
    pub history: Option<Seq<char>>,
}

/// Whether an object is on the disk.
pub open spec fn present(disk: Disk, object: StoreObject) -> bool {
    match object {
        StoreObject::WorkingDir => disk.working_dir,
        StoreObject::ConfigFile => disk.config is Some,
        StoreObject::HistoryFile => disk.history is Some,
    }
}

/// What an attempt to make an object comes to, on a disk that refuses to
/// make the objects in `refused` and no others.
pub open spec fn attempt_on(disk: Disk, object: StoreObject, refused: Set<StoreObject>) -> Result<
    (),
    StoreError,
> {
    if present(disk, object) {
        Err(StoreError::AlreadyExists)
    } else if refused.contains(object) {
        Err(StoreError::IoFailure)
    } else {
        Ok(())
    }
}

/// The disk after an attempt to make an object: only an object that was
/// made changes it, and a file that was made holds its first text.
pub open spec fn disk_after(
    disk: Disk,
    object: StoreObject,
    refused: Set<StoreObject>,
    blank: Seq<char>,
) -> Disk {
    if attempt_on(disk, object, refused) is Ok {
        match object {
            StoreObject::WorkingDir => Disk { working_dir: true, ..disk },
            StoreObject::ConfigFile => Disk { config: Some(Seq::<char>::empty()), ..disk },
            StoreObject::HistoryFile => Disk { history: Some(blank), ..disk },
        }
    } else {
        disk
    }
}

/// The steps that are still to come, this one counted.
pub open spec fn steps_left(step: InitStep) -> nat {
    match step {
        InitStep::Create(StoreObject::WorkingDir) => 3,
        InitStep::Create(StoreObject::ConfigFile) => 2,
        InitStep::Create(StoreObject::HistoryFile) => 1,
        _ => 0,
    }
}

/// The disk and the attempts made, after the plan was followed from `step`
/// to its end. `blank` is the text of an empty history.
pub open spec fn follow(disk: Disk, step: InitStep, refused: Set<StoreObject>, blank: Seq<char>) -> (
    Disk,
    Seq<Result<(), StoreError>>,
)
    decreases steps_left(step),
{
    match step {
        InitStep::Create(object) => {
            let attempt = attempt_on(disk, object, refused);
            let rest = follow(
                disk_after(disk, object, refused, blank),
                step_after(object, attempt),
                refused,
                blank,
            );
            (rest.0, seq![attempt] + rest.1)
        },
        _ => (disk, Seq::<Result<(), StoreError>>::empty()),
    }
}

/// The disk and the attempts made, after a store was laid out.
pub open spec fn initialize(disk: Disk, refused: Set<StoreObject>, blank: Seq<char>) -> (
    Disk,
    Seq<Result<(), StoreError>>,
) {
    follow(disk, InitStep::Create(StoreObject::WorkingDir), refused, blank)
}

/// On a disk that refuses nothing, laying out a store a second time
/// changes nothing and finds each of the three objects there already; and
/// the first time leaves a history file that was there as it was.
pub proof fn lemma_initialize_twice(disk: Disk, blank: Seq<char>)
    ensures
        ({
            let once = initialize(disk, Set::empty(), blank);
            let twice = initialize(once.0, Set::empty(), blank);
            &&& twice.0 == once.0
            &&& twice.1 == seq![
                Err::<(), StoreError>(StoreError::AlreadyExists),
                Err::<(), StoreError>(StoreError::AlreadyExists),
                Err::<(), StoreError>(StoreError::AlreadyExists),
            ]
            &&& disk.history is Some ==> once.0.history == disk.history
            &&& disk.history is None ==> once.0.history == Some(blank)
        }),
{
    reveal_with_fuel(follow, 4);
    let once = initialize(disk, Set::empty(), blank);
    let twice = initialize(once.0, Set::empty(), blank);
    assert(once.0.working_dir && once.0.config is Some && once.0.history is Some);
    assert(twice.1 =~= seq![
        Err::<(), StoreError>(StoreError::AlreadyExists),
        Err::<(), StoreError>(StoreError::AlreadyExists),
        Err::<(), StoreError>(StoreError::AlreadyExists),
    ]);
}

/// Whatever the disk refuses, laying out a store never changes an object
/// that was there, and after the first failure nothing more is tried: no
/// attempt but the last has failed, and what would have come after a failed
/// object is as it was.
pub proof fn lemma_failure_ends_plan(disk: Disk, refused: Set<StoreObject>, blank: Seq<char>)
    ensures
        ({
            let end = initialize(disk, refused, blank);
            &&& 1 <= end.1.len() <= 3
            &&& forall|i: int|
                0 <= i < end.1.len() - 1 ==> (#[trigger] end.1[i]) is Ok || end.1[i] == Err::<
                    (),
                    StoreError,
                >(StoreError::AlreadyExists)
            &&& disk.working_dir ==> end.0.working_dir
            &&& disk.config is Some ==> end.0.config == disk.config
            &&& disk.history is Some ==> end.0.history == disk.history
            &&& end.1.len() < 2 ==> end.0.config == disk.config
            &&& end.1.len() < 3 ==> end.0.history == disk.history
            &&& end.1.len() < 3 ==> end.1.last() == Err::<(), StoreError>(StoreError::IoFailure)
        }),
{
    reveal_with_fuel(follow, 4);
}

} // verus!
