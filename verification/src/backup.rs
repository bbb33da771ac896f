//! Backing up one savegame: where the copy goes, and the steps that lead
//! there.
//!
//! The copies of a savegame `<folder>/<stem>.<ext>` have a directory of their
//! own, `<folder>/backup/<stem>`, which is created before the first copy. The
//! copy itself is written beside that directory, not into it: its path is
//! that of the directory with the final component replaced by the time of the
//! backup, and with the savegame extension in place of whatever follows the
//! last dot of that time. Two backups whose times differ only behind that dot
//! go to one file, and the later one overwrites the earlier.

use crate::clock::local_timestamp;
use crate::dir::DirError;
use crate::paths::{
    file_stem, has_separator, join, parent, path_file_stem, path_join, path_parent,
    path_with_extension, path_with_file_name, with_extension, with_file_name,
};
use crate::pattern::SAVEGAME_EXTENSION;
use vstd::prelude::*;

verus! {

/// The name of the folder, beside the savegames, that holds the backups.
pub const BACKUP_FOLDER: &'static str = "backup";

/// Why a backup was not made.
#[derive(Debug)]
pub enum BackupError {
    /// The savegame's path has no parent or no file stem.
    InvalidPath,
    /// The backup directory could not be made sure of.
    EnsureDir(DirError),
    /// The copy failed; no backup was made.
    CopyFailed(std::io::Error),
}

/// What to do next for a backup.
#[derive(Debug)]
pub enum BackupStep {
    /// Make sure that the backup directory exists.
    EnsureDir { savegame: String, backup_dir: String },
    /// Copy the savegame to the destination, named after `timestamp`.
    Copy { from: String, to: String, timestamp: String },
    /// Nothing more: the backup has ended.
    Done(Result<(), BackupError>),
}

/// A step with its paths as sequences of characters.
pub enum BackupStepView {
    EnsureDir { savegame: Seq<char>, backup_dir: Seq<char> },
    Copy { from: Seq<char>, to: Seq<char>, timestamp: Seq<char> },
    Done(Result<(), BackupError>),
}

impl View for BackupStep {
    type V = BackupStepView;

    open spec fn view(&self) -> BackupStepView {
        match self {
            BackupStep::EnsureDir { savegame, backup_dir } => BackupStepView::EnsureDir {
                savegame: savegame@,
                backup_dir: backup_dir@,
            },
            BackupStep::Copy { from, to, timestamp } => BackupStepView::Copy {
                from: from@,
                to: to@,
                timestamp: timestamp@,
            },
            BackupStep::Done(result) => BackupStepView::Done(*result),
        }
    }
}

/// The directory for the copies of a savegame: the folder `backup` beside the
/// savegame, and in it a folder named by the savegame's stem. A path without
/// a parent or without a stem has none.
pub open spec fn backup_dir_of(savegame: Seq<char>) -> Option<Seq<char>> {
    match (path_parent(savegame), path_file_stem(savegame)) {
        (Some(folder), Some(stem)) => Some(path_join(path_join(folder, BACKUP_FOLDER@), stem)),
        _ => None,
    }
}

/// The path of a copy made at `timestamp`: the backup directory's path with
/// the timestamp in place of its final component and the savegame extension
/// in place of the timestamp's.
pub open spec fn destination_of(backup_dir: Seq<char>, timestamp: Seq<char>) -> Seq<char> {
    path_with_extension(path_with_file_name(backup_dir, timestamp), SAVEGAME_EXTENSION@)
}

/// The first step of a backup.
pub open spec fn first_step(savegame: Seq<char>) -> BackupStepView {
    match backup_dir_of(savegame) {
        Some(backup_dir) => BackupStepView::EnsureDir { savegame, backup_dir },
        None => BackupStepView::Done(Err(BackupError::InvalidPath)),
    }
}

/// The step after the backup directory was made sure of, at `timestamp`.
pub open spec fn step_after_ensure_dir(
    savegame: Seq<char>,
    backup_dir: Seq<char>,
    outcome: Result<(), DirError>,
    timestamp: Seq<char>,
) -> BackupStepView {
    match outcome {
        Ok(_) => BackupStepView::Copy {
            from: savegame,
            to: destination_of(backup_dir, timestamp),
            timestamp,
        },
        Err(error) => BackupStepView::Done(Err(BackupError::EnsureDir(error))),
    }
}

/// What the outcome of the copy means for the backup.
pub open spec fn copy_result(outcome: Result<u64, std::io::Error>) -> Result<(), BackupError> {
    match outcome {
        Ok(_) => Ok(()),
        Err(error) => Err(BackupError::CopyFailed(error)),
    }
}

/// Derives the directory for the copies of a savegame.
pub fn backup_dir(savegame: &str) -> (result: Result<String, BackupError>)
    ensures
        match backup_dir_of(savegame@) {
            Some(dir) => result is Ok && result->Ok_0@ == dir,
            None => result == Err::<String, BackupError>(BackupError::InvalidPath),
        },
{
    let folder = match parent(savegame) {
        Some(folder) => folder,
        None => {
            return Err(BackupError::InvalidPath);
        },
    };
    let stem = match file_stem(savegame) {
        Some(stem) => stem,
        None => {
            return Err(BackupError::InvalidPath);
        },
    };
    let backups = join(folder.as_str(), BACKUP_FOLDER);
    Ok(join(backups.as_str(), stem.as_str()))
}

/// Derives the path of a copy made at `timestamp`.
pub fn destination(backup_dir: &str, timestamp: &str) -> (path: String)
    ensures
        path@ == destination_of(backup_dir@, timestamp@),
{
    proof {
        lemma_extension_is_plain();
    }
    let named = with_file_name(backup_dir, timestamp);
    with_extension(named.as_str(), SAVEGAME_EXTENSION)
}

/// The savegame extension holds no path separator.
pub proof fn lemma_extension_is_plain()
    ensures
        !has_separator(SAVEGAME_EXTENSION@),
{
    reveal_strlit("eu4");
    let extension = SAVEGAME_EXTENSION@;
    assert(extension.len() == 3);
    assert(extension[0] == 'e' && extension[1] == 'u' && extension[2] == '4');
}

/// Starts the backup of a savegame: asks for its backup directory, or ends
/// at once where the path has no parent or no stem.
pub fn begin_backup(savegame: String) -> (step: BackupStep)
    ensures
        step@ == first_step(savegame@),
{
    match backup_dir(savegame.as_str()) {
        Ok(backup_dir) => BackupStep::EnsureDir { savegame, backup_dir },
        Err(error) => BackupStep::Done(Err(error)),
    }
}

/// Goes on after the backup directory was made sure of, with `timestamp` as
/// the time of the backup: a failure ends the backup and is handed on as it
/// came; otherwise the copy is next.
pub fn after_ensure_dir_at(
    savegame: String,
    backup_dir: String,
    outcome: Result<(), DirError>,
    timestamp: String,
) -> (step: BackupStep)
    ensures
        step@ == step_after_ensure_dir(savegame@, backup_dir@, outcome, timestamp@),
{
    match outcome {
        Ok(_) => {
            let to = destination(backup_dir.as_str(), timestamp.as_str());
            BackupStep::Copy { from: savegame, to, timestamp }
        },
        Err(error) => BackupStep::Done(Err(BackupError::EnsureDir(error))),
    }
}

/// Goes on after the backup directory was made sure of. Where it was, the
/// clock is read once, and that one reading names the copy: a text of
/// twenty-five characters or more without a path separator. Where the
/// directory failed, the clock is not read.
///
/// # Panics
///
/// Reading the clock panics where the system clock stands before 1970.
pub fn after_ensure_dir(
    savegame: String,
    backup_dir: String,
    outcome: Result<(), DirError>,
) -> (step: BackupStep)
    ensures
        outcome is Err ==> step@ == BackupStepView::Done(
            Err(BackupError::EnsureDir(outcome->Err_0)),
        ),
        outcome is Ok ==> step is Copy && step@ == step_after_ensure_dir(
            savegame@,
            backup_dir@,
            outcome,
            step->timestamp@,
        ),
        outcome is Ok ==> step->timestamp@.len() >= 25 && !has_separator(step->timestamp@),
{
    match outcome {
        Ok(_) => {
            let timestamp = local_timestamp();
            after_ensure_dir_at(savegame, backup_dir, Ok(()), timestamp)
        },
        Err(error) => BackupStep::Done(Err(BackupError::EnsureDir(error))),
    }
}

/// Ends the backup after the copy: a failed copy is handed on with its cause,
/// and nothing is tried again.
pub fn after_copy(outcome: Result<u64, std::io::Error>) -> (result: Result<(), BackupError>)
    ensures
        result == copy_result(outcome),
{
    match outcome {
        Ok(_) => Ok(()),
        Err(error) => Err(BackupError::CopyFailed(error)),
    }
}

} // verus!
