//! From the name of a game to a watched directory with its backup folder.

use crate::backup::BACKUP_FOLDER;
use crate::dir::DirError;
use crate::paths::{join, path_join};
use crate::pattern::holds_at;
use vstd::prelude::*;

verus! {

/// The name under which Europa Universalis IV is asked for.
pub const EU4: &'static str = "eu4";

/// The name under which Crusader Kings II is asked for.
pub const CK2: &'static str = "ck2";

/// Where Europa Universalis IV keeps its savegames.
pub const EU4_SAVE_DIR: &'static str =
    "/home/bastien/.local/share/Paradox Interactive/Europa Universalis IV/save games/";

/// For how many seconds changes to one file are gathered before they are
/// handed over as one event, so that the several writes of one save count
/// once.
pub const DEBOUNCE_SECONDS: u64 = 2;

/// Why a game has no directory to watch.
#[derive(Debug, Clone, Copy, PartialEq, Eq, Structural)]
pub enum ProfileError {
    /// The game is known, but its savegames are not handled.
    Unsupported,
    /// The name stands for no game.
    Unknown,
}

/// Why the watch could not be set up.
#[derive(Debug)]
pub enum StartupError {
    /// The game has no directory to watch.
    Profile(ProfileError),
    /// The folder for the backups could not be made sure of.
    BackupFolder(DirError),
}

/// What to do next to set up the watch.
#[derive(Debug)]
pub enum StartupStep {
    /// Make sure that the folder for the backups exists.
    EnsureDir { watched: String, backup_folder: String },
    /// Watch the directory, itself and not what lies below it.
    Watch { watched: String },
    /// Give up: nothing is watched.
    Fail(StartupError),
}

/// A step with its paths as sequences of characters.
pub enum StartupStepView {
    EnsureDir { watched: Seq<char>, backup_folder: Seq<char> },
    Watch { watched: Seq<char> },
    Fail(StartupError),
}

impl View for StartupStep {
    type V = StartupStepView;

    open spec fn view(&self) -> StartupStepView {
        match self {
            StartupStep::EnsureDir { watched, backup_folder } => StartupStepView::EnsureDir {
                watched: watched@,
                backup_folder: backup_folder@,
            },
            StartupStep::Watch { watched } => StartupStepView::Watch { watched: watched@ },
            StartupStep::Fail(error) => StartupStepView::Fail(*error),
        }
    }
}

/// The directory in which a game keeps its savegames.
pub open spec fn save_dir_of(game: Seq<char>) -> Result<Seq<char>, ProfileError> {
    if game == EU4@ {
        Ok(EU4_SAVE_DIR@)
    } else if game == CK2@ {
        Err(ProfileError::Unsupported)
    } else {
        Err(ProfileError::Unknown)
    }
}

/// The folder for the backups of a watched directory.
pub open spec fn backup_folder_of(watched: Seq<char>) -> Seq<char> {
    path_join(watched, BACKUP_FOLDER@)
}

/// The first step of the setup: a game without a directory ends it before
/// anything is created or watched.
pub open spec fn first_step(game: Seq<char>) -> StartupStepView {
    match save_dir_of(game) {
        Ok(watched) => StartupStepView::EnsureDir {
            watched,
            backup_folder: backup_folder_of(watched),
        },
        Err(error) => StartupStepView::Fail(StartupError::Profile(error)),
    }
}

/// The step after the folder for the backups was made sure of.
pub open spec fn step_after_backup_folder(
    watched: Seq<char>,
    outcome: Result<(), DirError>,
) -> StartupStepView {
    match outcome {
        Ok(_) => StartupStepView::Watch { watched },
        Err(error) => StartupStepView::Fail(StartupError::BackupFolder(error)),
    }
}

/// Tells whether two texts hold the same characters.
pub fn same_text(left: &str, right: &str) -> (same: bool)
    ensures
        same == (left@ == right@),
{
    let same = left.unicode_len() == right.unicode_len() && holds_at(left, 0, right);
    proof {
        if left@.len() == right@.len() {
            assert(left@.subrange(0, left@.len() as int) =~= left@);
        }
    }
    same
}

/// Looks up the directory in which a game keeps its savegames.
pub fn save_dir(game: &str) -> (result: Result<&'static str, ProfileError>)
    ensures
        match save_dir_of(game@) {
            Ok(dir) => result is Ok && result->Ok_0@ == dir,
            Err(error) => result == Err::<&'static str, ProfileError>(error),
        },
{
    if same_text(game, EU4) {
        Ok(EU4_SAVE_DIR)
    } else if same_text(game, CK2) {
        Err(ProfileError::Unsupported)
    } else {
        Err(ProfileError::Unknown)
    }
}

/// Starts the setup for a game.
pub fn begin_startup(game: &str) -> (step: StartupStep)
    ensures
        step@ == first_step(game@),
{
    match save_dir(game) {
        Ok(dir) => {
            let backup_folder = join(dir, BACKUP_FOLDER);
            StartupStep::EnsureDir { watched: dir.to_owned(), backup_folder }
        },
        Err(error) => StartupStep::Fail(StartupError::Profile(error)),
    }
}

/// Goes on after the folder for the backups was made sure of: the watch is
/// next, unless the folder failed.
pub fn after_backup_folder(watched: String, outcome: Result<(), DirError>) -> (step: StartupStep)
    ensures
        step@ == step_after_backup_folder(watched@, outcome),
{
    match outcome {
        Ok(_) => StartupStep::Watch { watched },
        Err(error) => StartupStep::Fail(StartupError::BackupFolder(error)),
    }
}

/// A name that stands for no handled game leads to no step but giving up:
/// no folder is asked for and nothing is watched.
pub proof fn lemma_unhandled_game_fails_first(game: Seq<char>)
    requires
        game != EU4@,
    ensures
        first_step(game) is Fail,
        game != CK2@ ==> first_step(game) == StartupStepView::Fail(
            StartupError::Profile(ProfileError::Unknown),
        ),
{
}

} // verus!
