//! File events and what each of them calls for.

use crate::paths::{file_name, path_file_name};
use crate::pattern::{is_backup_name, matches_backup_pattern};
use vstd::prelude::*;

verus! {

/// A change in the watched directory.
#[derive(Debug, PartialEq, Eq)]
pub enum FileEvent {
    /// A file appeared at the path.
    Created(String),
    /// The file at the path is about to go.
    Removed(String),
    /// A file moved from the first path to the second.
    Renamed(String, String),
    /// Anything else, with a description for the log.
    Other(String),
}

/// What a file event calls for.
#[derive(Debug, PartialEq, Eq)]
pub enum Action {
    /// Nothing to do; the event is worth a warning in the log.
    Ignore,
    /// A backup file went away.
    LogRemovedBackup,
    /// A savegame went away.
    LogRemovedSavegame,
    /// The game moved a save to its backup name.
    LogBackupRenamed,
    /// A new savegame stands at the path and is to be copied.
    TriggerBackup(String),
}

/// A file event with its paths as sequences of characters.
pub enum FileEventView {
    Created(Seq<char>),
    Removed(Seq<char>),
    Renamed(Seq<char>, Seq<char>),
    Other(Seq<char>),
}

/// An action with its path as a sequence of characters.
pub enum ActionView {
    Ignore,
    LogRemovedBackup,
    LogRemovedSavegame,
    LogBackupRenamed,
    TriggerBackup(Seq<char>),
}

impl View for FileEvent {
    type V = FileEventView;

    open spec fn view(&self) -> FileEventView {
        match self {
            FileEvent::Created(path) => FileEventView::Created(path@),
            FileEvent::Removed(path) => FileEventView::Removed(path@),
            FileEvent::Renamed(from, to) => FileEventView::Renamed(from@, to@),
            FileEvent::Other(description) => FileEventView::Other(description@),
        }
    }
}

impl View for Action {
    type V = ActionView;

    open spec fn view(&self) -> ActionView {
        match self {
            Action::Ignore => ActionView::Ignore,
            Action::LogRemovedBackup => ActionView::LogRemovedBackup,
            Action::LogRemovedSavegame => ActionView::LogRemovedSavegame,
            Action::LogBackupRenamed => ActionView::LogBackupRenamed,
            Action::TriggerBackup(path) => ActionView::TriggerBackup(path@),
        }
    }
}

/// A path names a backup file when its final component has the shape of a
/// backup name. Where the path lies plays no part.
pub open spec fn is_backup_path(path: Seq<char>) -> bool {
    match path_file_name(path) {
        Some(name) => is_backup_name(name),
        None => false,
    }
}

/// The path whose name decides what the event calls for: the path of a
/// creation or removal, the destination of a rename.
pub open spec fn deciding_path(event: FileEventView) -> Option<Seq<char>> {
    match event {
        FileEventView::Created(path) => Some(path),
        FileEventView::Removed(path) => Some(path),
        FileEventView::Renamed(_, to) => Some(to),
        FileEventView::Other(_) => None,
    }
}

/// What an event calls for, given whether its deciding path names a backup
/// file. The first rule that fits decides: a removal is logged as that of a
/// backup or of a savegame; a rename onto a backup name is logged; a creation
/// under any other name triggers a backup; all else is ignored.
pub open spec fn action_for(event: FileEventView, names_backup: bool) -> ActionView {
    match event {
        FileEventView::Removed(_) => if names_backup {
            ActionView::LogRemovedBackup
        } else {
            ActionView::LogRemovedSavegame
        },
        FileEventView::Renamed(_, _) => if names_backup {
            ActionView::LogBackupRenamed
        } else {
            ActionView::Ignore
        },
        FileEventView::Created(path) => if names_backup {
            ActionView::Ignore
        } else {
            ActionView::TriggerBackup(path)
        },
        FileEventView::Other(_) => ActionView::Ignore,
    }
}

/// What an event calls for.
pub open spec fn classification(event: FileEventView) -> ActionView {
    action_for(
        event,
        match deciding_path(event) {
            Some(path) => is_backup_path(path),
            None => false,
        },
    )
}

/// Tells whether the final component of `path` has the shape of a backup
/// name. A path without a final component names no backup file.
pub fn is_backup(path: &str) -> (r: bool)
    ensures
        r == is_backup_path(path@),
{
    match file_name(path) {
        Some(name) => matches_backup_pattern(name.as_str()),
        None => false,
    }
}

/// Decides what an event calls for once it is known whether its deciding
/// path names a backup file.
pub fn classify_with(event: FileEvent, names_backup: bool) -> (action: Action)
    ensures
        action@ == action_for(event@, names_backup),
{
    match event {
        FileEvent::Removed(_) => if names_backup {
            Action::LogRemovedBackup
        } else {
            Action::LogRemovedSavegame
        },
        FileEvent::Renamed(_, _) => if names_backup {
            Action::LogBackupRenamed
        } else {
            Action::Ignore
        },
        FileEvent::Created(path) => if names_backup {
            Action::Ignore
        } else {
            Action::TriggerBackup(path)
        },
        FileEvent::Other(_) => Action::Ignore,
    }
}

/// Decides what an event calls for.
pub fn classify(event: FileEvent) -> (action: Action)
    ensures
        action@ == classification(event@),
{
    let names_backup = match &event {
        FileEvent::Created(path) => is_backup(path.as_str()),
        FileEvent::Removed(path) => is_backup(path.as_str()),
        FileEvent::Renamed(_, to) => is_backup(to.as_str()),
        FileEvent::Other(_) => false,
    };
    classify_with(event, names_backup)
}

/// Every removal is logged, as that of a backup where the path names a backup
/// file and as that of a savegame where it does not.
pub proof fn lemma_removal_is_logged(path: Seq<char>)
    ensures
        classification(FileEventView::Removed(path)) == if is_backup_path(path) {
            ActionView::LogRemovedBackup
        } else {
            ActionView::LogRemovedSavegame
        },
{
}

/// The removal of a file whose name has the shape of a backup name is logged
/// as the removal of a backup.
pub proof fn lemma_removed_backup_is_logged(path: Seq<char>, name: Seq<char>)
    requires
        path_file_name(path) == Some(name),
        is_backup_name(name),
    ensures
        classification(FileEventView::Removed(path)) == ActionView::LogRemovedBackup,
{
}

/// The removal of a file under any other name is logged as the removal of a
/// savegame.
pub proof fn lemma_removed_savegame_is_logged(path: Seq<char>, name: Seq<char>)
    requires
        path_file_name(path) == Some(name),
        !is_backup_name(name),
    ensures
        classification(FileEventView::Removed(path)) == ActionView::LogRemovedSavegame,
{
}

/// A file created under a name that has not the shape of a backup name
/// triggers a backup of that very path.
pub proof fn lemma_created_savegame_triggers_backup(path: Seq<char>, name: Seq<char>)
    requires
        path_file_name(path) == Some(name),
        !is_backup_name(name),
    ensures
        classification(FileEventView::Created(path)) == ActionView::TriggerBackup(path),
{
}

/// A file created under a backup name is ignored.
pub proof fn lemma_created_backup_is_ignored(path: Seq<char>, name: Seq<char>)
    requires
        path_file_name(path) == Some(name),
        is_backup_name(name),
    ensures
        classification(FileEventView::Created(path)) == ActionView::Ignore,
{
}

/// Only the creation of a file that is no backup file triggers a backup, and
/// the backup is that of the created path.
pub proof fn lemma_backup_only_for_created_savegame(event: FileEventView)
    ensures
        classification(event) is TriggerBackup <==> event is Created && !is_backup_path(
            event->Created_0,
        ),
        classification(event) is TriggerBackup ==> classification(event)
            == ActionView::TriggerBackup(event->Created_0),
{
}

/// Two paths with the same final component are told apart by nothing: where a
/// file lies plays no part in whether it counts as a backup file.
pub proof fn lemma_location_plays_no_part(first: Seq<char>, second: Seq<char>)
    requires
        path_file_name(first) == path_file_name(second),
    ensures
        is_backup_path(first) == is_backup_path(second),
        classification(FileEventView::Created(first)) is TriggerBackup <==> classification(
            FileEventView::Created(second),
        ) is TriggerBackup,
        classification(FileEventView::Removed(first)) == classification(
            FileEventView::Removed(second),
        ),
{
}

} // verus!
