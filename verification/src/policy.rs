//! Which failures end the watch and which are only logged.

use crate::backup::BackupError;
use crate::startup::StartupError;
use vstd::prelude::*;

verus! {

/// A failure, by where it arose.
#[derive(Debug)]
pub enum Failure {
    /// The setup gave up before the watch.
    Startup(StartupError),
    /// The watch itself could not be set up.
    WatchSetup,
    /// The watch handed over an error in place of an event.
    Receive,
    /// The backup that an event called for failed.
    Backup(BackupError),
}

/// What a failure means for the watch.
#[derive(Debug, Clone, Copy, PartialEq, Eq, Structural)]
pub enum Verdict {
    /// The process ends.
    Terminate,
    /// The failure is logged, the event is dropped, and the watch goes on.
    LogAndContinue,
}

/// A failure to set up ends the process. A failure while dealing with one
/// event never does.
pub open spec fn verdict_for(failure: Failure) -> Verdict {
    match failure {
        Failure::Startup(_) => Verdict::Terminate,
        Failure::WatchSetup => Verdict::Terminate,
        Failure::Receive => Verdict::LogAndContinue,
        Failure::Backup(_) => Verdict::LogAndContinue,
    }
}

/// Decides what a failure means for the watch.
pub fn verdict(failure: &Failure) -> (v: Verdict)
    ensures
        v == verdict_for(*failure),
{
    match failure {
        Failure::Startup(_) => Verdict::Terminate,
        Failure::WatchSetup => Verdict::Terminate,
        Failure::Receive => Verdict::LogAndContinue,
        Failure::Backup(_) => Verdict::LogAndContinue,
    }
}

/// Whatever goes wrong with the backup of one savegame, the watch goes on.
pub proof fn lemma_backup_failure_is_survived(error: BackupError)
    ensures
        verdict_for(Failure::Backup(error)) == Verdict::LogAndContinue,
{
}

/// The process ends on a failure exactly when the failure arose before the
/// watch stood.
pub proof fn lemma_only_setup_terminates(failure: Failure)
    ensures
        verdict_for(failure) == Verdict::Terminate <==> failure is Startup || failure is WatchSetup,
{
}

} // verus!
