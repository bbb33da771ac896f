//! Making sure that a directory exists, one level at a time.
//!
//! The steps that touch the disk are the caller's. What is decided here is
//! which step comes next and what its outcome means.

use vstd::prelude::*;

verus! {

#[verifier::external_type_specification]
#[verifier::external_body]
pub struct ExIoError(std::io::Error);

/// What stands at a path.
#[derive(Debug, Clone, Copy, PartialEq, Eq, Structural)]
pub enum PathState {
    /// Nothing.
    Missing,
    /// A directory.
    Directory,
    /// Something that is no directory.
    Other,
}

/// Why a directory could not be made sure of.
#[derive(Debug)]
pub enum DirError {
    /// Something that is no directory stands at the path.
    NotADirectory,
    /// The directory was missing and could not be created.
    CreateFailed(std::io::Error),
}

/// What to do next for a directory.
#[derive(Debug)]
pub enum DirStep {
    /// Nothing more: the outcome is known.
    Done(Result<(), DirError>),
    /// Create the directory itself, not its parents.
    Create,
}

/// What stands at a path of which it is known whether anything exists there
/// and whether that is a directory.
pub open spec fn state_of(exists: bool, is_dir: bool) -> PathState {
    if !exists {
        PathState::Missing
    } else if is_dir {
        PathState::Directory
    } else {
        PathState::Other
    }
}

/// The step that a path in the given state calls for: a directory is taken as
/// it is, anything else in its place is an error, and a missing one is to be
/// created.
pub open spec fn step_for(state: PathState) -> DirStep {
    match state {
        PathState::Missing => DirStep::Create,
        PathState::Directory => DirStep::Done(Ok(())),
        PathState::Other => DirStep::Done(Err(DirError::NotADirectory)),
    }
}

/// What the outcome of a creation means.
pub open spec fn creation_result(outcome: Result<(), std::io::Error>) -> Result<(), DirError> {
    match outcome {
        Ok(_) => Ok(()),
        Err(error) => Err(DirError::CreateFailed(error)),
    }
}

/// How a whole run ends that starts in `state`, where `creation` is what a
/// creation gives if the run asks for one.
pub open spec fn run_result(state: PathState, creation: Result<(), std::io::Error>) -> Result<
    (),
    DirError,
> {
    match step_for(state) {
        DirStep::Done(result) => result,
        DirStep::Create => creation_result(creation),
    }
}

/// What stands at the path after a run that starts in `state`, as far as the
/// run itself changes it: a creation that succeeds puts a directory there, and
/// nothing else changes anything.
pub open spec fn state_after(state: PathState, creation: Result<(), std::io::Error>) -> PathState {
    match step_for(state) {
        DirStep::Done(_) => state,
        DirStep::Create => if creation is Ok {
            PathState::Directory
        } else {
            state
        },
    }
}

/// Combines the two probes of a path into its state.
pub fn path_state(exists: bool, is_dir: bool) -> (state: PathState)
    ensures
        state == state_of(exists, is_dir),
{
    if !exists {
        PathState::Missing
    } else if is_dir {
        PathState::Directory
    } else {
        PathState::Other
    }
}

/// Decides the step that a path in the given state calls for.
pub fn ensure_dir_step(state: PathState) -> (step: DirStep)
    ensures
        step == step_for(state),
{
    match state {
        PathState::Missing => DirStep::Create,
        PathState::Directory => DirStep::Done(Ok(())),
        PathState::Other => DirStep::Done(Err(DirError::NotADirectory)),
    }
}

/// Ends a run that asked for a creation: a failed creation is handed on with
/// its cause.
pub fn ensure_dir_created(outcome: Result<(), std::io::Error>) -> (result: Result<(), DirError>)
    ensures
        result == creation_result(outcome),
{
    match outcome {
        Ok(_) => Ok(()),
        Err(error) => Err(DirError::CreateFailed(error)),
    }
}

/// A run ends well exactly when a directory is found, or nothing is found and
/// the creation succeeds; and exactly then it leaves a directory. Where
/// something else stands at the path, the run ends with `NotADirectory`.
pub proof fn lemma_run_succeeds(state: PathState, creation: Result<(), std::io::Error>)
    ensures
        run_result(state, creation) is Ok <==> state == PathState::Directory || (state
            == PathState::Missing && creation is Ok),
        run_result(state, creation) is Ok <==> state_after(state, creation)
            == PathState::Directory,
        state == PathState::Other ==> run_result(state, creation) == Err::<(), DirError>(
            DirError::NotADirectory,
        ),
{
}

/// After a run that ended well, a second run creates nothing, ends well
/// whatever a creation would have given, and leaves what it found.
pub proof fn lemma_second_run_is_idle(
    state: PathState,
    creation: Result<(), std::io::Error>,
    again: Result<(), std::io::Error>,
)
    requires
        run_result(state, creation) is Ok,
    ensures
        step_for(state_after(state, creation)) == DirStep::Done(Ok(())),
        run_result(state_after(state, creation), again) == Ok::<(), DirError>(()),
        state_after(state_after(state, creation), again) == state_after(state, creation),
{
}

/// Of two runs in a row on a missing path whose creation succeeds, the first
/// creates the directory and the second finds it: both end well, and there is
/// one creation and one directory.
pub proof fn lemma_twice_on_missing(again: Result<(), std::io::Error>)
    ensures
        step_for(PathState::Missing) == DirStep::Create,
        run_result(PathState::Missing, Ok(())) == Ok::<(), DirError>(()),
        state_after(PathState::Missing, Ok(())) == PathState::Directory,
        step_for(PathState::Directory) == DirStep::Done(Ok(())),
        run_result(PathState::Directory, again) == Ok::<(), DirError>(()),
        state_after(PathState::Directory, again) == PathState::Directory,
{
}

} // verus!
