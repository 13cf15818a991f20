//! Outcomes of acquiring and releasing a lock, and the decisions that lead
//! to them.
//!
//! Each operation is an existence check followed, if needed, by one write or
//! one removal. The functions here take what the filesystem reported and say
//! what to do next, so that whoever performs the filesystem calls only hands
//! results back.
//!
//! Between the check and the write or removal another process may act: the
//! two-step form does not exclude two holders of one session. Where that
//! matters, create the marker with an exclusive create and pass its result to
//! `exclusive_create_outcome`.
use vstd::prelude::*;

verus! {

/// What `lock` reports.
#[derive(Clone, Debug, PartialEq, Eq)]
pub enum AcquireOutcome {
    /// The marker already existed and was left as it was.
    AlreadyHeld,
    /// The marker was created.
    Acquired,
    /// Creating the marker failed, for the reason given.
    Failed(String),
}

/// What `release` reports.
#[derive(Clone, Debug, PartialEq, Eq)]
pub enum ReleaseOutcome {
    /// There was no marker to remove.
    NothingToRelease,
    /// The marker was removed.
    Released,
    /// Removing the marker failed, for the reason given.
    Failed(String),
}

/// The next step of acquiring, once the existence check is known.
#[derive(Clone, Debug, PartialEq, Eq)]
pub enum AcquireStep {
    /// Write the marker, then pass the write's result to `acquire_written`.
    WriteMarker,
    /// Nothing more to do: report this outcome.
    Finish(AcquireOutcome),
}

/// The next step of releasing, once the existence check is known.
#[derive(Clone, Debug, PartialEq, Eq)]
pub enum ReleaseStep {
    /// Remove the marker, then pass the removal's result to `release_removed`.
    RemoveMarker,
    /// Nothing more to do: report this outcome.
    Finish(ReleaseOutcome),
}

/// The result of creating a marker with an exclusive create.
#[derive(Clone, Debug, PartialEq, Eq)]
pub enum CreateResult {
    /// The marker did not exist and was created.
    Created,
    /// Something already existed at the marker path.
    AlreadyExists,
    /// The create failed for another reason.
    Failed(String),
}

/// The step of acquiring after an existence check that answered
/// `marker_exists`: an existing marker is never overwritten.
pub open spec fn acquire_decision(marker_exists: bool) -> AcquireStep {
    if marker_exists {
        AcquireStep::Finish(AcquireOutcome::AlreadyHeld)
    } else {
        AcquireStep::WriteMarker
    }
}

/// The step of releasing after an existence check that answered
/// `marker_exists`.
pub open spec fn release_decision(marker_exists: bool) -> ReleaseStep {
    if marker_exists {
        ReleaseStep::RemoveMarker
    } else {
        ReleaseStep::Finish(ReleaseOutcome::NothingToRelease)
    }
}

/// What acquiring reports after the marker write ended with `written`.
pub open spec fn acquire_written_outcome(written: Result<(), String>) -> AcquireOutcome {
    match written {
        Ok(()) => AcquireOutcome::Acquired,
        Err(reason) => AcquireOutcome::Failed(reason),
    }
}

/// What releasing reports after the marker removal ended with `removed`.
pub open spec fn release_removed_outcome(removed: Result<(), String>) -> ReleaseOutcome {
    match removed {
        Ok(()) => ReleaseOutcome::Released,
        Err(reason) => ReleaseOutcome::Failed(reason),
    }
}

/// What acquiring reports after an exclusive create ended with `created`.
pub open spec fn exclusive_outcome(created: CreateResult) -> AcquireOutcome {
    match created {
        CreateResult::Created => AcquireOutcome::Acquired,
        CreateResult::AlreadyExists => AcquireOutcome::AlreadyHeld,
        CreateResult::Failed(reason) => AcquireOutcome::Failed(reason),
    }
}

/// Decides the step of acquiring after the existence check.
pub fn acquire_step(marker_exists: bool) -> (r: AcquireStep)
    ensures
        r == acquire_decision(marker_exists),
{
    if marker_exists {
        AcquireStep::Finish(AcquireOutcome::AlreadyHeld)
    } else {
        AcquireStep::WriteMarker
    }
}

/// Turns the result of the marker write into the outcome of acquiring.
pub fn acquire_written(written: Result<(), String>) -> (r: AcquireOutcome)
    ensures
        r == acquire_written_outcome(written),
{
    match written {
        Ok(()) => AcquireOutcome::Acquired,
        Err(reason) => AcquireOutcome::Failed(reason),
    }
}

/// Decides the step of releasing after the existence check.
pub fn release_step(marker_exists: bool) -> (r: ReleaseStep)
    ensures
        r == release_decision(marker_exists),
{
    if marker_exists {
        ReleaseStep::RemoveMarker
    } else {
        ReleaseStep::Finish(ReleaseOutcome::NothingToRelease)
    }
}

/// Turns the result of the marker removal into the outcome of releasing.
pub fn release_removed(removed: Result<(), String>) -> (r: ReleaseOutcome)
    ensures
        r == release_removed_outcome(removed),
{
    match removed {
        Ok(()) => ReleaseOutcome::Released,
        Err(reason) => ReleaseOutcome::Failed(reason),
    }
}

/// Turns the result of an exclusive create of the marker into the outcome
/// of acquiring, in one step with no window between check and create.
pub fn exclusive_create_outcome(created: CreateResult) -> (r: AcquireOutcome)
    ensures
        r == exclusive_outcome(created),
{
    match created {
        CreateResult::Created => AcquireOutcome::Acquired,
        CreateResult::AlreadyExists => AcquireOutcome::AlreadyHeld,
        CreateResult::Failed(reason) => AcquireOutcome::Failed(reason),
    }
}

} // verus!
