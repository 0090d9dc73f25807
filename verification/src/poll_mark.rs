//! The poll mark: a child attribute of a reserved type that asks the resolver
//! to read its parent again.
//!
//! The engine places or clears the mark when an attribute is due. The resolver
//! later visits the mark and runs the rule of this module, which clears the
//! parent's reported value and gives the mark a value of its own, so that the
//! mark counts as resolved. Every store operation is carried out by the
//! caller; the functions here decide which operation comes next and what the
//! rule answers.

use crate::attribute::AttributeStoreError;
use vstd::prelude::*;

verus! {

/// Status by which the rule tells the resolver that it failed.
pub const SL_STATUS_FAIL: u32 = 0x0001;

/// Status by which the rule tells the resolver that there is no frame to send.
pub const SL_STATUS_ALREADY_EXISTS: u32 = 0x002E;

/// Reported value that the rule gives to a mark it has handled.
pub const POLL_MARK_REPORTED_VALUE: u8 = 0;

/// How an attribute that is due gets its mark.
#[derive(Clone, Copy, Debug, PartialEq, Eq, Structural)]
pub enum PollMarkAction {
    /// The attribute has no mark: create one, without a value.
    Create,
    /// The attribute has a mark: clear its reported value.
    ClearReported,
}

/// A mark that exists is cleared; one that does not is created.
pub open spec fn mark_action(mark_present: bool) -> PollMarkAction {
    if mark_present {
        PollMarkAction::ClearReported
    } else {
        PollMarkAction::Create
    }
}

/// Chooses the store operation that marks an attribute for polling, given
/// whether the attribute already has a child of the poll mark type.
pub fn poll_mark_action(mark_present: bool) -> (action: PollMarkAction)
    ensures
        action == mark_action(mark_present),
{
    if mark_present {
        PollMarkAction::ClearReported
    } else {
        PollMarkAction::Create
    }
}

/// How far the rule has come when it asks what to do next.
#[derive(Clone, Copy, Debug, PartialEq, Eq)]
pub enum PollMarkProgress {
    /// The resolver has just invoked the rule.
    Invoked,
    /// The parent's reported value was to be cleared; this is how it went.
    ParentCleared(Result<(), AttributeStoreError>),
    /// The mark's reported value was to be written; this is how it went.
    MarkWritten(Result<(), AttributeStoreError>),
}

/// What the rule does next.
#[derive(Debug, PartialEq, Eq)]
pub enum PollMarkStep {
    /// Clear the reported value of the mark's parent.
    ClearParentReported,
    /// Write `value` as the reported value of the mark.
    SetMarkReported { value: u8 },
    /// The rule is over. `result` goes to the resolver: a status with the
    /// frame to send, or the reason why the mark could not be handled.
    Finished { result: Result<(u32, Vec<u8>), AttributeStoreError> },
}

/// The rule's answer once it is over: the status, or the store's error. The
/// frame is always empty and is not part of this value.
pub open spec fn mark_rule_result(progress: PollMarkProgress) -> Option<
    Result<u32, AttributeStoreError>,
> {
    match progress {
        PollMarkProgress::Invoked => None,
        PollMarkProgress::ParentCleared(Ok(())) => None,
        PollMarkProgress::ParentCleared(Err(e)) => Some(Err(e)),
        PollMarkProgress::MarkWritten(Ok(())) => Some(Ok(SL_STATUS_ALREADY_EXISTS)),
        PollMarkProgress::MarkWritten(Err(_)) => Some(Ok(SL_STATUS_FAIL)),
    }
}

/// Whether `step` is what the rule does at `progress`.
pub open spec fn is_mark_rule_step(progress: PollMarkProgress, step: PollMarkStep) -> bool {
    match progress {
        PollMarkProgress::Invoked => step == PollMarkStep::ClearParentReported,
        PollMarkProgress::ParentCleared(Ok(())) => step == (PollMarkStep::SetMarkReported {
            value: POLL_MARK_REPORTED_VALUE,
        }),
        _ => match step {
            PollMarkStep::Finished { result: Ok((status, frame)) } => mark_rule_result(progress)
                == Some(Ok::<u32, AttributeStoreError>(status)) && frame@.len() == 0,
            PollMarkStep::Finished { result: Err(e) } => mark_rule_result(progress) == Some(
                Err::<u32, AttributeStoreError>(e),
            ),
            _ => false,
        },
    }
}

/// The resolver rule of the poll mark, one step at a time.
///
/// The rule first clears the parent's reported value. Where the store refuses,
/// the rule ends with the store's error: for a mark that is gone, that it is
/// stale. Otherwise the rule writes the mark's own reported value. It then
/// ends with `SL_STATUS_ALREADY_EXISTS` and no frame, or, where the store did
/// not take the value, with `SL_STATUS_FAIL` and no frame.
pub fn poll_engine_mark(progress: PollMarkProgress) -> (step: PollMarkStep)
    ensures
        is_mark_rule_step(progress, step),
{
    match progress {
        PollMarkProgress::Invoked => PollMarkStep::ClearParentReported,
        PollMarkProgress::ParentCleared(Ok(())) => PollMarkStep::SetMarkReported {
            value: POLL_MARK_REPORTED_VALUE,
        },
        PollMarkProgress::ParentCleared(Err(e)) => PollMarkStep::Finished { result: Err(e) },
        PollMarkProgress::MarkWritten(Ok(())) => PollMarkStep::Finished {
            result: Ok((SL_STATUS_ALREADY_EXISTS, Vec::new())),
        },
        PollMarkProgress::MarkWritten(Err(_)) => PollMarkStep::Finished {
            result: Ok((SL_STATUS_FAIL, Vec::new())),
        },
    }
}

} // verus!
