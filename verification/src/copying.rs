//! The copy step: what to do about a sample's destination file.
//!
//! The decision depends only on whether the destination already exists,
//! on the replace flag and on the configured policy for an existing
//! destination; performing the copy itself is the caller's work.

use crate::errors::{Error, ErrorModel};
use crate::paths::{FilePath, PathModel};
use vstd::prelude::*;

verus! {

/// What to do when the destination exists and replacing is not asked for:
/// either quietly leave the existing file in place, or fail the run.
/// One policy is chosen per invocation and applied uniformly.
#[derive(Clone, Copy, PartialEq, Eq, Structural, Debug)]
pub enum ExistingSamplePolicy {
    Skip,
    Fail,
}

/// The action the copy step takes for one sample.
#[derive(Clone, Copy, PartialEq, Eq, Structural, Debug)]
pub enum CopyAction {
    /// The destination already holds the sample: write nothing.
    SkipExisting,
    /// Overwrite the existing destination file.
    ReplaceExisting,
    /// Copy to a destination that does not exist yet.
    CopyFresh,
}

impl CopyAction {
    /// Whether the action writes the destination file.
    pub open spec fn writes(self) -> bool {
        self != CopyAction::SkipExisting
    }
}

/// Mathematical image of a [`CopyTask`].
#[verifier::ext_equal]
pub struct CopyTaskModel {
    pub source_path: PathModel,
    pub destination_path: PathModel,
}

/// A deferred copy: one source file and its resolved destination,
/// recorded only for source files that produced at least one region and
/// executed only after the kit has been durably written.
pub struct CopyTask {
    pub source_path: FilePath,
    pub destination_path: FilePath,
}

impl View for CopyTask {
    type V = CopyTaskModel;

    open spec fn view(&self) -> CopyTaskModel {
        CopyTaskModel {
            source_path: self.source_path@,
            destination_path: self.destination_path@,
        }
    }
}

pub open spec fn copy_tasks_view(tasks: Seq<CopyTask>) -> Seq<CopyTaskModel> {
    Seq::new(tasks.len(), |i: int| tasks[i]@)
}

/// The copy step's decision: skip or fail on an existing destination
/// unless replacing was asked for; otherwise copy, replacing where the
/// destination exists.
pub open spec fn copy_action_spec(
    destination_exists: bool,
    replace_existing: bool,
    policy: ExistingSamplePolicy,
) -> Result<CopyAction, ErrorModel> {
    if destination_exists && !replace_existing {
        match policy {
            ExistingSamplePolicy::Skip => Ok(CopyAction::SkipExisting),
            ExistingSamplePolicy::Fail => Err(ErrorModel::SampleAlreadyExists),
        }
    } else if destination_exists {
        Ok(CopyAction::ReplaceExisting)
    } else {
        Ok(CopyAction::CopyFresh)
    }
}

/// Decides what the copy step does for one sample.
///
/// `destination_exists` is the caller's answer to whether the destination
/// file is already present; this function itself performs no I/O.
pub fn copy_sample_if_needed(
    destination_exists: bool,
    replace_existing: bool,
    policy: ExistingSamplePolicy,
) -> (r: Result<CopyAction, Error>)
    ensures
        match r {
            Ok(action) => copy_action_spec(destination_exists, replace_existing, policy)
                == Ok::<CopyAction, ErrorModel>(action),
            Err(e) => copy_action_spec(destination_exists, replace_existing, policy)
                == Err::<CopyAction, ErrorModel>(e@),
        },
{
    if destination_exists && !replace_existing {
        match policy {
            ExistingSamplePolicy::Skip => Ok(CopyAction::SkipExisting),
            ExistingSamplePolicy::Fail => Err(Error::SampleAlreadyExists),
        }
    } else if destination_exists {
        Ok(CopyAction::ReplaceExisting)
    } else {
        Ok(CopyAction::CopyFresh)
    }
}

/// Running the copy step on an already-copied sample with
/// `replace_existing` false never writes again: under the skip policy it
/// is a no-op without error, under the fail policy it is the
/// already-exists error. Repeating the step any number of times decides
/// the same, so a second invocation performs no additional write.
pub proof fn lemma_copy_step_idempotent(policy: ExistingSamplePolicy)
    ensures
        policy == ExistingSamplePolicy::Skip ==> copy_action_spec(true, false, policy)
            == Ok::<CopyAction, ErrorModel>(CopyAction::SkipExisting),
        policy == ExistingSamplePolicy::Fail ==> copy_action_spec(true, false, policy)
            == Err::<CopyAction, ErrorModel>(ErrorModel::SampleAlreadyExists),
        forall|a: CopyAction|
            copy_action_spec(true, false, policy) == Ok::<CopyAction, ErrorModel>(a)
                ==> !a.writes(),
{
}

} // verus!
