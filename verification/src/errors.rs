//! The error taxonomy of the kit generation pipeline.

use crate::paths::{FilePath, PathModel};
use vstd::prelude::*;

verus! {

/// Mathematical image of an [`Error`].
#[verifier::ext_equal]
pub enum ErrorModel {
    KitBuilding,
    SampleAlreadyExists,
    DirectoryOutOfCard { directory: PathModel, card_root_directory: PathModel },
    NotAFile(PathModel),
}

/// What can go wrong while a kit plan is computed.
///
/// Failures of the surrounding I/O (unreadable wave metadata, a failed
/// patch write, a failed copy) belong to the caller; only the decisions
/// made here produce these values.
#[derive(Debug)]
pub enum Error {
    /// The finished kit would have no rows.
    KitBuilding,
    /// The destination sample exists and the policy forbids both replacing
    /// and skipping it.
    SampleAlreadyExists,
    /// An absolute destination directory does not lie under the card root.
    DirectoryOutOfCard { directory: FilePath, card_root_directory: FilePath },
    /// A source path does not refer to a regular file.
    NotAFile(FilePath),
}

impl View for Error {
    type V = ErrorModel;

    open spec fn view(&self) -> ErrorModel {
        match self {
            Error::KitBuilding => ErrorModel::KitBuilding,
            Error::SampleAlreadyExists => ErrorModel::SampleAlreadyExists,
            Error::DirectoryOutOfCard { directory, card_root_directory } => {
                ErrorModel::DirectoryOutOfCard {
                    directory: directory@,
                    card_root_directory: card_root_directory@,
                }
            },
            Error::NotAFile(path) => ErrorModel::NotAFile(path@),
        }
    }
}

impl Error {
    /// A short description, for reporting by the caller.
    pub fn describe(&self) -> (r: &'static str)
        ensures
            r@ == match self {
                Error::KitBuilding => "the kit would have no rows"@,
                Error::SampleAlreadyExists => "the sample already exists"@,
                Error::DirectoryOutOfCard { .. } => "the directory is outside the card"@,
                Error::NotAFile(..) => "the source path is not a file"@,
            },
    {
        match self {
            Error::KitBuilding => "the kit would have no rows",
            Error::SampleAlreadyExists => "the sample already exists",
            Error::DirectoryOutOfCard { .. } => "the directory is outside the card",
            Error::NotAFile(..) => "the source path is not a file",
        }
    }
}

} // verus!
