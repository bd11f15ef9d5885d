//! The managed storage root ("card") and destination path resolution.
//!
//! The card is the directory tree of the target device. Samples live under
//! its `SAMPLES` directory, kit patches under `KITS`. The resolver decides
//! where a copied sample will live: a relative destination directory is
//! taken relative to the samples directory, an absolute one must stay
//! inside the card.

use crate::errors::{Error, ErrorModel};
use crate::paths::{FilePath, PathModel};
use vstd::prelude::*;

verus! {

/// The standard directories at the root of a card.
pub enum CardFolder {
    Kits,
    Samples,
}

pub open spec fn folder_name_spec(folder: CardFolder) -> Seq<char> {
    match folder {
        CardFolder::Kits => "KITS"@,
        CardFolder::Samples => "SAMPLES"@,
    }
}

/// Mathematical image of a [`Card`]: its root directory.
#[verifier::ext_equal]
pub struct CardModel {
    pub root: PathModel,
}

/// A card, identified by its root directory.
pub struct Card {
    pub root: FilePath,
}

/// The directory of `folder` at the root of the card.
pub open spec fn directory_spec(card: CardModel, folder: CardFolder) -> PathModel {
    PathModel {
        absolute: card.root.absolute,
        components: card.root.components.push(folder_name_spec(folder)),
    }
}

/// A sample's canonical location inside the card: a path relative to the
/// card root. Obtained only through [`Card::sample_path`].
pub struct SamplePath {
    pub path: FilePath,
}

impl View for SamplePath {
    type V = PathModel;

    open spec fn view(&self) -> PathModel {
        self.path@
    }
}

impl SamplePath {
    /// Structural copy of the handle.
    pub fn duplicate(&self) -> (r: SamplePath)
        ensures
            r@ =~= self@,
    {
        SamplePath { path: self.path.duplicate() }
    }
}

impl View for Card {
    type V = CardModel;

    open spec fn view(&self) -> CardModel {
        CardModel { root: self.root@ }
    }
}

impl Card {
    /// A card rooted at `root`.
    pub fn new(root: FilePath) -> (r: Card)
        ensures
            r@.root =~= root@,
    {
        Card { root }
    }

    /// The root directory of the card.
    pub fn root_directory(&self) -> (r: &FilePath)
        ensures
            r@ =~= self@.root,
    {
        &self.root
    }

    /// The path of one of the card's standard directories.
    pub fn get_directory_path(&self, folder: CardFolder) -> (r: FilePath)
        ensures
            r@ =~= directory_spec(self@, folder),
    {
        let mut r = self.root.duplicate();
        let name: &str = match folder {
            CardFolder::Kits => "KITS",
            CardFolder::Samples => "SAMPLES",
        };
        r.push(name.to_owned());
        r
    }

    /// The in-card handle of a sample stored at `path`: the remainder of
    /// `path` under the card root. A path that does not lie inside the
    /// card has no such handle.
    pub fn sample_path(&self, path: &FilePath) -> (r: Result<SamplePath, Error>)
        ensures
            path@.starts_with(self@.root) <==> r is Ok,
            match r {
                Ok(sp) => {
                    &&& !sp@.absolute
                    &&& sp@.components =~= path@.components.skip(
                        self@.root.components.len() as int,
                    )
                },
                Err(e) => e@ == (ErrorModel::DirectoryOutOfCard {
                    directory: path@,
                    card_root_directory: self@.root,
                }),
            },
    {
        if path.starts_with(&self.root) {
            Ok(SamplePath { path: path.strip_prefix(&self.root) })
        } else {
            Err(
                Error::DirectoryOutOfCard {
                    directory: path.duplicate(),
                    card_root_directory: self.root.duplicate(),
                },
            )
        }
    }
}

/// Where a source sample will live on the card, and why resolution can
/// fail: the source must be a regular file, and an absolute destination
/// directory must lie inside the card. A relative destination directory
/// is taken relative to the card's samples directory. The resolved path
/// is the destination directory plus the source file's name.
pub open spec fn resolve_spec(
    source: PathModel,
    source_is_file: bool,
    destination_dir: PathModel,
    card: CardModel,
) -> Result<PathModel, ErrorModel> {
    if !source_is_file {
        Err(ErrorModel::NotAFile(source))
    } else if destination_dir.absolute && !destination_dir.starts_with(card.root) {
        Err(
            ErrorModel::DirectoryOutOfCard {
                directory: destination_dir,
                card_root_directory: card.root,
            },
        )
    } else {
        let dir = if destination_dir.absolute {
            destination_dir
        } else {
            directory_spec(card, CardFolder::Samples).join(destination_dir)
        };
        Ok(PathModel { absolute: dir.absolute, components: dir.components.push(source.components.last()) })
    }
}

/// Resolves the on-card destination of one source sample.
///
/// `source_is_file` is the caller's answer to whether `source_path` refers
/// to a regular file; this function itself performs no I/O.
pub fn get_sample_path(
    source_path: &FilePath,
    source_is_file: bool,
    destination_sample_directory: &FilePath,
    card: &Card,
) -> (r: Result<FilePath, Error>)
    requires
        source_is_file ==> source_path@.components.len() > 0,
    ensures
        match r {
            Ok(p) => resolve_spec(source_path@, source_is_file, destination_sample_directory@, card@)
                == Ok::<PathModel, ErrorModel>(p@),
            Err(e) => resolve_spec(
                source_path@,
                source_is_file,
                destination_sample_directory@,
                card@,
            ) == Err::<PathModel, ErrorModel>(e@),
        },
{
    if !source_is_file {
        return Err(Error::NotAFile(source_path.duplicate()));
    }
    let mut path: FilePath;
    if destination_sample_directory.is_absolute() {
        let card_directory = card.root_directory();
        if !destination_sample_directory.starts_with(card_directory) {
            return Err(
                Error::DirectoryOutOfCard {
                    directory: destination_sample_directory.duplicate(),
                    card_root_directory: card_directory.duplicate(),
                },
            );
        }
        path = destination_sample_directory.duplicate();
    } else {
        let samples = card.get_directory_path(CardFolder::Samples);
        path = samples.join(destination_sample_directory);
    }
    let name: String = match source_path.file_name() {
        Some(n) => n.clone(),
        None => {
            proof {
                assert(false);
            }
            String::new()
        },
    };
    path.push(name);
    proof {
        let spec_r = resolve_spec(
            source_path@,
            source_is_file,
            destination_sample_directory@,
            card@,
        );
        assert(spec_r is Ok);
        assert(path@.components =~= spec_r->Ok_0.components);
    }
    Ok(path)
}

/// An absolute destination directory outside the card root is always
/// rejected, whether or not the source path refers to a file.
pub proof fn lemma_absolute_outside_rejected(
    source: PathModel,
    source_is_file: bool,
    destination_dir: PathModel,
    card: CardModel,
)
    requires
        destination_dir.absolute,
        !destination_dir.starts_with(card.root),
    ensures
        resolve_spec(source, source_is_file, destination_dir, card) is Err,
{
}

} // verus!
