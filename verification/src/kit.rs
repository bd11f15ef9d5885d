//! Kit rows, the kit builder and the finished kit.
//!
//! A kit is an ordered list of rows; each row plays one region of one
//! in-card sample. The builder accumulates rows across one or more source
//! files and is consumed once into a kit; a kit with no rows is a build
//! error, not a degenerate success.

use crate::card::SamplePath;
use crate::cues::{Region, RegionModel, regions_view};
use crate::errors::{Error, ErrorModel};
use crate::paths::PathModel;
use vstd::prelude::*;

verus! {

/// Mathematical image of a [`KitRow`].
#[verifier::ext_equal]
pub struct KitRowModel {
    pub sample: PathModel,
    pub start: int,
    pub end: int,
    pub label: Option<Seq<char>>,
}

/// One playable row of a kit: a sample and its playback span.
pub struct KitRow {
    pub sample: SamplePath,
    pub start_frame: u64,
    pub end_frame: u64,
    pub label: Option<String>,
}

impl View for KitRow {
    type V = KitRowModel;

    open spec fn view(&self) -> KitRowModel {
        KitRowModel {
            sample: self.sample@,
            start: self.start_frame as int,
            end: self.end_frame as int,
            label: match self.label {
                Some(ref s) => Some(s@),
                None => None,
            },
        }
    }
}

pub open spec fn rows_view(rows: Seq<KitRow>) -> Seq<KitRowModel> {
    Seq::new(rows.len(), |i: int| rows[i]@)
}

/// The playback description of one row: a sample and a frame span.
pub struct Sound {
    pub sample: SamplePath,
    pub start_frame: u64,
    pub end_frame: u64,
}

impl Sound {
    /// A sound playing `sample` from `start_frame` to `end_frame`.
    pub fn new_sample(sample: SamplePath, start_frame: u64, end_frame: u64) -> (r: Sound)
        ensures
            r.sample@ =~= sample@,
            r.start_frame == start_frame,
            r.end_frame == end_frame,
    {
        Sound { sample, start_frame, end_frame }
    }
}

/// Accumulates kit rows in discovery order.
pub struct KitBuilder {
    pub rows: Vec<KitRow>,
}

impl View for KitBuilder {
    type V = Seq<KitRowModel>;

    open spec fn view(&self) -> Seq<KitRowModel> {
        rows_view(self.rows@)
    }
}

/// A finished kit: its ordered rows.
pub struct Kit {
    pub rows: Vec<KitRow>,
}

impl View for Kit {
    type V = Seq<KitRowModel>;

    open spec fn view(&self) -> Seq<KitRowModel> {
        rows_view(self.rows@)
    }
}

impl Default for KitBuilder {
    /// A builder with no rows yet.
    fn default() -> (r: KitBuilder)
        ensures
            r@ =~= Seq::<KitRowModel>::empty(),
    {
        KitBuilder { rows: Vec::new() }
    }
}

impl KitBuilder {
    /// Appends an unnamed row playing `sound`.
    pub fn add_sound_row(&mut self, sound: Sound)
        ensures
            final(self)@ =~= old(self)@.push(
                KitRowModel {
                    sample: sound.sample@,
                    start: sound.start_frame as int,
                    end: sound.end_frame as int,
                    label: None,
                },
            ),
    {
        self.rows.push(
            KitRow {
                sample: sound.sample,
                start_frame: sound.start_frame,
                end_frame: sound.end_frame,
                label: None,
            },
        );
    }

    /// Appends a row playing `sound`, labelled `label`.
    pub fn add_named_sound_row(&mut self, sound: Sound, label: String)
        ensures
            final(self)@ =~= old(self)@.push(
                KitRowModel {
                    sample: sound.sample@,
                    start: sound.start_frame as int,
                    end: sound.end_frame as int,
                    label: Some(label@),
                },
            ),
    {
        self.rows.push(
            KitRow {
                sample: sound.sample,
                start_frame: sound.start_frame,
                end_frame: sound.end_frame,
                label: Some(label),
            },
        );
    }

    /// Finalizes the builder. A builder with no rows is a build error.
    pub fn build(self) -> (r: Result<Kit, Error>)
        ensures
            self@.len() == 0 <==> r is Err,
            match r {
                Ok(kit) => kit@ =~= self@,
                Err(e) => e@ == ErrorModel::KitBuilding,
            },
    {
        if self.rows.len() == 0 {
            Err(Error::KitBuilding)
        } else {
            Ok(Kit { rows: self.rows })
        }
    }
}

/// The rows that a file's regions contribute, in region order, all
/// referencing the same in-card sample.
pub open spec fn rows_of(regions: Seq<RegionModel>, sample: PathModel) -> Seq<KitRowModel> {
    Seq::new(
        regions.len(),
        |i: int|
            KitRowModel {
                sample: sample,
                start: regions[i].start,
                end: regions[i].end,
                label: regions[i].label,
            },
    )
}

/// Appends one row per region to the builder, in region order: a labelled
/// region becomes a named row, an unlabelled one an unnamed row.
pub fn add_regions_to_kit(
    builder: &mut KitBuilder,
    regions: &Vec<Region>,
    destination_sample_path: &SamplePath,
)
    ensures
        final(builder)@ =~= old(builder)@ + rows_of(
            regions_view(regions@),
            destination_sample_path@,
        ),
{
    let mut i: usize = 0;
    while i < regions.len()
        invariant
            i <= regions.len(),
            builder@ =~= old(builder)@ + rows_of(
                regions_view(regions@).take(i as int),
                destination_sample_path@,
            ),
        decreases regions.len() - i,
    {
        let sound = Sound::new_sample(
            destination_sample_path.duplicate(),
            regions[i].start_frame,
            regions[i].end_frame,
        );
        match &regions[i].label {
            Some(label) => builder.add_named_sound_row(sound, label.clone()),
            None => builder.add_sound_row(sound),
        }
        proof {
            assert(rows_of(regions_view(regions@).take(i + 1), destination_sample_path@)
                =~= rows_of(regions_view(regions@).take(i as int), destination_sample_path@).push(
                KitRowModel {
                    sample: destination_sample_path@,
                    start: regions@[i as int]@.start,
                    end: regions@[i as int]@.end,
                    label: regions@[i as int]@.label,
                },
            ));
        }
        i = i + 1;
    }
    proof {
        assert(regions_view(regions@).take(regions@.len() as int) =~= regions_view(regions@));
    }
}

} // verus!
