//! Cue points and the regions derived from them.
//!
//! A cue point carries a frame offset, an optional length and an optional
//! label, as read from the audio file's marker metadata. A region is the
//! closed `[start, end)` frame span a cue point stands for once a missing
//! length has been inferred: from the gap to the next cue point, or, for
//! the last cue point, from the remaining frames of the file.

use vstd::prelude::*;

verus! {

/// Mathematical image of a [`CuePoint`].
#[verifier::ext_equal]
pub struct CueModel {
    pub frame: int,
    pub length: Option<int>,
    pub label: Option<Seq<char>>,
}

/// One marker read from a source sample's metadata.
pub struct CuePoint {
    /// Frame offset of the marker inside the file.
    pub frame: u64,
    /// Length in frames, when the marker describes a range.
    pub length: Option<u64>,
    /// Text label of the marker, when one was provided.
    pub label: Option<String>,
}

impl View for CuePoint {
    type V = CueModel;

    open spec fn view(&self) -> CueModel {
        CueModel {
            frame: self.frame as int,
            length: match self.length {
                Some(l) => Some(l as int),
                None => None,
            },
            label: match self.label {
                Some(ref s) => Some(s@),
                None => None,
            },
        }
    }
}

/// Mathematical image of a [`Region`].
#[verifier::ext_equal]
pub struct RegionModel {
    pub start: int,
    pub end: int,
    pub label: Option<Seq<char>>,
}

/// A fully resolved playback span derived from one cue point.
pub struct Region {
    pub start_frame: u64,
    pub end_frame: u64,
    pub label: Option<String>,
}

impl View for Region {
    type V = RegionModel;

    open spec fn view(&self) -> RegionModel {
        RegionModel {
            start: self.start_frame as int,
            end: self.end_frame as int,
            label: match self.label {
                Some(ref s) => Some(s@),
                None => None,
            },
        }
    }
}

impl CuePoint {
    /// Structural copy of the cue point.
    pub fn duplicate(&self) -> (r: CuePoint)
        ensures
            r@ =~= self@,
    {
        CuePoint {
            frame: self.frame,
            length: self.length,
            label: match &self.label {
                Some(s) => Some(s.clone()),
                None => None,
            },
        }
    }
}

pub open spec fn cues_view(cues: Seq<CuePoint>) -> Seq<CueModel> {
    Seq::new(cues.len(), |i: int| cues[i]@)
}

pub open spec fn regions_view(regions: Seq<Region>) -> Seq<RegionModel> {
    Seq::new(regions.len(), |i: int| regions[i]@)
}

/// Cue points come ordered by ascending frame, as the metadata reader
/// returns them.
pub open spec fn cues_ordered(cues: Seq<CueModel>) -> bool {
    forall|i: int| 0 <= i && i + 1 < cues.len() ==> #[trigger] cues[i].frame <= cues[i + 1].frame
}

/// Every cue point lies inside the file.
pub open spec fn cues_within(cues: Seq<CueModel>, total_frames: int) -> bool {
    forall|i: int| 0 <= i < cues.len() ==> #[trigger] cues[i].frame <= total_frames
}

/// Explicit spans stay representable: start plus length fits the frame
/// counter's machine width.
pub open spec fn explicit_lengths_fit(cues: Seq<CueModel>) -> bool {
    forall|i: int|
        0 <= i < cues.len() ==> match #[trigger] cues[i].length {
            Some(l) => cues[i].frame + l <= u64::MAX,
            None => true,
        }
}

/// The effective length of cue point `i`: its own length when present,
/// else the gap to the next cue point, else the rest of the file.
pub open spec fn resolved_length(cues: Seq<CueModel>, total_frames: int, i: int) -> int {
    match cues[i].length {
        Some(l) => l,
        None => if i + 1 < cues.len() {
            cues[i + 1].frame - cues[i].frame
        } else {
            total_frames - cues[i].frame
        },
    }
}

/// The region cue point `i` produces.
pub open spec fn region_at(cues: Seq<CueModel>, total_frames: int, i: int) -> RegionModel {
    RegionModel {
        start: cues[i].frame,
        end: cues[i].frame + resolved_length(cues, total_frames, i),
        label: cues[i].label,
    }
}

/// All regions of a file, one per cue point, in cue order.
pub open spec fn regions_of(cues: Seq<CueModel>, total_frames: int) -> Seq<RegionModel> {
    Seq::new(cues.len(), |i: int| region_at(cues, total_frames, i))
}

/// Turns the cue points of one file into its list of regions, inferring
/// missing lengths. Zero cue points give zero regions, not an error.
pub fn extract_regions(cues: &Vec<CuePoint>, total_frames: u64) -> (r: Vec<Region>)
    requires
        cues_ordered(cues_view(cues@)),
        cues_within(cues_view(cues@), total_frames as int),
        explicit_lengths_fit(cues_view(cues@)),
    ensures
        regions_view(r@) =~= regions_of(cues_view(cues@), total_frames as int),
{
    let mut r: Vec<Region> = Vec::new();
    let mut i: usize = 0;
    while i < cues.len()
        invariant
            i <= cues.len(),
            cues_ordered(cues_view(cues@)),
            cues_within(cues_view(cues@), total_frames as int),
            explicit_lengths_fit(cues_view(cues@)),
            r@.len() == i as int,
            forall|j: int|
                0 <= j < i as int ==> r@[j]@ == region_at(
                    cues_view(cues@),
                    total_frames as int,
                    j,
                ),
        decreases cues.len() - i,
    {
        proof {
            let cv = cues_view(cues@);
            assert(cv[i as int] == cues@[i as int]@);
            if i + 1 < cues.len() {
                assert(cv[i as int].frame <= cv[i as int + 1].frame);
            }
            assert(cv[i as int].frame <= total_frames as int);
            assert(match cv[i as int].length {
                Some(l) => cv[i as int].frame + l <= u64::MAX,
                None => true,
            });
        }
        let frame = cues[i].frame;
        let length: u64 = match cues[i].length {
            Some(l) => l,
            None => {
                if i + 1 < cues.len() {
                    cues[i + 1].frame - frame
                } else {
                    total_frames - frame
                }
            },
        };
        let label: Option<String> = match &cues[i].label {
            Some(s) => Some(s.clone()),
            None => None,
        };
        r.push(Region { start_frame: frame, end_frame: frame + length, label });
        i = i + 1;
    }
    r
}

/// A cue point with an explicit length produces the region
/// `[frame, frame + length)` exactly: no inference is applied.
pub proof fn lemma_explicit_length(cues: Seq<CueModel>, total_frames: int, i: int, l: int)
    requires
        0 <= i < cues.len(),
        cues[i].length == Some(l),
    ensures
        regions_of(cues, total_frames)[i] == (RegionModel {
            start: cues[i].frame,
            end: cues[i].frame + l,
            label: cues[i].label,
        }),
{
}

/// A cue point without a length, other than the last, gets the gap to the
/// next cue point: its region ends where the next cue point starts.
pub proof fn lemma_inferred_gap_length(cues: Seq<CueModel>, total_frames: int, i: int)
    requires
        0 <= i,
        i + 1 < cues.len(),
        cues[i].length is None,
    ensures
        regions_of(cues, total_frames)[i].end == cues[i + 1].frame,
        regions_of(cues, total_frames)[i].end - regions_of(cues, total_frames)[i].start == cues[i
            + 1].frame - cues[i].frame,
{
}

/// The last cue point without a length runs to the end of the file: its
/// inferred length is the total frame count minus its start.
pub proof fn lemma_inferred_tail_length(cues: Seq<CueModel>, total_frames: int, i: int)
    requires
        0 <= i,
        i + 1 == cues.len(),
        cues[i].length is None,
    ensures
        regions_of(cues, total_frames)[i].end == total_frames,
        regions_of(cues, total_frames)[i].end - regions_of(cues, total_frames)[i].start
            == total_frames - cues[i].frame,
{
}

/// Under strictly ascending frames, positive explicit lengths and a last
/// cue point short of the file's end, every region satisfies the region
/// invariant: its end lies strictly after its start.
pub proof fn lemma_regions_positive(cues: Seq<CueModel>, total_frames: int)
    requires
        forall|i: int|
            0 <= i && i + 1 < cues.len() ==> #[trigger] cues[i].frame < cues[i + 1].frame,
        forall|i: int|
            0 <= i < cues.len() ==> match #[trigger] cues[i].length {
                Some(l) => l > 0,
                None => true,
            },
        cues.len() > 0 ==> cues[cues.len() - 1].frame < total_frames,
    ensures
        forall|i: int|
            0 <= i < cues.len() ==> (#[trigger] regions_of(cues, total_frames)[i]).end
                > regions_of(cues, total_frames)[i].start,
{
}

} // verus!
