//! The kit generation orchestrator.
//!
//! Drives the pipeline over a batch of source files whose cue metadata
//! the caller has already read: resolve each file's destination, turn its
//! cue points into regions and its regions into kit rows, and record a
//! deferred copy for every file that contributed at least one row. The
//! result is a plan: the finalized kit and the list of copies to perform
//! once the kit has been durably written, so that a failed build never
//! leaves orphaned copied samples.

use crate::card::{Card, CardModel, SamplePath, get_sample_path, resolve_spec};
use crate::copying::{CopyTask, CopyTaskModel, copy_tasks_view};
use crate::cues::{
    CueModel,
    CuePoint,
    cues_ordered,
    cues_view,
    cues_within,
    explicit_lengths_fit,
    extract_regions,
    regions_of,
    regions_view,
};
use crate::errors::{Error, ErrorModel};
use crate::kit::{Kit, KitBuilder, KitRowModel, add_regions_to_kit, rows_of};
use crate::paths::{FilePath, PathModel};
use vstd::prelude::*;

verus! {

/// Mathematical image of a [`SourceSample`].
#[verifier::ext_equal]
pub struct SourceSampleModel {
    pub path: PathModel,
    pub is_file: bool,
    pub cue_points: Seq<CueModel>,
    pub total_frames: int,
}

/// Everything the pipeline needs to know about one source file, read
/// eagerly by the caller before any write happens.
pub struct SourceSample {
    /// Where the source file lives.
    pub path: FilePath,
    /// Whether `path` refers to a regular file.
    pub is_file: bool,
    /// The file's cue points, in ascending frame order.
    pub cue_points: Vec<CuePoint>,
    /// The file's total frame count.
    pub total_frames: u64,
}

impl View for SourceSample {
    type V = SourceSampleModel;

    open spec fn view(&self) -> SourceSampleModel {
        SourceSampleModel {
            path: self.path@,
            is_file: self.is_file,
            cue_points: cues_view(self.cue_points@),
            total_frames: self.total_frames as int,
        }
    }
}

impl SourceSample {
    /// Structural copy of the source description.
    pub fn duplicate(&self) -> (r: SourceSample)
        ensures
            r@ =~= self@,
    {
        let mut cue_points: Vec<CuePoint> = Vec::new();
        let mut i: usize = 0;
        while i < self.cue_points.len()
            invariant
                i <= self.cue_points.len(),
                cue_points@.len() == i as int,
                forall|j: int| 0 <= j < i as int ==> cue_points@[j]@ == self.cue_points@[j]@,
            decreases self.cue_points.len() - i,
        {
            cue_points.push(self.cue_points[i].duplicate());
            i = i + 1;
        }
        let r = SourceSample {
            path: self.path.duplicate(),
            is_file: self.is_file,
            cue_points,
            total_frames: self.total_frames,
        };
        proof {
            assert(cues_view(r.cue_points@) =~= cues_view(self.cue_points@));
            assert(r@ =~= self@);
        }
        r
    }
}

pub open spec fn sources_view(sources: Seq<SourceSample>) -> Seq<SourceSampleModel> {
    Seq::new(sources.len(), |i: int| sources[i]@)
}

/// The assumptions under which one source sample can be processed: cue
/// points ordered and inside the file, explicit spans representable, and
/// a source path that has a file name when it refers to a file.
pub open spec fn source_ok(s: SourceSampleModel) -> bool {
    &&& cues_ordered(s.cue_points)
    &&& cues_within(s.cue_points, s.total_frames)
    &&& explicit_lengths_fit(s.cue_points)
    &&& s.is_file ==> s.path.components.len() > 0
}

/// Mathematical image of a [`KitPlan`].
#[verifier::ext_equal]
pub struct KitPlanModel {
    pub rows: Seq<KitRowModel>,
    pub copies: Seq<CopyTaskModel>,
}

/// The outcome of a successful build: the finalized kit, and the copies
/// to perform once the kit has been written.
pub struct KitPlan {
    pub kit: Kit,
    pub copies: Vec<CopyTask>,
}

impl View for KitPlan {
    type V = KitPlanModel;

    open spec fn view(&self) -> KitPlanModel {
        KitPlanModel { rows: self.kit@, copies: copy_tasks_view(self.copies@) }
    }
}

/// A resolved destination, seen from inside the card: relative to the
/// card root.
pub open spec fn in_card_path(card: CardModel, p: PathModel) -> PathModel {
    PathModel { absolute: false, components: p.components.skip(card.root.components.len() as int) }
}

/// The rows one source file contributes: one per region, in cue order,
/// referencing its in-card sample path. A file whose destination cannot
/// be resolved, or with no cue points, contributes none.
pub open spec fn contributed_rows(
    source: SourceSampleModel,
    destination_dir: PathModel,
    card: CardModel,
) -> Seq<KitRowModel> {
    match resolve_spec(source.path, source.is_file, destination_dir, card) {
        Err(_) => Seq::empty(),
        Ok(dst) => if !dst.starts_with(card.root) {
            Seq::empty()
        } else if source.cue_points.len() == 0 {
            Seq::empty()
        } else {
            rows_of(
                regions_of(source.cue_points, source.total_frames),
                in_card_path(card, dst),
            )
        },
    }
}

/// The copy tasks one source file contributes: exactly one when it has at
/// least one cue point and its destination resolves, none otherwise.
pub open spec fn contributed_copies(
    source: SourceSampleModel,
    destination_dir: PathModel,
    card: CardModel,
) -> Seq<CopyTaskModel> {
    match resolve_spec(source.path, source.is_file, destination_dir, card) {
        Err(_) => Seq::empty(),
        Ok(dst) => if !dst.starts_with(card.root) {
            Seq::empty()
        } else if source.cue_points.len() == 0 {
            Seq::empty()
        } else {
            seq![CopyTaskModel { source_path: source.path, destination_path: dst }]
        },
    }
}

/// Processing one source file: fail if its destination does not resolve
/// or has no in-card handle, otherwise extend the accumulated rows and
/// copies with the file's contribution.
pub open spec fn step_spec(
    source: SourceSampleModel,
    destination_dir: PathModel,
    card: CardModel,
    rows: Seq<KitRowModel>,
    copies: Seq<CopyTaskModel>,
) -> Result<(Seq<KitRowModel>, Seq<CopyTaskModel>), ErrorModel> {
    match resolve_spec(source.path, source.is_file, destination_dir, card) {
        Err(e) => Err(e),
        Ok(dst) => if !dst.starts_with(card.root) {
            Err(
                ErrorModel::DirectoryOutOfCard {
                    directory: dst,
                    card_root_directory: card.root,
                },
            )
        } else {
            Ok(
                (
                    rows + contributed_rows(source, destination_dir, card),
                    copies + contributed_copies(source, destination_dir, card),
                ),
            )
        },
    }
}

/// The rows and copies accumulated over the first `n` source files,
/// stopping at the first file whose destination does not resolve.
pub open spec fn accumulate_spec(
    sources: Seq<SourceSampleModel>,
    destination_dir: PathModel,
    card: CardModel,
    n: int,
) -> Result<(Seq<KitRowModel>, Seq<CopyTaskModel>), ErrorModel>
    decreases n,
{
    if n <= 0 {
        Ok((Seq::empty(), Seq::empty()))
    } else {
        match accumulate_spec(sources, destination_dir, card, n - 1) {
            Err(e) => Err(e),
            Ok(state) => step_spec(sources[n - 1], destination_dir, card, state.0, state.1),
        }
    }
}

/// What generating a kit over a batch of source files produces: the
/// accumulated rows and copies, finalized into a kit plan; a batch whose
/// kit would have no rows is a build error.
pub open spec fn plan_spec(
    sources: Seq<SourceSampleModel>,
    destination_dir: PathModel,
    card: CardModel,
) -> Result<KitPlanModel, ErrorModel> {
    match accumulate_spec(sources, destination_dir, card, sources.len() as int) {
        Err(e) => Err(e),
        Ok(state) => if state.0.len() == 0 {
            Err(ErrorModel::KitBuilding)
        } else {
            Ok(KitPlanModel { rows: state.0, copies: state.1 })
        },
    }
}

/// The rows of the first `n` source files, concatenated in file order.
pub open spec fn rows_up_to(
    sources: Seq<SourceSampleModel>,
    destination_dir: PathModel,
    card: CardModel,
    n: int,
) -> Seq<KitRowModel>
    decreases n,
{
    if n <= 0 {
        Seq::empty()
    } else {
        rows_up_to(sources, destination_dir, card, n - 1) + contributed_rows(
            sources[n - 1],
            destination_dir,
            card,
        )
    }
}

/// The copy tasks of the first `n` source files, concatenated in file
/// order.
pub open spec fn copies_up_to(
    sources: Seq<SourceSampleModel>,
    destination_dir: PathModel,
    card: CardModel,
    n: int,
) -> Seq<CopyTaskModel>
    decreases n,
{
    if n <= 0 {
        Seq::empty()
    } else {
        copies_up_to(sources, destination_dir, card, n - 1) + contributed_copies(
            sources[n - 1],
            destination_dir,
            card,
        )
    }
}

/// A successful accumulation is exactly the file-by-file concatenation of
/// each file's contributed rows and copies.
proof fn lemma_accumulate_decomposes(
    sources: Seq<SourceSampleModel>,
    destination_dir: PathModel,
    card: CardModel,
    n: int,
)
    requires
        0 <= n,
        accumulate_spec(sources, destination_dir, card, n) is Ok,
    ensures
        accumulate_spec(sources, destination_dir, card, n)->Ok_0.0 == rows_up_to(
            sources,
            destination_dir,
            card,
            n,
        ),
        accumulate_spec(sources, destination_dir, card, n)->Ok_0.1 == copies_up_to(
            sources,
            destination_dir,
            card,
            n,
        ),
    decreases n,
{
    if n > 0 {
        assert(accumulate_spec(sources, destination_dir, card, n - 1) is Ok);
        lemma_accumulate_decomposes(sources, destination_dir, card, n - 1);
    }
}

/// Row order in a finalized kit follows the input: rows are grouped by
/// source file in the order the files were supplied, each file's group
/// being its contributed rows, which follow cue order by construction.
/// The copy list follows the same file order.
pub proof fn lemma_rows_follow_input_order(
    sources: Seq<SourceSampleModel>,
    destination_dir: PathModel,
    card: CardModel,
    plan: KitPlanModel,
)
    requires
        plan_spec(sources, destination_dir, card) == Ok::<KitPlanModel, ErrorModel>(plan),
    ensures
        plan.rows == rows_up_to(sources, destination_dir, card, sources.len() as int),
        plan.copies == copies_up_to(sources, destination_dir, card, sources.len() as int),
{
    assert(accumulate_spec(sources, destination_dir, card, sources.len() as int) is Ok);
    lemma_accumulate_decomposes(sources, destination_dir, card, sources.len() as int);
}

/// Every copy task in an accumulation comes from a source file with at
/// least one cue point, and carries that file's path as its source.
proof fn lemma_copies_from_cue_files(
    sources: Seq<SourceSampleModel>,
    destination_dir: PathModel,
    card: CardModel,
    n: int,
)
    requires
        0 <= n,
    ensures
        forall|k: int|
            0 <= k < copies_up_to(sources, destination_dir, card, n).len() ==> exists|j: int|
                0 <= j < n && sources[j].cue_points.len() > 0 && (#[trigger] copies_up_to(
                    sources,
                    destination_dir,
                    card,
                    n,
                )[k]).source_path == sources[j].path,
    decreases n,
{
    if n > 0 {
        lemma_copies_from_cue_files(sources, destination_dir, card, n - 1);
        let prev = copies_up_to(sources, destination_dir, card, n - 1);
        let cur = copies_up_to(sources, destination_dir, card, n);
        let extra = contributed_copies(sources[n - 1], destination_dir, card);
        assert forall|k: int| 0 <= k < cur.len() implies exists|j: int|
            0 <= j < n && sources[j].cue_points.len() > 0 && (#[trigger] cur[k]).source_path
                == sources[j].path by {
            if k < prev.len() {
                assert(cur[k] == prev[k]);
                let j = choose|j: int|
                    0 <= j < n - 1 && sources[j].cue_points.len() > 0 && prev[k].source_path
                        == sources[j].path;
                assert(0 <= j < n && sources[j].cue_points.len() > 0 && cur[k].source_path
                    == sources[j].path);
            } else {
                assert(extra.len() > 0);
                assert(sources[n - 1].cue_points.len() > 0);
                assert(cur[k] == extra[k - prev.len()]);
                assert(cur[k].source_path == sources[n - 1].path);
                assert(0 <= n - 1 < n && sources[n - 1].cue_points.len() > 0 && cur[k].source_path
                    == sources[n - 1].path);
            }
        }
    }
}

/// A source file with zero cue points contributes zero rows and is
/// excluded from the copy set: when its path names no other source of
/// the batch, no copy task of the finished plan carries it.
pub proof fn lemma_zero_cue_file_excluded(
    sources: Seq<SourceSampleModel>,
    destination_dir: PathModel,
    card: CardModel,
    plan: KitPlanModel,
    i: int,
)
    requires
        plan_spec(sources, destination_dir, card) == Ok::<KitPlanModel, ErrorModel>(plan),
        0 <= i < sources.len(),
        sources[i].cue_points.len() == 0,
        forall|j: int|
            0 <= j < sources.len() && j != i ==> (#[trigger] sources[j]).path != sources[i].path,
    ensures
        contributed_rows(sources[i], destination_dir, card) == Seq::<KitRowModel>::empty(),
        forall|k: int|
            0 <= k < plan.copies.len() ==> (#[trigger] plan.copies[k]).source_path
                != sources[i].path,
{
    assert(contributed_rows(sources[i], destination_dir, card) =~= Seq::<KitRowModel>::empty());
    lemma_rows_follow_input_order(sources, destination_dir, card, plan);
    lemma_copies_from_cue_files(sources, destination_dir, card, sources.len() as int);
    assert forall|k: int| 0 <= k < plan.copies.len() implies (#[trigger] plan.copies[k]).source_path
        != sources[i].path by {
        let j = choose|j: int|
            0 <= j < sources.len() && sources[j].cue_points.len() > 0 && plan.copies[k].source_path
                == sources[j].path;
        assert(j != i);
    }
}

/// Once accumulation has failed, it stays failed with the same error.
proof fn lemma_accumulate_error_stable(
    sources: Seq<SourceSampleModel>,
    destination_dir: PathModel,
    card: CardModel,
    n: int,
    m: int,
)
    requires
        0 <= n <= m,
        accumulate_spec(sources, destination_dir, card, n) is Err,
    ensures
        accumulate_spec(sources, destination_dir, card, m) == accumulate_spec(
            sources,
            destination_dir,
            card,
            n,
        ),
    decreases m - n,
{
    if n < m {
        lemma_accumulate_error_stable(sources, destination_dir, card, n, m - 1);
    }
}

/// Computes the kit plan for a batch of source files: the kit combining
/// every file's regions as rows, in file order then cue order, and one
/// deferred copy per file that contributed at least one row. Files with
/// zero cue points are skipped silently; a file whose source is not a
/// file or whose destination leaves the card fails the whole batch, as
/// does a batch that yields no row at all.
pub fn generate_kit_from_regions(
    source_samples: &Vec<SourceSample>,
    destination_sample_directory: &FilePath,
    card: &Card,
) -> (r: Result<KitPlan, Error>)
    requires
        forall|i: int|
            0 <= i < source_samples@.len() ==> source_ok(
                #[trigger] sources_view(source_samples@)[i],
            ),
    ensures
        match r {
            Ok(plan) => plan_spec(
                sources_view(source_samples@),
                destination_sample_directory@,
                card@,
            ) == Ok::<KitPlanModel, ErrorModel>(plan@),
            Err(e) => plan_spec(
                sources_view(source_samples@),
                destination_sample_directory@,
                card@,
            ) == Err::<KitPlanModel, ErrorModel>(e@),
        },
{
    let ghost sv = sources_view(source_samples@);
    let ghost d = destination_sample_directory@;
    let ghost c = card@;
    let mut kit_builder = KitBuilder::default();
    let mut copies: Vec<CopyTask> = Vec::new();
    let mut i: usize = 0;
    proof {
        assert(copy_tasks_view(copies@) =~= Seq::<CopyTaskModel>::empty());
    }
    while i < source_samples.len()
        invariant
            i <= source_samples@.len(),
            sv == sources_view(source_samples@),
            d == destination_sample_directory@,
            c == card@,
            forall|k: int| 0 <= k < sv.len() ==> source_ok(#[trigger] sv[k]),
            accumulate_spec(sv, d, c, i as int) == Ok::<
                (Seq<KitRowModel>, Seq<CopyTaskModel>),
                ErrorModel,
            >((kit_builder@, copy_tasks_view(copies@))),
        decreases source_samples@.len() - i,
    {
        let ghost rows0 = kit_builder@;
        let ghost copies0 = copy_tasks_view(copies@);
        let source = &source_samples[i];
        proof {
            assert(sv[i as int] == source_samples@[i as int]@);
            assert(source_ok(sv[i as int]));
        }
        let destination = match get_sample_path(
            &source.path,
            source.is_file,
            destination_sample_directory,
            card,
        ) {
            Ok(p) => p,
            Err(e) => {
                proof {
                    assert(resolve_spec(sv[i as int].path, sv[i as int].is_file, d, c)
                        == Err::<PathModel, ErrorModel>(e@));
                    assert(accumulate_spec(sv, d, c, i as int + 1) == Err::<
                        (Seq<KitRowModel>, Seq<CopyTaskModel>),
                        ErrorModel,
                    >(e@));
                    lemma_accumulate_error_stable(sv, d, c, i as int + 1, sv.len() as int);
                }
                return Err(e);
            },
        };
        let ghost dstm = destination@;
        let sample_path_in_card: SamplePath = match card.sample_path(&destination) {
            Ok(sp) => sp,
            Err(e) => {
                proof {
                    assert(!dstm.starts_with(c.root));
                    assert(accumulate_spec(sv, d, c, i as int + 1) == Err::<
                        (Seq<KitRowModel>, Seq<CopyTaskModel>),
                        ErrorModel,
                    >(e@));
                    lemma_accumulate_error_stable(sv, d, c, i as int + 1, sv.len() as int);
                }
                return Err(e);
            },
        };
        proof {
            assert(dstm.starts_with(c.root));
            assert(sample_path_in_card@ =~= in_card_path(c, dstm));
        }
        if source.cue_points.len() > 0 {
            let regions = extract_regions(&source.cue_points, source.total_frames);
            add_regions_to_kit(&mut kit_builder, &regions, &sample_path_in_card);
            let task = CopyTask {
                source_path: source.path.duplicate(),
                destination_path: destination,
            };
            proof {
                assert(task@ =~= (CopyTaskModel {
                    source_path: sv[i as int].path,
                    destination_path: dstm,
                }));
                assert(regions_view(regions@) =~= regions_of(
                    sv[i as int].cue_points,
                    sv[i as int].total_frames,
                ));
                assert(contributed_rows(sv[i as int], d, c) == rows_of(
                    regions_view(regions@),
                    sample_path_in_card@,
                ));
                assert(contributed_copies(sv[i as int], d, c) =~= seq![task@]);
            }
            copies.push(task);
            proof {
                assert(kit_builder@ =~= rows0 + contributed_rows(sv[i as int], d, c));
                assert(copy_tasks_view(copies@) =~= copies0 + contributed_copies(
                    sv[i as int],
                    d,
                    c,
                ));
            }
        } else {
            proof {
                assert(contributed_rows(sv[i as int], d, c) =~= Seq::<KitRowModel>::empty());
                assert(contributed_copies(sv[i as int], d, c) =~= Seq::<CopyTaskModel>::empty());
                assert(kit_builder@ =~= rows0 + contributed_rows(sv[i as int], d, c));
                assert(copy_tasks_view(copies@) =~= copies0 + contributed_copies(
                    sv[i as int],
                    d,
                    c,
                ));
            }
        }
        proof {
            assert(step_spec(sv[i as int], d, c, rows0, copies0) == Ok::<
                (Seq<KitRowModel>, Seq<CopyTaskModel>),
                ErrorModel,
            >((kit_builder@, copy_tasks_view(copies@))));
            assert(accumulate_spec(sv, d, c, i as int + 1) == Ok::<
                (Seq<KitRowModel>, Seq<CopyTaskModel>),
                ErrorModel,
            >((kit_builder@, copy_tasks_view(copies@))));
        }
        i = i + 1;
    }
    let ghost rows_final = kit_builder@;
    let kit = match kit_builder.build() {
        Ok(kit) => kit,
        Err(e) => {
            proof {
                assert(rows_final.len() == 0);
                assert(plan_spec(sv, d, c) == Err::<KitPlanModel, ErrorModel>(e@));
            }
            return Err(e);
        },
    };
    let plan = KitPlan { kit, copies };
    proof {
        assert(plan@ =~= (KitPlanModel { rows: rows_final, copies: copy_tasks_view(plan.copies@) }));
        assert(plan_spec(sv, d, c) == Ok::<KitPlanModel, ErrorModel>(plan@));
    }
    Ok(plan)
}

/// How a batch of source files becomes kits: one kit per source file, or
/// a single kit combining every file's regions.
#[derive(Clone, Copy, PartialEq, Eq, Structural, Debug)]
pub enum GenerationMode {
    PerFile,
    CombineAll,
}

/// Whether the outcome `r` is the one the plan `s` calls for.
pub open spec fn plan_result_matches(
    r: Result<KitPlan, Error>,
    s: Result<KitPlanModel, ErrorModel>,
) -> bool {
    match r {
        Ok(plan) => s == Ok::<KitPlanModel, ErrorModel>(plan@),
        Err(e) => s == Err::<KitPlanModel, ErrorModel>(e@),
    }
}

/// Runs kit generation over a batch in the chosen mode.
///
/// In combine-all mode the whole batch yields one result: a single kit
/// plan, or the first failure, which aborts the batch. In per-file mode
/// each source file yields its own independent result, in input order: a
/// failure on one file leaves the others' results untouched.
pub fn plan_kit_generation(
    source_samples: &Vec<SourceSample>,
    destination_sample_directory: &FilePath,
    card: &Card,
    mode: GenerationMode,
) -> (r: Vec<Result<KitPlan, Error>>)
    requires
        forall|i: int|
            0 <= i < source_samples@.len() ==> source_ok(
                #[trigger] sources_view(source_samples@)[i],
            ),
    ensures
        mode == GenerationMode::CombineAll ==> r@.len() == 1 && plan_result_matches(
            r@[0],
            plan_spec(sources_view(source_samples@), destination_sample_directory@, card@),
        ),
        mode == GenerationMode::PerFile ==> r@.len() == source_samples@.len() && forall|i: int|
            0 <= i < r@.len() ==> plan_result_matches(
                #[trigger] r@[i],
                plan_spec(
                    sources_view(source_samples@).subrange(i, i + 1),
                    destination_sample_directory@,
                    card@,
                ),
            ),
{
    let mut results: Vec<Result<KitPlan, Error>> = Vec::new();
    match mode {
        GenerationMode::CombineAll => {
            let res = generate_kit_from_regions(
                source_samples,
                destination_sample_directory,
                card,
            );
            results.push(res);
        },
        GenerationMode::PerFile => {
            let ghost sv = sources_view(source_samples@);
            let ghost d = destination_sample_directory@;
            let ghost c = card@;
            let mut i: usize = 0;
            while i < source_samples.len()
                invariant
                    i <= source_samples@.len(),
                    sv == sources_view(source_samples@),
                    d == destination_sample_directory@,
                    c == card@,
                    forall|k: int| 0 <= k < sv.len() ==> source_ok(#[trigger] sv[k]),
                    results@.len() == i as int,
                    forall|k: int|
                        0 <= k < i as int ==> plan_result_matches(
                            #[trigger] results@[k],
                            plan_spec(sv.subrange(k, k + 1), d, c),
                        ),
                decreases source_samples@.len() - i,
            {
                let mut one: Vec<SourceSample> = Vec::new();
                one.push(source_samples[i].duplicate());
                proof {
                    assert(sources_view(one@)[0] == one@[0]@);
                    assert(sv.subrange(i as int, i as int + 1)[0] == sv[i as int]);
                    assert(sources_view(one@) =~= sv.subrange(i as int, i as int + 1));
                    assert(source_ok(sv[i as int]));
                }
                let res = generate_kit_from_regions(&one, destination_sample_directory, card);
                results.push(res);
                i = i + 1;
            }
        },
    }
    results
}

} // verus!
