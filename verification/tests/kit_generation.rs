use deluge_kit_gen::card::{Card, CardFolder};
use deluge_kit_gen::copying::{copy_sample_if_needed, CopyAction, ExistingSamplePolicy};
use deluge_kit_gen::cues::{extract_regions, CuePoint};
use deluge_kit_gen::errors::Error;
use deluge_kit_gen::generate::{
    generate_kit_from_regions, plan_kit_generation, GenerationMode, SourceSample,
};
use deluge_kit_gen::kit::{KitBuilder, Sound};
use deluge_kit_gen::paths::FilePath;

fn path(absolute: bool, components: &[&str]) -> FilePath {
    FilePath {
        absolute,
        components: components.iter().map(|c| c.to_string()).collect(),
    }
}

fn cue(frame: u64, length: Option<u64>, label: Option<&str>) -> CuePoint {
    CuePoint {
        frame,
        length,
        label: label.map(|l| l.to_string()),
    }
}

fn components(p: &FilePath) -> Vec<String> {
    p.components.clone()
}

fn source(name: &str, cues: Vec<CuePoint>, total_frames: u64) -> SourceSample {
    SourceSample {
        path: path(true, &["HOME", name]),
        is_file: true,
        cue_points: cues,
        total_frames,
    }
}

fn card() -> Card {
    Card::new(path(true, &["CARD"]))
}

#[test]
fn explicit_length_kept_exactly() {
    let cues = vec![cue(100, Some(50), None), cue(400, Some(1), Some("snare"))];
    let regions = extract_regions(&cues, 10_000);
    assert_eq!(regions.len(), 2);
    assert_eq!(regions[0].start_frame, 100);
    assert_eq!(regions[0].end_frame, 150);
    assert_eq!(regions[0].label, None);
    assert_eq!(regions[1].start_frame, 400);
    assert_eq!(regions[1].end_frame, 401);
    assert_eq!(regions[1].label, Some("snare".to_string()));
}

#[test]
fn missing_length_inferred_from_next_cue() {
    let cues = vec![cue(10, None, None), cue(250, Some(5), None)];
    let regions = extract_regions(&cues, 1000);
    assert_eq!(regions[0].start_frame, 10);
    assert_eq!(regions[0].end_frame, 250);
}

#[test]
fn missing_length_of_last_cue_runs_to_file_end() {
    let cues = vec![cue(10, Some(5), None), cue(250, None, None)];
    let regions = extract_regions(&cues, 1000);
    assert_eq!(regions[1].start_frame, 250);
    assert_eq!(regions[1].end_frame, 1000);
}

#[test]
fn region_scenario_three_unsized_cues() {
    let cues = vec![
        cue(100, None, Some("kick")),
        cue(500, None, None),
        cue(900, None, None),
    ];
    let regions = extract_regions(&cues, 1200);
    assert_eq!(regions.len(), 3);
    assert_eq!(
        (regions[0].start_frame, regions[0].end_frame),
        (100, 500)
    );
    assert_eq!(regions[0].label, Some("kick".to_string()));
    assert_eq!(
        (regions[1].start_frame, regions[1].end_frame),
        (500, 900)
    );
    assert_eq!(regions[1].label, None);
    assert_eq!(
        (regions[2].start_frame, regions[2].end_frame),
        (900, 1200)
    );
    assert_eq!(regions[2].label, None);
}

#[test]
fn zero_cue_points_give_zero_regions() {
    let regions = extract_regions(&Vec::new(), 500);
    assert!(regions.is_empty());
}

#[test]
fn combined_kit_skips_file_without_regions() {
    let a = source("a.wav", vec![cue(0, Some(10), None), cue(20, Some(10), None)], 100);
    let b = source("b.wav", Vec::new(), 100);
    let sources = vec![a, b];
    let plan = generate_kit_from_regions(&sources, &path(false, &["KITS"]), &card())
        .expect("combined build");
    assert_eq!(plan.kit.rows.len(), 2);
    assert_eq!(plan.copies.len(), 1);
    assert_eq!(components(&plan.copies[0].source_path), vec!["HOME", "a.wav"]);
    assert_eq!(
        components(&plan.copies[0].destination_path),
        vec!["CARD", "SAMPLES", "KITS", "a.wav"]
    );
}

#[test]
fn rows_follow_file_then_cue_order() {
    let a = source(
        "a.wav",
        vec![cue(5, None, Some("one")), cue(9, None, Some("two"))],
        20,
    );
    let b = source("b.wav", vec![cue(3, Some(4), Some("three"))], 50);
    let sources = vec![a, b];
    let plan = generate_kit_from_regions(&sources, &path(false, &["KITS"]), &card())
        .expect("combined build");
    let labels: Vec<Option<String>> = plan.kit.rows.iter().map(|r| r.label.clone()).collect();
    assert_eq!(
        labels,
        vec![
            Some("one".to_string()),
            Some("two".to_string()),
            Some("three".to_string())
        ]
    );
    assert_eq!(plan.kit.rows[0].start_frame, 5);
    assert_eq!(plan.kit.rows[0].end_frame, 9);
    assert_eq!(plan.kit.rows[1].start_frame, 9);
    assert_eq!(plan.kit.rows[1].end_frame, 20);
    assert_eq!(plan.kit.rows[2].start_frame, 3);
    assert_eq!(plan.kit.rows[2].end_frame, 7);
    assert_eq!(
        components(&plan.kit.rows[0].sample.path),
        vec!["SAMPLES", "KITS", "a.wav"]
    );
    assert_eq!(
        components(&plan.kit.rows[2].sample.path),
        vec!["SAMPLES", "KITS", "b.wav"]
    );
    assert!(!plan.kit.rows[0].sample.path.absolute);
}

#[test]
fn batch_without_any_region_is_a_build_error() {
    let a = source("a.wav", Vec::new(), 100);
    let sources = vec![a];
    let result = generate_kit_from_regions(&sources, &path(false, &["KITS"]), &card());
    assert!(matches!(result, Err(Error::KitBuilding)));
}

#[test]
fn source_that_is_no_file_fails_the_batch() {
    let mut a = source("a.wav", vec![cue(0, Some(10), None)], 100);
    a.is_file = false;
    let sources = vec![a];
    let result = generate_kit_from_regions(&sources, &path(false, &["KITS"]), &card());
    match result {
        Err(Error::NotAFile(p)) => assert_eq!(components(&p), vec!["HOME", "a.wav"]),
        other => panic!("expected NotAFile, got {:?}", other.is_ok()),
    }
}

#[test]
fn absolute_destination_outside_card_is_rejected() {
    let a = source("a.wav", vec![cue(0, Some(10), None)], 100);
    let sources = vec![a];
    let result =
        generate_kit_from_regions(&sources, &path(true, &["ELSEWHERE"]), &card());
    match result {
        Err(Error::DirectoryOutOfCard {
            directory,
            card_root_directory,
        }) => {
            assert_eq!(components(&directory), vec!["ELSEWHERE"]);
            assert_eq!(components(&card_root_directory), vec!["CARD"]);
        }
        other => panic!("expected DirectoryOutOfCard, got {:?}", other.is_ok()),
    }
}

#[test]
fn absolute_destination_inside_card_is_used_directly() {
    let a = source("a.wav", vec![cue(0, Some(10), None)], 100);
    let sources = vec![a];
    let plan =
        generate_kit_from_regions(&sources, &path(true, &["CARD", "MINE"]), &card())
            .expect("build");
    assert_eq!(
        components(&plan.copies[0].destination_path),
        vec!["CARD", "MINE", "a.wav"]
    );
    assert_eq!(
        components(&plan.kit.rows[0].sample.path),
        vec!["MINE", "a.wav"]
    );
}

#[test]
fn per_file_mode_isolates_failures() {
    let mut bad = source("bad.wav", vec![cue(0, Some(10), None)], 100);
    bad.is_file = false;
    let good = source("good.wav", vec![cue(0, Some(10), None)], 100);
    let sources = vec![bad, good];
    let results = plan_kit_generation(
        &sources,
        &path(false, &["KITS"]),
        &card(),
        GenerationMode::PerFile,
    );
    assert_eq!(results.len(), 2);
    assert!(matches!(results[0], Err(Error::NotAFile(_))));
    let plan = results[1].as_ref().expect("second file builds alone");
    assert_eq!(plan.kit.rows.len(), 1);
    assert_eq!(plan.copies.len(), 1);
}

#[test]
fn combine_all_mode_fails_fast() {
    let mut bad = source("bad.wav", vec![cue(0, Some(10), None)], 100);
    bad.is_file = false;
    let good = source("good.wav", vec![cue(0, Some(10), None)], 100);
    let sources = vec![bad, good];
    let results = plan_kit_generation(
        &sources,
        &path(false, &["KITS"]),
        &card(),
        GenerationMode::CombineAll,
    );
    assert_eq!(results.len(), 1);
    assert!(matches!(results[0], Err(Error::NotAFile(_))));
}

#[test]
fn copy_step_skips_existing_destination() {
    let first = copy_sample_if_needed(true, false, ExistingSamplePolicy::Skip);
    assert_eq!(first.unwrap(), CopyAction::SkipExisting);
    let second = copy_sample_if_needed(true, false, ExistingSamplePolicy::Skip);
    assert_eq!(second.unwrap(), CopyAction::SkipExisting);
}

#[test]
fn copy_step_fails_on_existing_destination_under_fail_policy() {
    let result = copy_sample_if_needed(true, false, ExistingSamplePolicy::Fail);
    assert!(matches!(result, Err(Error::SampleAlreadyExists)));
}

#[test]
fn copy_step_replaces_when_forced() {
    let replaced = copy_sample_if_needed(true, true, ExistingSamplePolicy::Skip);
    assert_eq!(replaced.unwrap(), CopyAction::ReplaceExisting);
    let forced_fail_policy = copy_sample_if_needed(true, true, ExistingSamplePolicy::Fail);
    assert_eq!(forced_fail_policy.unwrap(), CopyAction::ReplaceExisting);
}

#[test]
fn copy_step_copies_fresh_destination() {
    let fresh = copy_sample_if_needed(false, false, ExistingSamplePolicy::Skip);
    assert_eq!(fresh.unwrap(), CopyAction::CopyFresh);
}

#[test]
fn existing_destination_leaves_finished_plan_unaffected() {
    let a = source("a.wav", vec![cue(0, Some(10), None)], 100);
    let sources = vec![a];
    let plan = generate_kit_from_regions(&sources, &path(false, &["KITS"]), &card())
        .expect("build");
    assert_eq!(plan.kit.rows.len(), 1);
    let action = copy_sample_if_needed(true, false, ExistingSamplePolicy::Skip);
    assert_eq!(action.unwrap(), CopyAction::SkipExisting);
    assert_eq!(plan.kit.rows.len(), 1);
    assert_eq!(plan.copies.len(), 1);
}

#[test]
fn sample_path_is_relative_to_card_root() {
    let c = card();
    let inside = path(true, &["CARD", "SAMPLES", "x.wav"]);
    let handle = c.sample_path(&inside).expect("inside the card");
    assert!(!handle.path.absolute);
    assert_eq!(components(&handle.path), vec!["SAMPLES", "x.wav"]);
    let outside = path(true, &["OTHER", "x.wav"]);
    assert!(c.sample_path(&outside).is_err());
}

#[test]
fn card_directories_sit_under_the_root() {
    let c = card();
    let samples = c.get_directory_path(CardFolder::Samples);
    assert_eq!(components(&samples), vec!["CARD", "SAMPLES"]);
    let kits = c.get_directory_path(CardFolder::Kits);
    assert_eq!(components(&kits), vec!["CARD", "KITS"]);
}

#[test]
fn kit_builder_requires_at_least_one_row() {
    let builder = KitBuilder::default();
    assert!(matches!(builder.build(), Err(Error::KitBuilding)));
}

#[test]
fn kit_builder_keeps_row_order_and_names() {
    let c = card();
    let handle = c
        .sample_path(&path(true, &["CARD", "SAMPLES", "x.wav"]))
        .expect("inside");
    let mut builder = KitBuilder::default();
    builder.add_named_sound_row(
        Sound::new_sample(handle.duplicate(), 0, 10),
        "first".to_string(),
    );
    builder.add_sound_row(Sound::new_sample(handle, 10, 20));
    let kit = builder.build().expect("two rows");
    assert_eq!(kit.rows.len(), 2);
    assert_eq!(kit.rows[0].label, Some("first".to_string()));
    assert_eq!(kit.rows[1].label, None);
    assert_eq!(kit.rows[1].start_frame, 10);
    assert_eq!(kit.rows[1].end_frame, 20);
}

#[test]
fn resolver_puts_relative_destination_under_samples() {
    let resolved = deluge_kit_gen::card::get_sample_path(
        &path(true, &["HOME", "kick.wav"]),
        true,
        &path(false, &["KITS", "DRUMS"]),
        &card(),
    )
    .expect("relative destination");
    assert_eq!(
        components(&resolved),
        vec!["CARD", "SAMPLES", "KITS", "DRUMS", "kick.wav"]
    );
    assert!(resolved.absolute);
}

#[test]
fn resolver_rejects_outside_destination_even_without_source_file() {
    let result = deluge_kit_gen::card::get_sample_path(
        &path(true, &["HOME", "kick.wav"]),
        false,
        &path(true, &["ELSEWHERE"]),
        &card(),
    );
    assert!(result.is_err());
}

#[test]
fn path_prefix_handling() {
    let root = path(true, &["CARD"]);
    let same = path(true, &["CARD"]);
    assert!(same.starts_with(&root));
    let relative = path(false, &["CARD"]);
    assert!(!relative.starts_with(&root));
    let sibling = path(true, &["CARDX"]);
    assert!(!sibling.starts_with(&root));
}

#[test]
fn error_descriptions_name_the_failure() {
    assert_eq!(Error::KitBuilding.describe(), "the kit would have no rows");
    assert_eq!(
        Error::SampleAlreadyExists.describe(),
        "the sample already exists"
    );
}
