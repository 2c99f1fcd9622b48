use chat_moderation::harness::{harness_passes, tally_results, HarnessTally, LabeledCase};

fn case(content: &str, expected_result: bool) -> LabeledCase {
    LabeledCase { content: content.to_string(), expected_result }
}

fn dataset() -> Vec<LabeledCase> {
    vec![
        case("Looking for a senior backend engineer, DM me your resume!", true),
        case("Check out my weekend hiking photos!", false),
        case("I know Rust and Go, open to offers", true),
        case("How do I borrow a value twice?", false),
    ]
}

#[test]
fn run_without_mispredictions_passes() {
    let results = vec![true, false, true, false];
    assert!(harness_passes(&dataset(), &results));
    let tally = tally_results(&dataset(), &results).unwrap();
    assert_eq!(tally, HarnessTally { total: 4, mispredictions: 0 });
    assert_eq!(tally.correct(), 4);
    assert!(tally.passes());
}

#[test]
fn one_misprediction_fails_the_run() {
    let results = vec![true, false, false, false];
    assert!(!harness_passes(&dataset(), &results));
    let tally = tally_results(&dataset(), &results).unwrap();
    assert_eq!(tally.total, 4);
    assert_eq!(tally.mispredictions, 1);
    assert_eq!(tally.correct(), 3);
    assert!(!tally.passes());
}

#[test]
fn every_misprediction_is_counted() {
    let results = vec![false, true, false, true];
    let tally = tally_results(&dataset(), &results).unwrap();
    assert_eq!(tally.mispredictions, 4);
    assert_eq!(tally.correct(), 0);
}

#[test]
fn results_of_another_length_give_no_score() {
    assert_eq!(tally_results(&dataset(), &vec![true, false]), None);
    assert_eq!(tally_results(&dataset(), &Vec::new()), None);
    assert!(!harness_passes(&dataset(), &vec![true, false, true]));
    assert!(!harness_passes(&Vec::new(), &vec![true]));
}

#[test]
fn empty_dataset_passes() {
    assert!(harness_passes(&Vec::new(), &Vec::new()));
    assert_eq!(
        tally_results(&Vec::new(), &Vec::new()),
        Some(HarnessTally { total: 0, mispredictions: 0 })
    );
}

#[test]
fn tally_records_case_by_case() {
    let mut tally = HarnessTally::new();
    assert_eq!(tally, HarnessTally { total: 0, mispredictions: 0 });
    assert!(tally.passes());
    tally.record(true, true);
    assert_eq!(tally, HarnessTally { total: 1, mispredictions: 0 });
    tally.record(true, false);
    assert_eq!(tally, HarnessTally { total: 2, mispredictions: 1 });
    tally.record(false, true);
    assert_eq!(tally, HarnessTally { total: 3, mispredictions: 2 });
    tally.record(false, false);
    assert_eq!(tally, HarnessTally { total: 4, mispredictions: 2 });
    assert_eq!(tally.correct(), 2);
    assert!(!tally.passes());
}
