use gif_compressor::artifact::TempFile;
use gif_compressor::refine::{extraction_usable, lossy_batch, Candidate, Refiner, StrategyResult};

fn file(p: &str) -> TempFile {
    TempFile::new(p.to_string())
}

fn cand(level: u32, p: &str, size: Option<u64>) -> Candidate {
    Candidate { level, file: file(p), size }
}

fn sorted_paths(files: &[TempFile]) -> Vec<String> {
    let mut v: Vec<String> = files.iter().map(|f| f.path_str()).collect();
    v.sort();
    v
}

#[test]
fn handle_keeps_its_path() {
    assert_eq!(file("/tmp/a.gif").path_str(), "/tmp/a.gif");
}

#[test]
fn ladder_is_cut_in_pairs() {
    assert_eq!(lossy_batch(0), vec![30, 60]);
    assert_eq!(lossy_batch(1), vec![90, 120]);
    assert_eq!(lossy_batch(2), vec![150, 180]);
    assert_eq!(lossy_batch(3), vec![210, 240]);
}

#[test]
fn smaller_candidate_replaces_best() {
    let mut r = Refiner::start(5000, file("base"), 1000);
    assert!(!r.reached);
    let deleted = r.absorb_batch(vec![cand(30, "a", Some(4000)), cand(60, "b", Some(3000))], 1000);
    assert_eq!(r.best_size, 3000);
    assert_eq!(r.best.path_str(), "b");
    assert!(!r.reached);
    assert_eq!(sorted_paths(&deleted), vec!["a".to_string(), "base".to_string()]);
}

#[test]
fn smallest_candidate_of_batch_wins_once_budget_met() {
    let mut r = Refiner::start(5000, file("base"), 1000);
    let deleted = r.absorb_batch(vec![cand(90, "a", Some(900)), cand(120, "b", Some(800))], 1000);
    assert!(r.reached);
    assert_eq!(r.best_size, 800);
    assert_eq!(r.best.path_str(), "b");
    assert_eq!(sorted_paths(&deleted), vec!["a".to_string(), "base".to_string()]);
    assert!(!r.keep_refining(false));
}

#[test]
fn budget_met_by_earlier_candidate_of_batch_counts() {
    let mut r = Refiner::start(5000, file("base"), 1000);
    let deleted = r.absorb_batch(vec![cand(90, "a", Some(700)), cand(120, "b", Some(800))], 1000);
    assert!(r.reached);
    assert_eq!(r.best_size, 700);
    assert_eq!(r.best.path_str(), "a");
    assert_eq!(sorted_paths(&deleted), vec!["b".to_string(), "base".to_string()]);
}

#[test]
fn batch_after_budget_met_changes_nothing() {
    let mut r = Refiner::start(900, file("base"), 1000);
    let deleted = r.absorb_batch(vec![cand(30, "a", Some(100))], 1000);
    assert!(r.reached);
    assert_eq!(r.best_size, 900);
    assert_eq!(r.best.path_str(), "base");
    assert_eq!(sorted_paths(&deleted), vec!["a".to_string()]);
}

#[test]
fn failed_and_larger_candidates_are_discarded() {
    let mut r = Refiner::start(5000, file("base"), 1000);
    let deleted = r.absorb_batch(vec![cand(150, "a", None), cand(180, "b", Some(6000))], 1000);
    assert_eq!(r.best_size, 5000);
    assert_eq!(r.best.path_str(), "base");
    assert_eq!(sorted_paths(&deleted), vec!["a".to_string(), "b".to_string()]);
    assert!(r.keep_refining(false));
    assert!(!r.keep_refining(true));
}

#[test]
fn equal_size_does_not_replace() {
    let mut r = Refiner::start(5000, file("base"), 1000);
    let deleted = r.absorb_batch(vec![cand(30, "a", Some(5000))], 1000);
    assert_eq!(r.best.path_str(), "base");
    assert_eq!(sorted_paths(&deleted), vec!["a".to_string()]);
}

#[test]
fn start_within_budget_is_reached() {
    let r = Refiner::start(800, file("base"), 1000);
    assert!(r.reached);
    let res = r.finish();
    assert!(res.success);
    assert_eq!(res.size, 800);
    assert_eq!(res.file.unwrap().path_str(), "base");
}

#[test]
fn extraction_below_one_kilobyte_is_unusable() {
    assert!(!extraction_usable(None));
    assert!(!extraction_usable(Some(1023)));
    assert!(extraction_usable(Some(1024)));
}

#[test]
fn failed_result_holds_no_file() {
    let r = StrategyResult::failed();
    assert!(!r.success);
    assert!(r.file.is_none());
    assert_eq!(r.size, u64::MAX);
}
