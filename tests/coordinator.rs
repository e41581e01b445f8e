use gif_compressor::artifact::TempFile;
use gif_compressor::coordinator::{compress_outcome, ratio, short_circuit, Merger};
use gif_compressor::error::GifError;
use gif_compressor::refine::StrategyResult;
use gif_compressor::search_state::SharedState;

fn ok(size: u64, p: &str) -> StrategyResult {
    StrategyResult { size, file: Some(TempFile::new(p.to_string())), success: true }
}

fn names(files: &[TempFile]) -> Vec<String> {
    let mut v: Vec<String> = files.iter().map(|f| f.path_str()).collect();
    v.sort();
    v
}

#[test]
fn input_within_budget_is_returned_unchanged() {
    assert_eq!(short_circuit(400 * 1024, None, 500 * 1024), Some(400 * 1024));
    assert_eq!(short_circuit(500 * 1024, Some(1), 500 * 1024), Some(500 * 1024));
}

#[test]
fn baseline_within_budget_ends_search() {
    assert_eq!(short_circuit(2000, Some(450), 500), Some(450));
    assert_eq!(short_circuit(2000, Some(600), 500), None);
    assert_eq!(short_circuit(2000, None, 500), None);
}

#[test]
fn merger_keeps_smallest_and_deletes_others() {
    let target = 500;
    let mut m = Merger::new(1500, TempFile::new("baseline".to_string()));
    assert!(names(&m.absorb(ok(1200, "w1"), target)) == vec!["baseline".to_string()]);
    assert_eq!(names(&m.absorb(ok(1300, "w2"), target)), vec!["w2".to_string()]);
    assert!(m.absorb(StrategyResult::failed(), target).is_empty());
    assert_eq!(m.best_size, 1200);
    assert!(!m.found);
    let (size, f) = m.finish().unwrap();
    assert_eq!(size, 1200);
    assert_eq!(f.path_str(), "w1");
}

#[test]
fn first_result_within_budget_is_final() {
    let target = 500;
    let mut m = Merger::new(2000, TempFile::new("baseline".to_string()));
    assert_eq!(names(&m.absorb(ok(480, "w3"), target)), vec!["baseline".to_string()]);
    assert!(m.found);
    // later results never replace the winner, even smaller ones
    assert_eq!(names(&m.absorb(ok(300, "w4"), target)), vec!["w4".to_string()]);
    assert_eq!(names(&m.absorb(ok(490, "w5"), target)), vec!["w5".to_string()]);
    let (size, f) = m.finish().unwrap();
    assert_eq!(size, 480);
    assert_eq!(f.path_str(), "w3");
}

#[test]
fn end_to_end_merge_reaches_budget() {
    // 100 frames at 2000 KB, target 500 KB: baseline insufficient, one worker's
    // lossy refinement gets under budget
    let kb = 1024u64;
    let target = 500 * kb;
    assert_eq!(short_circuit(2000 * kb, Some(1800 * kb), target), None);
    let mut m = Merger::new(1800 * kb, TempFile::new("baseline".to_string()));
    m.absorb(ok(900 * kb, "stride2"), target);
    m.absorb(ok(495 * kb, "stride5"), target);
    let (size, _) = m.finish().unwrap();
    let report = compress_outcome(Ok((2000 * kb, size)), target, "out.gif".to_string());
    assert!(report.success);
    assert!(report.compressed_size <= target);
    assert_eq!(report.output_path, "out.gif");
}

#[test]
fn missing_encoder_reports_failure() {
    let report = compress_outcome(Err(GifError::GifsicleNotFound), 500, "out.gif".to_string());
    assert!(!report.success);
    assert!(report.message.contains("gifsicle"));
    assert_eq!(report.original_size, 0);
    assert_eq!(report.compressed_size, 0);
    assert!(report.output_path.is_empty());
}

#[test]
fn over_budget_result_is_not_success() {
    let report = compress_outcome(Ok((2000, 800)), 500, "o.gif".to_string());
    assert!(!report.success);
    assert_eq!(report.compressed_size, 800);
}

#[test]
fn no_file_means_no_valid_results() {
    let m = Merger { best_size: 10, best: None, found: false };
    assert!(matches!(m.finish(), Err(GifError::NoValidResults)));
}

#[test]
fn shared_best_size_only_decreases() {
    let s = SharedState::new();
    assert!(!s.is_target_found());
    assert!(s.update_best_size(500));
    assert!(!s.update_best_size(700));
    assert!(s.update_best_size(300));
    assert!(!s.update_best_size(300));
    assert!(!s.update_best_size(400));
    assert_eq!(s.get_best_size(), 300);
    s.set_found_target();
    assert!(s.is_target_found());
}

#[test]
fn publishing_result_within_budget_sets_flag() {
    let s = SharedState::new();
    s.publish(&ok(900, "a"), 500);
    assert!(!s.is_target_found());
    assert_eq!(s.get_best_size(), 900);
    s.publish(&StrategyResult::failed(), 500);
    assert_eq!(s.get_best_size(), 900);
    s.publish(&ok(450, "b"), 500);
    assert!(s.is_target_found());
    assert_eq!(s.get_best_size(), 450);
}

#[test]
fn failure_message_names_the_cause() {
    let report = compress_outcome(Err(GifError::GifsicleExecFailed("bad".to_string())), 1, "x".to_string());
    assert_eq!(report.message, "压缩失败: gifsicle命令执行失败: bad");
    let report = compress_outcome(Err(GifError::GifsicleNotFound), 1, "x".to_string());
    assert_eq!(report.message, "压缩失败: 未找到gifsicle命令，请确保已安装");
}

#[test]
fn error_descriptions() {
    assert_eq!(GifError::NoFrames.describe(), "GIF没有帧");
    assert_eq!(GifError::Io("disk".to_string()).describe(), "IO错误: disk");
    assert_eq!(GifError::NoValidResults.describe(), "没有找到有效的优化结果");
    assert_eq!(GifError::Other("x".to_string()).describe(), "x");
}

#[test]
fn ratio_has_one_decimal() {
    assert_eq!(ratio(2000, 500), "75.0");
    assert_eq!(ratio(3, 2), "33.3");
    assert_eq!(ratio(3, 1), "66.7");
    assert_eq!(ratio(1000, 1001), "-0.1");
    assert_eq!(ratio(1000, 1000), "0.0");
    assert_eq!(ratio(0, 0), "0.0");
}

#[test]
fn success_and_best_effort_messages() {
    let ok = compress_outcome(Ok((2000, 500)), 500, "o.gif".to_string());
    assert_eq!(ok.message, "成功压缩GIF到目标大小以下，压缩率: 75.0%");
    let partial = compress_outcome(Ok((2000, 800)), 500, "o.gif".to_string());
    assert_eq!(partial.message, "无法达到目标大小，但已尽可能压缩，压缩率: 60.0%");
}

#[test]
fn merger_without_baseline_takes_first_usable_result() {
    let mut m = Merger::empty();
    assert!(m.absorb(StrategyResult::failed(), 500).is_empty());
    assert!(m.absorb(ok(900, "w1"), 500).is_empty());
    let (size, f) = m.finish().unwrap();
    assert_eq!(size, 900);
    assert_eq!(f.path_str(), "w1");
    assert!(matches!(Merger::empty().finish(), Err(GifError::NoValidResults)));
}
