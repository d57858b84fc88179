use appshell::build_logger::BuildLogEntry;
use appshell::build_logger::BuildProgress;
use appshell::build_logger::BuildStats;
use appshell::build_logger::ConsoleWriter;
use appshell::build_logger::LogLevel;
use appshell::build_logger::Logger;
use appshell::build_logger::ProgressLogger;
use appshell::build_logger::StepStatus;
use appshell::build_logger::TimedBuildLogger;
use appshell::build_logger::complete_build_step;
use appshell::build_logger::fail_build_step;
use appshell::build_logger::get_build_summary;
use appshell::build_logger::init_build_progress;
use appshell::build_logger::start_build_step;
use appshell::display::ProgressBar;

#[test]
fn test_build_log_entry() {
    let entry = BuildLogEntry::new(
        LogLevel::Info,
        "test_module".to_string(),
        "test message".to_string(),
    )
    .with_duration(100)
    .with_context("key".to_string(), "value".to_string());

    assert!(entry.to_text().contains("test message"));
    assert!(entry.to_json().contains("test message"));
}

#[test]
fn test_progress_logger() {
    let mut progress = ProgressLogger::new("test", 10);
    progress.increment(5);
    progress.increment(5);
    progress.complete();
}

#[test]
fn progress_logger_counts_completed_items() {
    let mut progress = ProgressLogger::new("ingest", 100);
    progress.increment(30);
    progress.increment(12);
    assert_eq!(progress.complete(), 42);
    assert_eq!(progress.total_items, 100);
}

#[test]
fn build_steps_move_through_their_statuses() {
    let mut p = BuildProgress::new();
    init_build_progress(
        &mut p,
        vec!["fetch".to_string(), "compile".to_string(), "link".to_string()],
    );
    assert_eq!(p.total_steps, 3);
    start_build_step(&mut p, "fetch");
    assert_eq!(p.get_current_step_name().as_deref(), Some("fetch"));
    complete_build_step(&mut p, "fetch", "done");
    start_build_step(&mut p, "compile");
    fail_build_step(&mut p, "compile", "missing header");
    let summary = get_build_summary(&p);
    assert_eq!(summary.total_steps, 3);
    assert_eq!(summary.completed, 1);
    assert_eq!(summary.failed, 1);
    assert_eq!(summary.skipped, 0);
    assert_eq!(p.current_step, 2);
    assert!(matches!(p.steps[0].status, StepStatus::Completed));
    assert!(matches!(p.steps[1].status, StepStatus::Failed));
    assert!(matches!(p.steps[2].status, StepStatus::Pending));
}

#[test]
fn unknown_step_names_change_nothing() {
    let mut p = BuildProgress::new();
    p.init_steps(vec!["only".to_string()]);
    p.start_step("other");
    p.complete_step("other", "done");
    assert!(matches!(p.steps[0].status, StepStatus::Pending));
    assert_eq!(p.current_step, 0);
}

#[test]
fn overall_progress_mixes_completed_steps_and_the_running_one() {
    let mut p = BuildProgress::new();
    p.init_steps(vec!["a".to_string(), "b".to_string(), "c".to_string(), "d".to_string()]);
    assert_eq!(p.get_overall_progress(), 0);
    p.start_step("a");
    p.complete_step("a", "ok");
    p.start_step("b");
    p.update_progress("b", 60);
    // One completed step and one at sixty percent, over four steps.
    assert_eq!(p.get_overall_progress(), 40);
    assert_eq!(p.get_status_summary(), "1/4 completed, 0 failed, 2 pending, 1 in progress");
}

#[test]
fn empty_build_reports_zero_progress() {
    let p = BuildProgress::new();
    assert_eq!(p.get_overall_progress(), 0);
    assert_eq!(p.get_status_summary(), "0/0 completed, 0 failed, 0 pending, 0 in progress");
}

#[test]
fn reset_clears_the_tracker() {
    let mut p = BuildProgress::new();
    p.init_steps(vec!["a".to_string()]);
    p.reset();
    assert_eq!(p.total_steps, 0);
    assert_eq!(p.steps.len(), 0);
}

#[test]
fn stats_count_each_severity() {
    let mut stats = BuildStats::new();
    stats.increment(LogLevel::Error);
    stats.increment(LogLevel::Warn);
    stats.increment(LogLevel::Info);
    stats.increment(LogLevel::Info);
    stats.increment(LogLevel::Debug);
    stats.increment(LogLevel::Trace);
    let summary = stats.get_summary();
    assert_eq!(summary.total, 6);
    assert_eq!(summary.errors, 1);
    assert_eq!(summary.warnings, 1);
    assert_eq!(summary.info, 2);
    assert_eq!(summary.debug, 2);
}

#[test]
fn colored_output_wraps_the_message_in_escapes() {
    let w = ConsoleWriter::new(true);
    assert_eq!(w.write_colored(LogLevel::Error, "boom"), "\u{1b}[31mboom\u{1b}[0m");
    assert_eq!(w.write_colored(LogLevel::Info, "fine"), "\u{1b}[32mfine\u{1b}[0m");
    let plain = ConsoleWriter::new(false);
    assert_eq!(plain.write_colored(LogLevel::Error, "boom"), "boom");
}

#[test]
fn entry_text_lays_out_level_module_and_context() {
    let entry = BuildLogEntry::new(LogLevel::Warn, "core".to_string(), "slow".to_string())
        .with_duration(5)
        .with_context("step".to_string(), "link".to_string());
    let text = entry.to_text();
    assert!(text.ends_with("] [ WARN] [core] slow (5ms) step:link"));
    assert!(text.starts_with("["));
}

#[test]
fn entry_json_escapes_strings_and_keeps_field_order() {
    let entry = BuildLogEntry::new(LogLevel::Info, "core".to_string(), "he\"llo\n".to_string())
        .with_duration(7)
        .with_context("k".to_string(), "v".to_string());
    let json = entry.to_json();
    assert!(json.starts_with("{\"timestamp\":\""));
    assert!(
        json.ends_with(
            "\",\"level\":\"INFO\",\"module\":\"core\",\"message\":\"he\\\"llo\\n\",\"duration_ms\":7,\"context\":[[\"k\",\"v\"]]}"
        )
    );
}

#[test]
fn entry_json_writes_null_without_a_duration() {
    let entry = BuildLogEntry::new(LogLevel::Debug, "m".to_string(), "x".to_string());
    let json = entry.to_json();
    assert!(json.contains("\"duration_ms\":null"));
    assert!(json.ends_with("\"context\":[]}"));
}

#[test]
fn progress_bar_fills_and_renders() {
    let mut bar = ProgressBar::new(10);
    assert_eq!(bar.percentage(), 0);
    bar.increment(5);
    assert_eq!(bar.percentage(), 50);
    assert_eq!(
        bar.render("halfway"),
        "[\u{2588}\u{2588}\u{2588}\u{2588}\u{2588}\u{2588}\u{2588}\u{2588}\u{2588}\u{2588}\u{2588}\u{2588}\u{2588}\u{2588}\u{2588}\u{2591}\u{2591}\u{2591}\u{2591}\u{2591}\u{2591}\u{2591}\u{2591}\u{2591}\u{2591}\u{2591}\u{2591}\u{2591}\u{2591}\u{2591}] 50% halfway"
    );
    bar.increment(100);
    assert_eq!(bar.percentage(), 100);
    bar.set(3);
    assert_eq!(bar.percentage(), 30);
    let empty = ProgressBar::new(0);
    assert_eq!(empty.percentage(), 100);
}

#[test]
fn timed_logger_remembers_its_module() {
    let logger = TimedBuildLogger::new("packaging");
    assert_eq!(logger.module, "packaging");
    let _ms: u64 = logger.elapsed();
    let _ms2: u64 = logger.elapsed_ms();
}

#[test]
fn logger_builder_switches_colours_and_json() {
    let logger = Logger::new("logs".to_string()).with_colors(false).with_json(true);
    assert_eq!(logger.log_dir, "logs");
    assert!(!logger.use_colors);
    assert!(logger.json_output);
}
