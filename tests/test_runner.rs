use polish::duration::{format_duration, TimeUnit};
use polish::logger::Logger;
use polish::test_case::{
    elapsed_nanos, progress_text, report_text, resolve_status, test_runner_attributes,
    test_runner_time_units, TestCase, TestCaseStatus, TestRunner, Testable,
    BAIL_OUT_AFTER_FIRST_FAILURE, DISABLE_FINAL_STATS, MINIMIZE_OUTPUT,
};

struct MyClass;

impl Testable for MyClass {
    fn tests(self) -> Vec<TestCase> {
        vec![
            TestCase::new("t1", "crit", Box::new(|_: &mut Logger| TestCaseStatus::PASSED)),
            TestCase::new("t2", "crit", Box::new(|_: &mut Logger| TestCaseStatus::SKIPPED)),
        ]
    }
}

fn case(title: &'static str, status: TestCaseStatus) -> TestCase {
    TestCase::new(title, "crit", Box::new(move |_: &mut Logger| status))
}

#[test]
fn run_test_returns_true_on_pass() {
    let tc = TestCase::new("title", "criteria", Box::new(|_: &mut Logger| TestCaseStatus::PASSED));
    let mut runner = TestRunner::new();
    assert!(runner.run_test(tc));
}

#[test]
fn run_test_returns_false_on_fail() {
    let tc = TestCase::new("title", "criteria", Box::new(|_: &mut Logger| TestCaseStatus::FAILED));
    let mut runner = TestRunner::new();
    assert!(!runner.run_test(tc));
}

#[test]
fn run_tests_bails_after_failure() {
    let tests = vec![
        TestCase::new("one", "crit", Box::new(|_: &mut Logger| TestCaseStatus::FAILED)),
        TestCase::new("two", "crit", Box::new(|_: &mut Logger| TestCaseStatus::PASSED)),
    ];
    let mut runner = TestRunner::new();
    runner.set_attribute(test_runner_attributes().bail_out_after_first_failure);
    assert!(!runner.run_tests(tests));
}

#[test]
fn run_tests_from_class_example() {
    let mut runner = TestRunner::new();
    assert!(runner.run_tests_from_class(MyClass));
}

#[test]
fn test_time_unit() {
    let tc = TestCase::new("title", "criteria", Box::new(|_: &mut Logger| TestCaseStatus::PASSED));
    let mut runner = TestRunner::new();
    runner.set_time_unit(test_runner_time_units().seconds);
    assert!(runner.run_test(tc));
}

#[test]
fn definite_verdicts_are_stored_unchanged() {
    let mut runner = TestRunner::new();
    assert!(runner.run_test(case("p", TestCaseStatus::PASSED)));
    assert!(!runner.run_test(case("f", TestCaseStatus::FAILED)));
    assert!(!runner.run_test(case("s", TestCaseStatus::SKIPPED)));
    let statuses: Vec<TestCaseStatus> = runner.results().iter().map(|r| r.status).collect();
    assert_eq!(
        statuses,
        vec![TestCaseStatus::PASSED, TestCaseStatus::FAILED, TestCaseStatus::SKIPPED]
    );
}

#[test]
fn open_verdict_fails_when_a_failure_was_logged() {
    let mut runner = TestRunner::new();
    let tc = TestCase::new(
        "open",
        "crit",
        Box::new(|l: &mut Logger| {
            l.pass("fine".to_string());
            l.fail("broken".to_string());
            TestCaseStatus::UNKNOWN
        }),
    );
    assert!(!runner.run_test(tc));
    assert_eq!(runner.results()[0].status, TestCaseStatus::FAILED);
}

#[test]
fn open_verdict_passes_without_logged_failures() {
    let mut runner = TestRunner::new();
    let tc = TestCase::new(
        "open",
        "crit",
        Box::new(|l: &mut Logger| {
            l.warn("careful".to_string());
            l.info("note".to_string());
            TestCaseStatus::UNKNOWN
        }),
    );
    assert!(runner.run_test(tc));
    assert_eq!(runner.results()[0].status, TestCaseStatus::PASSED);
}

#[test]
fn resolve_status_settles_only_open_verdicts() {
    assert_eq!(resolve_status(TestCaseStatus::UNKNOWN, 0), TestCaseStatus::PASSED);
    assert_eq!(resolve_status(TestCaseStatus::UNKNOWN, 3), TestCaseStatus::FAILED);
    assert_eq!(resolve_status(TestCaseStatus::PASSED, 3), TestCaseStatus::PASSED);
    assert_eq!(resolve_status(TestCaseStatus::SKIPPED, 1), TestCaseStatus::SKIPPED);
    assert_eq!(resolve_status(TestCaseStatus::FAILED, 0), TestCaseStatus::FAILED);
}

#[test]
fn bail_out_keeps_only_the_first_failure() {
    let mut runner = TestRunner::new();
    runner.set_attribute(BAIL_OUT_AFTER_FIRST_FAILURE);
    let tests = vec![case("T1", TestCaseStatus::FAILED), case("T2", TestCaseStatus::PASSED)];
    assert!(!runner.run_tests(tests));
    assert_eq!(runner.results().len(), 1);
    assert_eq!(runner.results()[0].title, "T1");
}

#[test]
fn without_bail_out_every_test_runs_in_order() {
    let mut runner = TestRunner::new();
    let tests = vec![case("T1", TestCaseStatus::FAILED), case("T2", TestCaseStatus::PASSED)];
    assert!(runner.run_tests(tests));
    assert_eq!(runner.results().len(), 2);
    assert_eq!(runner.results()[0].title, "T1");
    assert_eq!(runner.results()[1].title, "T2");
    assert_eq!(runner.results()[0].status, TestCaseStatus::FAILED);
    assert_eq!(runner.results()[1].status, TestCaseStatus::PASSED);
}

#[test]
fn bail_out_runs_everything_when_all_pass() {
    let mut runner = TestRunner::new();
    runner.set_attribute(BAIL_OUT_AFTER_FIRST_FAILURE);
    let tests = vec![case("a", TestCaseStatus::PASSED), case("b", TestCaseStatus::PASSED)];
    assert!(runner.run_tests(tests));
    assert_eq!(runner.results().len(), 2);
}

#[test]
fn skipped_test_stops_a_bailing_run() {
    let mut runner = TestRunner::new();
    runner.set_attribute(BAIL_OUT_AFTER_FIRST_FAILURE);
    let tests = vec![
        case("a", TestCaseStatus::PASSED),
        case("b", TestCaseStatus::SKIPPED),
        case("c", TestCaseStatus::PASSED),
    ];
    assert!(!runner.run_tests(tests));
    assert_eq!(runner.results().len(), 2);
}

#[test]
fn empty_sequence_runs_nothing() {
    let mut runner = TestRunner::new();
    runner.set_attribute(BAIL_OUT_AFTER_FIRST_FAILURE);
    assert!(runner.run_tests(Vec::new()));
    assert!(runner.results().is_empty());
}

#[test]
fn durations_use_the_adaptive_precision() {
    assert_eq!(format_duration(1_500_000_000, TimeUnit::Seconds), "1.5sec");
    assert_eq!(format_duration(1_500_000_000, TimeUnit::Minutes), "0.03min");
    assert_eq!(format_duration(1_500_000_000, TimeUnit::Nanoseconds), "1500000000ns");
    assert_eq!(format_duration(250, TimeUnit::Microseconds), "0.25\u{3bc}s");
    assert_eq!(format_duration(12_345_678, TimeUnit::Milliseconds), "12ms");
    assert_eq!(format_duration(4_050_000, TimeUnit::Milliseconds), "4.1ms");
    assert_eq!(format_duration(0, TimeUnit::Nanoseconds), "0.00ns");
    assert_eq!(format_duration(5, TimeUnit::Nanoseconds), "5.0ns");
    assert_eq!(format_duration(9_960_000_000, TimeUnit::Seconds), "10.0sec");
    assert_eq!(format_duration(30_000_000, TimeUnit::Seconds), "0.03sec");
    assert_eq!(format_duration(90_000_000_000, TimeUnit::Minutes), "1.5min");
}

#[test]
fn tallies_add_up_to_the_total() {
    let mut runner = TestRunner::new();
    let tests = vec![
        case("a", TestCaseStatus::PASSED),
        case("b", TestCaseStatus::FAILED),
        case("c", TestCaseStatus::SKIPPED),
        case("d", TestCaseStatus::UNKNOWN),
        case("e", TestCaseStatus::SKIPPED),
    ];
    assert!(runner.run_tests(tests));
    let t = runner.tally();
    assert_eq!((t.passed, t.failed, t.skipped, t.total), (2, 1, 2, 5));
    assert_eq!(t.passed + t.failed + t.skipped, t.total);
}

#[test]
fn configuration_changed_later_does_not_touch_stored_results() {
    let mut runner = TestRunner::new();
    runner.set_time_unit(TimeUnit::Milliseconds);
    assert!(runner.run_test(case("a", TestCaseStatus::PASSED)));
    runner.set_time_unit(TimeUnit::Minutes).set_attribute(BAIL_OUT_AFTER_FIRST_FAILURE);
    assert_eq!(runner.results()[0].time_unit, TimeUnit::Milliseconds);
    assert!(runner.run_test(case("b", TestCaseStatus::PASSED)));
    assert_eq!(runner.results()[1].time_unit, TimeUnit::Minutes);
}

#[test]
fn attributes_combine_and_replace() {
    let mut runner = TestRunner::new();
    assert!(!runner.has_attribute(BAIL_OUT_AFTER_FIRST_FAILURE));
    runner.set_attribute(BAIL_OUT_AFTER_FIRST_FAILURE).set_attribute(MINIMIZE_OUTPUT);
    assert!(runner.has_attribute(BAIL_OUT_AFTER_FIRST_FAILURE));
    assert!(runner.has_attribute(MINIMIZE_OUTPUT));
    assert!(runner.has_attribute(BAIL_OUT_AFTER_FIRST_FAILURE | MINIMIZE_OUTPUT));
    assert!(!runner.has_attribute(DISABLE_FINAL_STATS));
    runner.set_attributes(DISABLE_FINAL_STATS);
    assert!(!runner.has_attribute(BAIL_OUT_AFTER_FIRST_FAILURE));
    assert!(runner.has_attribute(DISABLE_FINAL_STATS));
    let a = test_runner_attributes();
    assert_eq!((a.bail_out_after_first_failure, a.disable_final_stats, a.minimize_output), (1, 2, 4));
}

#[test]
fn time_units_carry_their_suffix_and_length() {
    let u = test_runner_time_units();
    assert_eq!(u.minutes.suffix(), "min");
    assert_eq!(u.seconds.suffix(), "sec");
    assert_eq!(u.milliseconds.suffix(), "ms");
    assert_eq!(u.microseconds.suffix(), "\u{3bc}s");
    assert_eq!(u.nanoseconds.suffix(), "ns");
    assert_eq!(u.minutes.nanos(), 60_000_000_000);
    assert_eq!(u.microseconds.nanos(), 1_000);
}

#[test]
fn report_line_has_mark_label_and_duration() {
    assert_eq!(
        report_text(TestCaseStatus::PASSED, "", "title", "criteria", 5, TimeUnit::Nanoseconds),
        "\u{2705} title: \u{1b}[32mcriteria\u{1b}[0m (5.0ns)"
    );
    assert_eq!(
        report_text(TestCaseStatus::FAILED, "mod", "t", "c", 1_500_000_000, TimeUnit::Seconds),
        "\u{274c} mod::t: \u{1b}[31mc\u{1b}[0m (1.5sec)"
    );
    assert_eq!(
        report_text(TestCaseStatus::SKIPPED, "", "t", "c", 20, TimeUnit::Nanoseconds),
        "\u{2757} t: \u{1b}[33mc\u{1b}[0m (20ns)"
    );
}

#[test]
fn progress_line_gives_title_time_and_date() {
    assert_eq!(
        progress_text("Starting", "t", "10:11:12", "2024-05-06"),
        "Starting t at 10:11:12 on 2024-05-06"
    );
}

#[test]
fn elapsed_time_never_goes_negative() {
    assert_eq!(elapsed_nanos(10, 25), 15);
    assert_eq!(elapsed_nanos(25, 10), 0);
}

#[test]
fn record_outcome_stores_and_reports() {
    let mut runner = TestRunner::new();
    runner.set_module_path("suite");
    assert!(runner.record_outcome("t1", "crit", TestCaseStatus::UNKNOWN, 0, 1500));
    assert!(!runner.record_outcome("t2", "crit", TestCaseStatus::UNKNOWN, 2, 500));
    let out = runner.take_output();
    assert_eq!(
        out,
        vec![
            "\u{2705} suite::t1: \u{1b}[32mcrit\u{1b}[0m (1500ns)".to_string(),
            "\u{274c} suite::t2: \u{1b}[31mcrit\u{1b}[0m (500ns)".to_string(),
        ]
    );
    assert!(runner.take_output().is_empty());
    assert_eq!(runner.results()[1].elapsed_ns, 500);
    assert_eq!(runner.results()[1].status, TestCaseStatus::FAILED);
}

#[test]
fn run_test_writes_progress_logs_and_report() {
    let mut runner = TestRunner::new();
    let tc = TestCase::new(
        "title",
        "criteria",
        Box::new(|l: &mut Logger| {
            l.info("hello".to_string());
            TestCaseStatus::PASSED
        }),
    );
    assert!(runner.run_test(tc));
    let out = runner.take_output();
    assert_eq!(out.len(), 5);
    assert!(out[0].starts_with("Starting title at "));
    assert!(out[1].ends_with("\u{1b}[36mINFO\u{1b}[0m: hello"));
    assert!(out[2].starts_with("Ended title at "));
    assert_eq!(
        out[3],
        "\u{1b}[32m0 Passed\u{1b}[0m  \u{1b}[31m0 Failed\u{1b}[0m  \u{1b}[33m0 Warn\u{1b}[0m  \u{1b}[36m1 Info\u{1b}[0m"
    );
    assert!(out[4].starts_with("\u{2705} title: \u{1b}[32mcriteria\u{1b}[0m ("));
    assert!(out[4].ends_with("ns)"));
}

#[test]
fn minimized_output_leaves_out_progress_lines() {
    let mut runner = TestRunner::new();
    runner.set_attribute(MINIMIZE_OUTPUT);
    let tc = TestCase::new(
        "title",
        "criteria",
        Box::new(|l: &mut Logger| {
            l.info("hello".to_string());
            TestCaseStatus::SKIPPED
        }),
    );
    assert!(!runner.run_test(tc));
    let out = runner.take_output();
    assert_eq!(out.len(), 2);
    assert!(out[0].ends_with("hello"));
    assert!(out[1].starts_with("\u{2757} title: \u{1b}[33mcriteria\u{1b}[0m ("));
}

#[test]
fn final_report_lists_results_and_tallies() {
    let mut runner = TestRunner::new();
    runner.record_outcome("t1", "crit", TestCaseStatus::PASSED, 0, 1500);
    runner.record_outcome("t2", "crit", TestCaseStatus::SKIPPED, 0, 500);
    assert_eq!(
        runner.final_report(),
        vec![
            String::new(),
            "\u{1b}[32mt1: crit (1500ns)\u{1b}[0m".to_string(),
            "\u{1b}[33mt2: crit (500ns)\u{1b}[0m".to_string(),
            String::new(),
            "Ran 2 tests in 2000ns".to_string(),
            "\u{1b}[32m1 Passed\u{1b}[0m  \u{1b}[31m0 Failed\u{1b}[0m  \u{1b}[33m1 Skipped\u{1b}[0m".to_string(),
        ]
    );
}

#[test]
fn final_report_uses_singular_for_one_test() {
    let mut runner = TestRunner::new();
    runner.set_module_path("m");
    runner.record_outcome("only", "c", TestCaseStatus::FAILED, 0, 2_000_000_000);
    runner.set_time_unit(TimeUnit::Seconds);
    let report = runner.final_report();
    assert_eq!(report[1], "\u{1b}[31mm::only: c (2000000000ns)\u{1b}[0m");
    assert_eq!(report[3], "Ran 1 test in 2.0sec");
}

#[test]
fn final_report_can_be_disabled() {
    let mut runner = TestRunner::new();
    runner.set_attribute(DISABLE_FINAL_STATS);
    runner.record_outcome("t", "c", TestCaseStatus::PASSED, 0, 1);
    assert!(runner.final_report().is_empty());
}

#[test]
fn final_report_of_an_empty_runner() {
    let runner = TestRunner::new();
    let report = runner.final_report();
    assert_eq!(report[2], "Ran 0 tests in 0.00ns");
    assert_eq!(report.len(), 4);
}

#[test]
fn test_case_keeps_title_and_criteria() {
    let tc = TestCase::new("", "", Box::new(|_: &mut Logger| TestCaseStatus::PASSED));
    assert_eq!(tc.title(), "");
    assert_eq!(tc.criteria(), "");
    let tc = case("named", TestCaseStatus::FAILED);
    assert_eq!(tc.title(), "named");
    assert_eq!(tc.criteria(), "crit");
}
