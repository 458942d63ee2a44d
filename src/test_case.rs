//! Test cases, their outcomes, and the runner that executes them.
use vstd::prelude::*;
use vstd::string::*;
use crate::clock::{counter_nanos, local_time_text};
use crate::duration::{duration_text, format_duration, TimeUnit};
use crate::logger::{texts, Logger};
use crate::text::{decimal, paint, painted, push_decimal, Tint};

verus! {

/// The verdict of a test. `UNKNOWN` means that the test left the verdict to
/// the runner; it never appears in a stored result.
#[derive(Clone, Copy, PartialEq, Eq, Structural, Debug)]
pub enum TestCaseStatus {
    PASSED,
    FAILED,
    SKIPPED,
    UNKNOWN,
}

/// The verdict that is stored for a test that returned `status` after
/// logging `fails` failures: a definite verdict is kept, and an open one
/// becomes a failure exactly when a failure was logged.
pub open spec fn resolved(status: TestCaseStatus, fails: int) -> TestCaseStatus {
    match status {
        TestCaseStatus::UNKNOWN => if fails > 0 {
            TestCaseStatus::FAILED
        } else {
            TestCaseStatus::PASSED
        },
        _ => status,
    }
}

/// Settles the verdict of a test that returned `status` and logged
/// `fail_count` failures.
pub fn resolve_status(status: TestCaseStatus, fail_count: i32) -> (r: TestCaseStatus)
    ensures
        r == resolved(status, fail_count as int),
{
    match status {
        TestCaseStatus::UNKNOWN => if fail_count > 0 {
            TestCaseStatus::FAILED
        } else {
            TestCaseStatus::PASSED
        },
        _ => status,
    }
}

/// The check that a test case performs: it is handed a fresh logger and
/// returns its verdict. Every closure from `&mut Logger` to a status is one.
pub trait TestExec {
    /// The check can be run with any logger.
    spec fn ready(&self) -> bool;

    fn run(&self, logger: &mut Logger) -> TestCaseStatus
        requires
            self.ready(),
    ;
}

impl<F: Fn(&mut Logger) -> TestCaseStatus> TestExec for F {
    open spec fn ready(&self) -> bool {
        forall|l: &mut Logger| call_requires(*self, (l,))
    }

    fn run(&self, logger: &mut Logger) -> TestCaseStatus {
        (self)(logger)
    }
}

/// A named check: a title, the criteria it checks, and the check itself.
pub struct TestCase {
    title: &'static str,
    criteria: &'static str,
    exec_fn: Box<dyn TestExec>,
}

impl TestCase {
    #[verifier::type_invariant]
    spec fn check_is_ready(&self) -> bool {
        self.exec_fn.ready()
    }

    /// The test's title.
    pub closed spec fn spec_title(&self) -> &'static str {
        self.title
    }

    /// What the test checks.
    pub closed spec fn spec_criteria(&self) -> &'static str {
        self.criteria
    }

    /// A test case from its title, its criteria and its check.
    pub fn new(title: &'static str, criteria: &'static str, exec_fn: Box<dyn TestExec>) -> (r:
        TestCase)
        requires
            exec_fn.ready(),
        ensures
            r.spec_title() == title,
            r.spec_criteria() == criteria,
    {
        TestCase { title, criteria, exec_fn }
    }

    /// The test's title.
    pub fn title(&self) -> (r: &'static str)
        ensures
            r == self.spec_title(),
    {
        self.title
    }

    /// What the test checks.
    pub fn criteria(&self) -> (r: &'static str)
        ensures
            r == self.spec_criteria(),
    {
        self.criteria
    }
}

/// The record of one executed test case. Its duration is kept in
/// nanoseconds, with the unit in which it is reported.
#[derive(Clone, Copy, PartialEq, Eq, Debug)]
pub struct TestCaseResults {
    pub title: &'static str,
    pub criteria: &'static str,
    pub elapsed_ns: u64,
    pub time_unit: TimeUnit,
    pub status: TestCaseStatus,
}

/// The record stored for a test that returned `status` after logging `fails`
/// failures and took `ns` nanoseconds.
pub open spec fn outcome(
    title: &'static str,
    criteria: &'static str,
    status: TestCaseStatus,
    fails: int,
    ns: u64,
    unit: TimeUnit,
) -> TestCaseResults {
    TestCaseResults { title, criteria, elapsed_ns: ns, time_unit: unit, status: resolved(status, fails) }
}

/// `r` is what running a test with this title and criteria can store,
/// whatever the check returned, logged, and took.
pub open spec fn is_outcome(
    r: TestCaseResults,
    title: &'static str,
    criteria: &'static str,
    unit: TimeUnit,
) -> bool {
    exists|status: TestCaseStatus, fails: int, ns: u64|
        r == #[trigger] outcome(title, criteria, status, fails, ns, unit)
}

/// A group of test cases, handed out once.
pub trait Testable {
    fn tests(self) -> Vec<TestCase>;
}

/// Stop running a sequence of tests after the first one that does not pass.
pub const BAIL_OUT_AFTER_FIRST_FAILURE: i64 = 0x1;

/// Print no statistics when the run is finished.
pub const DISABLE_FINAL_STATS: i64 = 0x2;

/// Leave out the lines that mark the start and end of each test.
pub const MINIMIZE_OUTPUT: i64 = 0x4;

/// The runner's attribute flags, each a distinct bit.
pub struct TestRunnerAttributes {
    pub bail_out_after_first_failure: i64,
    pub disable_final_stats: i64,
    pub minimize_output: i64,
}

/// The attribute flags that a runner knows.
pub fn test_runner_attributes() -> (r: TestRunnerAttributes)
    ensures
        r.bail_out_after_first_failure == BAIL_OUT_AFTER_FIRST_FAILURE,
        r.disable_final_stats == DISABLE_FINAL_STATS,
        r.minimize_output == MINIMIZE_OUTPUT,
{
    TestRunnerAttributes {
        bail_out_after_first_failure: BAIL_OUT_AFTER_FIRST_FAILURE,
        disable_final_stats: DISABLE_FINAL_STATS,
        minimize_output: MINIMIZE_OUTPUT,
    }
}

/// The units in which a runner can report durations.
pub struct TestRunnerTimeUnits {
    pub minutes: TimeUnit,
    pub seconds: TimeUnit,
    pub milliseconds: TimeUnit,
    pub microseconds: TimeUnit,
    pub nanoseconds: TimeUnit,
}

/// The units in which a runner can report durations.
pub fn test_runner_time_units() -> (r: TestRunnerTimeUnits)
    ensures
        r.minutes == TimeUnit::Minutes,
        r.seconds == TimeUnit::Seconds,
        r.milliseconds == TimeUnit::Milliseconds,
        r.microseconds == TimeUnit::Microseconds,
        r.nanoseconds == TimeUnit::Nanoseconds,
{
    TestRunnerTimeUnits {
        minutes: TimeUnit::Minutes,
        seconds: TimeUnit::Seconds,
        milliseconds: TimeUnit::Milliseconds,
        microseconds: TimeUnit::Microseconds,
        nanoseconds: TimeUnit::Nanoseconds,
    }
}

/// A flag is set in a mask when the mask holds all of its bits.
pub open spec fn has_flag(attributes: i64, flag: i64) -> bool {
    attributes & flag == flag
}

/// What a runner holds: its configuration, the results so far in the order
/// the tests ran, and the lines it has written and not yet handed out.
pub struct RunnerView {
    pub attributes: i64,
    pub time_unit: TimeUnit,
    pub label_path: Seq<char>,
    pub results: Seq<TestCaseResults>,
    pub output: Seq<Seq<char>>,
}

/// Two runner states with the same configuration.
pub open spec fn same_config(a: RunnerView, b: RunnerView) -> bool {
    a.attributes == b.attributes && a.time_unit == b.time_unit && a.label_path == b.label_path
}

/// Every stored verdict is definite.
pub open spec fn all_resolved(results: Seq<TestCaseResults>) -> bool {
    forall|i: int| 0 <= i < results.len() ==> #[trigger] results[i].status != TestCaseStatus::UNKNOWN
}

/// The mark written before a test's report line.
pub open spec fn status_mark(s: TestCaseStatus) -> Seq<char> {
    match s {
        TestCaseStatus::PASSED => "\u{2705}"@,
        TestCaseStatus::FAILED => "\u{274c}"@,
        TestCaseStatus::SKIPPED => "\u{2757}"@,
        TestCaseStatus::UNKNOWN => Seq::<char>::empty(),
    }
}

/// The colour in which a test's criteria are written.
pub open spec fn status_tint(s: TestCaseStatus) -> Tint {
    match s {
        TestCaseStatus::PASSED => Tint::Green,
        TestCaseStatus::FAILED => Tint::Red,
        _ => Tint::Yellow,
    }
}

/// A title, behind the runner's label and `::` where the label is not empty.
pub open spec fn qualified(label: Seq<char>, title: Seq<char>) -> Seq<char> {
    if label.len() > 0 {
        label + "::"@ + title
    } else {
        title
    }
}

/// The line written when a test has run.
pub open spec fn report_line(
    status: TestCaseStatus,
    label: Seq<char>,
    title: Seq<char>,
    criteria: Seq<char>,
    ns: nat,
    unit: TimeUnit,
) -> Seq<char> {
    status_mark(status) + " "@ + qualified(label, title) + ": "@ + painted(status_tint(status), criteria)
        + " ("@ + duration_text(ns, unit) + ")"@
}

/// The line written when a test starts or ends, with the local time and date.
pub open spec fn progress_line(
    verb: Seq<char>,
    title: Seq<char>,
    time: Seq<char>,
    date: Seq<char>,
) -> Seq<char> {
    verb + " "@ + title + " at "@ + time + " on "@ + date
}

/// The time between two counter readings; none where the counter went back.
pub open spec fn elapsed(start: u64, end: u64) -> u64 {
    if end >= start {
        (end - start) as u64
    } else {
        0
    }
}

/// The time between two counter readings; none where the counter went back.
pub fn elapsed_nanos(start: u64, end: u64) -> (r: u64)
    ensures
        r == elapsed(start, end),
{
    if end >= start {
        end - start
    } else {
        0
    }
}

/// The colour in which a verdict is written.
fn status_tint_of(s: TestCaseStatus) -> (r: Tint)
    ensures
        r == status_tint(s),
{
    match s {
        TestCaseStatus::PASSED => Tint::Green,
        TestCaseStatus::FAILED => Tint::Red,
        _ => Tint::Yellow,
    }
}

/// Appends `title` behind the label and `::` where the label is not empty.
fn push_qualified(out: &mut String, label: &str, title: &str)
    ensures
        final(out)@ == old(out)@ + qualified(label@, title@),
{
    if !label.is_empty() {
        out.append(label);
        out.append("::");
    }
    out.append(title);
}

/// The line written when a test starts or ends, given the local time and
/// date.
pub fn progress_text(verb: &str, title: &str, time: &str, date: &str) -> (r: String)
    ensures
        r@ == progress_line(verb@, title@, time@, date@),
{
    let mut line = String::from_str(verb);
    line.append(" ");
    line.append(title);
    line.append(" at ");
    line.append(time);
    line.append(" on ");
    line.append(date);
    line
}

/// The line written when a test has run with the given verdict and took
/// `ns` nanoseconds, reported in `unit`.
pub fn report_text(
    status: TestCaseStatus,
    label: &str,
    title: &str,
    criteria: &str,
    ns: u64,
    unit: TimeUnit,
) -> (r: String)
    ensures
        r@ == report_line(status, label@, title@, criteria@, ns as nat, unit),
{
    let mark = match status {
        TestCaseStatus::PASSED => "\u{2705}",
        TestCaseStatus::FAILED => "\u{274c}",
        TestCaseStatus::SKIPPED => "\u{2757}",
        TestCaseStatus::UNKNOWN => "",
    };
    let tint = status_tint_of(status);
    proof {
        reveal_strlit("");
    }
    let mut line = String::from_str(mark);
    line.append(" ");
    push_qualified(&mut line, label, title);
    line.append(": ");
    line.append(paint(tint, criteria).as_str());
    line.append(" (");
    line.append(format_duration(ns as u128, unit).as_str());
    line.append(")");
    line
}

/// What running a sequence of tests leaves behind: the earlier results kept,
/// then one result for each of the first `ran` tests, in order, each a
/// possible outcome of that test.
pub open spec fn ran_in_order(
    before: Seq<TestCaseResults>,
    after: Seq<TestCaseResults>,
    tests: Seq<TestCase>,
    unit: TimeUnit,
    ran: int,
) -> bool {
    &&& 0 <= ran <= tests.len()
    &&& after.len() == before.len() + ran
    &&& after.subrange(0, before.len() as int) == before
    &&& forall|i: int|
        0 <= i < ran ==> is_outcome(
            #[trigger] after[before.len() + i],
            tests[i].spec_title(),
            tests[i].spec_criteria(),
            unit,
        )
}

/// Every result from position `from` to `to` is a pass.
pub open spec fn all_passed(results: Seq<TestCaseResults>, from: int, to: int) -> bool {
    forall|i: int| from <= i < to ==> #[trigger] results[i].status == TestCaseStatus::PASSED
}

/// How many of the results have the verdict `s`.
pub open spec fn count_status(results: Seq<TestCaseResults>, s: TestCaseStatus) -> nat
    decreases results.len(),
{
    if results.len() == 0 {
        0
    } else {
        count_status(results.drop_last(), s) + if results.last().status == s {
            1nat
        } else {
            0nat
        }
    }
}

/// The sum of the results' durations, in nanoseconds.
pub open spec fn total_nanos(results: Seq<TestCaseResults>) -> nat
    decreases results.len(),
{
    if results.len() == 0 {
        0
    } else {
        total_nanos(results.drop_last()) + results.last().elapsed_ns as nat
    }
}

/// The line for one result in the final statistics, in its verdict's colour.
pub open spec fn stat_line(r: TestCaseResults, label: Seq<char>) -> Seq<char> {
    painted(
        status_tint(r.status),
        qualified(label, r.title@) + ": "@ + r.criteria@ + " ("@ + duration_text(
            r.elapsed_ns as nat,
            r.time_unit,
        ) + ")"@,
    )
}

/// The line that gives how many tests ran and how long they took together.
pub open spec fn ran_line(n: nat, total: nat, unit: TimeUnit) -> Seq<char> {
    if n == 1 {
        "Ran 1 test in "@ + duration_text(total, unit)
    } else {
        "Ran "@ + decimal(n) + " tests in "@ + duration_text(total, unit)
    }
}

/// The line that gives the three tallies.
pub open spec fn tally_line(passed: nat, failed: nat, skipped: nat) -> Seq<char> {
    painted(Tint::Green, decimal(passed) + " Passed"@) + "  "@ + painted(
        Tint::Red,
        decimal(failed) + " Failed"@,
    ) + "  "@ + painted(Tint::Yellow, decimal(skipped) + " Skipped"@)
}

/// The final statistics of a runner: nothing where they are disabled;
/// otherwise a blank line, a line per result, a blank line, the count and
/// total duration, and the tallies.
pub open spec fn final_report_lines(v: RunnerView) -> Seq<Seq<char>> {
    if has_flag(v.attributes, DISABLE_FINAL_STATS) {
        Seq::empty()
    } else {
        seq![Seq::<char>::empty()] + v.results.map_values(|r: TestCaseResults| stat_line(r, v.label_path))
            + seq![
            Seq::<char>::empty(),
            ran_line(v.results.len(), total_nanos(v.results), v.time_unit),
            tally_line(
                count_status(v.results, TestCaseStatus::PASSED),
                count_status(v.results, TestCaseStatus::FAILED),
                count_status(v.results, TestCaseStatus::SKIPPED),
            ),
        ]
    }
}

/// The counts of a runner's results.
#[derive(Clone, Copy, PartialEq, Eq, Structural, Debug)]
pub struct Tally {
    pub passed: usize,
    pub failed: usize,
    pub skipped: usize,
    pub total: usize,
}

/// A check's definite verdict is stored as it is, whatever it logged.
pub proof fn lemma_definite_verdict_kept(
    title: &'static str,
    criteria: &'static str,
    status: TestCaseStatus,
    fails: int,
    ns: u64,
    unit: TimeUnit,
)
    requires
        status != TestCaseStatus::UNKNOWN,
    ensures
        outcome(title, criteria, status, fails, ns, unit).status == status,
{
}

/// An open verdict is stored as a failure when the check logged at least one
/// failure, and as a pass otherwise.
pub proof fn lemma_open_verdict_settled(
    title: &'static str,
    criteria: &'static str,
    fails: int,
    ns: u64,
    unit: TimeUnit,
)
    ensures
        outcome(title, criteria, TestCaseStatus::UNKNOWN, fails, ns, unit).status == (if fails
            > 0 {
            TestCaseStatus::FAILED
        } else {
            TestCaseStatus::PASSED
        }),
{
}

/// Where no stored verdict is open, the passed, failed and skipped tallies
/// together count every result.
pub proof fn lemma_tallies_cover_results(results: Seq<TestCaseResults>)
    requires
        all_resolved(results),
    ensures
        count_status(results, TestCaseStatus::PASSED) + count_status(results, TestCaseStatus::FAILED)
            + count_status(results, TestCaseStatus::SKIPPED) == results.len(),
    decreases results.len(),
{
    if results.len() > 0 {
        let rest = results.drop_last();
        assert forall|i: int| 0 <= i < rest.len() implies #[trigger] rest[i].status
            != TestCaseStatus::UNKNOWN by {
            assert(rest[i] == results[i]);
        }
        lemma_tallies_cover_results(rest);
        assert(results[results.len() - 1].status != TestCaseStatus::UNKNOWN);
    }
}

/// A tally of a sequence counts no more than the sequence holds.
proof fn lemma_count_bounded(results: Seq<TestCaseResults>, s: TestCaseStatus)
    ensures
        count_status(results, s) <= results.len(),
    decreases results.len(),
{
    if results.len() > 0 {
        lemma_count_bounded(results.drop_last(), s);
    }
}

/// Runs test cases one after another and keeps their results.
pub struct TestRunner {
    attributes: i64,
    time_unit: TimeUnit,
    results: Vec<TestCaseResults>,
    label_path: &'static str,
    output: Vec<String>,
}

impl View for TestRunner {
    type V = RunnerView;

    closed spec fn view(&self) -> RunnerView {
        RunnerView {
            attributes: self.attributes,
            time_unit: self.time_unit,
            label_path: self.label_path@,
            results: self.results@,
            output: texts(self.output@),
        }
    }
}

impl TestRunner {
    /// The runner's invariant: no stored verdict is open.
    pub open spec fn wf(&self) -> bool {
        all_resolved(self@.results)
    }

    /// A runner with no attributes, reporting in nanoseconds, with no module
    /// path and no results.
    pub fn new() -> (r: TestRunner)
        ensures
            r.wf(),
            r@.attributes == 0,
            r@.time_unit == TimeUnit::Nanoseconds,
            r@.label_path == Seq::<char>::empty(),
            r@.results == Seq::<TestCaseResults>::empty(),
            r@.output == Seq::<Seq<char>>::empty(),
    {
        let r = TestRunner {
            attributes: 0,
            time_unit: TimeUnit::Nanoseconds,
            results: Vec::new(),
            label_path: "",
            output: Vec::new(),
        };
        proof {
            reveal_strlit("");
        }
        assert(r@.output =~= Seq::<Seq<char>>::empty());
        r
    }

    /// Sets the label written before each test's title.
    pub fn set_module_path(&mut self, path: &'static str) -> (r: &mut Self)
        ensures
            r@ == (RunnerView { label_path: path@, ..old(self)@ }),
            *final(self) == *final(r),
    {
        self.label_path = path;
        self
    }

    /// Adds the bits of `attribute` to the attributes.
    pub fn set_attribute(&mut self, attribute: i64) -> (r: &mut Self)
        ensures
            r@ == (RunnerView { attributes: old(self)@.attributes | attribute, ..old(self)@ }),
            *final(self) == *final(r),
    {
        self.attributes = self.attributes | attribute;
        self
    }

    /// Replaces the attributes.
    pub fn set_attributes(&mut self, attributes: i64) -> (r: &mut Self)
        ensures
            r@ == (RunnerView { attributes: attributes, ..old(self)@ }),
            *final(self) == *final(r),
    {
        self.attributes = attributes;
        self
    }

    /// Sets the unit in which durations are reported.
    pub fn set_time_unit(&mut self, time_unit: TimeUnit) -> (r: &mut Self)
        ensures
            r@ == (RunnerView { time_unit: time_unit, ..old(self)@ }),
            *final(self) == *final(r),
    {
        self.time_unit = time_unit;
        self
    }

    /// Whether every bit of `attribute` is set.
    pub fn has_attribute(&self, attribute: i64) -> (r: bool)
        ensures
            r == has_flag(self@.attributes, attribute),
    {
        self.attributes & attribute == attribute
    }

    /// Stores the result of a test that returned `status` after logging
    /// `fail_count` failures and took `elapsed_ns` nanoseconds, and writes its
    /// report line. Returns whether the stored verdict is a pass.
    pub fn record_outcome(
        &mut self,
        title: &'static str,
        criteria: &'static str,
        status: TestCaseStatus,
        fail_count: i32,
        elapsed_ns: u64,
    ) -> (r: bool)
        requires
            old(self).wf(),
        ensures
            final(self).wf(),
            same_config(final(self)@, old(self)@),
            final(self)@.results == old(self)@.results.push(
                outcome(title, criteria, status, fail_count as int, elapsed_ns, old(self)@.time_unit),
            ),
            final(self)@.output == old(self)@.output.push(
                report_line(
                    resolved(status, fail_count as int),
                    old(self)@.label_path,
                    title@,
                    criteria@,
                    elapsed_ns as nat,
                    old(self)@.time_unit,
                ),
            ),
            r == (resolved(status, fail_count as int) == TestCaseStatus::PASSED),
    {
        let status = resolve_status(status, fail_count);
        let line = report_text(status, self.label_path, title, criteria, elapsed_ns, self.time_unit);
        self.output.push(line);
        self.results.push(
            TestCaseResults { title, criteria, elapsed_ns, time_unit: self.time_unit, status },
        );
        assert(self@.output =~= old(self)@.output.push(line@));
        status == TestCaseStatus::PASSED
    }

    /// Runs one test case: writes its progress and its logger's lines (the
    /// progress lines only where output is not minimized), times it, stores
    /// its result and writes its report line. Returns whether it passed.
    /// The configuration is the one the runner had when the call began.
    pub fn run_test(&mut self, test: TestCase) -> (r: bool)
        requires
            old(self).wf(),
        ensures
            final(self).wf(),
            same_config(final(self)@, old(self)@),
            final(self)@.results.len() == old(self)@.results.len() + 1,
            final(self)@.results.drop_last() == old(self)@.results,
            is_outcome(
                final(self)@.results.last(),
                test.spec_title(),
                test.spec_criteria(),
                old(self)@.time_unit,
            ),
            r == (final(self)@.results.last().status == TestCaseStatus::PASSED),
            final(self)@.output.len() > old(self)@.output.len(),
            final(self)@.output.subrange(0, old(self)@.output.len() as int) == old(self)@.output,
            final(self)@.output.last() == report_line(
                final(self)@.results.last().status,
                old(self)@.label_path,
                test.spec_title()@,
                test.spec_criteria()@,
                final(self)@.results.last().elapsed_ns as nat,
                old(self)@.time_unit,
            ),
    {
        proof {
            use_type_invariant(&test);
        }
        let quiet = self.has_attribute(MINIMIZE_OUTPUT);
        if !quiet {
            let time = local_time_text("%H:%M:%S");
            let date = local_time_text("%Y-%m-%d");
            self.output.push(progress_text("Starting", test.title, time.as_str(), date.as_str()));
        }
        let mut logger = Logger::new();
        let start = counter_nanos();
        let status = test.exec_fn.run(&mut logger);
        let end = counter_nanos();
        let mut lines = logger.take_lines();
        self.output.append(&mut lines);
        if !quiet {
            let time = local_time_text("%H:%M:%S");
            let date = local_time_text("%Y-%m-%d");
            self.output.push(progress_text("Ended", test.title, time.as_str(), date.as_str()));
            self.output.push(logger.summary());
        }
        let ghost before = self@.output;
        assert(before.subrange(0, old(self)@.output.len() as int) =~= old(self)@.output);
        let fails = logger.get_num_fail();
        let elapsed_ns = elapsed_nanos(start, end);
        let r = self.record_outcome(test.title, test.criteria, status, fails, elapsed_ns);
        assert(self@.results.drop_last() =~= old(self)@.results);
        assert(self@.output.subrange(0, old(self)@.output.len() as int) =~= old(self)@.output);
        r
    }

    /// Runs the tests in order. Where bailing out is set, stops after the
    /// first test that does not pass and returns false; otherwise runs them
    /// all and returns true.
    pub fn run_tests(&mut self, tests: Vec<TestCase>) -> (r: bool)
        requires
            old(self).wf(),
        ensures
            final(self).wf(),
            same_config(final(self)@, old(self)@),
            ({
                let before = old(self)@.results;
                let after = final(self)@.results;
                let ran = after.len() - before.len();
                let bail = has_flag(old(self)@.attributes, BAIL_OUT_AFTER_FIRST_FAILURE);
                &&& ran_in_order(before, after, tests@, old(self)@.time_unit, ran)
                &&& r ==> ran == tests@.len()
                &&& !bail ==> r
                &&& bail ==> all_passed(after, before.len() as int, after.len() - 1)
                &&& bail && r ==> all_passed(after, before.len() as int, after.len() as int)
                &&& !r ==> bail && ran > 0 && after.last().status != TestCaseStatus::PASSED
            }),
    {
        let ghost start = self@;
        let ghost all = tests@;
        let ghost bail = has_flag(start.attributes, BAIL_OUT_AFTER_FIRST_FAILURE);
        let n = tests.len();
        let mut rest = tests;
        let mut i: usize = 0;
        assert(rest@ =~= all.subrange(0, all.len() as int));
        assert(self@.results.subrange(0, start.results.len() as int) =~= start.results);
        while rest.len() > 0
            invariant
                self.wf(),
                start == old(self)@,
                all == tests@,
                all.len() == n,
                bail == has_flag(start.attributes, BAIL_OUT_AFTER_FIRST_FAILURE),
                same_config(self@, start),
                rest@ == all.subrange(i as int, all.len() as int),
                ran_in_order(start.results, self@.results, all, start.time_unit, i as int),
                bail ==> all_passed(self@.results, start.results.len() as int, self@.results.len() as int),
            decreases rest.len(),
        {
            let ghost prev = self@.results;
            assert(i < all.len());
            let test = rest.remove(0);
            assert(rest@ =~= all.subrange(i + 1, all.len() as int));
            assert(test == all[i as int]);
            let passed = self.run_test(test);
            proof {
                let after = self@.results;
                assert(after.subrange(0, start.results.len() as int) =~= start.results) by {
                    assert(after.drop_last() == prev);
                    assert(prev.subrange(0, start.results.len() as int) == start.results);
                    assert(after.subrange(0, start.results.len() as int) =~= prev.subrange(
                        0,
                        start.results.len() as int,
                    ));
                }
                assert forall|j: int| 0 <= j < i + 1 implies is_outcome(
                    #[trigger] after[start.results.len() + j],
                    all[j].spec_title(),
                    all[j].spec_criteria(),
                    start.time_unit,
                ) by {
                    if j < i {
                        assert(after[start.results.len() + j] == prev[start.results.len() + j]);
                    }
                }
            }
            i = i + 1;
            if !passed && self.has_attribute(BAIL_OUT_AFTER_FIRST_FAILURE) {
                assert(all_passed(self@.results, start.results.len() as int, self@.results.len() - 1))
                    by {
                    assert forall|j: int|
                        start.results.len() <= j < self@.results.len()
                            - 1 implies #[trigger] self@.results[j].status == TestCaseStatus::PASSED by {
                        assert(self@.results[j] == prev[j]);
                    }
                }
                return false;
            }
            assert(bail ==> all_passed(
                self@.results,
                start.results.len() as int,
                self@.results.len() as int,
            )) by {
                if bail {
                    assert(passed);
                    assert forall|j: int|
                        start.results.len() <= j < self@.results.len() implies #[trigger] self@.results[j].status
                        == TestCaseStatus::PASSED by {
                        if j < self@.results.len() - 1 {
                            assert(self@.results[j] == prev[j]);
                        }
                    }
                }
            }
        }
        true
    }

    /// Runs the tests that a group hands out, as `run_tests` does.
    pub fn run_tests_from_class<T: Testable>(&mut self, test_class: T) -> (r: bool)
        requires
            old(self).wf(),
        ensures
            final(self).wf(),
            same_config(final(self)@, old(self)@),
            final(self)@.results.len() >= old(self)@.results.len(),
            final(self)@.results.subrange(0, old(self)@.results.len() as int) == old(self)@.results,
            !has_flag(old(self)@.attributes, BAIL_OUT_AFTER_FIRST_FAILURE) ==> r,
            !r ==> final(self)@.results.len() > old(self)@.results.len()
                && final(self)@.results.last().status != TestCaseStatus::PASSED,
    {
        self.run_tests(test_class.tests())
    }

    /// The number of results with each verdict, and in all.
    pub fn tally(&self) -> (r: Tally)
        ensures
            r.passed == count_status(self@.results, TestCaseStatus::PASSED),
            r.failed == count_status(self@.results, TestCaseStatus::FAILED),
            r.skipped == count_status(self@.results, TestCaseStatus::SKIPPED),
            r.total == self@.results.len(),
            self.wf() ==> r.passed + r.failed + r.skipped == r.total,
    {
        let mut passed: usize = 0;
        let mut failed: usize = 0;
        let mut skipped: usize = 0;
        let mut i: usize = 0;
        while i < self.results.len()
            invariant
                i <= self.results@.len(),
                passed == count_status(self.results@.take(i as int), TestCaseStatus::PASSED),
                failed == count_status(self.results@.take(i as int), TestCaseStatus::FAILED),
                skipped == count_status(self.results@.take(i as int), TestCaseStatus::SKIPPED),
            decreases self.results@.len() - i,
        {
            let ghost seen = self.results@.take(i as int);
            let ghost next = self.results@.take(i + 1);
            assert(next.drop_last() =~= seen);
            proof {
                lemma_count_bounded(seen, TestCaseStatus::PASSED);
                lemma_count_bounded(seen, TestCaseStatus::FAILED);
                lemma_count_bounded(seen, TestCaseStatus::SKIPPED);
            }
            match self.results[i].status {
                TestCaseStatus::PASSED => passed = passed + 1,
                TestCaseStatus::FAILED => failed = failed + 1,
                TestCaseStatus::SKIPPED => skipped = skipped + 1,
                TestCaseStatus::UNKNOWN => {},
            }
            i = i + 1;
        }
        assert(self.results@.take(i as int) =~= self.results@);
        proof {
            if self.wf() {
                lemma_tallies_cover_results(self@.results);
            }
        }
        Tally { passed, failed, skipped, total: self.results.len() }
    }

    /// The lines of the final statistics, written once the runner is done.
    pub fn final_report(&self) -> (r: Vec<String>)
        ensures
            texts(r@) == final_report_lines(self@),
    {
        let mut lines: Vec<String> = Vec::new();
        if self.has_attribute(DISABLE_FINAL_STATS) {
            assert(texts(lines@) =~= final_report_lines(self@));
            return lines;
        }
        lines.push(String::new());
        let mut total: u128 = 0;
        let mut i: usize = 0;
        while i < self.results.len()
            invariant
                i <= self.results@.len(),
                total == total_nanos(self.results@.take(i as int)),
                total <= i * (u64::MAX as nat),
                texts(lines@) == seq![Seq::<char>::empty()] + self.results@.take(i as int).map_values(
                    |r: TestCaseResults| stat_line(r, self.label_path@),
                ),
            decreases self.results@.len() - i,
        {
            let ghost seen = self.results@.take(i as int);
            let ghost next = self.results@.take(i + 1);
            assert(next.drop_last() =~= seen);
            let r = self.results[i];
            let mut text = String::new();
            push_qualified(&mut text, self.label_path, r.title);
            text.append(": ");
            text.append(r.criteria);
            text.append(" (");
            text.append(format_duration(r.elapsed_ns as u128, r.time_unit).as_str());
            text.append(")");
            let ghost before = lines@;
            lines.push(paint(status_tint_of(r.status), text.as_str()));
            assert(total + r.elapsed_ns <= (i + 1) * (u64::MAX as nat)) by (nonlinear_arith)
                requires
                    total <= i * (u64::MAX as nat),
                    r.elapsed_ns <= u64::MAX,
            ;
            assert((i + 1) * (u64::MAX as nat) <= u128::MAX) by (nonlinear_arith)
                requires
                    i < usize::MAX,
            ;
            total = total + r.elapsed_ns as u128;
            i = i + 1;
            assert(texts(lines@) =~= seq![Seq::<char>::empty()] + self.results@.take(i as int).map_values(
                |r: TestCaseResults| stat_line(r, self.label_path@),
            )) by {
                assert(texts(lines@) =~= texts(before).push(lines@[lines@.len() - 1]@));
            }
        }
        assert(self.results@.take(i as int) =~= self.results@);
        let t = self.tally();
        let mut ran = String::new();
        if t.total == 1 {
            ran.append("Ran 1 test in ");
        } else {
            ran.append("Ran ");
            push_decimal(&mut ran, t.total as u128);
            ran.append(" tests in ");
        }
        ran.append(format_duration(total, self.time_unit).as_str());
        let mut p = String::new();
        push_decimal(&mut p, t.passed as u128);
        p.append(" Passed");
        let mut f = String::new();
        push_decimal(&mut f, t.failed as u128);
        f.append(" Failed");
        let mut k = String::new();
        push_decimal(&mut k, t.skipped as u128);
        k.append(" Skipped");
        let mut counts = paint(Tint::Green, p.as_str());
        counts.append("  ");
        counts.append(paint(Tint::Red, f.as_str()).as_str());
        counts.append("  ");
        counts.append(paint(Tint::Yellow, k.as_str()).as_str());
        lines.push(String::new());
        lines.push(ran);
        lines.push(counts);
        assert(texts(lines@) =~= final_report_lines(self@));
        lines
    }

    /// The results so far, in the order in which the tests ran.
    pub fn results(&self) -> (r: &Vec<TestCaseResults>)
        ensures
            r@ == self@.results,
    {
        &self.results
    }

    /// Hands out the lines written so far, leaving none behind.
    pub fn take_output(&mut self) -> (r: Vec<String>)
        ensures
            texts(r@) == old(self)@.output,
            final(self)@ == (RunnerView { output: Seq::<Seq<char>>::empty(), ..old(self)@ }),
    {
        let mut r = Vec::new();
        r.append(&mut self.output);
        assert(self@.output =~= Seq::<Seq<char>>::empty());
        r
    }
}

} // verus!
