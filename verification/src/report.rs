//! The report of a hardware test run: its tests counted as a whole and by
//! category, and what the counts recommend.

use vstd::prelude::*;
use vstd::string::*;
use crate::config::same_text;
use crate::platform::fresh_test_id;
use crate::platform::lowercased;
use crate::platform::to_lower;
use crate::platform::unix_now;
use crate::views::opt_view;
use crate::views::seq_view;

verus! {

/// The categories of hardware tests.
#[derive(Clone, Copy, Debug, PartialEq, Eq, Structural)]
pub enum TestCategory {
    Connection,
    Device,
    Messaging,
    Configuration,
    Channels,
    Position,
    Mesh,
    Telemetry,
}

/// The category that a name in lower case stands for.
pub open spec fn category_of_name(lower: Seq<char>) -> Option<TestCategory> {
    if lower == "connection"@ {
        Some(TestCategory::Connection)
    } else if lower == "device"@ {
        Some(TestCategory::Device)
    } else if lower == "messaging"@ || lower == "message"@ {
        Some(TestCategory::Messaging)
    } else if lower == "configuration"@ || lower == "config"@ {
        Some(TestCategory::Configuration)
    } else if lower == "channels"@ || lower == "channel"@ {
        Some(TestCategory::Channels)
    } else if lower == "position"@ || lower == "gps"@ {
        Some(TestCategory::Position)
    } else if lower == "mesh"@ || lower == "network"@ {
        Some(TestCategory::Mesh)
    } else if lower == "telemetry"@ {
        Some(TestCategory::Telemetry)
    } else {
        None
    }
}

impl TestCategory {
    /// Reads a name in lower case as a category.
    pub fn from_lower(lower: &str) -> (r: Option<TestCategory>)
        ensures
            r == category_of_name(lower@),
    {
        if same_text(lower, "connection") {
            Some(TestCategory::Connection)
        } else if same_text(lower, "device") {
            Some(TestCategory::Device)
        } else if same_text(lower, "messaging") || same_text(lower, "message") {
            Some(TestCategory::Messaging)
        } else if same_text(lower, "configuration") || same_text(lower, "config") {
            Some(TestCategory::Configuration)
        } else if same_text(lower, "channels") || same_text(lower, "channel") {
            Some(TestCategory::Channels)
        } else if same_text(lower, "position") || same_text(lower, "gps") {
            Some(TestCategory::Position)
        } else if same_text(lower, "mesh") || same_text(lower, "network") {
            Some(TestCategory::Mesh)
        } else if same_text(lower, "telemetry") {
            Some(TestCategory::Telemetry)
        } else {
            None
        }
    }

    /// Reads a name as a category, in any mix of upper and lower case.
    pub fn from_str(name: &str) -> (r: Option<TestCategory>)
        ensures
            r == category_of_name(lowercased(name@)),
    {
        let lower = to_lower(name);
        TestCategory::from_lower(lower.as_str())
    }

    /// The name of the category.
    pub open spec fn name(self) -> Seq<char> {
        match self {
            TestCategory::Connection => "Connection"@,
            TestCategory::Device => "Device"@,
            TestCategory::Messaging => "Messaging"@,
            TestCategory::Configuration => "Configuration"@,
            TestCategory::Channels => "Channels"@,
            TestCategory::Position => "Position"@,
            TestCategory::Mesh => "Mesh"@,
            TestCategory::Telemetry => "Telemetry"@,
        }
    }

    /// The name of the category as text.
    pub fn to_string(&self) -> (s: String)
        ensures
            s@ == self.name(),
    {
        match self {
            TestCategory::Connection => String::from_str("Connection"),
            TestCategory::Device => String::from_str("Device"),
            TestCategory::Messaging => String::from_str("Messaging"),
            TestCategory::Configuration => String::from_str("Configuration"),
            TestCategory::Channels => String::from_str("Channels"),
            TestCategory::Position => String::from_str("Position"),
            TestCategory::Mesh => String::from_str("Mesh"),
            TestCategory::Telemetry => String::from_str("Telemetry"),
        }
    }
}

/// The outcome of a single test.
#[derive(Debug)]
pub struct TestResult {
    pub name: String,
    pub category: String,
    pub passed: bool,
    pub duration_ms: u64,
    pub error: Option<String>,
    /// When the test ended, in seconds since the Unix epoch.
    pub timestamp: u64,
}

pub struct TestResultView {
    pub name: Seq<char>,
    pub category: Seq<char>,
    pub passed: bool,
    pub duration_ms: u64,
    pub error: Option<Seq<char>>,
    pub timestamp: u64,
}

impl View for TestResult {
    type V = TestResultView;

    open spec fn view(&self) -> TestResultView {
        TestResultView {
            name: self.name@,
            category: self.category@,
            passed: self.passed,
            duration_ms: self.duration_ms,
            error: opt_view(self.error),
            timestamp: self.timestamp,
        }
    }
}

impl Clone for TestResult {
    fn clone(&self) -> (r: Self)
        ensures
            r@ == self@,
    {
        TestResult {
            name: self.name.clone(),
            category: self.category.clone(),
            passed: self.passed,
            duration_ms: self.duration_ms,
            error: self.error.clone(),
            timestamp: self.timestamp,
        }
    }
}

/// The counts of one category of tests.
#[derive(Debug)]
pub struct CategoryStats {
    pub category: String,
    pub total: usize,
    pub passed: usize,
    pub failed: usize,
    pub skipped: usize,
    pub duration_ms: u64,
}

pub struct CategoryStatsView {
    pub category: Seq<char>,
    pub total: usize,
    pub passed: usize,
    pub failed: usize,
    pub skipped: usize,
    pub duration_ms: u64,
}

impl View for CategoryStats {
    type V = CategoryStatsView;

    open spec fn view(&self) -> CategoryStatsView {
        CategoryStatsView {
            category: self.category@,
            total: self.total,
            passed: self.passed,
            failed: self.failed,
            skipped: self.skipped,
            duration_ms: self.duration_ms,
        }
    }
}

impl Clone for CategoryStats {
    fn clone(&self) -> (r: Self)
        ensures
            r@ == self@,
    {
        CategoryStats {
            category: self.category.clone(),
            total: self.total,
            passed: self.passed,
            failed: self.failed,
            skipped: self.skipped,
            duration_ms: self.duration_ms,
        }
    }
}

/// What a test run learned of the device under test.
#[derive(Debug)]
pub struct DeviceInfo {
    pub port: String,
    pub firmware_version: Option<String>,
    pub hardware_model: Option<String>,
    pub node_id: Option<String>,
    pub node_num: Option<u32>,
    pub region: Option<String>,
    pub has_gps: Option<bool>,
    pub num_channels: Option<u32>,
}

pub struct DeviceInfoView {
    pub port: Seq<char>,
    pub firmware_version: Option<Seq<char>>,
    pub hardware_model: Option<Seq<char>>,
    pub node_id: Option<Seq<char>>,
    pub node_num: Option<u32>,
    pub region: Option<Seq<char>>,
    pub has_gps: Option<bool>,
    pub num_channels: Option<u32>,
}

impl View for DeviceInfo {
    type V = DeviceInfoView;

    open spec fn view(&self) -> DeviceInfoView {
        DeviceInfoView {
            port: self.port@,
            firmware_version: opt_view(self.firmware_version),
            hardware_model: opt_view(self.hardware_model),
            node_id: opt_view(self.node_id),
            node_num: self.node_num,
            region: opt_view(self.region),
            has_gps: self.has_gps,
            num_channels: self.num_channels,
        }
    }
}

impl DeviceInfo {
    /// What is known of a device of which only the port is known.
    pub fn new(port: String) -> (r: Self)
        ensures
            r@ == (DeviceInfoView {
                port: port@,
                firmware_version: None,
                hardware_model: None,
                node_id: None,
                node_num: None,
                region: None,
                has_gps: None,
                num_channels: None,
            }),
    {
        DeviceInfo {
            port,
            firmware_version: None,
            hardware_model: None,
            node_id: None,
            node_num: None,
            region: None,
            has_gps: None,
            num_channels: None,
        }
    }
}

/// The sum of two durations, capped at the largest number of 64 bits.
pub open spec fn capped_sum(a: u64, b: u64) -> u64 {
    if a + b > u64::MAX {
        u64::MAX
    } else {
        (a + b) as u64
    }
}

/// A count raised by one, capped at the largest count.
pub open spec fn capped_next(n: usize) -> usize {
    if n == usize::MAX {
        n
    } else {
        (n + 1) as usize
    }
}

/// The counts of a category after one more of its tests.
pub open spec fn counted(stats: CategoryStatsView, result: TestResultView) -> CategoryStatsView {
    CategoryStatsView {
        category: stats.category,
        total: capped_next(stats.total),
        passed: if result.passed {
            capped_next(stats.passed)
        } else {
            stats.passed
        },
        failed: if result.passed {
            stats.failed
        } else {
            capped_next(stats.failed)
        },
        skipped: stats.skipped,
        duration_ms: capped_sum(stats.duration_ms, result.duration_ms),
    }
}

/// The counts of a category of which no test has been seen.
pub open spec fn no_tests(category: Seq<char>) -> CategoryStatsView {
    CategoryStatsView { category, total: 0, passed: 0, failed: 0, skipped: 0, duration_ms: 0 }
}

/// The counts by category after one more test: the test is counted with the
/// first entry of its category, and a category that is new comes last.
pub open spec fn tallied(stats: Seq<CategoryStatsView>, result: TestResultView) -> Seq<
    CategoryStatsView,
>
    decreases stats.len(),
{
    if stats.len() == 0 {
        seq![counted(no_tests(result.category), result)]
    } else if stats[0].category == result.category {
        stats.update(0, counted(stats[0], result))
    } else {
        seq![stats[0]] + tallied(stats.drop_first(), result)
    }
}

/// The counts by category of a run of tests, the categories in the order in
/// which their first tests ran.
pub open spec fn category_stats_of(results: Seq<TestResultView>) -> Seq<CategoryStatsView>
    decreases results.len(),
{
    if results.len() == 0 {
        Seq::empty()
    } else {
        tallied(category_stats_of(results.drop_last()), results.last())
    }
}

/// Where the first entry of the category of `result` stands at `i`, the
/// test is counted there.
proof fn lemma_tallied_at(stats: Seq<CategoryStatsView>, result: TestResultView, i: int)
    requires
        0 <= i < stats.len(),
        stats[i].category == result.category,
        forall|j: int| 0 <= j < i ==> (#[trigger] stats[j]).category != result.category,
    ensures
        tallied(stats, result) == stats.update(i, counted(stats[i], result)),
    decreases stats.len(),
{
    if i > 0 {
        let rest = stats.drop_first();
        assert(stats[0].category != result.category);
        assert forall|j: int| 0 <= j < i - 1 implies (#[trigger] rest[j]).category
            != result.category by {
            assert(rest[j] == stats[j + 1]);
        }
        lemma_tallied_at(rest, result, i - 1);
        assert(seq![stats[0]] + rest.update(i - 1, counted(rest[i - 1], result)) =~= stats.update(
            i,
            counted(stats[i], result),
        ));
    }
}

/// Where no entry has the category of `result`, a new entry comes last.
proof fn lemma_tallied_new(stats: Seq<CategoryStatsView>, result: TestResultView)
    requires
        forall|j: int| 0 <= j < stats.len() ==> (#[trigger] stats[j]).category != result.category,
    ensures
        tallied(stats, result) == stats.push(counted(no_tests(result.category), result)),
    decreases stats.len(),
{
    if stats.len() == 0 {
        assert(seq![counted(no_tests(result.category), result)] =~= stats.push(
            counted(no_tests(result.category), result),
        ));
    } else {
        let rest = stats.drop_first();
        assert(stats[0].category != result.category);
        assert forall|j: int| 0 <= j < rest.len() implies (#[trigger] rest[j]).category
            != result.category by {
            assert(rest[j] == stats[j + 1]);
        }
        lemma_tallied_new(rest, result);
        assert(seq![stats[0]] + rest.push(counted(no_tests(result.category), result))
            =~= stats.push(counted(no_tests(result.category), result)));
    }
}

fn next_count(n: usize) -> (r: usize)
    ensures
        r == capped_next(n),
{
    if n == usize::MAX {
        n
    } else {
        n + 1
    }
}

fn add_durations(a: u64, b: u64) -> (r: u64)
    ensures
        r == capped_sum(a, b),
{
    if a > u64::MAX - b {
        u64::MAX
    } else {
        a + b
    }
}

/// Counts one more test with the entry of its category.
pub fn tally(stats: &mut Vec<CategoryStats>, result: &TestResult)
    ensures
        seq_view(final(stats)@) == tallied(seq_view(old(stats)@), result@),
{
    let ghost before = seq_view(stats@);
    let mut i: usize = 0;
    while i < stats.len()
        invariant
            i <= stats.len(),
            *stats == *old(stats),
            before == seq_view(stats@),
            forall|j: int| 0 <= j < i ==> (#[trigger] before[j]).category != result.category@,
        decreases stats.len() - i,
    {
        if same_text(stats[i].category.as_str(), result.category.as_str()) {
            let entry = &stats[i];
            let updated = CategoryStats {
                category: entry.category.clone(),
                total: next_count(entry.total),
                passed: if result.passed {
                    next_count(entry.passed)
                } else {
                    entry.passed
                },
                failed: if result.passed {
                    entry.failed
                } else {
                    next_count(entry.failed)
                },
                skipped: entry.skipped,
                duration_ms: add_durations(entry.duration_ms, result.duration_ms),
            };
            proof {
                lemma_tallied_at(before, result@, i as int);
            }
            stats.set(i, updated);
            assert(seq_view(stats@) =~= before.update(i as int, counted(before[i as int], result@)));
            return ;
        }
        i = i + 1;
    }
    proof {
        lemma_tallied_new(before, result@);
    }
    stats.push(
        CategoryStats {
            category: result.category.clone(),
            total: 1,
            passed: if result.passed {
                1
            } else {
                0
            },
            failed: if result.passed {
                0
            } else {
                1
            },
            skipped: 0,
            duration_ms: result.duration_ms,
        },
    );
    assert(seq_view(stats@) =~= before.push(counted(no_tests(result.category@), result@)));
}

/// Counts a run of tests by category.
pub fn category_stats(results: &Vec<TestResult>) -> (r: Vec<CategoryStats>)
    ensures
        seq_view(r@) == category_stats_of(seq_view(results@)),
{
    let ghost all = seq_view(results@);
    let mut stats: Vec<CategoryStats> = Vec::new();
    let mut i: usize = 0;
    assert(seq_view(stats@) =~= category_stats_of(all.take(0)));
    while i < results.len()
        invariant
            i <= results.len(),
            all == seq_view(results@),
            seq_view(stats@) == category_stats_of(all.take(i as int)),
        decreases results.len() - i,
    {
        proof {
            assert(all.take(i + 1).drop_last() =~= all.take(i as int));
            assert(all.take(i + 1).last() == results@[i as int]@);
        }
        tally(&mut stats, &results[i]);
        i = i + 1;
    }
    assert(all.take(results.len() as int) =~= all);
    stats
}

/// The advice on the link to the device.
pub open spec fn link_advice() -> Seq<char> {
    "High packet error rate detected. Check USB cable and connections."@
}

/// The advice where most tests failed.
pub open spec fn majority_advice() -> Seq<char> {
    "Majority of tests failed. Device may need firmware update or reset."@
}

/// The advice on a category in which more tests failed than passed.
pub open spec fn category_advice(category: Seq<char>) -> Seq<char> {
    category + " tests are failing. Focus on debugging this area."@
}

/// The advice on each category in which more tests failed than passed, in
/// the order of the categories.
pub open spec fn category_advices(stats: Seq<CategoryStatsView>) -> Seq<Seq<char>>
    decreases stats.len(),
{
    if stats.len() == 0 {
        Seq::empty()
    } else if stats.last().failed > stats.last().passed {
        category_advices(stats.drop_last()).push(category_advice(stats.last().category))
    } else {
        category_advices(stats.drop_last())
    }
}

/// What the counts of a run recommend: care for the link where its error
/// rate is high, a word on the device where most tests failed, and one on
/// each category in which more tests failed than passed.
pub open spec fn recommendations_of(
    high_error_rate: bool,
    tests_passed: usize,
    tests_failed: usize,
    stats: Seq<CategoryStatsView>,
) -> Seq<Seq<char>> {
    (if high_error_rate {
        seq![link_advice()]
    } else {
        Seq::empty()
    }) + (if tests_failed > tests_passed {
        seq![majority_advice()]
    } else {
        Seq::empty()
    }) + category_advices(stats)
}

/// The views of a list of texts.
pub open spec fn texts(list: Seq<String>) -> Seq<Seq<char>> {
    list.map_values(|t: String| t@)
}

/// Writes the recommendations that the counts of a run give.
pub fn generate_recommendations(
    high_error_rate: bool,
    tests_passed: usize,
    tests_failed: usize,
    stats: &Vec<CategoryStats>,
) -> (r: Vec<String>)
    ensures
        texts(r@) == recommendations_of(
            high_error_rate,
            tests_passed,
            tests_failed,
            seq_view(stats@),
        ),
{
    let ghost listed = seq_view(stats@);
    let mut advice: Vec<String> = Vec::new();
    if high_error_rate {
        advice.push(
            String::from_str("High packet error rate detected. Check USB cable and connections."),
        );
    }
    if tests_failed > tests_passed {
        advice.push(
            String::from_str("Majority of tests failed. Device may need firmware update or reset."),
        );
    }
    let ghost general = texts(advice@);
    let mut i: usize = 0;
    assert(texts(advice@) =~= general + category_advices(listed.take(0)));
    while i < stats.len()
        invariant
            i <= stats.len(),
            listed == seq_view(stats@),
            texts(advice@) == general + category_advices(listed.take(i as int)),
        decreases stats.len() - i,
    {
        let entry = &stats[i];
        let ghost earlier = texts(advice@);
        proof {
            assert(listed.take(i + 1).drop_last() =~= listed.take(i as int));
            assert(listed.take(i + 1).last() == entry@);
        }
        if entry.failed > entry.passed {
            let mut line = entry.category.clone();
            line.append(" tests are failing. Focus on debugging this area.");
            advice.push(line);
            assert(texts(advice@) =~= earlier.push(category_advice(entry@.category)));
            assert(general + category_advices(listed.take(i as int)).push(
                category_advice(entry@.category),
            ) =~= earlier.push(category_advice(entry@.category)));
        }
        i = i + 1;
    }
    proof {
        assert(listed.take(stats.len() as int) =~= listed);
        assert(general =~= (if high_error_rate {
            seq![link_advice()]
        } else {
            Seq::<Seq<char>>::empty()
        }) + (if tests_failed > tests_passed {
            seq![majority_advice()]
        } else {
            Seq::<Seq<char>>::empty()
        }));
    }
    advice
}

/// The counts of a test run and its results.
#[derive(Debug)]
pub struct TestReport {
    pub test_id: String,
    /// When the run began, in seconds since the Unix epoch.
    pub timestamp: u64,
    pub device_info: DeviceInfo,
    pub tests_run: usize,
    pub tests_passed: usize,
    pub tests_failed: usize,
    pub tests_skipped: usize,
    pub duration_ms: u64,
    pub test_results: Vec<TestResult>,
    pub category_stats: Vec<CategoryStats>,
    pub recommendations: Vec<String>,
}

pub struct TestReportView {
    pub test_id: Seq<char>,
    pub timestamp: u64,
    pub device_info: DeviceInfoView,
    pub tests_run: usize,
    pub tests_passed: usize,
    pub tests_failed: usize,
    pub tests_skipped: usize,
    pub duration_ms: u64,
    pub test_results: Seq<TestResultView>,
    pub category_stats: Seq<CategoryStatsView>,
    pub recommendations: Seq<Seq<char>>,
}

impl View for TestReport {
    type V = TestReportView;

    open spec fn view(&self) -> TestReportView {
        TestReportView {
            test_id: self.test_id@,
            timestamp: self.timestamp,
            device_info: self.device_info@,
            tests_run: self.tests_run,
            tests_passed: self.tests_passed,
            tests_failed: self.tests_failed,
            tests_skipped: self.tests_skipped,
            duration_ms: self.duration_ms,
            test_results: seq_view(self.test_results@),
            category_stats: seq_view(self.category_stats@),
            recommendations: texts(self.recommendations@),
        }
    }
}

impl TestReportView {
    /// The report of a run of which no test has been run yet.
    pub open spec fn blank(test_id: Seq<char>, timestamp: u64, port: Seq<char>) -> TestReportView {
        TestReportView {
            test_id,
            timestamp,
            device_info: DeviceInfoView {
                port,
                firmware_version: None,
                hardware_model: None,
                node_id: None,
                node_num: None,
                region: None,
                has_gps: None,
                num_channels: None,
            },
            tests_run: 0,
            tests_passed: 0,
            tests_failed: 0,
            tests_skipped: 0,
            duration_ms: 0,
            test_results: Seq::empty(),
            category_stats: Seq::empty(),
            recommendations: Seq::empty(),
        }
    }

    /// The report after one more test.
    pub open spec fn with_result(self, result: TestResultView) -> TestReportView {
        TestReportView {
            tests_run: capped_next(self.tests_run),
            tests_passed: if result.passed {
                capped_next(self.tests_passed)
            } else {
                self.tests_passed
            },
            tests_failed: if result.passed {
                self.tests_failed
            } else {
                capped_next(self.tests_failed)
            },
            test_results: self.test_results.push(result),
            ..self
        }
    }

    /// The report with its counts by category and its recommendations
    /// brought up to date.
    pub open spec fn with_stats(self, high_error_rate: bool) -> TestReportView {
        TestReportView {
            category_stats: category_stats_of(self.test_results),
            recommendations: recommendations_of(
                high_error_rate,
                self.tests_passed,
                self.tests_failed,
                category_stats_of(self.test_results),
            ),
            ..self
        }
    }
}

impl TestReport {
    /// The report of a run that begins at the time `timestamp` under the
    /// identifier `test_id`, on the device at `device_port`.
    pub fn begun(test_id: String, timestamp: u64, device_port: String) -> (r: Self)
        ensures
            r@ == TestReportView::blank(test_id@, timestamp, device_port@),
    {
        let r = TestReport {
            test_id,
            timestamp,
            device_info: DeviceInfo::new(device_port),
            tests_run: 0,
            tests_passed: 0,
            tests_failed: 0,
            tests_skipped: 0,
            duration_ms: 0,
            test_results: Vec::new(),
            category_stats: Vec::new(),
            recommendations: Vec::new(),
        };
        assert(r@.test_results =~= Seq::empty());
        assert(r@.category_stats =~= Seq::empty());
        assert(r@.recommendations =~= Seq::empty());
        r
    }

    /// The report of a run that begins now, on the device at `device_port`,
    /// under an identifier of its own.
    pub fn new(device_port: String) -> (r: Self)
        ensures
            r@ == TestReportView::blank(r@.test_id, r@.timestamp, device_port@),
    {
        TestReport::begun(fresh_test_id(), unix_now(), device_port)
    }

    /// Adds the outcome of one test to the report.
    pub fn add_test_result(&mut self, result: TestResult)
        ensures
            final(self)@ == old(self)@.with_result(result@),
    {
        self.tests_run = next_count(self.tests_run);
        if result.passed {
            self.tests_passed = next_count(self.tests_passed);
        } else {
            self.tests_failed = next_count(self.tests_failed);
        }
        self.test_results.push(result);
        assert(seq_view(self.test_results@) =~= seq_view(old(self).test_results@).push(result@));
    }

    /// Brings the counts by category and the recommendations up to date.
    /// Whether the error rate of the link is high is the caller's to say.
    pub fn calculate_stats(&mut self, high_error_rate: bool)
        ensures
            final(self)@ == old(self)@.with_stats(high_error_rate),
    {
        self.category_stats = category_stats(&self.test_results);
        self.recommendations =
        generate_recommendations(
            high_error_rate,
            self.tests_passed,
            self.tests_failed,
            &self.category_stats,
        );
    }
}

} // verus!
