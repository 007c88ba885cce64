use rhai_test::compute_exit_code;
use rhai_test::error_handling::{Position, ScriptError};
use rhai_test::expector::{ExpectedValue, Expector};
use rhai_test::file_coverage_module_resolver::FileCoverageModuleResolver;
use rhai_test::instrumentation::instrument_line;
use rhai_test::logging_container::{LoggingContainer, LOG_LEVEL};
use rhai_test::test_container::TestContainer;
use rhai_test::test_coverage_container::{CoverageBand, TestCoverageContainer};
use rhai_test::test_runner::{TestRunner, TestSuiteResult};

#[test]
fn suites_are_registered_once() {
    let mut tc = TestContainer::new();
    tc.add_suite("a.rhai");
    tc.add_suite("a.rhai");
    tc.add_suite("b.rhai");
    assert_eq!(tc.count_passed_suites(), 2);
    assert_eq!(tc.count_failed_suites(), 0);
    assert!(!tc.has_failed_suites());
}

#[test]
fn failing_a_suite_flips_its_state() {
    let mut tc = TestContainer::new();
    tc.add_suite("a.rhai");
    tc.add_suite("b.rhai");
    tc.fail_suite("b.rhai");
    assert!(tc.has_failed_suites());
    assert_eq!(tc.count_passed_suites(), 1);
    assert_eq!(tc.count_failed_suites(), 1);
    // failing an unknown path changes nothing
    tc.fail_suite("missing.rhai");
    assert_eq!(tc.count_failed_suites(), 1);
}

#[test]
fn tests_are_registered_in_order() {
    let mut tc = TestContainer::new();
    tc.add_test("first", "a.rhai");
    tc.add_test("second", "a.rhai");
    let tests = tc.get_tests();
    assert_eq!(tests.len(), 2);
    assert_eq!(tests[0].name, "first");
    assert_eq!(tests[1].name, "second");
    assert_eq!(tests[0].file_path, "a.rhai");
}

#[test]
fn a_clean_run_with_passing_expectations_passes() {
    let mut tc = TestContainer::new();
    let mut logging = LoggingContainer::new();
    tc.add_suite("math_test.rhai");
    tc.add_test("adds", "math_test.rhai");
    tc.add_expect_result(Ok(()));
    let runner = TestRunner::new();
    let mut suite_result = TestSuiteResult::new();
    let mut results = Vec::new();
    let test = &tc.get_tests()[0];
    let test_copy = rhai_test::test_container::Test {
        name: String::from(test.name.as_str()),
        file_path: String::from(test.file_path.as_str()),
    };
    runner.record_test_outcome(&test_copy, &None, &mut tc, &mut logging, &mut suite_result, &mut results);
    assert_eq!(suite_result.passed_tests, 1);
    assert_eq!(suite_result.failed_tests, 0);
    assert_eq!(results.len(), 1);
    assert!(results[0].is_passed);
    assert_eq!(results[0].reason, "");
    // per-test state was reset
    assert!(tc.expect_results.is_empty());
}

#[test]
fn the_first_expectation_failure_becomes_the_reason() {
    let mut tc = TestContainer::new();
    let mut logging = LoggingContainer::new();
    tc.add_test("bad", "a.rhai");
    tc.add_expect_result(Ok(()));
    tc.add_expect_result(Err(String::from("first failure")));
    tc.add_expect_result(Err(String::from("second failure")));
    let runner = TestRunner::new();
    let mut suite_result = TestSuiteResult::new();
    let mut results = Vec::new();
    let test_copy = rhai_test::test_container::Test {
        name: String::from("bad"),
        file_path: String::from("a.rhai"),
    };
    runner.record_test_outcome(&test_copy, &None, &mut tc, &mut logging, &mut suite_result, &mut results);
    assert_eq!(suite_result.failed_tests, 1);
    assert!(!results[0].is_passed);
    assert_eq!(results[0].reason, "first failure");
}

#[test]
fn an_uncaught_error_fails_the_test_with_its_message() {
    let mut tc = TestContainer::new();
    let mut logging = LoggingContainer::new();
    let runner = TestRunner::new();
    let mut suite_result = TestSuiteResult::new();
    let mut results = Vec::new();
    let test_copy = rhai_test::test_container::Test {
        name: String::from("broken"),
        file_path: String::from("a.rhai"),
    };
    let invocation = Some(ScriptError::VariableNotFound {
        name: String::from("y"),
        pos: Position { line: 3, column: 4 },
    });
    runner.record_test_outcome(
        &test_copy,
        &invocation,
        &mut tc,
        &mut logging,
        &mut suite_result,
        &mut results,
    );
    assert!(!results[0].is_passed);
    assert_eq!(results[0].reason, "Access of an unknown variable: y");
}

#[test]
fn a_wrong_output_type_earns_the_expectation_hint() {
    let mut tc = TestContainer::new();
    let mut logging = LoggingContainer::new();
    let runner = TestRunner::new();
    let mut suite_result = TestSuiteResult::new();
    let mut results = Vec::new();
    let test_copy = rhai_test::test_container::Test {
        name: String::from("typeless"),
        file_path: String::from("a.rhai"),
    };
    let invocation = Some(ScriptError::MismatchOutputType {
        requested: String::from("()"),
        actual: String::from("i64"),
        pos: Position { line: 1, column: 1 },
    });
    runner.record_test_outcome(
        &test_copy,
        &invocation,
        &mut tc,
        &mut logging,
        &mut suite_result,
        &mut results,
    );
    assert!(results[0].reason.ends_with(
        "\n\t\tHint: Make sure your test ends with an expect function."
    ));
}

#[test]
fn per_test_state_is_isolated_between_tests() {
    let mut tc = TestContainer::new();
    let mut logging = LoggingContainer::new();
    logging.add_log(String::from("leftover"), LOG_LEVEL::INFO);
    tc.add_expect_result(Err(String::from("stale failure")));
    let runner = TestRunner::new();
    let mut suite_result = TestSuiteResult::new();
    let mut results = Vec::new();
    let first = rhai_test::test_container::Test {
        name: String::from("one"),
        file_path: String::from("a.rhai"),
    };
    runner.record_test_outcome(&first, &None, &mut tc, &mut logging, &mut suite_result, &mut results);
    assert!(!results[0].is_passed);
    // the next test starts clean: the stale failure and the log are gone
    assert!(!logging.has_log(LOG_LEVEL::INFO));
    let second = rhai_test::test_container::Test {
        name: String::from("two"),
        file_path: String::from("a.rhai"),
    };
    runner.record_test_outcome(&second, &None, &mut tc, &mut logging, &mut suite_result, &mut results);
    assert!(results[1].is_passed);
    assert_eq!(suite_result.passed_tests, 1);
    assert_eq!(suite_result.failed_tests, 1);
}

#[test]
fn a_passing_scenario_end_to_end() {
    // a test file whose single test adds numbers and expects the sum,
    // with coverage enabled
    let mut coverage = TestCoverageContainer::new();
    let mut tc = TestContainer::new();
    let mut logging = LoggingContainer::new();
    let path = "math_test.rhai";
    tc.add_suite(path);

    // loading the file instruments its statement line
    let instrumented = instrument_line(1, "let x = 1 + 1;", path, &mut coverage);
    assert!(instrumented.ends_with("rhai_test_coverage_instrument_statement(\"math_test.rhai\",2 );"));

    // evaluating the file registers the test; running it fires the
    // statement hook and checks the expectation
    tc.add_test("adds", path);
    coverage.statement_called(String::from(path), 2);
    Expector::new(ExpectedValue::Int(2)).to_be(&ExpectedValue::Int(2), &mut tc);

    let runner = TestRunner::new();
    let mut suite_result = TestSuiteResult::new();
    let mut results = Vec::new();
    let test_copy = rhai_test::test_container::Test {
        name: String::from("adds"),
        file_path: String::from(path),
    };
    runner.record_test_outcome(&test_copy, &None, &mut tc, &mut logging, &mut suite_result, &mut results);

    assert_eq!(suite_result.passed_tests, 1);
    assert_eq!(suite_result.failed_tests, 0);
    assert!(!tc.has_failed_suites());
    assert_eq!(tc.count_passed_suites(), 1);

    let report = coverage.report();
    assert_eq!(report.len(), 1);
    assert_eq!(report[0].source, path);
    assert_eq!(report[0].statements, "100");
    assert_eq!(report[0].statements_band, CoverageBand::High);
    assert_eq!(report[0].uncovered_lines, "");
    assert_eq!(compute_exit_code(false, tc.has_failed_suites()), 0);
}

#[test]
fn a_failing_scenario_end_to_end() {
    // a test file whose single test compares an integer against a string
    let mut tc = TestContainer::new();
    let mut logging = LoggingContainer::new();
    let path = "bad_test.rhai";
    tc.add_suite(path);
    tc.add_test("bad", path);
    Expector::new(ExpectedValue::Int(1)).to_be(&ExpectedValue::String(String::from("1")), &mut tc);

    let runner = TestRunner::new();
    let mut suite_result = TestSuiteResult::new();
    let mut results = Vec::new();
    let test_copy = rhai_test::test_container::Test {
        name: String::from("bad"),
        file_path: String::from(path),
    };
    runner.record_test_outcome(&test_copy, &None, &mut tc, &mut logging, &mut suite_result, &mut results);

    assert_eq!(suite_result.failed_tests, 1);
    assert!(!results[0].is_passed);
    assert!(results[0].reason.starts_with("Expected value to be"));
    if suite_result.failed_tests > 0 {
        tc.fail_suite(path);
    }
    assert!(tc.has_failed_suites());
    assert_eq!(compute_exit_code(false, tc.has_failed_suites()), 1);
}

#[test]
fn suite_totals_fold_into_the_run() {
    let mut tc = TestContainer::new();
    tc.add_suite("a.rhai");
    tc.add_suite("b.rhai");
    tc.record_suite_totals("a.rhai", 3, 0);
    assert_eq!(tc.passed_tests, 3);
    assert_eq!(tc.failed_tests, 0);
    assert!(!tc.has_failed_suites());
    tc.record_suite_totals("b.rhai", 1, 2);
    assert_eq!(tc.passed_tests, 4);
    assert_eq!(tc.failed_tests, 2);
    assert!(tc.has_failed_suites());
    assert_eq!(tc.count_failed_suites(), 1);
}

#[test]
fn watch_mode_never_exits_nonzero() {
    assert_eq!(compute_exit_code(true, true), 0);
    assert_eq!(compute_exit_code(true, false), 0);
    assert_eq!(compute_exit_code(false, false), 0);
}

#[test]
fn resolves_relative_paths_against_the_base() {
    let resolver = FileCoverageModuleResolver::new("scripts");
    assert_eq!(resolver.get_file_path("util"), "scripts/util.rhai");
    assert_eq!(resolver.get_file_path("nested/helper"), "scripts/nested/helper.rhai");
}

#[test]
fn resolves_absolute_paths_alone() {
    let resolver = FileCoverageModuleResolver::new("scripts");
    assert_eq!(resolver.get_file_path("/opt/mods/util"), "/opt/mods/util.rhai");
}

#[test]
fn forces_the_canonical_extension() {
    let resolver = FileCoverageModuleResolver::new("scripts");
    assert_eq!(resolver.get_file_path("util.js"), "scripts/util.rhai");
    assert_eq!(resolver.get_file_path("util.rhai"), "scripts/util.rhai");
    assert_eq!(resolver.get_file_path("a.b.c"), "scripts/a.b.rhai");
    // a leading dot is a hidden file, not an extension
    assert_eq!(resolver.get_file_path(".hidden"), "scripts/.hidden.rhai");
}

#[test]
fn respects_a_trailing_slash_on_the_base() {
    let resolver = FileCoverageModuleResolver::new("scripts/");
    assert_eq!(resolver.get_file_path("util"), "scripts/util.rhai");
    let bare = FileCoverageModuleResolver::new("");
    assert_eq!(bare.get_file_path("util"), "util.rhai");
}

#[test]
fn caches_modules_by_resolved_path() {
    let mut resolver = FileCoverageModuleResolver::new("scripts");
    let key = resolver.get_file_path("b");
    assert_eq!(resolver.lookup_module(key.as_str()), None);
    resolver.cache_module(key.as_str(), 17);
    assert_eq!(resolver.lookup_module(key.as_str()), Some(17));
    // a second resolution finds the same module again, not a new one
    assert_eq!(resolver.lookup_module(resolver.get_file_path("b").as_str()), Some(17));
    // other paths are untouched
    assert_eq!(resolver.lookup_module("scripts/c.rhai"), None);
}

#[test]
fn nested_import_chains_share_the_cached_module() {
    // a imports b, c imports b: the import path is the same text, so the
    // resolved key is the same and the second resolution is a cache hit
    let mut resolver = FileCoverageModuleResolver::new("scripts");
    let from_a = resolver.get_file_path("b");
    let from_c = resolver.get_file_path("b");
    assert_eq!(from_a, from_c);
    resolver.cache_module(from_a.as_str(), 3);
    assert_eq!(resolver.lookup_module(from_c.as_str()), Some(3));
}
