//! Judging executed tests.
//!
//! The host executes each registered test's callable; this module decides
//! what the execution meant. A test fails on an uncaught script error —
//! with a friendly hint when the error says the test body returned the
//! wrong kind of value — or on the first recorded expectation failure;
//! otherwise it passes. After each test the per-test state (captured logs
//! and expectation results) is reset, because matchers do not know which
//! test invoked them.

use vstd::prelude::*;

use crate::error_handling::{get_stack_trace, spec_stack_trace, trace_view, ScriptError};
use crate::logging_container::{LoggingContainer, LogV};
use crate::test_container::{TcV, Test, TestContainer};

verus! {

/// Totals of one suite's run.
#[derive(Debug)]
pub struct TestSuiteResult {
    pub passed_tests: i32,
    pub failed_tests: i32,
}

impl TestSuiteResult {
    /// Zero counts.
    pub fn new() -> (r: Self)
        ensures
            r.passed_tests == 0,
            r.failed_tests == 0,
    {
        Self { passed_tests: 0, failed_tests: 0 }
    }
}

/// The judged outcome of one test.
#[derive(Debug)]
pub struct TestResult {
    pub name: String,
    pub is_passed: bool,
    pub reason: String,
}

/// Mathematical image of a judged outcome.
pub ghost struct TestResultV {
    pub name: Seq<char>,
    pub is_passed: bool,
    pub reason: Seq<char>,
}

impl View for TestResult {
    type V = TestResultV;

    open spec fn view(&self) -> TestResultV {
        TestResultV { name: self.name@, is_passed: self.is_passed, reason: self.reason@ }
    }
}

impl TestResult {
    /// Bundles a judged outcome.
    pub fn new(name: String, is_passed: bool, reason: String) -> (r: Self)
        ensures
            r@ == (TestResultV { name: name@, is_passed, reason: reason@ }),
    {
        Self { name, is_passed, reason }
    }
}

/// The first failure among the recorded expectation results, if any.
pub open spec fn first_error(rs: Seq<Result<(), Seq<char>>>) -> Option<Seq<char>>
    decreases rs.len(),
{
    if rs.len() == 0 {
        None
    } else {
        match rs[0] {
            Err(m) => Some(m),
            Ok(u) => first_error(rs.skip(1)),
        }
    }
}

/// The reason reported for a test whose execution itself errored: the
/// outermost frame of the translated trace, plus a hint when the error says
/// the test body returned the wrong kind of value.
pub open spec fn invocation_reason(e: ScriptError) -> Seq<char> {
    let tr = spec_stack_trace(e, Seq::<char>::empty());
    let base = if tr.len() > 0 {
        tr[0].message
    } else {
        Seq::<char>::empty()
    };
    if e is MismatchOutputType {
        base + "\n\t\tHint: Make sure your test ends with an expect function."@
    } else {
        base
    }
}

/// How one executed test is judged: an uncaught error fails it with
/// `invocation_reason`; otherwise the first recorded expectation failure
/// fails it; otherwise it passes.
pub open spec fn test_verdict(
    invocation: Option<ScriptError>,
    results: Seq<Result<(), Seq<char>>>,
) -> (bool, Seq<char>) {
    match invocation {
        Some(e) => (false, invocation_reason(e)),
        None => match first_error(results) {
            Some(m) => (false, m),
            None => (true, Seq::<char>::empty()),
        },
    }
}

/// Runs the judging side of test execution.
#[derive(Debug)]
pub struct TestRunner {}

impl TestRunner {
    /// A runner.
    pub fn new() -> (r: Self) {
        Self {  }
    }

    /// The first failure among the recorded expectation results.
    fn first_recorded_error(test_container: &TestContainer) -> (r: Option<String>)
        ensures
            match r {
                Some(m) => first_error(test_container@.expect_results) == Some(m@),
                None => first_error(test_container@.expect_results) is None,
            },
    {
        let ghost rs = test_container@.expect_results;
        proof {
            assert(rs.len() == test_container.expect_results@.len());
            assert(rs.skip(0) =~= rs);
        }
        let mut idx: usize = 0;
        while idx < test_container.expect_results.len()
            invariant
                idx <= test_container.expect_results.len(),
                rs == test_container@.expect_results,
                rs.len() == test_container.expect_results.len(),
                first_error(rs) == first_error(rs.skip(idx as int)),
            decreases test_container.expect_results.len() - idx,
        {
            proof {
                assert(rs.skip(idx as int)[0] == rs[idx as int]);
                assert(rs.skip(idx as int).skip(1) =~= rs.skip(idx + 1));
                assert(rs[idx as int] == crate::test_container::res_view(
                    test_container.expect_results@[idx as int],
                ));
            }
            match &test_container.expect_results[idx] {
                Err(m) => {
                    return Some(String::from_str(m.as_str()));
                },
                Ok(u) => {},
            }
            idx += 1;
        }
        proof {
            assert(rs.skip(rs.len() as int) =~= Seq::<Result<(), Seq<char>>>::empty());
        }
        None
    }

    /// Judges one executed test. `invocation` is the translated error of the
    /// host's call of the test's function, or `None` when it returned
    /// normally. Appends the test's result, bumps the suite totals, and
    /// resets the per-test state: the captured logs and the recorded
    /// expectation results.
    pub fn record_test_outcome(
        &self,
        test: &Test,
        invocation: &Option<ScriptError>,
        test_container: &mut TestContainer,
        logging_container: &mut LoggingContainer,
        suite_result: &mut TestSuiteResult,
        test_results: &mut Vec<TestResult>,
    )
        requires
            old(suite_result).passed_tests < i32::MAX,
            old(suite_result).failed_tests < i32::MAX,
        ensures
            ({
                let (passed, reason) = test_verdict(
                    *invocation,
                    old(test_container)@.expect_results,
                );
                &&& final(test_results)@.map_values(|t: TestResult| t@) == old(
                    test_results,
                )@.map_values(|t: TestResult| t@).push(
                    TestResultV { name: test.name@, is_passed: passed, reason },
                )
                &&& final(suite_result).passed_tests == old(suite_result).passed_tests + (
                if passed {
                    1int
                } else {
                    0int
                })
                &&& final(suite_result).failed_tests == old(suite_result).failed_tests + (
                if passed {
                    0int
                } else {
                    1int
                })
            }),
            final(logging_container)@ == Seq::<LogV>::empty(),
            final(test_container)@ == (TcV {
                expect_results: Seq::<Result<(), Seq<char>>>::empty(),
                ..old(test_container)@
            }),
            old(test_container).wf() ==> final(test_container).wf(),
    {
        let passed: bool;
        let reason: String;
        match invocation {
            Some(e) => {
                let trace = get_stack_trace(e, None);
                let base = if trace.len() > 0 {
                    proof {
                        assert(trace_view(trace@)[0] == trace@[0]@);
                    }
                    String::from_str(trace[0].message.as_str())
                } else {
                    String::new()
                };
                passed = false;
                reason = if matches!(e, ScriptError::MismatchOutputType { .. }) {
                    base.concat("\n\t\tHint: Make sure your test ends with an expect function.")
                } else {
                    base
                };
            },
            None => {
                match Self::first_recorded_error(test_container) {
                    Some(m) => {
                        passed = false;
                        reason = m;
                    },
                    None => {
                        passed = true;
                        reason = String::new();
                    },
                }
            },
        }
        let ghost prior_results = test_results@.map_values(|t: TestResult| t@);
        test_results.push(
            TestResult::new(String::from_str(test.name.as_str()), passed, reason),
        );
        proof {
            assert(final(test_results)@.map_values(|t: TestResult| t@) =~= prior_results.push(
                test_results@[test_results@.len() - 1]@,
            ));
        }
        if passed {
            suite_result.passed_tests = suite_result.passed_tests + 1;
        } else {
            suite_result.failed_tests = suite_result.failed_tests + 1;
        }
        logging_container.reset();
        test_container.clear_expect_results();
    }
}

} // verus!
