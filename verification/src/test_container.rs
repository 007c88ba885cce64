//! The registry of discovered tests, suites, and expectation outcomes.
//!
//! Scripts register tests through the host `test` function while a file is
//! evaluated; matchers append one expectation result per call; the runner
//! reads the results of the test that just ran and resets them. One suite
//! stands for one test file and fails when any of its tests fails or the
//! file itself fails to compile or evaluate.

use vstd::prelude::*;

verus! {

/// One registered test: its name and the file that declared it. The test's
/// callable stays with the host, keyed by this test's position in the list.
#[derive(Debug)]
pub struct Test {
    pub name: String,
    pub file_path: String,
}

/// Mathematical image of a registered test.
pub ghost struct TestV {
    pub name: Seq<char>,
    pub file_path: Seq<char>,
}

impl View for Test {
    type V = TestV;

    open spec fn view(&self) -> TestV {
        TestV { name: self.name@, file_path: self.file_path@ }
    }
}

/// One test suite: a test file and whether it has passed so far.
#[derive(Debug)]
pub struct TestSuite {
    file_path: String,
    is_passed: bool,
}

/// Mathematical image of a suite.
pub ghost struct SuiteV {
    pub file_path: Seq<char>,
    pub is_passed: bool,
}

impl View for TestSuite {
    type V = SuiteV;

    closed spec fn view(&self) -> SuiteV {
        SuiteV { file_path: self.file_path@, is_passed: self.is_passed }
    }
}

/// The image of one recorded expectation result.
pub open spec fn res_view(r: Result<(), String>) -> Result<(), Seq<char>> {
    match r {
        Ok(u) => Ok(u),
        Err(m) => Err(m@),
    }
}

/// Mathematical image of the whole registry.
pub ghost struct TcV {
    pub tests: Seq<TestV>,
    pub suites: Seq<SuiteV>,
    pub passed: int,
    pub failed: int,
    pub expect_results: Seq<Result<(), Seq<char>>>,
}

/// Whether a suite for this path exists.
pub open spec fn suite_known(suites: Seq<SuiteV>, path: Seq<char>) -> bool {
    exists|i: int| 0 <= i < suites.len() && suites[i].file_path == path
}

/// Adding a suite: a no-op when the path already has one.
pub open spec fn spec_add_suite(suites: Seq<SuiteV>, path: Seq<char>) -> Seq<SuiteV> {
    if suite_known(suites, path) {
        suites
    } else {
        suites.push(SuiteV { file_path: path, is_passed: true })
    }
}

/// Failing a suite: every suite of the path is marked failed; a path without
/// a suite is left alone.
pub open spec fn spec_fail_suite(suites: Seq<SuiteV>, path: Seq<char>) -> Seq<SuiteV> {
    suites.map(
        |i: int, s: SuiteV|
            if s.file_path == path {
                SuiteV { is_passed: false, ..s }
            } else {
                s
            },
    )
}

/// The registry of tests, suites, counts and expectation results.
#[derive(Debug)]
pub struct TestContainer {
    pub tests: Vec<Test>,
    pub test_suites: Vec<TestSuite>,
    pub passed_tests: i32,
    pub failed_tests: i32,
    pub expect_results: Vec<Result<(), String>>,
}

impl View for TestContainer {
    type V = TcV;

    open spec fn view(&self) -> TcV {
        TcV {
            tests: self.tests@.map_values(|t: Test| t@),
            suites: self.test_suites@.map_values(|s: TestSuite| s@),
            passed: self.passed_tests as int,
            failed: self.failed_tests as int,
            expect_results: self.expect_results@.map_values(|r: Result<(), String>| res_view(r)),
        }
    }
}

impl TestContainer {
    /// Well-formedness: one suite per path.
    pub open spec fn wf(&self) -> bool {
        forall|i: int, j: int|
            0 <= i < j < self@.suites.len() ==> self@.suites[i].file_path
                != self@.suites[j].file_path
    }

    /// An empty registry.
    pub fn new() -> (r: Self)
        ensures
            r@ == (TcV {
                tests: Seq::<TestV>::empty(),
                suites: Seq::<SuiteV>::empty(),
                passed: 0,
                failed: 0,
                expect_results: Seq::<Result<(), Seq<char>>>::empty(),
            }),
            r.wf(),
    {
        let r = Self {
            tests: Vec::new(),
            test_suites: Vec::new(),
            passed_tests: 0,
            failed_tests: 0,
            expect_results: Vec::new(),
        };
        proof {
            assert(r@.tests =~= Seq::<TestV>::empty());
            assert(r@.suites =~= Seq::<SuiteV>::empty());
            assert(r@.expect_results =~= Seq::<Result<(), Seq<char>>>::empty());
        }
        r
    }

    /// Registers a suite for a test file; registering the same file again is
    /// a no-op.
    pub fn add_suite(&mut self, file_path: &str)
        requires
            old(self).wf(),
        ensures
            final(self)@ == (TcV { suites: spec_add_suite(old(self)@.suites, file_path@), ..old(self)@ }),
            final(self).wf(),
    {
        let needle = String::from_str(file_path);
        let mut i: usize = 0;
        while i < self.test_suites.len()
            invariant
                i <= self.test_suites.len(),
                needle@ == file_path@,
                self@ == old(self)@,
                old(self).wf(),
                forall|j: int| 0 <= j < i ==> self@.suites[j].file_path != file_path@,
            decreases self.test_suites.len() - i,
        {
            proof {
                assert(self@.suites[i as int] == self.test_suites@[i as int]@);
            }
            if self.test_suites[i].file_path == needle {
                proof {
                    assert(suite_known(self@.suites, file_path@));
                    assert(final(self)@ =~~= (TcV {
                        suites: spec_add_suite(old(self)@.suites, file_path@),
                        ..old(self)@
                    }));
                }
                return ;
            }
            i += 1;
        }
        let ghost prior = self@.suites;
        self.test_suites.push(TestSuite { file_path: needle, is_passed: true });
        proof {
            assert(!suite_known(prior, file_path@));
            assert(self@.suites =~= prior.push(SuiteV { file_path: file_path@, is_passed: true }));
            assert(final(self)@ =~~= (TcV {
                suites: spec_add_suite(old(self)@.suites, file_path@),
                ..old(self)@
            }));
            assert forall|i2: int, j2: int|
                0 <= i2 < j2 < self@.suites.len() implies self@.suites[i2].file_path
                != self@.suites[j2].file_path by {
                if j2 == self@.suites.len() - 1 {
                    assert(self@.suites[i2] == prior[i2]);
                }
            }
        }
    }

    /// Registers a test declared by a script.
    pub fn add_test(&mut self, name: &str, file_path: &str)
        ensures
            final(self)@ == (TcV {
                tests: old(self)@.tests.push(TestV { name: name@, file_path: file_path@ }),
                ..old(self)@
            }),
            old(self).wf() ==> final(self).wf(),
    {
        let ghost prior = self@.tests;
        self.tests.push(Test { name: String::from_str(name), file_path: String::from_str(file_path) });
        proof {
            assert(self@.tests =~= prior.push(TestV { name: name@, file_path: file_path@ }));
            assert(final(self)@ =~~= (TcV {
                tests: old(self)@.tests.push(TestV { name: name@, file_path: file_path@ }),
                ..old(self)@
            }));
        }
    }

    /// The registered tests, in registration order.
    pub fn get_tests(&self) -> (r: &Vec<Test>)
        ensures
            r@.map_values(|t: Test| t@) == self@.tests,
    {
        &self.tests
    }

    /// Whether any suite has failed.
    pub fn has_failed_suites(&self) -> (r: bool)
        ensures
            r == exists|i: int| 0 <= i < self@.suites.len() && !self@.suites[i].is_passed,
    {
        let mut i: usize = 0;
        while i < self.test_suites.len()
            invariant
                i <= self.test_suites.len(),
                forall|j: int| 0 <= j < i ==> self@.suites[j].is_passed,
            decreases self.test_suites.len() - i,
        {
            proof {
                assert(self@.suites[i as int] == self.test_suites@[i as int]@);
            }
            if !self.test_suites[i].is_passed {
                return true;
            }
            i += 1;
        }
        false
    }

    /// Marks the suite of a file as failed; a file without a suite is left
    /// alone.
    pub fn fail_suite(&mut self, path: &str)
        ensures
            final(self)@ == (TcV { suites: spec_fail_suite(old(self)@.suites, path@), ..old(self)@ }),
            old(self).wf() ==> final(self).wf(),
    {
        let needle = String::from_str(path);
        let ghost gspec = spec_fail_suite(self@.suites, path@);
        let mut i: usize = 0;
        while i < self.test_suites.len()
            invariant
                i <= self.test_suites.len(),
                needle@ == path@,
                self@.suites.len() == old(self)@.suites.len(),
                self@.tests == old(self)@.tests,
                self@.passed == old(self)@.passed,
                self@.failed == old(self)@.failed,
                self@.expect_results == old(self)@.expect_results,
                gspec == spec_fail_suite(old(self)@.suites, path@),
                forall|j: int| 0 <= j < i ==> self@.suites[j] == gspec[j],
                forall|j: int| i <= j < self@.suites.len() ==> self@.suites[j] == old(self)@.suites[j],
            decreases self.test_suites.len() - i,
        {
            proof {
                assert(self@.suites[i as int] == self.test_suites@[i as int]@);
            }
            if self.test_suites[i].file_path == needle {
                self.test_suites[i].is_passed = false;
            }
            proof {
                assert(self@.suites[i as int] == self.test_suites@[i as int]@);
                assert(self@.suites[i as int] == gspec[i as int]);
            }
            i += 1;
        }
        proof {
            assert(final(self)@.suites =~= gspec);
            assert(final(self)@ =~~= (TcV {
                suites: spec_fail_suite(old(self)@.suites, path@),
                ..old(self)@
            }));
            assert forall|i2: int, j2: int|
                0 <= i2 < j2 < gspec.len() && old(self).wf() implies gspec[i2].file_path
                != gspec[j2].file_path by {
                assert(gspec[i2].file_path == old(self)@.suites[i2].file_path);
                assert(gspec[j2].file_path == old(self)@.suites[j2].file_path);
            }
        }
    }

    /// Records the outcome of one matcher call.
    pub fn add_expect_result(&mut self, result: Result<(), String>)
        ensures
            final(self)@ == (TcV {
                expect_results: old(self)@.expect_results.push(res_view(result)),
                ..old(self)@
            }),
            old(self).wf() ==> final(self).wf(),
    {
        let ghost prior = self@.expect_results;
        let ghost entry = res_view(result);
        self.expect_results.push(result);
        proof {
            assert(self@.expect_results =~= prior.push(entry));
            assert(final(self)@ =~~= (TcV {
                expect_results: old(self)@.expect_results.push(entry),
                ..old(self)@
            }));
        }
    }

    /// Forgets the recorded expectation results; called after each test.
    pub fn clear_expect_results(&mut self)
        ensures
            final(self)@ == (TcV {
                expect_results: Seq::<Result<(), Seq<char>>>::empty(),
                ..old(self)@
            }),
            old(self).wf() ==> final(self).wf(),
    {
        self.expect_results = Vec::new();
        proof {
            assert(self@.expect_results =~= Seq::<Result<(), Seq<char>>>::empty());
            assert(final(self)@ =~~= (TcV {
                expect_results: Seq::<Result<(), Seq<char>>>::empty(),
                ..old(self)@
            }));
        }
    }

    /// Folds one finished suite into the run's totals: adds the suite's
    /// counts, and marks the suite failed when any of its tests failed. A
    /// suite whose file failed to compile or evaluate is failed directly
    /// through `fail_suite` instead.
    pub fn record_suite_totals(&mut self, path: &str, passed_tests: i32, failed_tests: i32)
        requires
            passed_tests >= 0,
            failed_tests >= 0,
            old(self).passed_tests + passed_tests <= i32::MAX,
            old(self).failed_tests + failed_tests <= i32::MAX,
        ensures
            final(self)@ == (TcV {
                passed: old(self)@.passed + passed_tests,
                failed: old(self)@.failed + failed_tests,
                suites: if failed_tests > 0 {
                    spec_fail_suite(old(self)@.suites, path@)
                } else {
                    old(self)@.suites
                },
                ..old(self)@
            }),
            old(self).wf() ==> final(self).wf(),
    {
        self.passed_tests = self.passed_tests + passed_tests;
        self.failed_tests = self.failed_tests + failed_tests;
        if failed_tests > 0 {
            self.fail_suite(path);
        }
    }

    /// How many suites have passed so far.
    pub fn count_passed_suites(&self) -> (r: usize)
        ensures
            r == count_passed(self@.suites),
    {
        let ghost ss = self@.suites;
        let mut count: usize = 0;
        let mut idx: usize = self.test_suites.len();
        proof {
            assert(ss.skip(idx as int) =~= Seq::<SuiteV>::empty());
        }
        while idx > 0
            invariant
                idx <= self.test_suites.len(),
                ss == self@.suites,
                count == count_passed(ss.skip(idx as int)),
                count <= ss.len() - idx,
            decreases idx,
        {
            idx -= 1;
            proof {
                assert(ss.skip(idx as int)[0] == ss[idx as int]);
                assert(ss.skip(idx as int).skip(1) =~= ss.skip(idx + 1));
                assert(ss[idx as int] == self.test_suites@[idx as int]@);
            }
            if self.test_suites[idx].is_passed {
                count += 1;
            }
        }
        proof {
            assert(ss.skip(0) =~= ss);
        }
        count
    }

    /// How many suites have failed so far.
    pub fn count_failed_suites(&self) -> (r: usize)
        ensures
            r == count_failed(self@.suites),
    {
        let ghost ss = self@.suites;
        let mut count: usize = 0;
        let mut idx: usize = self.test_suites.len();
        proof {
            assert(ss.skip(idx as int) =~= Seq::<SuiteV>::empty());
        }
        while idx > 0
            invariant
                idx <= self.test_suites.len(),
                ss == self@.suites,
                count == count_failed(ss.skip(idx as int)),
                count <= ss.len() - idx,
            decreases idx,
        {
            idx -= 1;
            proof {
                assert(ss.skip(idx as int)[0] == ss[idx as int]);
                assert(ss.skip(idx as int).skip(1) =~= ss.skip(idx + 1));
                assert(ss[idx as int] == self.test_suites@[idx as int]@);
            }
            if !self.test_suites[idx].is_passed {
                count += 1;
            }
        }
        proof {
            assert(ss.skip(0) =~= ss);
        }
        count
    }
}

/// How many suites of a list have passed.
pub open spec fn count_passed(ss: Seq<SuiteV>) -> nat
    decreases ss.len(),
{
    if ss.len() == 0 {
        0
    } else {
        (if ss[0].is_passed {
            1nat
        } else {
            0nat
        }) + count_passed(ss.skip(1))
    }
}

/// How many suites of a list have failed.
pub open spec fn count_failed(ss: Seq<SuiteV>) -> nat
    decreases ss.len(),
{
    if ss.len() == 0 {
        0
    } else {
        (if ss[0].is_passed {
            0nat
        } else {
            1nat
        }) + count_failed(ss.skip(1))
    }
}

} // verus!
