//! The coverage registry: every instrumented site of every source file, and
//! whether it has been hit.
//!
//! Sites are registered by the line instrumenter when a module is loaded, and
//! marked hit by callbacks fired while the instrumented script runs.
//! Registration is idempotent; marking a site that was never registered is an
//! instrumentation error, which callers must rule out (`has_*`) before
//! calling the `*_called` methods.

use vstd::prelude::*;

use crate::text::{dec_str, int_str, u64_to_string, i64_to_string};

verus! {

/// A function-definition coverage site.
#[derive(Debug)]
pub struct FunctionCoverage {
    pub function_name: String,
    pub source: String,
    pub line_number: i64,
    pub is_hit: bool,
}

/// A statement coverage site.
#[derive(Debug)]
pub struct StatementCoverage {
    pub source: String,
    pub line_number: i64,
    pub is_hit: bool,
}

/// A branch coverage site.
#[derive(Debug)]
pub struct BranchCoverage {
    pub source: String,
    pub line_number: i64,
    pub is_hit: bool,
}

/// Mathematical image of a function site.
pub ghost struct FnSiteV {
    pub name: Seq<char>,
    pub source: Seq<char>,
    pub line: int,
    pub hit: bool,
}

/// Mathematical image of a statement or branch site.
pub ghost struct SiteV {
    pub source: Seq<char>,
    pub line: int,
    pub hit: bool,
}

impl View for FunctionCoverage {
    type V = FnSiteV;

    open spec fn view(&self) -> FnSiteV {
        FnSiteV {
            name: self.function_name@,
            source: self.source@,
            line: self.line_number as int,
            hit: self.is_hit,
        }
    }
}

impl View for StatementCoverage {
    type V = SiteV;

    open spec fn view(&self) -> SiteV {
        SiteV { source: self.source@, line: self.line_number as int, hit: self.is_hit }
    }
}

impl View for BranchCoverage {
    type V = SiteV;

    open spec fn view(&self) -> SiteV {
        SiteV { source: self.source@, line: self.line_number as int, hit: self.is_hit }
    }
}

/// Mathematical image of the whole registry.
pub ghost struct CovV {
    pub sources: Seq<Seq<char>>,
    pub functions: Seq<FnSiteV>,
    pub statements: Seq<SiteV>,
    pub branches: Seq<SiteV>,
}

/// Whether a function site with this exact key is registered.
pub open spec fn fn_registered(fs: Seq<FnSiteV>, name: Seq<char>, src: Seq<char>, line: int) -> bool {
    exists|i: int| 0 <= i < fs.len() && fs[i].name == name && fs[i].source == src && fs[i].line == line
}

/// Whether a statement or branch site with this exact key is registered.
pub open spec fn site_registered(ss: Seq<SiteV>, src: Seq<char>, line: int) -> bool {
    exists|i: int| 0 <= i < ss.len() && ss[i].source == src && ss[i].line == line
}

/// Whether a source name already has a bucket.
pub open spec fn source_known(sources: Seq<Seq<char>>, src: Seq<char>) -> bool {
    exists|i: int| 0 <= i < sources.len() && sources[i] == src
}

/// The source list after making sure a name has a bucket.
pub open spec fn spec_add_source(sources: Seq<Seq<char>>, src: Seq<char>) -> Seq<Seq<char>> {
    if source_known(sources, src) {
        sources
    } else {
        sources.push(src)
    }
}

/// Registering a function site: a no-op when the key already exists.
pub open spec fn spec_add_function(v: CovV, name: Seq<char>, src: Seq<char>, line: int) -> CovV {
    CovV {
        sources: spec_add_source(v.sources, src),
        functions: if fn_registered(v.functions, name, src, line) {
            v.functions
        } else {
            v.functions.push(FnSiteV { name, source: src, line, hit: false })
        },
        statements: v.statements,
        branches: v.branches,
    }
}

/// Registering a statement site: a no-op when the key already exists.
pub open spec fn spec_add_statement(v: CovV, src: Seq<char>, line: int) -> CovV {
    CovV {
        sources: spec_add_source(v.sources, src),
        functions: v.functions,
        statements: if site_registered(v.statements, src, line) {
            v.statements
        } else {
            v.statements.push(SiteV { source: src, line, hit: false })
        },
        branches: v.branches,
    }
}

/// Registering a branch site: a no-op when the key already exists.
pub open spec fn spec_add_branch(v: CovV, src: Seq<char>, line: int) -> CovV {
    CovV {
        sources: spec_add_source(v.sources, src),
        functions: v.functions,
        statements: v.statements,
        branches: if site_registered(v.branches, src, line) {
            v.branches
        } else {
            v.branches.push(SiteV { source: src, line, hit: false })
        },
    }
}

/// Every function site with the key marked hit.
pub open spec fn spec_mark_fns(fs: Seq<FnSiteV>, name: Seq<char>, src: Seq<char>, line: int) -> Seq<
    FnSiteV,
> {
    fs.map(
        |i: int, s: FnSiteV|
            if s.name == name && s.source == src && s.line == line {
                FnSiteV { hit: true, ..s }
            } else {
                s
            },
    )
}

/// Every statement or branch site with the key marked hit.
pub open spec fn spec_mark_sites(ss: Seq<SiteV>, src: Seq<char>, line: int) -> Seq<SiteV> {
    ss.map(
        |i: int, s: SiteV|
            if s.source == src && s.line == line {
                SiteV { hit: true, ..s }
            } else {
                s
            },
    )
}

/// Marking a function site hit.
pub open spec fn spec_mark_function(v: CovV, name: Seq<char>, src: Seq<char>, line: int) -> CovV {
    CovV { functions: spec_mark_fns(v.functions, name, src, line), ..v }
}

/// Marking a statement site hit.
pub open spec fn spec_mark_statement(v: CovV, src: Seq<char>, line: int) -> CovV {
    CovV { statements: spec_mark_sites(v.statements, src, line), ..v }
}

/// Marking a branch site hit.
pub open spec fn spec_mark_branch(v: CovV, src: Seq<char>, line: int) -> CovV {
    CovV { branches: spec_mark_sites(v.branches, src, line), ..v }
}

/// Well-formedness: source names and site keys are pairwise distinct.
pub open spec fn cov_wf(v: CovV) -> bool {
    &&& forall|i: int, j: int|
        0 <= i < j < v.sources.len() ==> v.sources[i] != v.sources[j]
    &&& forall|i: int, j: int|
        0 <= i < j < v.functions.len() ==> !(v.functions[i].name == v.functions[j].name
            && v.functions[i].source == v.functions[j].source && v.functions[i].line
            == v.functions[j].line)
    &&& forall|i: int, j: int|
        0 <= i < j < v.statements.len() ==> !(v.statements[i].source == v.statements[j].source
            && v.statements[i].line == v.statements[j].line)
    &&& forall|i: int, j: int|
        0 <= i < j < v.branches.len() ==> !(v.branches[i].source == v.branches[j].source
            && v.branches[i].line == v.branches[j].line)
}

/// The coverage registry.
#[derive(Debug)]
pub struct TestCoverageContainer {
    sources: Vec<String>,
    functions: Vec<FunctionCoverage>,
    statements: Vec<StatementCoverage>,
    branches: Vec<BranchCoverage>,
}

impl View for TestCoverageContainer {
    type V = CovV;

    closed spec fn view(&self) -> CovV {
        CovV {
            sources: self.sources@.map_values(|s: String| s@),
            functions: self.functions@.map_values(|f: FunctionCoverage| f@),
            statements: self.statements@.map_values(|s: StatementCoverage| s@),
            branches: self.branches@.map_values(|b: BranchCoverage| b@),
        }
    }
}

impl TestCoverageContainer {
    /// Well-formedness of the registry; every operation preserves it.
    pub open spec fn wf(&self) -> bool {
        cov_wf(self@)
    }

    /// An empty registry.
    pub fn new() -> (r: Self)
        ensures
            r@ == (CovV {
                sources: Seq::<Seq<char>>::empty(),
                functions: Seq::<FnSiteV>::empty(),
                statements: Seq::<SiteV>::empty(),
                branches: Seq::<SiteV>::empty(),
            }),
            r.wf(),
    {
        let r = Self { sources: Vec::new(), functions: Vec::new(), statements: Vec::new(), branches: Vec::new() };
        proof {
            assert(r@.sources =~= Seq::<Seq<char>>::empty());
            assert(r@.functions =~= Seq::<FnSiteV>::empty());
            assert(r@.statements =~= Seq::<SiteV>::empty());
            assert(r@.branches =~= Seq::<SiteV>::empty());
        }
        r
    }

    /// Whether the source name has a bucket already.
    fn knows_source(&self, source: &str) -> (r: bool)
        ensures
            r == source_known(self@.sources, source@),
    {
        let needle = String::from_str(source);
        let mut i: usize = 0;
        while i < self.sources.len()
            invariant
                i <= self.sources.len(),
                needle@ == source@,
                forall|j: int| 0 <= j < i ==> self@.sources[j] != source@,
            decreases self.sources.len() - i,
        {
            proof {
                assert(self@.sources[i as int] == self.sources@[i as int]@);
            }
            if self.sources[i] == needle {
                proof {
                    assert(self@.sources[i as int] == self.sources@[i as int]@);
                }
                return true;
            }
            i += 1;
        }
        false
    }

    /// Creates the bucket for a source on first reference.
    fn maybe_add_source(&mut self, source: &str)
        ensures
            final(self)@ == (CovV {
                sources: spec_add_source(old(self)@.sources, source@),
                ..old(self)@
            }),
    {
        if !self.knows_source(source) {
            self.sources.push(String::from_str(source));
            proof {
                assert(final(self)@.sources =~= old(self)@.sources.push(source@));
                assert(final(self)@ =~~= (CovV {
                    sources: spec_add_source(old(self)@.sources, source@),
                    ..old(self)@
                }));
            }
        } else {
            proof {
                assert(final(self)@ =~~= (CovV {
                    sources: spec_add_source(old(self)@.sources, source@),
                    ..old(self)@
                }));
            }
        }
    }

    /// Whether a function site with this key is registered.
    pub fn has_function(&self, function_name: &str, source: &str, line_number: i64) -> (r: bool)
        ensures
            r == fn_registered(self@.functions, function_name@, source@, line_number as int),
    {
        let name_needle = String::from_str(function_name);
        let source_needle = String::from_str(source);
        let mut i: usize = 0;
        while i < self.functions.len()
            invariant
                i <= self.functions.len(),
                name_needle@ == function_name@,
                source_needle@ == source@,
                forall|j: int|
                    0 <= j < i ==> !(self@.functions[j].name == function_name@
                        && self@.functions[j].source == source@ && self@.functions[j].line
                        == line_number as int),
            decreases self.functions.len() - i,
        {
            proof {
                assert(self@.functions[i as int] == self.functions@[i as int]@);
            }
            if self.functions[i].function_name == name_needle
                && self.functions[i].source == source_needle && self.functions[i].line_number
                == line_number {
                return true;
            }
            i += 1;
        }
        false
    }

    /// Whether a statement site with this key is registered.
    pub fn has_statement(&self, source: &str, line_number: i64) -> (r: bool)
        ensures
            r == site_registered(self@.statements, source@, line_number as int),
    {
        let source_needle = String::from_str(source);
        let mut i: usize = 0;
        while i < self.statements.len()
            invariant
                i <= self.statements.len(),
                source_needle@ == source@,
                forall|j: int|
                    0 <= j < i ==> !(self@.statements[j].source == source@
                        && self@.statements[j].line == line_number as int),
            decreases self.statements.len() - i,
        {
            proof {
                assert(self@.statements[i as int] == self.statements@[i as int]@);
            }
            if self.statements[i].source == source_needle && self.statements[i].line_number
                == line_number {
                return true;
            }
            i += 1;
        }
        false
    }

    /// Whether a branch site with this key is registered.
    pub fn has_branch(&self, source: &str, line_number: i64) -> (r: bool)
        ensures
            r == site_registered(self@.branches, source@, line_number as int),
    {
        let source_needle = String::from_str(source);
        let mut i: usize = 0;
        while i < self.branches.len()
            invariant
                i <= self.branches.len(),
                source_needle@ == source@,
                forall|j: int|
                    0 <= j < i ==> !(self@.branches[j].source == source@ && self@.branches[j].line
                        == line_number as int),
            decreases self.branches.len() - i,
        {
            proof {
                assert(self@.branches[i as int] == self.branches@[i as int]@);
            }
            if self.branches[i].source == source_needle && self.branches[i].line_number
                == line_number {
                return true;
            }
            i += 1;
        }
        false
    }

    /// Registers a function site; re-registering an existing key is a no-op.
    pub fn add_function(&mut self, function_name: String, source: String, line_number: i64)
        requires
            old(self).wf(),
        ensures
            final(self)@ == spec_add_function(
                old(self)@,
                function_name@,
                source@,
                line_number as int,
            ),
            final(self).wf(),
    {
        self.maybe_add_source(source.as_str());
        if !self.has_function(function_name.as_str(), source.as_str(), line_number) {
            let site = FunctionCoverage { function_name, source, line_number, is_hit: false };
            self.functions.push(site);
            proof {
                assert(final(self)@.functions =~= old(self)@.functions.push(
                    FnSiteV {
                        name: function_name@,
                        source: source@,
                        line: line_number as int,
                        hit: false,
                    },
                ));
            }
        }
        proof {
            assert(final(self)@ =~~= spec_add_function(
                old(self)@,
                function_name@,
                source@,
                line_number as int,
            ));
            lemma_add_source_wf(old(self)@.sources, source@);
            lemma_push_unreg_fn_wf(old(self)@.functions, function_name@, source@, line_number as int);
        }
    }

    /// Registers a statement site; re-registering an existing key is a no-op.
    pub fn add_statement(&mut self, source: String, line_number: i64)
        requires
            old(self).wf(),
        ensures
            final(self)@ == spec_add_statement(old(self)@, source@, line_number as int),
            final(self).wf(),
    {
        self.maybe_add_source(source.as_str());
        if !self.has_statement(source.as_str(), line_number) {
            let site = StatementCoverage { source, line_number, is_hit: false };
            self.statements.push(site);
            proof {
                assert(final(self)@.statements =~= old(self)@.statements.push(
                    SiteV { source: source@, line: line_number as int, hit: false },
                ));
            }
        }
        proof {
            assert(final(self)@ =~~= spec_add_statement(old(self)@, source@, line_number as int));
            lemma_add_source_wf(old(self)@.sources, source@);
            lemma_push_unreg_site_wf(old(self)@.statements, source@, line_number as int);
        }
    }

    /// Registers a branch site; re-registering an existing key is a no-op.
    pub fn add_branch(&mut self, source: String, line_number: i64)
        requires
            old(self).wf(),
        ensures
            final(self)@ == spec_add_branch(old(self)@, source@, line_number as int),
            final(self).wf(),
    {
        self.maybe_add_source(source.as_str());
        if !self.has_branch(source.as_str(), line_number) {
            let site = BranchCoverage { source, line_number, is_hit: false };
            self.branches.push(site);
            proof {
                assert(final(self)@.branches =~= old(self)@.branches.push(
                    SiteV { source: source@, line: line_number as int, hit: false },
                ));
            }
        }
        proof {
            assert(final(self)@ =~~= spec_add_branch(old(self)@, source@, line_number as int));
            lemma_add_source_wf(old(self)@.sources, source@);
            lemma_push_unreg_site_wf(old(self)@.branches, source@, line_number as int);
        }
    }

    /// Marks a registered function site hit; the site must have been
    /// registered first, else the instrumentation has drifted.
    pub fn function_called(&mut self, function_name: String, source: String, line_number: i64)
        requires
            old(self).wf(),
            fn_registered(old(self)@.functions, function_name@, source@, line_number as int),
        ensures
            final(self)@ == spec_mark_function(
                old(self)@,
                function_name@,
                source@,
                line_number as int,
            ),
            final(self).wf(),
    {
        let ghost gspec = spec_mark_fns(
            self@.functions,
            function_name@,
            source@,
            line_number as int,
        );
        let mut i: usize = 0;
        while i < self.functions.len()
            invariant
                i <= self.functions.len(),
                self@.functions.len() == old(self)@.functions.len(),
                self@.sources == old(self)@.sources,
                self@.statements == old(self)@.statements,
                self@.branches == old(self)@.branches,
                gspec == spec_mark_fns(
                    old(self)@.functions,
                    function_name@,
                    source@,
                    line_number as int,
                ),
                forall|j: int| 0 <= j < i ==> self@.functions[j] == gspec[j],
                forall|j: int| i <= j < self@.functions.len() ==> self@.functions[j] == old(
                    self,
                )@.functions[j],
            decreases self.functions.len() - i,
        {
            proof {
                assert(self@.functions[i as int] == self.functions@[i as int]@);
            }
            if self.functions[i].function_name == function_name
                && self.functions[i].source == source && self.functions[i].line_number
                == line_number {
                self.functions[i].is_hit = true;
            }
            proof {
                assert(self@.functions[i as int] == self.functions@[i as int]@);
                assert(self@.functions[i as int] == gspec[i as int]);
            }
            i += 1;
        }
        proof {
            assert(final(self)@.functions =~= gspec);
            assert(final(self)@ =~~= spec_mark_function(
                old(self)@,
                function_name@,
                source@,
                line_number as int,
            ));
            lemma_mark_fns_wf(old(self)@.functions, function_name@, source@, line_number as int);
        }
    }

    /// Marks a registered statement site hit.
    pub fn statement_called(&mut self, source: String, line_number: i64)
        requires
            old(self).wf(),
            site_registered(old(self)@.statements, source@, line_number as int),
        ensures
            final(self)@ == spec_mark_statement(old(self)@, source@, line_number as int),
            final(self).wf(),
    {
        let ghost gspec = spec_mark_sites(self@.statements, source@, line_number as int);
        let mut i: usize = 0;
        while i < self.statements.len()
            invariant
                i <= self.statements.len(),
                self@.statements.len() == old(self)@.statements.len(),
                self@.sources == old(self)@.sources,
                self@.functions == old(self)@.functions,
                self@.branches == old(self)@.branches,
                gspec == spec_mark_sites(old(self)@.statements, source@, line_number as int),
                forall|j: int| 0 <= j < i ==> self@.statements[j] == gspec[j],
                forall|j: int| i <= j < self@.statements.len() ==> self@.statements[j] == old(
                    self,
                )@.statements[j],
            decreases self.statements.len() - i,
        {
            proof {
                assert(self@.statements[i as int] == self.statements@[i as int]@);
            }
            if self.statements[i].source == source && self.statements[i].line_number
                == line_number {
                self.statements[i].is_hit = true;
            }
            proof {
                assert(self@.statements[i as int] == self.statements@[i as int]@);
                assert(self@.statements[i as int] == gspec[i as int]);
            }
            i += 1;
        }
        proof {
            assert(final(self)@.statements =~= gspec);
            assert(final(self)@ =~~= spec_mark_statement(old(self)@, source@, line_number as int));
            lemma_mark_sites_wf(old(self)@.statements, source@, line_number as int);
        }
    }

    /// Marks a registered branch site hit.
    pub fn branch_called(&mut self, source: String, line_number: i64)
        requires
            old(self).wf(),
            site_registered(old(self)@.branches, source@, line_number as int),
        ensures
            final(self)@ == spec_mark_branch(old(self)@, source@, line_number as int),
            final(self).wf(),
    {
        let ghost gspec = spec_mark_sites(self@.branches, source@, line_number as int);
        let mut i: usize = 0;
        while i < self.branches.len()
            invariant
                i <= self.branches.len(),
                self@.branches.len() == old(self)@.branches.len(),
                self@.sources == old(self)@.sources,
                self@.functions == old(self)@.functions,
                self@.statements == old(self)@.statements,
                gspec == spec_mark_sites(old(self)@.branches, source@, line_number as int),
                forall|j: int| 0 <= j < i ==> self@.branches[j] == gspec[j],
                forall|j: int| i <= j < self@.branches.len() ==> self@.branches[j] == old(
                    self,
                )@.branches[j],
            decreases self.branches.len() - i,
        {
            proof {
                assert(self@.branches[i as int] == self.branches@[i as int]@);
            }
            if self.branches[i].source == source && self.branches[i].line_number
                == line_number {
                self.branches[i].is_hit = true;
            }
            proof {
                assert(self@.branches[i as int] == self.branches@[i as int]@);
                assert(self@.branches[i as int] == gspec[i as int]);
            }
            i += 1;
        }
        proof {
            assert(final(self)@.branches =~= gspec);
            assert(final(self)@ =~~= spec_mark_branch(old(self)@, source@, line_number as int));
            lemma_mark_sites_wf(old(self)@.branches, source@, line_number as int);
        }
    }
}

proof fn lemma_add_source_wf(sources: Seq<Seq<char>>, src: Seq<char>)
    requires
        forall|i: int, j: int| 0 <= i < j < sources.len() ==> sources[i] != sources[j],
    ensures
        forall|i: int, j: int|
            0 <= i < j < spec_add_source(sources, src).len() ==> spec_add_source(sources, src)[i]
                != spec_add_source(sources, src)[j],
{
    if !source_known(sources, src) {
        let pushed = sources.push(src);
        assert forall|i: int, j: int| 0 <= i < j < pushed.len() implies pushed[i] != pushed[j] by {
            if j == sources.len() {
                assert(pushed[j] == src);
                assert(pushed[i] == sources[i]);
            }
        }
    }
}

proof fn lemma_push_unreg_fn_wf(fs: Seq<FnSiteV>, name: Seq<char>, src: Seq<char>, line: int)
    requires
        forall|i: int, j: int|
            0 <= i < j < fs.len() ==> !(fs[i].name == fs[j].name && fs[i].source == fs[j].source
                && fs[i].line == fs[j].line),
    ensures
        ({
            let out = if fn_registered(fs, name, src, line) {
                fs
            } else {
                fs.push(FnSiteV { name, source: src, line, hit: false })
            };
            forall|i: int, j: int|
                0 <= i < j < out.len() ==> !(out[i].name == out[j].name && out[i].source
                    == out[j].source && out[i].line == out[j].line)
        }),
{
    if !fn_registered(fs, name, src, line) {
        let out = fs.push(FnSiteV { name, source: src, line, hit: false });
        assert forall|i: int, j: int| 0 <= i < j < out.len() implies !(out[i].name == out[j].name
            && out[i].source == out[j].source && out[i].line == out[j].line) by {
            if j == fs.len() {
                assert(out[i] == fs[i]);
            }
        }
    }
}

proof fn lemma_push_unreg_site_wf(ss: Seq<SiteV>, src: Seq<char>, line: int)
    requires
        forall|i: int, j: int|
            0 <= i < j < ss.len() ==> !(ss[i].source == ss[j].source && ss[i].line == ss[j].line),
    ensures
        ({
            let out = if site_registered(ss, src, line) {
                ss
            } else {
                ss.push(SiteV { source: src, line, hit: false })
            };
            forall|i: int, j: int|
                0 <= i < j < out.len() ==> !(out[i].source == out[j].source && out[i].line
                    == out[j].line)
        }),
{
    if !site_registered(ss, src, line) {
        let out = ss.push(SiteV { source: src, line, hit: false });
        assert forall|i: int, j: int| 0 <= i < j < out.len() implies !(out[i].source
            == out[j].source && out[i].line == out[j].line) by {
            if j == ss.len() {
                assert(out[i] == ss[i]);
            }
        }
    }
}

proof fn lemma_mark_fns_wf(fs: Seq<FnSiteV>, name: Seq<char>, src: Seq<char>, line: int)
    requires
        forall|i: int, j: int|
            0 <= i < j < fs.len() ==> !(fs[i].name == fs[j].name && fs[i].source == fs[j].source
                && fs[i].line == fs[j].line),
    ensures
        forall|i: int, j: int|
            0 <= i < j < spec_mark_fns(fs, name, src, line).len() ==> !(spec_mark_fns(
                fs,
                name,
                src,
                line,
            )[i].name == spec_mark_fns(fs, name, src, line)[j].name && spec_mark_fns(
                fs,
                name,
                src,
                line,
            )[i].source == spec_mark_fns(fs, name, src, line)[j].source && spec_mark_fns(
                fs,
                name,
                src,
                line,
            )[i].line == spec_mark_fns(fs, name, src, line)[j].line),
{
    let out = spec_mark_fns(fs, name, src, line);
    assert forall|i: int, j: int| 0 <= i < j < out.len() implies !(out[i].name == out[j].name
        && out[i].source == out[j].source && out[i].line == out[j].line) by {
        assert(out[i].name == fs[i].name && out[i].source == fs[i].source && out[i].line
            == fs[i].line);
        assert(out[j].name == fs[j].name && out[j].source == fs[j].source && out[j].line
            == fs[j].line);
    }
}

proof fn lemma_mark_sites_wf(ss: Seq<SiteV>, src: Seq<char>, line: int)
    requires
        forall|i: int, j: int|
            0 <= i < j < ss.len() ==> !(ss[i].source == ss[j].source && ss[i].line == ss[j].line),
    ensures
        forall|i: int, j: int|
            0 <= i < j < spec_mark_sites(ss, src, line).len() ==> !(spec_mark_sites(
                ss,
                src,
                line,
            )[i].source == spec_mark_sites(ss, src, line)[j].source && spec_mark_sites(
                ss,
                src,
                line,
            )[i].line == spec_mark_sites(ss, src, line)[j].line),
{
    let out = spec_mark_sites(ss, src, line);
    assert forall|i: int, j: int| 0 <= i < j < out.len() implies !(out[i].source == out[j].source
        && out[i].line == out[j].line) by {
        assert(out[i].source == ss[i].source && out[i].line == ss[i].line);
        assert(out[j].source == ss[j].source && out[j].line == ss[j].line);
    }
}

/// The banding of a coverage percentage, for coloring the printed report.
#[derive(Debug, Clone, Copy, PartialEq, Eq, Structural)]
pub enum CoverageBand {
    High,
    Medium,
    Low,
}

/// The percentage of hit sites; a source with no sites of a kind counts as
/// fully covered.
pub open spec fn percent(hits: nat, total: nat) -> nat {
    if total == 0 {
        100
    } else {
        hits * 100 / total
    }
}

/// High from 80 percent up, medium from 50, low below that.
pub open spec fn band_of(p: nat) -> CoverageBand {
    if p >= 80 {
        CoverageBand::High
    } else if p >= 50 {
        CoverageBand::Medium
    } else {
        CoverageBand::Low
    }
}

/// How many function sites a source has.
pub open spec fn count_fn_total(fs: Seq<FnSiteV>, src: Seq<char>) -> nat
    decreases fs.len(),
{
    if fs.len() == 0 {
        0
    } else {
        (if fs[0].source == src {
            1nat
        } else {
            0nat
        }) + count_fn_total(fs.skip(1), src)
    }
}

/// How many function sites of a source were hit.
pub open spec fn count_fn_hits(fs: Seq<FnSiteV>, src: Seq<char>) -> nat
    decreases fs.len(),
{
    if fs.len() == 0 {
        0
    } else {
        (if fs[0].source == src && fs[0].hit {
            1nat
        } else {
            0nat
        }) + count_fn_hits(fs.skip(1), src)
    }
}

/// How many statement or branch sites a source has.
pub open spec fn count_site_total(ss: Seq<SiteV>, src: Seq<char>) -> nat
    decreases ss.len(),
{
    if ss.len() == 0 {
        0
    } else {
        (if ss[0].source == src {
            1nat
        } else {
            0nat
        }) + count_site_total(ss.skip(1), src)
    }
}

/// How many statement or branch sites of a source were hit.
pub open spec fn count_site_hits(ss: Seq<SiteV>, src: Seq<char>) -> nat
    decreases ss.len(),
{
    if ss.len() == 0 {
        0
    } else {
        (if ss[0].source == src && ss[0].hit {
            1nat
        } else {
            0nat
        }) + count_site_hits(ss.skip(1), src)
    }
}

/// Whether a statement site with this key is registered and was never hit.
pub open spec fn stmt_unhit(ss: Seq<SiteV>, src: Seq<char>, line: int) -> bool {
    exists|i: int| 0 <= i < ss.len() && ss[i].source == src && ss[i].line == line && !ss[i].hit
}

/// Whether a line number occurs in a list of lines.
pub open spec fn line_listed(s: Seq<i64>, l: int) -> bool {
    exists|a: int| 0 <= a < s.len() && s[a] == l
}

/// The uncovered line numbers joined with commas.
pub open spec fn joined_lines(lines: Seq<i64>) -> Seq<char>
    decreases lines.len(),
{
    if lines.len() == 0 {
        Seq::<char>::empty()
    } else if lines.len() == 1 {
        int_str(lines[0] as int)
    } else {
        int_str(lines[0] as int) + ","@ + joined_lines(lines.skip(1))
    }
}

/// One row of the coverage report: one source file, its hit percentages per
/// site kind with their bands, and the uncovered statement lines.
#[derive(Debug)]
pub struct CoverageReportLine {
    pub source: String,
    pub statements: String,
    pub branches: String,
    pub functions: String,
    pub uncovered_lines: String,
    pub statements_band: CoverageBand,
    pub branches_band: CoverageBand,
    pub functions_band: CoverageBand,
}

/// Renders a percentage and assigns its band.
fn render_percent(hits: usize, total: usize) -> (r: (String, CoverageBand))
    requires
        hits <= total,
    ensures
        r.0@ == dec_str(percent(hits as nat, total as nat)),
        r.1 == band_of(percent(hits as nat, total as nat)),
{
    let p: u64 = if total == 0 {
        100
    } else {
        proof {
            vstd::arithmetic::div_mod::lemma_div_is_ordered(
                hits as int * 100,
                total as int * 100,
                total as int,
            );
            vstd::arithmetic::div_mod::lemma_div_multiples_vanish(100, total as int);
            assert(hits as int * 100 / total as int <= 100);
        }
        ((hits as u128) * 100 / (total as u128)) as u64
    };
    let band = if p >= 80 {
        CoverageBand::High
    } else if p >= 50 {
        CoverageBand::Medium
    } else {
        CoverageBand::Low
    };
    (u64_to_string(p), band)
}

/// Keeps a strictly increasing list of lines strictly increasing.
fn insert_line(v: &mut Vec<i64>, x: i64)
    requires
        forall|a: int, b: int| 0 <= a < b < old(v)@.len() ==> old(v)@[a] < old(v)@[b],
        forall|a: int| 0 <= a < old(v)@.len() ==> old(v)@[a] != x,
    ensures
        forall|a: int, b: int| 0 <= a < b < final(v)@.len() ==> final(v)@[a] < final(v)@[b],
        final(v)@.len() == old(v)@.len() + 1,
        forall|l: int|
            #[trigger] line_listed(final(v)@, l) <==> (line_listed(old(v)@, l) || l == x),
{
    let mut pos: usize = 0;
    while pos < v.len() && v[pos] < x
        invariant
            pos <= v.len(),
            forall|a: int| 0 <= a < pos ==> v@[a] < x,
            v@ == old(v)@,
        decreases v.len() - pos,
    {
        pos += 1;
    }
    proof {
        assert(forall|a: int| pos <= a < v@.len() ==> v@[a] > x) by {
            assert forall|a: int| pos <= a < v@.len() implies v@[a] > x by {
                assert(v@[pos as int] >= x || v@[pos as int] == x || v@[pos as int] > x);
                if a == pos {
                    assert(!(v@[a] < x));
                    assert(v@[a] != x);
                } else {
                    assert(v@[pos as int] < v@[a]);
                    assert(!(v@[pos as int] < x));
                    assert(v@[pos as int] != x);
                }
            }
        }
    }
    let ghost before = v@;
    v.insert(pos, x);
    proof {
        assert(v@ == before.insert(pos as int, x));
        assert(forall|a: int| 0 <= a < pos ==> v@[a] == before[a]);
        assert(v@[pos as int] == x);
        assert(forall|a: int| pos < a < v@.len() ==> v@[a] == before[a - 1]);
        assert forall|a: int, b: int| 0 <= a < b < v@.len() implies v@[a] < v@[b] by {
            if a < pos && b == pos {
            } else if a == pos && b > pos {
            } else if a < pos && b > pos {
                assert(v@[a] < x);
                assert(x < v@[b]);
            }
        }
        assert forall|l: int|
            #[trigger] line_listed(v@, l) <==> (line_listed(before, l) || l == x) by {
            if line_listed(v@, l) {
                let a = choose|a: int| 0 <= a < v@.len() && v@[a] == l;
                if a < pos {
                    assert(before[a] == l);
                    assert(line_listed(before, l));
                } else if a > pos {
                    assert(before[a - 1] == l);
                    assert(line_listed(before, l));
                }
            }
            if l == x {
                assert(v@[pos as int] == l);
                assert(line_listed(v@, l));
            }
            if line_listed(before, l) {
                let a = choose|a: int| 0 <= a < before.len() && before[a] == l;
                if a < pos {
                    assert(v@[a] == l);
                } else {
                    assert(v@[a + 1] == l);
                }
                assert(line_listed(v@, l));
            }
        }
    }
}

impl TestCoverageContainer {
    /// Counts the function sites of one source: hit and total.
    fn count_functions(&self, source: &String) -> (r: (usize, usize))
        ensures
            r.0 == count_fn_hits(self@.functions, source@),
            r.1 == count_fn_total(self@.functions, source@),
            r.0 <= r.1 <= self@.functions.len(),
    {
        let ghost fs = self@.functions;
        let mut hits: usize = 0;
        let mut total: usize = 0;
        let mut idx: usize = self.functions.len();
        proof {
            assert(fs.skip(idx as int) =~= Seq::<FnSiteV>::empty());
        }
        while idx > 0
            invariant
                idx <= self.functions.len(),
                fs == self@.functions,
                hits == count_fn_hits(fs.skip(idx as int), source@),
                total == count_fn_total(fs.skip(idx as int), source@),
                hits <= total <= fs.len() - idx,
            decreases idx,
        {
            idx -= 1;
            proof {
                assert(fs.skip(idx as int)[0] == fs[idx as int]);
                assert(fs.skip(idx as int).skip(1) =~= fs.skip(idx + 1));
                assert(fs[idx as int] == self.functions@[idx as int]@);
            }
            if self.functions[idx].source == *source {
                total += 1;
                if self.functions[idx].is_hit {
                    hits += 1;
                }
            }
        }
        proof {
            assert(fs.skip(0) =~= fs);
        }
        (hits, total)
    }

    /// Counts the statement sites of one source: hit and total.
    fn count_statements(&self, source: &String) -> (r: (usize, usize))
        ensures
            r.0 == count_site_hits(self@.statements, source@),
            r.1 == count_site_total(self@.statements, source@),
            r.0 <= r.1 <= self@.statements.len(),
    {
        let ghost ss = self@.statements;
        let mut hits: usize = 0;
        let mut total: usize = 0;
        let mut idx: usize = self.statements.len();
        proof {
            assert(ss.skip(idx as int) =~= Seq::<SiteV>::empty());
        }
        while idx > 0
            invariant
                idx <= self.statements.len(),
                ss == self@.statements,
                hits == count_site_hits(ss.skip(idx as int), source@),
                total == count_site_total(ss.skip(idx as int), source@),
                hits <= total <= ss.len() - idx,
            decreases idx,
        {
            idx -= 1;
            proof {
                assert(ss.skip(idx as int)[0] == ss[idx as int]);
                assert(ss.skip(idx as int).skip(1) =~= ss.skip(idx + 1));
                assert(ss[idx as int] == self.statements@[idx as int]@);
            }
            if self.statements[idx].source == *source {
                total += 1;
                if self.statements[idx].is_hit {
                    hits += 1;
                }
            }
        }
        proof {
            assert(ss.skip(0) =~= ss);
        }
        (hits, total)
    }

    /// Counts the branch sites of one source: hit and total.
    fn count_branches(&self, source: &String) -> (r: (usize, usize))
        ensures
            r.0 == count_site_hits(self@.branches, source@),
            r.1 == count_site_total(self@.branches, source@),
            r.0 <= r.1 <= self@.branches.len(),
    {
        let ghost ss = self@.branches;
        let mut hits: usize = 0;
        let mut total: usize = 0;
        let mut idx: usize = self.branches.len();
        proof {
            assert(ss.skip(idx as int) =~= Seq::<SiteV>::empty());
        }
        while idx > 0
            invariant
                idx <= self.branches.len(),
                ss == self@.branches,
                hits == count_site_hits(ss.skip(idx as int), source@),
                total == count_site_total(ss.skip(idx as int), source@),
                hits <= total <= ss.len() - idx,
            decreases idx,
        {
            idx -= 1;
            proof {
                assert(ss.skip(idx as int)[0] == ss[idx as int]);
                assert(ss.skip(idx as int).skip(1) =~= ss.skip(idx + 1));
                assert(ss[idx as int] == self.branches@[idx as int]@);
            }
            if self.branches[idx].source == *source {
                total += 1;
                if self.branches[idx].is_hit {
                    hits += 1;
                }
            }
        }
        proof {
            assert(ss.skip(0) =~= ss);
        }
        (hits, total)
    }

    /// The statement lines of one source that were registered but never hit,
    /// strictly increasing.
    fn uncovered_statement_lines(&self, source: &String) -> (r: Vec<i64>)
        requires
            self.wf(),
        ensures
            forall|a: int, b: int| 0 <= a < b < r@.len() ==> r@[a] < r@[b],
            forall|l: int|
                #[trigger] line_listed(r@, l) <==> stmt_unhit(self@.statements, source@, l),
    {
        let ghost ss = self@.statements;
        let mut out: Vec<i64> = Vec::new();
        let mut idx: usize = 0;
        while idx < self.statements.len()
            invariant
                idx <= self.statements.len(),
                ss == self@.statements,
                self.wf(),
                forall|a: int, b: int| 0 <= a < b < out@.len() ==> out@[a] < out@[b],
                forall|l: int|
                    #[trigger] line_listed(out@, l) <==> stmt_unhit(ss.take(idx as int), source@, l),
            decreases self.statements.len() - idx,
        {
            proof {
                assert(ss[idx as int] == self.statements@[idx as int]@);
            }
            let ghost prefix = ss.take(idx as int);
            let ghost prefix1 = ss.take(idx + 1);
            proof {
                assert(prefix1 =~= prefix.push(ss[idx as int]));
                assert forall|l: int| stmt_unhit(prefix1, source@, l) implies (stmt_unhit(
                    prefix,
                    source@,
                    l,
                ) || (ss[idx as int].source == source@ && ss[idx as int].line == l
                    && !ss[idx as int].hit)) by {
                    let a = choose|a: int|
                        0 <= a < prefix1.len() && prefix1[a].source == source@ && prefix1[a].line
                            == l && !prefix1[a].hit;
                    if a < prefix.len() {
                        assert(prefix[a] == prefix1[a]);
                    }
                }
                assert forall|l: int| stmt_unhit(prefix, source@, l) implies stmt_unhit(
                    prefix1,
                    source@,
                    l,
                ) by {
                    let a = choose|a: int|
                        0 <= a < prefix.len() && prefix[a].source == source@ && prefix[a].line == l
                            && !prefix[a].hit;
                    assert(prefix1[a] == prefix[a]);
                }
            }
            if self.statements[idx].source == *source && !self.statements[idx].is_hit {
                let line = self.statements[idx].line_number;
                proof {
                    // the key is unique over the whole list, so this line is not in out yet
                    assert forall|a: int| 0 <= a < out@.len() implies out@[a] != line by {
                        if out@[a] == line {
                            assert(line_listed(out@, line as int));
                            assert(stmt_unhit(prefix, source@, line as int));
                            let w = choose|w: int|
                                0 <= w < prefix.len() && prefix[w].source == source@
                                    && prefix[w].line == line as int && !prefix[w].hit;
                            assert(prefix[w] == ss[w]);
                            assert(ss[w].source == ss[idx as int].source && ss[w].line
                                == ss[idx as int].line);
                        }
                    }
                }
                insert_line(&mut out, line);
                proof {
                    assert(ss[idx as int].line == line as int);
                    assert forall|l: int|
                        #[trigger] line_listed(out@, l) <==> stmt_unhit(prefix1, source@, l) by {
                        if l == line as int {
                            assert(prefix1[prefix.len() as int] == ss[idx as int]);
                            assert(stmt_unhit(prefix1, source@, l));
                        }
                    }
                }
            } else {
                proof {
                    assert forall|l: int|
                        #[trigger] line_listed(out@, l) <==> stmt_unhit(prefix1, source@, l) by {
                        if stmt_unhit(prefix1, source@, l) && !stmt_unhit(prefix, source@, l) {
                            assert(ss[idx as int].source == source@ && ss[idx as int].line == l
                                && !ss[idx as int].hit);
                            assert(self.statements@[idx as int]@.source == source@);
                            assert(false);
                        }
                    }
                }
            }
            idx += 1;
        }
        proof {
            assert(ss.take(ss.len() as int) =~= ss);
        }
        out
    }

    /// Joins strictly increasing lines with commas.
    fn join_lines(lines: &Vec<i64>) -> (r: String)
        ensures
            r@ == joined_lines(lines@),
    {
        let mut acc = String::new();
        let mut idx: usize = lines.len();
        proof {
            assert(lines@.skip(idx as int) =~= Seq::<i64>::empty());
        }
        while idx > 0
            invariant
                idx <= lines.len(),
                acc@ == joined_lines(lines@.skip(idx as int)),
            decreases idx,
        {
            idx -= 1;
            let ghost rest = lines@.skip(idx + 1);
            proof {
                assert(lines@.skip(idx as int)[0] == lines@[idx as int]);
                assert(lines@.skip(idx as int).skip(1) =~= rest);
                assert(lines@.skip(idx as int).len() == lines@.len() - idx);
            }
            if idx + 1 == lines.len() {
                acc = i64_to_string(lines[idx]);
                proof {
                    assert(lines@.skip(idx as int).len() == 1);
                    assert(acc@ == joined_lines(lines@.skip(idx as int)));
                }
            } else {
                acc = i64_to_string(lines[idx]).concat(",").concat(acc.as_str());
                proof {
                    reveal_strlit(",");
                    assert(","@ =~= seq![',']);
                    assert(acc@ =~= joined_lines(lines@.skip(idx as int)));
                }
            }
        }
        proof {
            assert(lines@.skip(0) =~= lines@);
        }
        acc
    }

    /// Computes the coverage report: one row per registered source, with the
    /// hit percentage and band for each site kind and the sorted, comma-joined
    /// uncovered statement lines. Printing the rows is the caller's business.
    pub fn report(&self) -> (r: Vec<CoverageReportLine>)
        requires
            self.wf(),
        ensures
            r@.len() == self@.sources.len(),
            forall|i: int|
                #![trigger r@[i]]
                0 <= i < r@.len() ==> {
                    let src = self@.sources[i];
                    &&& r@[i].source@ == src
                    &&& r@[i].functions@ == dec_str(
                        percent(count_fn_hits(self@.functions, src), count_fn_total(self@.functions, src)),
                    )
                    &&& r@[i].functions_band == band_of(
                        percent(count_fn_hits(self@.functions, src), count_fn_total(self@.functions, src)),
                    )
                    &&& r@[i].statements@ == dec_str(
                        percent(
                            count_site_hits(self@.statements, src),
                            count_site_total(self@.statements, src),
                        ),
                    )
                    &&& r@[i].statements_band == band_of(
                        percent(
                            count_site_hits(self@.statements, src),
                            count_site_total(self@.statements, src),
                        ),
                    )
                    &&& r@[i].branches@ == dec_str(
                        percent(
                            count_site_hits(self@.branches, src),
                            count_site_total(self@.branches, src),
                        ),
                    )
                    &&& r@[i].branches_band == band_of(
                        percent(
                            count_site_hits(self@.branches, src),
                            count_site_total(self@.branches, src),
                        ),
                    )
                    &&& exists|lines: Seq<i64>|
                        {
                            &&& (forall|a: int, b: int| 0 <= a < b < lines.len() ==> lines[a] < lines[b])
                            &&& (forall|l: int|
                                #[trigger] line_listed(lines, l) <==> stmt_unhit(
                                    self@.statements,
                                    src,
                                    l,
                                ))
                            &&& r@[i].uncovered_lines@ == joined_lines(lines)
                        }
                },
    {
        let mut rows: Vec<CoverageReportLine> = Vec::new();
        let mut idx: usize = 0;
        while idx < self.sources.len()
            invariant
                idx <= self.sources.len(),
                self.wf(),
                rows@.len() == idx,
                forall|i: int|
                    #![trigger rows@[i]]
                    0 <= i < idx ==> {
                        let src = self@.sources[i];
                        &&& rows@[i].source@ == src
                        &&& rows@[i].functions@ == dec_str(
                            percent(
                                count_fn_hits(self@.functions, src),
                                count_fn_total(self@.functions, src),
                            ),
                        )
                        &&& rows@[i].functions_band == band_of(
                            percent(
                                count_fn_hits(self@.functions, src),
                                count_fn_total(self@.functions, src),
                            ),
                        )
                        &&& rows@[i].statements@ == dec_str(
                            percent(
                                count_site_hits(self@.statements, src),
                                count_site_total(self@.statements, src),
                            ),
                        )
                        &&& rows@[i].statements_band == band_of(
                            percent(
                                count_site_hits(self@.statements, src),
                                count_site_total(self@.statements, src),
                            ),
                        )
                        &&& rows@[i].branches@ == dec_str(
                            percent(
                                count_site_hits(self@.branches, src),
                                count_site_total(self@.branches, src),
                            ),
                        )
                        &&& rows@[i].branches_band == band_of(
                            percent(
                                count_site_hits(self@.branches, src),
                                count_site_total(self@.branches, src),
                            ),
                        )
                        &&& exists|lines: Seq<i64>|
                            {
                                &&& (forall|a: int, b: int|
                                    0 <= a < b < lines.len() ==> lines[a] < lines[b])
                                &&& (forall|l: int|
                                    #[trigger] line_listed(lines, l) <==> stmt_unhit(
                                        self@.statements,
                                        src,
                                        l,
                                    ))
                                &&& rows@[i].uncovered_lines@ == joined_lines(lines)
                            }
                    },
            decreases self.sources.len() - idx,
        {
            let source = &self.sources[idx];
            proof {
                assert(self@.sources[idx as int] == self.sources@[idx as int]@);
            }
            let (fn_hits, fn_total) = self.count_functions(source);
            let (st_hits, st_total) = self.count_statements(source);
            let (br_hits, br_total) = self.count_branches(source);
            let (functions, functions_band) = render_percent(fn_hits, fn_total);
            let (statements, statements_band) = render_percent(st_hits, st_total);
            let (branches, branches_band) = render_percent(br_hits, br_total);
            let lines = self.uncovered_statement_lines(source);
            let uncovered_lines = Self::join_lines(&lines);
            let row = CoverageReportLine {
                source: String::from_str(source.as_str()),
                statements,
                branches,
                functions,
                uncovered_lines,
                statements_band,
                branches_band,
                functions_band,
            };
            rows.push(row);
            idx += 1;
        }
        rows
    }
}

/// Marking a hit statement site removes it from the uncovered lines: after
/// `spec_mark_statement`, the key is still registered but no longer unhit, so
/// the report's uncovered-line list for its source excludes that line.
pub proof fn lemma_statement_hit_covered(v: CovV, src: Seq<char>, line: int)
    requires
        site_registered(v.statements, src, line),
    ensures
        site_registered(spec_mark_statement(v, src, line).statements, src, line),
        !stmt_unhit(spec_mark_statement(v, src, line).statements, src, line),
{
    let m = spec_mark_statement(v, src, line).statements;
    let w = choose|i: int|
        0 <= i < v.statements.len() && v.statements[i].source == src && v.statements[i].line
            == line;
    assert(m[w].source == src && m[w].line == line);
    assert forall|i: int| 0 <= i < m.len() && m[i].source == src && m[i].line == line implies m[i].hit by {
        assert(v.statements[i].source == src && v.statements[i].line == line);
    }
}

/// Registering the same statement site twice registers it once: instrumenting
/// a line again, as when a module is re-resolved, adds no second site.
pub proof fn lemma_add_statement_idempotent(v: CovV, src: Seq<char>, line: int)
    ensures
        spec_add_statement(spec_add_statement(v, src, line), src, line) == spec_add_statement(
            v,
            src,
            line,
        ),
{
    let once = spec_add_statement(v, src, line);
    if !site_registered(v.statements, src, line) {
        let w = v.statements.push(SiteV { source: src, line, hit: false });
        assert(w[v.statements.len() as int].source == src);
        assert(site_registered(once.statements, src, line));
    }
    if !source_known(v.sources, src) {
        let w = v.sources.push(src);
        assert(w[v.sources.len() as int] == src);
        assert(source_known(once.sources, src));
    }
    assert(spec_add_statement(once, src, line) =~~= once);
}

/// Registering the same function site twice registers it once.
pub proof fn lemma_add_function_idempotent(v: CovV, name: Seq<char>, src: Seq<char>, line: int)
    ensures
        spec_add_function(spec_add_function(v, name, src, line), name, src, line)
            == spec_add_function(v, name, src, line),
{
    let once = spec_add_function(v, name, src, line);
    if !fn_registered(v.functions, name, src, line) {
        let w = v.functions.push(FnSiteV { name, source: src, line, hit: false });
        assert(w[v.functions.len() as int].name == name);
        assert(fn_registered(once.functions, name, src, line));
    }
    if !source_known(v.sources, src) {
        let w = v.sources.push(src);
        assert(w[v.sources.len() as int] == src);
        assert(source_known(once.sources, src));
    }
    assert(spec_add_function(once, name, src, line) =~~= once);
}

/// Registering the same branch site twice registers it once.
pub proof fn lemma_add_branch_idempotent(v: CovV, src: Seq<char>, line: int)
    ensures
        spec_add_branch(spec_add_branch(v, src, line), src, line) == spec_add_branch(v, src, line),
{
    let once = spec_add_branch(v, src, line);
    if !site_registered(v.branches, src, line) {
        let w = v.branches.push(SiteV { source: src, line, hit: false });
        assert(w[v.branches.len() as int].source == src);
        assert(site_registered(once.branches, src, line));
    }
    if !source_known(v.sources, src) {
        let w = v.sources.push(src);
        assert(w[v.sources.len() as int] == src);
        assert(source_known(once.sources, src));
    }
    assert(spec_add_branch(once, src, line) =~~= once);
}

} // verus!
