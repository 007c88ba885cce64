use rhai_test::instrumentation::{classify_line, instrument_line, LineKind};
use rhai_test::test_coverage_container::{CoverageBand, TestCoverageContainer};
use rhai_test::text::{i64_to_string, u64_to_string};

#[test]
fn renders_decimal_numbers() {
    assert_eq!(u64_to_string(0), "0");
    assert_eq!(u64_to_string(7), "7");
    assert_eq!(u64_to_string(10), "10");
    assert_eq!(u64_to_string(1234567890), "1234567890");
    assert_eq!(u64_to_string(u64::MAX), "18446744073709551615");
    assert_eq!(i64_to_string(0), "0");
    assert_eq!(i64_to_string(-1), "-1");
    assert_eq!(i64_to_string(42), "42");
    assert_eq!(i64_to_string(i64::MIN), "-9223372036854775808");
}

#[test]
fn classifies_function_definitions() {
    assert_eq!(classify_line("fn add(a, b) {"), LineKind::FunctionDef);
    assert_eq!(classify_line("  fn greet() {"), LineKind::FunctionDef);
    assert_eq!(classify_line("fn spaced(a)   {"), LineKind::FunctionDef);
}

#[test]
fn classifies_statements_and_branches() {
    assert_eq!(classify_line("do_something(1, 2);"), LineKind::CallStatement);
    assert_eq!(classify_line("let x = 1 + 1;"), LineKind::Assignment);
    assert_eq!(classify_line("x = compute_nothing;"), LineKind::Assignment);
    assert_eq!(classify_line("if x > 1 {"), LineKind::Branch);
    assert_eq!(classify_line("} else {"), LineKind::Branch);
    assert_eq!(classify_line("throw { message: \"bad\" };"), LineKind::Throw);
    assert_eq!(classify_line("}"), LineKind::Plain);
    assert_eq!(classify_line(""), LineKind::Plain);
    assert_eq!(classify_line("// just a comment"), LineKind::Plain);
}

#[test]
fn classification_order_is_first_match_wins() {
    // holds both a function header and a call pattern: the header wins
    assert_eq!(classify_line("fn wrapper(x) { inner(x); }"), LineKind::FunctionDef);
    // holds a call and an assignment: the call wins
    assert_eq!(classify_line("let y = make(1);"), LineKind::CallStatement);
    // an `if` whose body also assigns stays a branch only without `=` and `;`
    assert_eq!(classify_line("if ready { go(); }"), LineKind::CallStatement);
}

#[test]
fn instruments_a_function_header() {
    let mut cov = TestCoverageContainer::new();
    let out = instrument_line(0, "fn add(a, b) {", "math.rhai", &mut cov);
    assert_eq!(
        out,
        "fn add(a, b) { rhai_test_coverage_instrument_function(\"add\",\"math.rhai\",1 ); "
    );
    assert!(cov.has_function("add", "math.rhai", 1));
    assert!(!cov.has_function("add", "math.rhai", 2));
}

#[test]
fn instruments_a_function_header_with_trailing_text() {
    let mut cov = TestCoverageContainer::new();
    let out = instrument_line(2, "fn id(x) { x }", "m.rhai", &mut cov);
    assert_eq!(
        out,
        "fn id(x) { rhai_test_coverage_instrument_function(\"id\",\"m.rhai\",3 );  x }"
    );
    assert!(cov.has_function("id", "m.rhai", 3));
}

#[test]
fn instruments_a_call_statement() {
    let mut cov = TestCoverageContainer::new();
    let out = instrument_line(4, "print(\"hi\");", "a.rhai", &mut cov);
    assert_eq!(out, "print(\"hi\"); rhai_test_coverage_instrument_statement(\"a.rhai\",5 );");
    assert!(cov.has_statement("a.rhai", 5));
}

#[test]
fn instruments_an_assignment() {
    let mut cov = TestCoverageContainer::new();
    let out = instrument_line(1, "let x = 1 + 1;", "t.rhai", &mut cov);
    assert_eq!(out, "let x = 1 + 1; rhai_test_coverage_instrument_statement(\"t.rhai\",2 );");
    assert!(cov.has_statement("t.rhai", 2));
}

#[test]
fn instruments_a_branch() {
    let mut cov = TestCoverageContainer::new();
    let out = instrument_line(9, "if x > 1 {", "b.rhai", &mut cov);
    assert_eq!(out, "if x > 1 { rhai_test_coverage_instrument_branch(\"b.rhai\",10 );");
    assert!(cov.has_branch("b.rhai", 10));
    assert!(!cov.has_statement("b.rhai", 10));
}

#[test]
fn instruments_a_throw_by_prepending() {
    let mut cov = TestCoverageContainer::new();
    let out = instrument_line(0, "throw { status: 7 }", "c.rhai", &mut cov);
    assert_eq!(out, "rhai_test_coverage_instrument_statement(\"c.rhai\",1 ); throw { status: 7 }");
    assert!(cov.has_statement("c.rhai", 1));
}

#[test]
fn leaves_plain_lines_alone() {
    let mut cov = TestCoverageContainer::new();
    let out = instrument_line(3, "}", "d.rhai", &mut cov);
    assert_eq!(out, "}");
    assert!(!cov.has_statement("d.rhai", 4));
    assert!(!cov.has_branch("d.rhai", 4));
}

#[test]
fn registering_twice_registers_once() {
    let mut cov = TestCoverageContainer::new();
    // the same line instrumented twice, as when a module is re-resolved
    let first = instrument_line(1, "let x = 1;", "dup.rhai", &mut cov);
    let second = instrument_line(1, "let x = 1;", "dup.rhai", &mut cov);
    assert_eq!(first, second);
    let report = cov.report();
    assert_eq!(report.len(), 1);
    assert_eq!(report[0].source, "dup.rhai");
    // one site, unhit: 0 percent, and exactly one uncovered line
    assert_eq!(report[0].statements, "0");
    assert_eq!(report[0].uncovered_lines, "2");
}

#[test]
fn marking_a_statement_covers_it() {
    let mut cov = TestCoverageContainer::new();
    cov.add_statement(String::from("s.rhai"), 2);
    cov.add_statement(String::from("s.rhai"), 5);
    assert!(cov.has_statement("s.rhai", 2));
    cov.statement_called(String::from("s.rhai"), 2);
    let report = cov.report();
    assert_eq!(report.len(), 1);
    assert_eq!(report[0].statements, "50");
    assert_eq!(report[0].statements_band, CoverageBand::Medium);
    assert_eq!(report[0].uncovered_lines, "5");
}

#[test]
fn report_bands_and_percentages() {
    let mut cov = TestCoverageContainer::new();
    cov.add_function(String::from("f"), String::from("r.rhai"), 1);
    cov.add_function(String::from("g"), String::from("r.rhai"), 4);
    cov.add_function(String::from("h"), String::from("r.rhai"), 8);
    cov.function_called(String::from("f"), String::from("r.rhai"), 1);
    cov.add_branch(String::from("r.rhai"), 2);
    cov.branch_called(String::from("r.rhai"), 2);
    let report = cov.report();
    assert_eq!(report.len(), 1);
    // 1 of 3 functions: 33 percent, low band
    assert_eq!(report[0].functions, "33");
    assert_eq!(report[0].functions_band, CoverageBand::Low);
    // 1 of 1 branches: 100 percent, high band
    assert_eq!(report[0].branches, "100");
    assert_eq!(report[0].branches_band, CoverageBand::High);
    // no statements registered counts as fully covered
    assert_eq!(report[0].statements, "100");
    assert_eq!(report[0].statements_band, CoverageBand::High);
    assert_eq!(report[0].uncovered_lines, "");
}

#[test]
fn uncovered_lines_are_sorted() {
    let mut cov = TestCoverageContainer::new();
    cov.add_statement(String::from("u.rhai"), 9);
    cov.add_statement(String::from("u.rhai"), 3);
    cov.add_statement(String::from("u.rhai"), 12);
    let report = cov.report();
    assert_eq!(report[0].uncovered_lines, "3,9,12");
}

#[test]
fn report_keeps_sources_apart() {
    let mut cov = TestCoverageContainer::new();
    cov.add_statement(String::from("one.rhai"), 1);
    cov.add_statement(String::from("two.rhai"), 1);
    cov.statement_called(String::from("one.rhai"), 1);
    let report = cov.report();
    assert_eq!(report.len(), 2);
    assert_eq!(report[0].source, "one.rhai");
    assert_eq!(report[0].statements, "100");
    assert_eq!(report[1].source, "two.rhai");
    assert_eq!(report[1].statements, "0");
}
