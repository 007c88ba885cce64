use rhai_test::error_handling::{
    get_inner_most_error, get_stack_trace, get_stack_trace_output, LexErrorKind, ParseErrorKind,
    Position, ScriptError, StackTraceDetail, ThrowPayload,
};
use rhai_test::expector::{ExpectedValue, Expector};
use rhai_test::logging_container::{LoggingContainer, LOG_LEVEL};
use rhai_test::test_container::TestContainer;

fn pos(line: u64, column: u64) -> Position {
    Position { line, column }
}

#[test]
fn translates_a_structured_runtime_error() {
    let error = ScriptError::Runtime {
        payload: ThrowPayload::Structured {
            message: String::from("boom"),
            status: String::from("42"),
        },
        pos: pos(3, 1),
    };
    let trace = get_stack_trace(&error, None);
    assert_eq!(trace.len(), 1);
    assert_eq!(trace[0].message, "boom");
    assert_eq!(trace[0].status_code, "42");
}

#[test]
fn translates_nested_errors_innermost_last() {
    let error = ScriptError::InFunctionCall {
        name: String::from("run"),
        source: String::from("util"),
        inner: Box::new(ScriptError::Runtime {
            payload: ThrowPayload::Structured {
                message: String::from("boom"),
                status: String::from("42"),
            },
            pos: pos(7, 2),
        }),
        pos: pos(1, 1),
    };
    let trace = get_stack_trace(&error, Some(String::from("outer.rhai")));
    assert_eq!(trace.len(), 2);
    assert_eq!(trace[0].message, "Error in function call: run");
    assert_eq!(trace[0].source, "util.rhai");
    // the innermost frame comes last and carries the thrown payload,
    // attributed to the callee's file
    assert_eq!(trace[1].message, "boom");
    assert_eq!(trace[1].status_code, "42");
    assert_eq!(trace[1].source, "util.rhai");
}

#[test]
fn translates_module_errors() {
    let error = ScriptError::InModule {
        name: String::from("helpers"),
        inner: Box::new(ScriptError::VariableNotFound {
            name: String::from("x"),
            pos: pos(4, 9),
        }),
        pos: pos(2, 1),
    };
    let trace = get_stack_trace(&error, None);
    assert_eq!(trace.len(), 2);
    assert_eq!(trace[0].message, "Error in module: helpers");
    assert_eq!(trace[0].source, "");
    assert_eq!(trace[1].message, "Access of an unknown variable: x");
    assert_eq!(trace[1].source, "helpers.rhai");
}

#[test]
fn translates_leaf_error_kinds() {
    let cases: Vec<(ScriptError, &str)> = vec![
        (
            ScriptError::ModuleNotFound { name: String::from("m"), pos: pos(1, 1) },
            "Module not found: m. Hint: If you're importing a module in a test file, don't forget to use inline imports scoped to the function you're using the import in.",
        ),
        (
            ScriptError::FunctionNotFound { signature: String::from("f ()"), pos: pos(1, 1) },
            "Function not found: f ().",
        ),
        (
            ScriptError::ArrayBounds { length: 3, index: -1, pos: pos(1, 1) },
            "Array access out-of-bounds: 3 -1",
        ),
        (
            ScriptError::MismatchOutputType {
                requested: String::from("()"),
                actual: String::from("i64"),
                pos: pos(1, 1),
            },
            "Returned type is not the same as the required output type. Requested: () actual: i64",
        ),
        (ScriptError::StackOverflow { pos: pos(1, 1) }, "Call stack over maximum limit"),
        (
            ScriptError::System { message: String::from("disk gone") },
            "Unknown System Error: disk gone",
        ),
    ];
    for (error, expected) in cases {
        let trace = get_stack_trace(&error, None);
        assert_eq!(trace.len(), 1);
        assert_eq!(trace[0].message, expected);
    }
}

#[test]
fn translates_parse_errors() {
    let error = ScriptError::Parsing {
        kind: ParseErrorKind::UnknownOperator { op: String::from("<>") },
        pos: pos(5, 3),
    };
    let trace = get_stack_trace(&error, None);
    assert_eq!(trace.len(), 1);
    assert_eq!(trace[0].message, "Parsing Error: unknown operator encountered: <>");

    let lex = ScriptError::Parsing {
        kind: ParseErrorKind::BadInput { error: LexErrorKind::UnterminatedString },
        pos: pos(1, 1),
    };
    let trace = get_stack_trace(&lex, None);
    assert_eq!(
        trace[0].message,
        "Parsing Error: String literal not terminated before new-line or EOF."
    );
}

#[test]
fn translates_parse_errors_with_counts() {
    let duplicated = ScriptError::Parsing {
        kind: ParseErrorKind::FnDuplicatedDefinition { name: String::from("f"), params: 2 },
        pos: pos(1, 1),
    };
    assert_eq!(
        get_stack_trace(&duplicated, None)[0].message,
        "Parsing Error: function defined with a name that conflicts with an existing function: f 2."
    );
    let too_large = ScriptError::Parsing {
        kind: ParseErrorKind::LiteralTooLarge { data_type: String::from("string"), max: 64 },
        pos: pos(1, 1),
    };
    assert_eq!(
        get_stack_trace(&too_large, None)[0].message,
        "Parsing Error: Literal exceeding the maximum size: string 64"
    );
}

#[test]
fn translates_text_throw_payloads_without_status() {
    let error = ScriptError::Runtime {
        payload: ThrowPayload::Text { text: String::from("plain failure") },
        pos: pos(2, 2),
    };
    let trace = get_stack_trace(&error, Some(String::from("t.rhai")));
    assert_eq!(trace[0].message, "plain failure");
    assert_eq!(trace[0].status_code, "");
    assert_eq!(trace[0].source, "t.rhai");
}

#[test]
fn unknown_error_kinds_still_translate() {
    let error = ScriptError::Other {
        text: String::from("Data size exceeds maximum limit: blob"),
        pos: pos(8, 1),
    };
    let trace = get_stack_trace(&error, None);
    assert_eq!(trace.len(), 1);
    assert_eq!(trace[0].message, "Unknown error occurred: Data size exceeds maximum limit: blob");
}

#[test]
fn control_flow_and_unknown_lex_errors_yield_no_frame() {
    assert_eq!(get_stack_trace(&ScriptError::LoopBreak, None).len(), 0);
    assert_eq!(get_stack_trace(&ScriptError::Return, None).len(), 0);
    assert_eq!(get_stack_trace(&ScriptError::Exit, None).len(), 0);
    let unknown_lex = ScriptError::Parsing {
        kind: ParseErrorKind::BadInput { error: LexErrorKind::Other },
        pos: pos(1, 1),
    };
    assert_eq!(get_stack_trace(&unknown_lex, None).len(), 0);
}

#[test]
fn finds_the_inner_most_error() {
    let error = ScriptError::InFunctionCall {
        name: String::from("a"),
        source: String::new(),
        inner: Box::new(ScriptError::InFunctionCall {
            name: String::from("b"),
            source: String::new(),
            inner: Box::new(ScriptError::Runtime {
                payload: ThrowPayload::Text { text: String::from("oops") },
                pos: pos(9, 9),
            }),
            pos: pos(2, 2),
        }),
        pos: pos(1, 1),
    };
    assert!(matches!(get_inner_most_error(&error), ScriptError::Runtime { .. }));
}

#[test]
fn renders_the_trace_output_innermost_first() {
    let trace = vec![
        StackTraceDetail::new(
            String::from("Error in function call: run"),
            String::new(),
            pos(1, 2),
            String::from("outer.rhai"),
        ),
        StackTraceDetail::new(String::from("boom"), String::from("42"), pos(7, 3), String::new()),
    ];
    let output = get_stack_trace_output(String::from("Something failed."), &trace);
    assert_eq!(
        output,
        "Something failed.\n\t\tboom \n\t\tError in function call: run (outer.rhai:1:2)\n"
    );
}

#[test]
fn expected_values_compare_structurally() {
    assert!(ExpectedValue::Int(3) == ExpectedValue::Int(3));
    assert!(ExpectedValue::Int(3) != ExpectedValue::Int(4));
    assert!(ExpectedValue::Int(1) != ExpectedValue::String(String::from("1")));
    assert!(ExpectedValue::String(String::from("a")) == ExpectedValue::String(String::from("a")));
    assert!(ExpectedValue::Function(String::from("f")) == ExpectedValue::Function(String::from("f")));
    assert!(ExpectedValue::Nothing == ExpectedValue::Nothing);
    // unsupported and log-level values equal nothing, not even themselves
    assert!(ExpectedValue::Error(String::from("x")) != ExpectedValue::Error(String::from("x")));
    assert!(
        ExpectedValue::LogLevel(LOG_LEVEL::INFO) != ExpectedValue::LogLevel(LOG_LEVEL::INFO)
    );
}

#[test]
fn renders_an_empty_trace_as_the_heading_alone() {
    let output = get_stack_trace_output(String::from("Nothing to report."), &Vec::new());
    assert_eq!(output, "Nothing to report.\n");
}

#[test]
fn renders_missing_positions_as_zero() {
    let trace = vec![StackTraceDetail::new(
        String::from("boom"),
        String::new(),
        pos(0, 0),
        String::from("m.rhai"),
    )];
    let output = get_stack_trace_output(String::from("Failed."), &trace);
    assert_eq!(output, "Failed.\n\t\tboom (m.rhai:0:0)\n");
}

#[test]
fn to_be_compares_by_kind_and_value() {
    let mut tc = TestContainer::new();
    let expector = Expector::new(ExpectedValue::Int(2));
    expector.to_be(&ExpectedValue::Int(2), &mut tc);
    assert_eq!(tc.expect_results, vec![Ok(())]);

    // a kind mismatch is a failure, not a crash
    let expector = Expector::new(ExpectedValue::Int(1));
    expector.to_be(&ExpectedValue::String(String::from("1")), &mut tc);
    assert_eq!(tc.expect_results.len(), 2);
    let message = tc.expect_results[1].clone().unwrap_err();
    assert_eq!(message, "Expected value to be \"1\" but instead got 1");
}

#[test]
fn to_be_not_inverts() {
    let mut tc = TestContainer::new();
    let expector = Expector::new(ExpectedValue::Bool(true)).not();
    expector.to_be(&ExpectedValue::Bool(false), &mut tc);
    assert_eq!(tc.expect_results, vec![Ok(())]);
    let expector = Expector::new(ExpectedValue::Bool(true)).not();
    expector.to_be(&ExpectedValue::Bool(true), &mut tc);
    assert!(tc.expect_results[1].is_err());
}

#[test]
fn unsupported_values_degrade_to_failures() {
    let mut tc = TestContainer::new();
    let expector = Expector::new(ExpectedValue::Error(String::from("Unsupported type")));
    expector.to_be(&ExpectedValue::Int(1), &mut tc);
    assert_eq!(tc.expect_results, vec![Err(String::from("Unsupported type"))]);
}

#[test]
fn to_exist_checks_for_nothing() {
    let mut tc = TestContainer::new();
    Expector::new(ExpectedValue::Int(5)).to_exist(&mut tc);
    Expector::new(ExpectedValue::Nothing).to_exist(&mut tc);
    Expector::new(ExpectedValue::Nothing).not().to_exist(&mut tc);
    assert_eq!(tc.expect_results.len(), 3);
    assert!(tc.expect_results[0].is_ok());
    assert_eq!(tc.expect_results[1].clone().unwrap_err(), "Expected value () to exist");
    assert!(tc.expect_results[2].is_ok());
}

#[test]
fn to_match_uses_the_pattern() {
    let mut tc = TestContainer::new();
    Expector::new(ExpectedValue::String(String::from("abbb"))).to_match("^ab+$", &mut tc);
    Expector::new(ExpectedValue::String(String::from("cab"))).to_match("^ab+$", &mut tc);
    Expector::new(ExpectedValue::Int(1)).to_match("^ab+$", &mut tc);
    assert!(tc.expect_results[0].is_ok());
    assert_eq!(
        tc.expect_results[1].clone().unwrap_err(),
        "Expected value \"cab\" to match pattern \"^ab+$\" but it did not"
    );
    assert_eq!(
        tc.expect_results[2].clone().unwrap_err(),
        "Expected value passed to expect() to be a string"
    );
}

#[test]
fn to_match_rejects_invalid_patterns() {
    let mut tc = TestContainer::new();
    Expector::new(ExpectedValue::String(String::from("x"))).to_match("(", &mut tc);
    assert_eq!(
        tc.expect_results[0].clone().unwrap_err(),
        "Pattern passed to to_match is not a valid regular expression"
    );
}

#[test]
fn to_throw_fails_without_a_throw_and_not_passes() {
    let mut tc = TestContainer::new();
    let expector = Expector::new(ExpectedValue::Function(String::from("f")));
    expector.to_throw(&None, &mut tc);
    let inverted = Expector::new(ExpectedValue::Function(String::from("f"))).not();
    inverted.to_throw(&None, &mut tc);
    assert_eq!(
        tc.expect_results[0].clone().unwrap_err(),
        "Expected function to throw but it did not"
    );
    assert!(tc.expect_results[1].is_ok());
}

#[test]
fn to_throw_passes_on_a_throw_and_not_fails() {
    let thrown = Some(ScriptError::Runtime {
        payload: ThrowPayload::Structured { message: String::from("boom"), status: String::from("42") },
        pos: pos(1, 1),
    });
    let mut tc = TestContainer::new();
    Expector::new(ExpectedValue::Function(String::from("f"))).to_throw(&thrown, &mut tc);
    Expector::new(ExpectedValue::Function(String::from("f"))).not().to_throw(&thrown, &mut tc);
    assert!(tc.expect_results[0].is_ok());
    assert_eq!(
        tc.expect_results[1].clone().unwrap_err(),
        "Expected function to not throw but it did"
    );
}

#[test]
fn to_throw_status_compares_the_thrown_status() {
    let thrown = Some(ScriptError::Runtime {
        payload: ThrowPayload::Structured { message: String::from("boom"), status: String::from("42") },
        pos: pos(1, 1),
    });
    let mut tc = TestContainer::new();
    Expector::new(ExpectedValue::Function(String::from("f"))).to_throw_status(&thrown, 42, &mut tc);
    Expector::new(ExpectedValue::Function(String::from("f"))).to_throw_status(&thrown, 7, &mut tc);
    assert!(tc.expect_results[0].is_ok());
    assert_eq!(
        tc.expect_results[1].clone().unwrap_err(),
        "Expected function to throw error with status '7' but instead received '42'"
    );
}

#[test]
fn to_throw_status_reads_the_innermost_frame() {
    // the throw surfaces wrapped in a function-call error; the matcher must
    // compare against the innermost frame, not the wrapper
    let thrown = Some(ScriptError::InFunctionCall {
        name: String::from("lvl1"),
        source: String::new(),
        inner: Box::new(ScriptError::Runtime {
            payload: ThrowPayload::Structured {
                message: String::from("boom"),
                status: String::from("42"),
            },
            pos: pos(3, 1),
        }),
        pos: pos(1, 1),
    });
    let mut tc = TestContainer::new();
    Expector::new(ExpectedValue::Function(String::from("f"))).to_throw_status(&thrown, 42, &mut tc);
    assert!(tc.expect_results[0].is_ok());
}

#[test]
fn to_throw_message_accepts_exact_text_or_pattern() {
    let thrown = Some(ScriptError::Runtime {
        payload: ThrowPayload::Structured { message: String::from("boom"), status: String::from("1") },
        pos: pos(1, 1),
    });
    let mut tc = TestContainer::new();
    Expector::new(ExpectedValue::Function(String::from("f"))).to_throw_message(&thrown, "boom", &mut tc);
    Expector::new(ExpectedValue::Function(String::from("f"))).to_throw_message(&thrown, "^bo+m$", &mut tc);
    Expector::new(ExpectedValue::Function(String::from("f"))).to_throw_message(&thrown, "quiet", &mut tc);
    assert!(tc.expect_results[0].is_ok());
    assert!(tc.expect_results[1].is_ok());
    assert_eq!(
        tc.expect_results[2].clone().unwrap_err(),
        "Expected function to throw error with message 'quiet' but instead received 'boom'"
    );
}

#[test]
fn to_throw_status_and_message_records_two_results() {
    let thrown = Some(ScriptError::Runtime {
        payload: ThrowPayload::Structured { message: String::from("boom"), status: String::from("42") },
        pos: pos(1, 1),
    });
    let mut tc = TestContainer::new();
    Expector::new(ExpectedValue::Function(String::from("f")))
        .to_throw_status_and_message(&thrown, 42, "boom", &mut tc);
    assert_eq!(tc.expect_results, vec![Ok(()), Ok(())]);
}

#[test]
fn a_non_throw_error_is_a_framework_failure() {
    // a variable lookup failure is a script bug, not a matchable throw
    let failed = Some(ScriptError::VariableNotFound { name: String::from("x"), pos: pos(2, 5) });
    let mut tc = TestContainer::new();
    Expector::new(ExpectedValue::Function(String::from("f"))).to_throw(&failed, &mut tc);
    let message = tc.expect_results[0].clone().unwrap_err();
    assert!(message.starts_with("Unexpected error ocurred when running tests.\n"));
    assert!(message.contains("Access of an unknown variable: x"));
}

#[test]
fn to_throw_on_a_non_function_fails() {
    let mut tc = TestContainer::new();
    Expector::new(ExpectedValue::Int(3)).to_throw(&None, &mut tc);
    assert_eq!(
        tc.expect_results[0].clone().unwrap_err(),
        "Expected value passed to expect() to be a function"
    );
}

#[test]
fn to_log_finds_events_at_the_level() {
    let mut logging = LoggingContainer::new();
    logging.add_log(String::from("ready"), LOG_LEVEL::INFO);
    let mut tc = TestContainer::new();
    Expector::new(ExpectedValue::LogLevel(LOG_LEVEL::INFO)).to_log(&mut logging, &mut tc);
    Expector::new(ExpectedValue::LogLevel(LOG_LEVEL::WARN)).to_log(&mut logging, &mut tc);
    Expector::new(ExpectedValue::Int(1)).to_log(&mut logging, &mut tc);
    assert!(tc.expect_results[0].is_ok());
    assert_eq!(
        tc.expect_results[1].clone().unwrap_err(),
        "Expected log function to be called but it was not"
    );
    assert_eq!(
        tc.expect_results[2].clone().unwrap_err(),
        "Expected value passed to expect() to be a logging function"
    );
}

#[test]
fn to_log_message_matches_and_reports_captures() {
    let mut logging = LoggingContainer::new();
    logging.add_log(String::from("connection up"), LOG_LEVEL::INFO);
    logging.add_log(String::from("retrying"), LOG_LEVEL::WARN);
    let mut tc = TestContainer::new();
    Expector::new(ExpectedValue::LogLevel(LOG_LEVEL::INFO))
        .to_log_message("^connection", &mut logging, &mut tc);
    Expector::new(ExpectedValue::LogLevel(LOG_LEVEL::INFO))
        .to_log_message("^retrying", &mut logging, &mut tc);
    assert!(tc.expect_results[0].is_ok());
    let message = tc.expect_results[1].clone().unwrap_err();
    assert!(message.starts_with("Expected log function to be called with '^retrying' but it was not."));
    assert!(message.contains("\t\t[info] connection up"));
    assert!(message.contains("\t\t[warn] retrying"));
}

#[test]
fn logging_container_queries() {
    let mut logging = LoggingContainer::new();
    assert!(!logging.has_log(LOG_LEVEL::ERROR));
    logging.add_log(String::from("bad thing"), LOG_LEVEL::ERROR);
    assert!(logging.has_log(LOG_LEVEL::ERROR));
    assert!(logging.has_matching_log(LOG_LEVEL::ERROR, "^bad"));
    assert!(!logging.has_matching_log(LOG_LEVEL::ERROR, "^good"));
    assert_eq!(logging.try_has_matching_log(LOG_LEVEL::ERROR, "("), None);
    assert_eq!(logging.try_has_matching_log(LOG_LEVEL::ERROR, "thing$"), Some(true));
    let logs = logging.get_logs();
    assert_eq!(logs.len(), 1);
    assert_eq!(logs[0].message, "bad thing");
    assert_eq!(logs[0].level, LOG_LEVEL::ERROR);
    assert_eq!(logs[0].level.to_string(), "error");
    logging.reset();
    assert!(!logging.has_log(LOG_LEVEL::ERROR));
}
