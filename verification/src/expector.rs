//! The assertion engine: `expect(value)` and its chainable matchers.
//!
//! An expector holds one value under test — a closed union over the kinds
//! the matchers understand, with an `Error` variant for anything else, so
//! that a matcher on an unsupported value degrades to a recorded failure
//! instead of a crash. Every matcher call appends exactly one expectation
//! result to the test registry; `not()` inverts the polarity of each check.
//!
//! The throw matchers judge the outcome of invoking the held function; the
//! host performs that invocation — on a freshly built engine, never the one
//! its caller already holds — and hands the translated error in.

use vstd::prelude::*;

use crate::error_handling::{
    get_inner_most_error, get_stack_trace, get_stack_trace_output, spec_inner_most,
    spec_stack_trace, spec_trace_output, trace_view, ScriptError, ThrowPayload,
};
use crate::logging_container::{LoggingContainer, LogV, LOG_LEVEL};
use crate::pattern::{regex_compiles, regex_is_match, regex_matches, regex_ok};
use crate::test_container::{TcV, TestContainer};
use crate::text::int_str;

verus! {

/// The kinds of value an expectation can hold. Anything else becomes
/// `Error`, carrying a description of the unsupported value.
#[derive(Debug)]
pub enum ExpectedValue {
    String(String),
    Bool(bool),
    Int(i64),
    Function(String),
    Nothing,
    Error(String),
    LogLevel(LOG_LEVEL),
}

/// Structural equality of two expectation values, as `to_be` compares them:
/// values of different kinds are unequal, functions compare by name, and
/// error or log-level values equal nothing.
pub open spec fn value_eq(a: ExpectedValue, b: ExpectedValue) -> bool {
    match (a, b) {
        (ExpectedValue::String(s1), ExpectedValue::String(s2)) => s1@ == s2@,
        (ExpectedValue::Bool(b1), ExpectedValue::Bool(b2)) => b1 == b2,
        (ExpectedValue::Int(i1), ExpectedValue::Int(i2)) => i1 == i2,
        (ExpectedValue::Function(f1), ExpectedValue::Function(f2)) => f1@ == f2@,
        (ExpectedValue::Nothing, ExpectedValue::Nothing) => true,
        _ => false,
    }
}

/// How a value is written inside failure messages.
pub open spec fn value_text(v: ExpectedValue) -> Seq<char> {
    match v {
        ExpectedValue::String(s) => "\""@ + s@ + "\""@,
        ExpectedValue::Bool(b) => if b {
            "true"@
        } else {
            "false"@
        },
        ExpectedValue::Int(i) => int_str(i as int),
        ExpectedValue::Function(f) => "Fn("@ + f@ + ")"@,
        ExpectedValue::Nothing => "()"@,
        ExpectedValue::Error(m) => "unsupported ("@ + m@ + ")"@,
        ExpectedValue::LogLevel(l) => "log_"@ + l.spec_name(),
    }
}

/// The message of a script throw's payload.
pub open spec fn runtime_message(p: ThrowPayload) -> Seq<char> {
    match p {
        ThrowPayload::Structured { message, .. } => message@,
        ThrowPayload::Text { text } => text@,
    }
}

/// The status of a script throw's payload; text payloads carry none.
pub open spec fn runtime_status(p: ThrowPayload) -> Seq<char> {
    match p {
        ThrowPayload::Structured { status, .. } => status@,
        ThrowPayload::Text { .. } => Seq::<char>::empty(),
    }
}

/// The payload of the innermost error, when that error is a script throw.
pub open spec fn innermost_payload(e: ScriptError) -> ThrowPayload {
    match spec_inner_most(e) {
        ScriptError::Runtime { payload, .. } => payload,
        _ => arbitrary(),
    }
}

/// What judging a throw yields: either a framework-level failure message, or
/// whether the function threw together with the thrown message and status —
/// taken from the innermost (last) frame of the translated trace.
pub open spec fn run_throw_spec(value: ExpectedValue, outcome: Option<ScriptError>) -> Result<
    (bool, Seq<char>, Seq<char>),
    Seq<char>,
> {
    if !(value is Function) {
        Err("Expected value passed to expect() to be a function"@)
    } else {
        match outcome {
            None => Ok((false, Seq::<char>::empty(), Seq::<char>::empty())),
            Some(e) => {
                if !(spec_inner_most(e) is Runtime) {
                    Err(
                        spec_trace_output(
                            "Unexpected error ocurred when running tests."@,
                            spec_stack_trace(e, Seq::<char>::empty()),
                        ),
                    )
                } else {
                    let tr = spec_stack_trace(e, Seq::<char>::empty());
                    Ok((true, tr.last().message, tr.last().status_code))
                }
            },
        }
    }
}

/// The result `to_be` records.
pub open spec fn to_be_verdict(
    value: ExpectedValue,
    expected: ExpectedValue,
    negative: bool,
) -> Result<(), Seq<char>> {
    if value is Error {
        Err(value->Error_0@)
    } else if expected is Error {
        Err(expected->Error_0@)
    } else {
        let condition = value_eq(value, expected);
        if !condition && !negative {
            Err(
                "Expected value to be "@ + value_text(expected) + " but instead got "@ + value_text(
                    value,
                ),
            )
        } else if condition && negative {
            Err(
                "Expected value "@ + value_text(value) + " to not be "@ + value_text(expected)
                    + " but it was"@,
            )
        } else {
            Ok(())
        }
    }
}

/// The result `to_exist` records.
pub open spec fn to_exist_verdict(value: ExpectedValue, negative: bool) -> Result<(), Seq<char>> {
    if value is Error {
        Err(value->Error_0@)
    } else {
        let condition = !(value is Nothing);
        if !condition && !negative {
            Err("Expected value "@ + value_text(value) + " to exist"@)
        } else if condition && negative {
            Err("Expected value "@ + value_text(value) + " to not exist"@)
        } else {
            Ok(())
        }
    }
}

/// The result `to_match` records.
pub open spec fn to_match_verdict(
    value: ExpectedValue,
    pattern: Seq<char>,
    negative: bool,
) -> Result<(), Seq<char>> {
    if value is Error {
        Err(value->Error_0@)
    } else if !(value is String) {
        Err("Expected value passed to expect() to be a string"@)
    } else if !regex_ok(pattern) {
        Err("Pattern passed to to_match is not a valid regular expression"@)
    } else {
        let s = value->String_0;
        let condition = regex_matches(pattern, s@);
        if !condition && !negative {
            Err(
                "Expected value "@ + value_text(value) + " to match pattern \""@ + pattern
                    + "\" but it did not"@,
            )
        } else if condition && negative {
            Err(
                "Expected value "@ + value_text(value) + " to not match pattern \""@ + pattern
                    + "\" but it did"@,
            )
        } else {
            Ok(())
        }
    }
}

/// The result `to_throw` records.
pub open spec fn to_throw_verdict(
    value: ExpectedValue,
    outcome: Option<ScriptError>,
    negative: bool,
) -> Result<(), Seq<char>> {
    if value is Error {
        Err(value->Error_0@)
    } else {
        match run_throw_spec(value, outcome) {
            Err(m) => Err(m),
            Ok((threw, message, status)) => {
                if !threw && !negative {
                    Err("Expected function to throw but it did not"@)
                } else if threw && negative {
                    Err("Expected function to not throw but it did"@)
                } else {
                    Ok(())
                }
            },
        }
    }
}

/// The result `to_throw_status` records: the thrown status must equal the
/// expected code written in decimal.
pub open spec fn to_throw_status_verdict(
    value: ExpectedValue,
    outcome: Option<ScriptError>,
    status_code_to_match: i64,
    negative: bool,
) -> Result<(), Seq<char>> {
    if value is Error {
        Err(value->Error_0@)
    } else {
        match run_throw_spec(value, outcome) {
            Err(m) => Err(m),
            Ok((threw, message, status)) => {
                let wanted = int_str(status_code_to_match as int);
                if !threw && !negative {
                    Err("Expected function to throw but it did not"@)
                } else if threw && negative {
                    Err("Expected function to not throw but it did"@)
                } else if threw && status != wanted {
                    Err(
                        "Expected function to throw error with status '"@ + wanted
                            + "' but instead received '"@ + status + "'"@,
                    )
                } else {
                    Ok(())
                }
            },
        }
    }
}

/// The result `to_throw_message` records: the thrown message must equal the
/// expected text, or match it as a regular expression.
pub open spec fn to_throw_message_verdict(
    value: ExpectedValue,
    outcome: Option<ScriptError>,
    message_to_match: Seq<char>,
    negative: bool,
) -> Result<(), Seq<char>> {
    if value is Error {
        Err(value->Error_0@)
    } else {
        match run_throw_spec(value, outcome) {
            Err(m) => Err(m),
            Ok((threw, message, status)) => {
                let exact = message == message_to_match;
                let by_pattern = regex_ok(message_to_match) && regex_matches(
                    message_to_match,
                    message,
                );
                if !threw && !negative {
                    Err("Expected function to throw but it did not"@)
                } else if threw && negative {
                    Err("Expected function to not throw but it did"@)
                } else if threw && !exact && !by_pattern {
                    Err(
                        "Expected function to throw error with message '"@ + message_to_match
                            + "' but instead received '"@ + message + "'"@,
                    )
                } else {
                    Ok(())
                }
            },
        }
    }
}

/// The listing of captured logs inside a `to_log_message` failure.
pub open spec fn logs_dump(logs: Seq<LogV>) -> Seq<char>
    decreases logs.len(),
{
    if logs.len() == 0 {
        Seq::<char>::empty()
    } else if logs.len() == 1 {
        "\t\t["@ + logs[0].level.spec_name() + "] "@ + logs[0].message
    } else {
        "\t\t["@ + logs[0].level.spec_name() + "] "@ + logs[0].message + "\n"@ + logs_dump(
            logs.skip(1),
        )
    }
}

/// The result `to_log` records.
pub open spec fn to_log_verdict(
    value: ExpectedValue,
    logs: Seq<LogV>,
    negative: bool,
) -> Result<(), Seq<char>> {
    if !(value is LogLevel) {
        Err("Expected value passed to expect() to be a logging function"@)
    } else {
        let level = value->LogLevel_0;
        let condition = exists|i: int| 0 <= i < logs.len() && logs[i].level == level;
        if !condition && !negative {
            Err("Expected log function to be called but it was not"@)
        } else if condition && negative {
            Err("Expected log function to not be called but it was"@)
        } else {
            Ok(())
        }
    }
}

/// The result `to_log_message` records; its failure lists every captured log.
pub open spec fn to_log_message_verdict(
    value: ExpectedValue,
    logs: Seq<LogV>,
    pattern: Seq<char>,
    negative: bool,
) -> Result<(), Seq<char>> {
    if !(value is LogLevel) {
        Err("Expected value passed to expect() to be a logging function"@)
    } else if !regex_ok(pattern) {
        Err("Pattern passed to to_log_message is not a valid regular expression"@)
    } else {
        let level = value->LogLevel_0;
        let condition = exists|i: int|
            0 <= i < logs.len() && logs[i].level == level && regex_matches(
                pattern,
                logs[i].message,
            );
        if !condition && !negative {
            Err(
                "Expected log function to be called with '"@ + pattern
                    + "' but it was not. \n \t\tLogs Captured:\n "@ + logs_dump(logs),
            )
        } else if condition && negative {
            Err("Expected log function to not be called with '"@ + pattern + "' but it was"@)
        } else {
            Ok(())
        }
    }
}

impl PartialEq for ExpectedValue {
    /// Structural equality by value kind; see `value_eq`.
    fn eq(&self, other: &Self) -> (r: bool) {
        match (self, other) {
            (ExpectedValue::String(s1), ExpectedValue::String(s2)) => *s1 == *s2,
            (ExpectedValue::Bool(b1), ExpectedValue::Bool(b2)) => b1 == b2,
            (ExpectedValue::Int(i1), ExpectedValue::Int(i2)) => i1 == i2,
            (ExpectedValue::Function(f1), ExpectedValue::Function(f2)) => *f1 == *f2,
            (ExpectedValue::Nothing, ExpectedValue::Nothing) => true,
            _ => false,
        }
    }
}

impl vstd::std_specs::cmp::PartialEqSpecImpl for ExpectedValue {
    open spec fn obeys_eq_spec() -> bool {
        true
    }

    open spec fn eq_spec(&self, other: &Self) -> bool {
        value_eq(*self, *other)
    }
}

/// One expectation under evaluation: the held value and the polarity.
#[derive(Debug)]
pub struct Expector {
    pub value: ExpectedValue,
    pub negative: bool,
}

proof fn lemma_runtime_trace_last(e: ScriptError, parent: Seq<char>)
    requires
        spec_inner_most(e) is Runtime,
    ensures
        spec_stack_trace(e, parent).len() >= 1,
        spec_stack_trace(e, parent).last().message == runtime_message(innermost_payload(e)),
        spec_stack_trace(e, parent).last().status_code == runtime_status(innermost_payload(e)),
    decreases e,
{
    match e {
        ScriptError::InFunctionCall { source, inner, .. } => {
            let file = if source@.len() != 0 {
                source@ + ".rhai"@
            } else {
                Seq::<char>::empty()
            };
            lemma_runtime_trace_last(*inner, file);
            let tr = spec_stack_trace(e, parent);
            let tri = spec_stack_trace(*inner, file);
            assert(tr.last() == tri.last());
        },
        _ => {},
    }
}

/// For a held function whose invocation did not throw, `to_throw()` fails
/// while `not().to_throw()` passes: the plain and the inverted matcher can
/// never agree on one invocation.
pub proof fn lemma_to_throw_polarity(value: ExpectedValue, outcome: Option<ScriptError>)
    requires
        value is Function,
        outcome is None,
    ensures
        to_throw_verdict(value, outcome, false) is Err,
        to_throw_verdict(value, outcome, true) is Ok,
{
}

impl Expector {
    /// Wraps a value for matching; polarity starts positive.
    pub fn new(value: ExpectedValue) -> (r: Self)
        ensures
            r.value == value,
            !r.negative,
    {
        Self { value, negative: false }
    }

    /// Inverts the polarity: every subsequent matcher passes exactly where
    /// its plain form fails.
    pub fn not(self) -> (r: Self)
        ensures
            r.value == self.value,
            r.negative,
    {
        Self { value: self.value, negative: true }
    }

    /// Renders the held value for failure messages.
    fn describe(v: &ExpectedValue) -> (r: String)
        ensures
            r@ == value_text(*v),
    {
        match v {
            ExpectedValue::String(s) => String::from_str("\"").concat(s.as_str()).concat("\""),
            ExpectedValue::Bool(b) => {
                if *b {
                    String::from_str("true")
                } else {
                    String::from_str("false")
                }
            },
            ExpectedValue::Int(i) => crate::text::i64_to_string(*i),
            ExpectedValue::Function(f) => String::from_str("Fn(").concat(f.as_str()).concat(")"),
            ExpectedValue::Nothing => String::from_str("()"),
            ExpectedValue::Error(m) => String::from_str("unsupported (").concat(m.as_str()).concat(
                ")",
            ),
            ExpectedValue::LogLevel(l) => String::from_str("log_").concat(l.to_string().as_str()),
        }
    }

    /// Checks the held value for structural equality with the expected one
    /// and records the outcome.
    pub fn to_be(&self, expected: &ExpectedValue, test_container: &mut TestContainer)
        ensures
            final(test_container)@ == (TcV {
                expect_results: old(test_container)@.expect_results.push(
                    to_be_verdict(self.value, *expected, self.negative),
                ),
                ..old(test_container)@
            }),
            old(test_container).wf() ==> final(test_container).wf(),
    {
        if let ExpectedValue::Error(err_msg) = &self.value {
            test_container.add_expect_result(Err(String::from_str(err_msg.as_str())));
            return ;
        }
        if let ExpectedValue::Error(err_msg) = expected {
            test_container.add_expect_result(Err(String::from_str(err_msg.as_str())));
            return ;
        }
        let condition = self.value == *expected;
        if !condition && !self.negative {
            let error = String::from_str("Expected value to be ").concat(
                Self::describe(expected).as_str(),
            ).concat(" but instead got ").concat(Self::describe(&self.value).as_str());
            test_container.add_expect_result(Err(error));
        } else if condition && self.negative {
            let error = String::from_str("Expected value ").concat(
                Self::describe(&self.value).as_str(),
            ).concat(" to not be ").concat(Self::describe(expected).as_str()).concat(" but it was");
            test_container.add_expect_result(Err(error));
        } else {
            test_container.add_expect_result(Ok(()));
        }
    }

    /// Checks that the held value exists — is not nothing — and records the
    /// outcome.
    pub fn to_exist(&self, test_container: &mut TestContainer)
        ensures
            final(test_container)@ == (TcV {
                expect_results: old(test_container)@.expect_results.push(
                    to_exist_verdict(self.value, self.negative),
                ),
                ..old(test_container)@
            }),
            old(test_container).wf() ==> final(test_container).wf(),
    {
        if let ExpectedValue::Error(err_msg) = &self.value {
            test_container.add_expect_result(Err(String::from_str(err_msg.as_str())));
            return ;
        }
        let condition = !(matches!(&self.value, ExpectedValue::Nothing));
        if !condition && !self.negative {
            let error = String::from_str("Expected value ").concat(
                Self::describe(&self.value).as_str(),
            ).concat(" to exist");
            test_container.add_expect_result(Err(error));
        } else if condition && self.negative {
            let error = String::from_str("Expected value ").concat(
                Self::describe(&self.value).as_str(),
            ).concat(" to not exist");
            test_container.add_expect_result(Err(error));
        } else {
            test_container.add_expect_result(Ok(()));
        }
    }

    /// Checks the held string against a regular expression and records the
    /// outcome.
    pub fn to_match(&self, pattern: &str, test_container: &mut TestContainer)
        ensures
            final(test_container)@ == (TcV {
                expect_results: old(test_container)@.expect_results.push(
                    to_match_verdict(self.value, pattern@, self.negative),
                ),
                ..old(test_container)@
            }),
            old(test_container).wf() ==> final(test_container).wf(),
    {
        if let ExpectedValue::Error(err_msg) = &self.value {
            test_container.add_expect_result(Err(String::from_str(err_msg.as_str())));
            return ;
        }
        let s: &String = match &self.value {
            ExpectedValue::String(s) => s,
            _ => {
                test_container.add_expect_result(
                    Err(String::from_str("Expected value passed to expect() to be a string")),
                );
                return ;
            },
        };
        if !regex_compiles(pattern) {
            test_container.add_expect_result(
                Err(
                    String::from_str(
                        "Pattern passed to to_match is not a valid regular expression",
                    ),
                ),
            );
            return ;
        }
        let condition = regex_is_match(pattern, s.as_str());
        if !condition && !self.negative {
            let error = String::from_str("Expected value ").concat(
                Self::describe(&self.value).as_str(),
            ).concat(" to match pattern \"").concat(pattern).concat("\" but it did not");
            test_container.add_expect_result(Err(error));
        } else if condition && self.negative {
            let error = String::from_str("Expected value ").concat(
                Self::describe(&self.value).as_str(),
            ).concat(" to not match pattern \"").concat(pattern).concat("\" but it did");
            test_container.add_expect_result(Err(error));
        } else {
            test_container.add_expect_result(Ok(()));
        }
    }

    /// Judges the invocation the host made of the held function: a
    /// framework-level failure when the held value is no function or when the
    /// failure was not a script throw; otherwise whether it threw, with the
    /// thrown message and status.
    fn run_throw_function(&self, invocation: &Option<ScriptError>) -> (r: Result<
        (bool, String, String),
        String,
    >)
        ensures
            match r {
                Ok((threw, message, status)) => run_throw_spec(self.value, *invocation) == Ok::<
                    _,
                    Seq<char>,
                >((threw, message@, status@)),
                Err(m) => run_throw_spec(self.value, *invocation) == Err::<
                    (bool, Seq<char>, Seq<char>),
                    _,
                >(m@),
            },
    {
        match &self.value {
            ExpectedValue::Function(_) => {
                match invocation {
                    None => Ok((false, String::new(), String::new())),
                    Some(e) => {
                        let inner = get_inner_most_error(e);
                        let is_runtime = matches!(inner, ScriptError::Runtime { .. });
                        let trace = get_stack_trace(e, None);
                        if !is_runtime {
                            Err(
                                get_stack_trace_output(
                                    String::from_str(
                                        "Unexpected error ocurred when running tests.",
                                    ),
                                    &trace,
                                ),
                            )
                        } else {
                            proof {
                                lemma_runtime_trace_last(*e, Seq::<char>::empty());
                                assert(trace_view(trace@).len() == trace@.len());
                            }
                            let last = &trace[trace.len() - 1];
                            proof {
                                assert(trace_view(trace@).last() == trace@[trace@.len() - 1]@);
                            }
                            Ok(
                                (
                                    true,
                                    String::from_str(last.message.as_str()),
                                    String::from_str(last.status_code.as_str()),
                                ),
                            )
                        }
                    },
                }
            },
            _ => Err(String::from_str("Expected value passed to expect() to be a function")),
        }
    }

    /// Checks that the held function threw, and records the outcome.
    /// `invocation` is the translated error of the host's invocation of the
    /// held function, or `None` when it returned normally.
    pub fn to_throw(&self, invocation: &Option<ScriptError>, test_container: &mut TestContainer)
        ensures
            final(test_container)@ == (TcV {
                expect_results: old(test_container)@.expect_results.push(
                    to_throw_verdict(self.value, *invocation, self.negative),
                ),
                ..old(test_container)@
            }),
            old(test_container).wf() ==> final(test_container).wf(),
    {
        if let ExpectedValue::Error(err_msg) = &self.value {
            test_container.add_expect_result(Err(String::from_str(err_msg.as_str())));
            return ;
        }
        let outcome = self.run_throw_function(invocation);
        let (threw, _message, _status) = match outcome {
            Ok(r) => r,
            Err(error) => {
                test_container.add_expect_result(Err(error));
                return ;
            },
        };
        if !threw && !self.negative {
            test_container.add_expect_result(
                Err(String::from_str("Expected function to throw but it did not")),
            );
        } else if threw && self.negative {
            test_container.add_expect_result(
                Err(String::from_str("Expected function to not throw but it did")),
            );
        } else {
            test_container.add_expect_result(Ok(()));
        }
    }

    /// Checks that the held function threw with the given status, and
    /// records the outcome.
    pub fn to_throw_status(
        &self,
        invocation: &Option<ScriptError>,
        status_code_to_match: i64,
        test_container: &mut TestContainer,
    )
        ensures
            final(test_container)@ == (TcV {
                expect_results: old(test_container)@.expect_results.push(
                    to_throw_status_verdict(
                        self.value,
                        *invocation,
                        status_code_to_match,
                        self.negative,
                    ),
                ),
                ..old(test_container)@
            }),
            old(test_container).wf() ==> final(test_container).wf(),
    {
        if let ExpectedValue::Error(err_msg) = &self.value {
            test_container.add_expect_result(Err(String::from_str(err_msg.as_str())));
            return ;
        }
        let outcome = self.run_throw_function(invocation);
        let (threw, _message, status) = match outcome {
            Ok(r) => r,
            Err(error) => {
                test_container.add_expect_result(Err(error));
                return ;
            },
        };
        let wanted = crate::text::i64_to_string(status_code_to_match);
        let condition2 = status == wanted;
        if !threw && !self.negative {
            test_container.add_expect_result(
                Err(String::from_str("Expected function to throw but it did not")),
            );
        } else if threw && self.negative {
            test_container.add_expect_result(
                Err(String::from_str("Expected function to not throw but it did")),
            );
        } else if threw && !condition2 {
            let error = String::from_str("Expected function to throw error with status '").concat(
                wanted.as_str(),
            ).concat("' but instead received '").concat(status.as_str()).concat("'");
            test_container.add_expect_result(Err(error));
        } else {
            test_container.add_expect_result(Ok(()));
        }
    }

    /// Checks that the held function threw with the given message — exactly,
    /// or as a regular expression match — and records the outcome.
    pub fn to_throw_message(
        &self,
        invocation: &Option<ScriptError>,
        message_to_match: &str,
        test_container: &mut TestContainer,
    )
        ensures
            final(test_container)@ == (TcV {
                expect_results: old(test_container)@.expect_results.push(
                    to_throw_message_verdict(
                        self.value,
                        *invocation,
                        message_to_match@,
                        self.negative,
                    ),
                ),
                ..old(test_container)@
            }),
            old(test_container).wf() ==> final(test_container).wf(),
    {
        if let ExpectedValue::Error(err_msg) = &self.value {
            test_container.add_expect_result(Err(String::from_str(err_msg.as_str())));
            return ;
        }
        let outcome = self.run_throw_function(invocation);
        let (threw, message, _status) = match outcome {
            Ok(r) => r,
            Err(error) => {
                test_container.add_expect_result(Err(error));
                return ;
            },
        };
        let wanted = String::from_str(message_to_match);
        let condition2 = message == wanted;
        let condition3 = if regex_compiles(message_to_match) {
            regex_is_match(message_to_match, message.as_str())
        } else {
            false
        };
        if !threw && !self.negative {
            test_container.add_expect_result(
                Err(String::from_str("Expected function to throw but it did not")),
            );
        } else if threw && self.negative {
            test_container.add_expect_result(
                Err(String::from_str("Expected function to not throw but it did")),
            );
        } else if threw && !condition2 && !condition3 {
            let error = String::from_str("Expected function to throw error with message '").concat(
                message_to_match,
            ).concat("' but instead received '").concat(message.as_str()).concat("'");
            test_container.add_expect_result(Err(error));
        } else {
            test_container.add_expect_result(Ok(()));
        }
    }

    /// Checks status and message of a throw in turn; records two outcomes.
    pub fn to_throw_status_and_message(
        &self,
        invocation: &Option<ScriptError>,
        status_code_to_match: i64,
        message_to_match: &str,
        test_container: &mut TestContainer,
    )
        ensures
            final(test_container)@ == (TcV {
                expect_results: old(test_container)@.expect_results.push(
                    to_throw_status_verdict(
                        self.value,
                        *invocation,
                        status_code_to_match,
                        self.negative,
                    ),
                ).push(
                    to_throw_message_verdict(
                        self.value,
                        *invocation,
                        message_to_match@,
                        self.negative,
                    ),
                ),
                ..old(test_container)@
            }),
            old(test_container).wf() ==> final(test_container).wf(),
    {
        self.to_throw_status(invocation, status_code_to_match, test_container);
        self.to_throw_message(invocation, message_to_match, test_container);
    }

    /// Checks that something was logged at the held level during this test,
    /// and records the outcome.
    pub fn to_log(&self, logging_container: &mut LoggingContainer, test_container: &mut TestContainer)
        ensures
            final(logging_container)@ == old(logging_container)@,
            final(test_container)@ == (TcV {
                expect_results: old(test_container)@.expect_results.push(
                    to_log_verdict(self.value, old(logging_container)@, self.negative),
                ),
                ..old(test_container)@
            }),
            old(test_container).wf() ==> final(test_container).wf(),
    {
        let level = match &self.value {
            ExpectedValue::LogLevel(level) => *level,
            _ => {
                test_container.add_expect_result(
                    Err(
                        String::from_str(
                            "Expected value passed to expect() to be a logging function",
                        ),
                    ),
                );
                return ;
            },
        };
        let condition = logging_container.has_log(level);
        if !condition && !self.negative {
            test_container.add_expect_result(
                Err(String::from_str("Expected log function to be called but it was not")),
            );
        } else if condition && self.negative {
            test_container.add_expect_result(
                Err(String::from_str("Expected log function to not be called but it was")),
            );
        } else {
            test_container.add_expect_result(Ok(()));
        }
    }

    /// Renders the captured logs for a `to_log_message` failure.
    fn dump_logs(logging_container: &LoggingContainer) -> (r: String)
        ensures
            r@ == logs_dump(logging_container@),
    {
        let logs = logging_container.get_logs();
        let ghost lv = logging_container@;
        proof {
            assert(logs@.map_values(|l: crate::logging_container::CapturedLog| l@) == lv);
        }
        let mut acc = String::new();
        let mut idx: usize = logs.len();
        proof {
            assert(lv.skip(idx as int) =~= Seq::<LogV>::empty());
            assert(logs@.len() == lv.len());
        }
        while idx > 0
            invariant
                idx <= logs@.len(),
                logs@.map_values(|l: crate::logging_container::CapturedLog| l@) == lv,
                logs@.len() == lv.len(),
                acc@ == logs_dump(lv.skip(idx as int)),
            decreases idx,
        {
            idx -= 1;
            proof {
                assert(lv.skip(idx as int)[0] == lv[idx as int]);
                assert(lv.skip(idx as int).skip(1) =~= lv.skip(idx + 1));
                assert(lv[idx as int] == logs@[idx as int]@);
                assert(lv.skip(idx as int).len() == lv.len() - idx);
            }
            let line = String::from_str("\t\t[").concat(
                logs[idx].level.to_string().as_str(),
            ).concat("] ").concat(logs[idx].message.as_str());
            if idx + 1 == logs.len() {
                acc = line;
            } else {
                acc = line.concat("\n").concat(acc.as_str());
            }
            proof {
                assert(acc@ == logs_dump(lv.skip(idx as int)));
            }
        }
        proof {
            assert(lv.skip(0) =~= lv);
        }
        acc
    }

    /// Checks that something matching the pattern was logged at the held
    /// level during this test, and records the outcome; a failure lists the
    /// captured logs to help debugging.
    pub fn to_log_message(
        &self,
        pattern: &str,
        logging_container: &mut LoggingContainer,
        test_container: &mut TestContainer,
    )
        ensures
            final(logging_container)@ == old(logging_container)@,
            final(test_container)@ == (TcV {
                expect_results: old(test_container)@.expect_results.push(
                    to_log_message_verdict(
                        self.value,
                        old(logging_container)@,
                        pattern@,
                        self.negative,
                    ),
                ),
                ..old(test_container)@
            }),
            old(test_container).wf() ==> final(test_container).wf(),
    {
        let level = match &self.value {
            ExpectedValue::LogLevel(level) => *level,
            _ => {
                test_container.add_expect_result(
                    Err(
                        String::from_str(
                            "Expected value passed to expect() to be a logging function",
                        ),
                    ),
                );
                return ;
            },
        };
        if !regex_compiles(pattern) {
            test_container.add_expect_result(
                Err(
                    String::from_str(
                        "Pattern passed to to_log_message is not a valid regular expression",
                    ),
                ),
            );
            return ;
        }
        let condition = logging_container.has_matching_log(level, pattern);
        if !condition && !self.negative {
            let error = String::from_str("Expected log function to be called with '").concat(
                pattern,
            ).concat("' but it was not. \n \t\tLogs Captured:\n ").concat(
                Self::dump_logs(logging_container).as_str(),
            );
            test_container.add_expect_result(Err(error));
        } else if condition && self.negative {
            let error = String::from_str("Expected log function to not be called with '").concat(
                pattern,
            ).concat("' but it was");
            test_container.add_expect_result(Err(error));
        } else {
            test_container.add_expect_result(Ok(()));
        }
    }
}

} // verus!
