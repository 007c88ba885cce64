//! The interpreter's error taxonomy, and its translation into stack traces.
//!
//! Every evaluation error reported by the embedded interpreter is first
//! mirrored into [`ScriptError`], a closed tree of plain values; the
//! translator below walks that tree and produces an ordered stack trace.
//! Translation is total: every kind of error, including unrecognized future
//! ones (carried in the `Other` variants), yields a frame, while control-flow
//! pseudo-errors yield none.

use vstd::prelude::*;

use crate::text::{dec_str, i64_to_string, int_str, u64_to_string};

verus! {

/// A source position: line and column, 1-based; zero means that the
/// interpreter reported no position.
#[derive(Debug, Clone, Copy, PartialEq, Eq, Structural)]
pub struct Position {
    pub line: u64,
    pub column: u64,
}

/// One frame of a translated stack trace.
#[derive(Debug)]
pub struct StackTraceDetail {
    pub message: String,
    pub status_code: String,
    pub position: Position,
    pub source: String,
}

/// Mathematical image of one stack-trace frame.
pub ghost struct FrameV {
    pub message: Seq<char>,
    pub status_code: Seq<char>,
    pub position: Position,
    pub source: Seq<char>,
}

impl View for StackTraceDetail {
    type V = FrameV;

    open spec fn view(&self) -> FrameV {
        FrameV {
            message: self.message@,
            status_code: self.status_code@,
            position: self.position,
            source: self.source@,
        }
    }
}

impl StackTraceDetail {
    /// Builds a frame from its four parts.
    pub fn new(message: String, status_code: String, position: Position, source: String) -> (r:
        Self)
        ensures
            r@ == (FrameV { message: message@, status_code: status_code@, position, source: source@ }),
    {
        Self { message, status_code, position, source }
    }
}

/// The payload a script-level `throw` carried: either the structured map form
/// with a message and a status, or arbitrary text.
#[derive(Debug)]
pub enum ThrowPayload {
    Structured { message: String, status: String },
    Text { text: String },
}

/// A tokenizer error, as reported inside a parse error.
#[derive(Debug)]
pub enum LexErrorKind {
    UnexpectedInput { symbol: String },
    UnterminatedString,
    StringTooLong,
    MalformedEscapeSequence { sequence: String },
    MalformedNumber { number: String },
    MalformedChar { character: String },
    MalformedIdentifier { identifier: String },
    ImproperSymbol { symbol: String, description: String },
    Runtime { message: String },
    Other,
}

/// A parse error reported while compiling a script.
#[derive(Debug)]
pub enum ParseErrorKind {
    BadInput { error: LexErrorKind },
    UnexpectedEof,
    UnknownOperator { op: String },
    MissingToken { token: String, description: String },
    MissingSymbol { description: String },
    MalformedIndexExpr { description: String },
    MalformedCapture { description: String },
    DuplicatedProperty { name: String },
    DuplicatedVariable { name: String },
    WrongSwitchIntegerCase,
    WrongSwitchDefaultCase,
    WrongSwitchCaseCondition,
    PropertyExpected,
    VariableExpected,
    ForbiddenVariable { name: String },
    Reserved { name: String },
    MismatchedType { requested: String, actual: String },
    ExprExpected { expression: String },
    WrongDocComment,
    WrongFnDefinition,
    FnDuplicatedDefinition { name: String, params: u64 },
    FnMissingName,
    FnMissingParams { name: String },
    FnDuplicatedParam { name: String, param: String },
    FnMissingBody { name: String },
    WrongExport,
    AssignmentToConstant { name: String },
    AssignmentToInvalidLhs { message: String },
    VariableExists { name: String },
    VariableUndefined { name: String },
    ModuleUndefined { name: String },
    ExprTooDeep,
    TooManyFunctions,
    LiteralTooLarge { data_type: String, max: u64 },
    LoopBreak,
    Other { text: String },
}

/// An evaluation error reported by the embedded interpreter, mirrored as a
/// tree of plain values.
#[derive(Debug)]
pub enum ScriptError {
    System { message: String },
    VariableExists { name: String, pos: Position },
    ForbiddenVariable { name: String, pos: Position },
    VariableNotFound { name: String, pos: Position },
    PropertyNotFound { name: String, pos: Position },
    IndexNotFound { index: String, pos: Position },
    ModuleNotFound { name: String, pos: Position },
    FunctionNotFound { signature: String, pos: Position },
    UnboundThis { pos: Position },
    MismatchDataType { requested: String, actual: String, pos: Position },
    MismatchOutputType { requested: String, actual: String, pos: Position },
    IndexingType { name: String, pos: Position },
    ArrayBounds { length: u64, index: i64, pos: Position },
    StringBounds { length: u64, index: i64, pos: Position },
    BitFieldBounds { length: u64, index: i64, pos: Position },
    ForStatement { pos: Position },
    DataRace { name: String, pos: Position },
    NonPureMethodCallOnConstant { name: String, pos: Position },
    AssignmentToConstant { name: String, pos: Position },
    DotExpr { name: String, pos: Position },
    Arithmetic { message: String, pos: Position },
    TooManyOperations { pos: Position },
    TooManyVariables { pos: Position },
    TooManyModules { pos: Position },
    StackOverflow { pos: Position },
    Terminated { token: String, pos: Position },
    Other { text: String, pos: Position },
    Parsing { kind: ParseErrorKind, pos: Position },
    InFunctionCall { name: String, source: String, inner: Box<ScriptError>, pos: Position },
    InModule { name: String, inner: Box<ScriptError>, pos: Position },
    Runtime { payload: ThrowPayload, pos: Position },
    LoopBreak,
    Return,
    Exit,
}

/// The frame a translated detail stands for.
pub open spec fn mk_frame(
    message: Seq<char>,
    status_code: Seq<char>,
    position: Position,
    source: Seq<char>,
) -> FrameV {
    FrameV { message, status_code, position, source }
}

/// The message of a tokenizer error, or `None` for kinds that produce no frame.
pub open spec fn lex_msg(l: LexErrorKind) -> Option<Seq<char>> {
    match l {
        LexErrorKind::UnexpectedInput { symbol } => Some("Parsing Error: Unexpected symbol: "@ + symbol@),
        LexErrorKind::UnterminatedString => Some("Parsing Error: String literal not terminated before new-line or EOF."@),
        LexErrorKind::StringTooLong => Some("Parsing Error: identifier or string literal longer than the maximum allowed length."@),
        LexErrorKind::MalformedEscapeSequence { sequence } => Some("Parsing Error: string/character/numeric escape sequence is in an invalid format: "@ + sequence@),
        LexErrorKind::MalformedNumber { number } => Some("Parsing Error: numeric literal is in an invalid format: "@ + number@),
        LexErrorKind::MalformedChar { character } => Some("Parsing Error: character literal is in an invalid format: "@ + character@),
        LexErrorKind::MalformedIdentifier { identifier } => Some("Parsing Error: identifier is in an invalid format: "@ + identifier@),
        LexErrorKind::ImproperSymbol { symbol, description } => Some("Parsing Error: Bad symbol encountered: "@ + symbol@ + " "@ + description@),
        LexErrorKind::Runtime { message } => Some("Parsing Error: Runtime error: "@ + message@),
        LexErrorKind::Other => None,
    }
}

/// The message of a parse error, or `None` for kinds that produce no frame.
pub open spec fn parse_msg(k: ParseErrorKind) -> Option<Seq<char>> {
    match k {
        ParseErrorKind::BadInput { error } => lex_msg(error),
        ParseErrorKind::UnexpectedEof => Some("Parsing Error: Unexpected end of file"@),
        ParseErrorKind::UnknownOperator { op } => Some("Parsing Error: unknown operator encountered: "@ + op@),
        ParseErrorKind::MissingToken { token, description } => Some("Parsing Error: Expected token: "@ + token@ + " "@ + description@),
        ParseErrorKind::MissingSymbol { description } => Some("Parsing Error: Expected Symbol: "@ + description@),
        ParseErrorKind::MalformedIndexExpr { description } => Some("Parsing Error: Syntax error with expression in indexing brackets `[]`: "@ + description@),
        ParseErrorKind::MalformedCapture { description } => Some("Parsing Error: Syntax error with a capture: "@ + description@),
        ParseErrorKind::DuplicatedProperty { name } => Some("Parsing Error: Map definition has duplicated property names: "@ + name@),
        ParseErrorKind::DuplicatedVariable { name } => Some("Parsing Error: variable name duplicated: "@ + name@),
        ParseErrorKind::WrongSwitchIntegerCase => Some("Parsing Error: numeric case of `switch` statement is in an appropriate place."@),
        ParseErrorKind::WrongSwitchDefaultCase => Some("Parsing Error: default case of `switch` statement is in an appropriate place."@),
        ParseErrorKind::WrongSwitchCaseCondition => Some("Parsing Error: case condition of `switch` statement is not appropriate"@),
        ParseErrorKind::PropertyExpected => Some("Parsing Error: Missing property name for custom type or map"@),
        ParseErrorKind::VariableExpected => Some("Parsing Error: Missing variable name after a `let`, `const`, `for` or `catch` keyword."@),
        ParseErrorKind::ForbiddenVariable { name } => Some("Parsing Error: Forbidden variable name: "@ + name@),
        ParseErrorKind::Reserved { name } => Some("Parsing Error: Reserved symbol: "@ + name@),
        ParseErrorKind::MismatchedType { requested, actual } => Some("Parsing Error: Type mismatch. Requested: "@ + requested@ + ", Actual: "@ + actual@),
        ParseErrorKind::ExprExpected { expression } => Some("Parsing Error: Expression expected: "@ + expression@),
        ParseErrorKind::WrongDocComment => Some("Parsing Error: doc-comment defined in an appropriate place"@),
        ParseErrorKind::WrongFnDefinition => Some("Parsing Error: function `fn` defined in an appropriate place"@),
        ParseErrorKind::FnDuplicatedDefinition { name, params } => Some("Parsing Error: function defined with a name that conflicts with an existing function: "@ + name@ + " "@ + dec_str(params as nat) + "."@),
        ParseErrorKind::FnMissingName => Some("Parsing Error: Missing a function name after the `fn` keyword."@),
        ParseErrorKind::FnMissingParams { name } => Some("Parsing Error: function definition is missing the parameters list: "@ + name@),
        ParseErrorKind::FnDuplicatedParam { name, param } => Some("Parsing Error: function definition has duplicated parameters: "@ + name@ + " "@ + param@),
        ParseErrorKind::FnMissingBody { name } => Some("Parsing Error: function definition is missing body: "@ + name@),
        ParseErrorKind::WrongExport => Some("Parsing Error: Export statement found not at global level."@),
        ParseErrorKind::AssignmentToConstant { name } => Some("Parsing Error: Assignment to a constant variable: "@ + name@),
        ParseErrorKind::AssignmentToInvalidLhs { message } => Some("Parsing Error: Assignment to an inappropriate left-hand-side expression: "@ + message@),
        ParseErrorKind::VariableExists { name } => Some("Parsing Error: Variable is already defined: "@ + name@),
        ParseErrorKind::VariableUndefined { name } => Some("Parsing Error: Variable not found: "@ + name@),
        ParseErrorKind::ModuleUndefined { name } => Some("Parsing Error: Imported module not found: "@ + name@),
        ParseErrorKind::ExprTooDeep => Some("Parsing Error: Expression exceeding the maximum levels of complexity."@),
        ParseErrorKind::TooManyFunctions => Some("Parsing Error: Number of scripted functions over maximum limit."@),
        ParseErrorKind::LiteralTooLarge { data_type, max } => Some("Parsing Error: Literal exceeding the maximum size: "@ + data_type@ + " "@ + dec_str(max as nat)),
        ParseErrorKind::LoopBreak => Some("Parsing Error: Break statement found not inside a loop."@),
        ParseErrorKind::Other { text } => Some("Parsing Error: Unknown error occurred: "@ + text@),
    }
}

/// The stack trace that translating an error yields, innermost frame last.
/// `parent` is the source file attributed to frames that carry none of their
/// own.
pub open spec fn spec_stack_trace(e: ScriptError, parent: Seq<char>) -> Seq<FrameV>
    decreases e,
{
    match e {
        ScriptError::System { message } => seq![mk_frame("Unknown System Error: "@ + message@, Seq::<char>::empty(), (Position { line: 0, column: 0 }), parent)],
        ScriptError::VariableExists { name, pos } => seq![mk_frame("Shadowing of an existing variable disallowed: "@ + name@, Seq::<char>::empty(), pos, parent)],
        ScriptError::ForbiddenVariable { name, pos } => seq![mk_frame("Forbidden variable name: "@ + name@, Seq::<char>::empty(), pos, parent)],
        ScriptError::VariableNotFound { name, pos } => seq![mk_frame("Access of an unknown variable: "@ + name@, Seq::<char>::empty(), pos, parent)],
        ScriptError::PropertyNotFound { name, pos } => seq![mk_frame("Access of an unknown object map property: "@ + name@, Seq::<char>::empty(), pos, parent)],
        ScriptError::IndexNotFound { index, pos } => seq![mk_frame("Access of an invalid index: "@ + index@, Seq::<char>::empty(), pos, parent)],
        ScriptError::ModuleNotFound { name, pos } => seq![mk_frame("Module not found: "@ + name@ + ". Hint: If you're importing a module in a test file, don't forget to use inline imports scoped to the function you're using the import in."@, Seq::<char>::empty(), pos, parent)],
        ScriptError::FunctionNotFound { signature, pos } => seq![mk_frame("Function not found: "@ + signature@ + "."@, Seq::<char>::empty(), pos, parent)],
        ScriptError::UnboundThis { pos } => seq![mk_frame("Access to `this` that is not bound."@, Seq::<char>::empty(), pos, parent)],
        ScriptError::MismatchDataType { requested, actual, pos } => seq![mk_frame("Data is not of the required type. Requested: "@ + requested@ + " actual: "@ + actual@, Seq::<char>::empty(), pos, parent)],
        ScriptError::MismatchOutputType { requested, actual, pos } => seq![mk_frame("Returned type is not the same as the required output type. Requested: "@ + requested@ + " actual: "@ + actual@, Seq::<char>::empty(), pos, parent)],
        ScriptError::IndexingType { name, pos } => seq![mk_frame("Tried to index into a type that has no indexer function defined: "@ + name@, Seq::<char>::empty(), pos, parent)],
        ScriptError::ArrayBounds { length, index, pos } => seq![mk_frame("Array access out-of-bounds: "@ + dec_str(length as nat) + " "@ + int_str(index as int), Seq::<char>::empty(), pos, parent)],
        ScriptError::StringBounds { length, index, pos } => seq![mk_frame("String indexing out-of-bounds: "@ + dec_str(length as nat) + " "@ + int_str(index as int), Seq::<char>::empty(), pos, parent)],
        ScriptError::BitFieldBounds { length, index, pos } => seq![mk_frame("Bit-field indexing out-of-bounds: "@ + dec_str(length as nat) + " "@ + int_str(index as int), Seq::<char>::empty(), pos, parent)],
        ScriptError::ForStatement { pos } => seq![mk_frame("`for` statement encountered a type that is not iterable"@, Seq::<char>::empty(), pos, parent)],
        ScriptError::DataRace { name, pos } => seq![mk_frame("Data race detected when accessing variable: "@ + name@, Seq::<char>::empty(), pos, parent)],
        ScriptError::NonPureMethodCallOnConstant { name, pos } => seq![mk_frame("Called a non-pure method on constant: "@ + name@, Seq::<char>::empty(), pos, parent)],
        ScriptError::AssignmentToConstant { name, pos } => seq![mk_frame("Assignment to constant variable: "@ + name@, Seq::<char>::empty(), pos, parent)],
        ScriptError::DotExpr { name, pos } => seq![mk_frame("Inappropriate property access: "@ + name@, Seq::<char>::empty(), pos, parent)],
        ScriptError::Arithmetic { message, pos } => seq![mk_frame("Arithmetic error encountered: "@ + message@, Seq::<char>::empty(), pos, parent)],
        ScriptError::TooManyOperations { pos } => seq![mk_frame("Number of operations over maximum limit"@, Seq::<char>::empty(), pos, parent)],
        ScriptError::TooManyVariables { pos } => seq![mk_frame("Number of variables over maximum limit"@, Seq::<char>::empty(), pos, parent)],
        ScriptError::TooManyModules { pos } => seq![mk_frame("Number of modules over maximum limit"@, Seq::<char>::empty(), pos, parent)],
        ScriptError::StackOverflow { pos } => seq![mk_frame("Call stack over maximum limit"@, Seq::<char>::empty(), pos, parent)],
        ScriptError::Terminated { token, pos } => seq![mk_frame("The script is prematurely terminated with: "@ + token@, Seq::<char>::empty(), pos, parent)],
        ScriptError::Other { text, pos } => seq![mk_frame("Unknown error occurred: "@ + text@, Seq::<char>::empty(), pos, parent)],
        ScriptError::Parsing { kind, pos } => match parse_msg(kind) {
            Some(m) => seq![mk_frame(m, Seq::<char>::empty(), pos, parent)],
            None => Seq::<FrameV>::empty(),
        },
        ScriptError::InFunctionCall { name, source, inner, pos } => {
            let file = if source@.len() != 0 {
                source@ + ".rhai"@
            } else {
                Seq::<char>::empty()
            };
            seq![
                mk_frame("Error in function call: "@ + name@, Seq::<char>::empty(), pos, file),
            ] + spec_stack_trace(*inner, file)
        },
        ScriptError::InModule { name, inner, pos } => {
            seq![
                mk_frame("Error in module: "@ + name@, Seq::<char>::empty(), pos, Seq::<char>::empty()),
            ] + spec_stack_trace(*inner, name@ + ".rhai"@)
        },
        ScriptError::Runtime { payload, pos } => match payload {
            ThrowPayload::Structured { message, status } => seq![
                mk_frame(message@, status@, pos, parent),
            ],
            ThrowPayload::Text { text } => seq![
                mk_frame(text@, Seq::<char>::empty(), pos, parent),
            ],
        },
        ScriptError::LoopBreak => Seq::<FrameV>::empty(),
        ScriptError::Return => Seq::<FrameV>::empty(),
        ScriptError::Exit => Seq::<FrameV>::empty(),
    }
}

/// The frames a vector of details stands for.
pub open spec fn trace_view(s: Seq<StackTraceDetail>) -> Seq<FrameV> {
    s.map_values(|d: StackTraceDetail| d@)
}

/// The source a frame is attributed to when the caller supplied none.
pub open spec fn opt_str(o: Option<String>) -> Seq<char> {
    match o {
        Some(s) => s@,
        None => Seq::<char>::empty(),
    }
}

/// The message an optional rendered text stands for.
pub open spec fn opt_msg(o: Option<String>) -> Option<Seq<char>> {
    match o {
        Some(s) => Some(s@),
        None => None,
    }
}

proof fn lemma_trace_view_concat(a: Seq<StackTraceDetail>, b: Seq<StackTraceDetail>)
    ensures
        trace_view(a + b) =~= trace_view(a) + trace_view(b),
{
    assert forall|i: int| 0 <= i < (a + b).len() implies trace_view(a + b)[i] == (trace_view(a)
        + trace_view(b))[i] by {
        if i < a.len() {
            assert((a + b)[i] == a[i]);
        } else {
            assert((a + b)[i] == b[i - a.len()]);
        }
    }
}

/// Renders the message of a parse error, or `None` for kinds that produce no
/// frame.
fn parse_message(kind: &ParseErrorKind) -> (r: Option<String>)
    ensures
        opt_msg(r) == parse_msg(*kind),
{
    match kind {
        ParseErrorKind::BadInput { error } => match error {
            LexErrorKind::UnexpectedInput { symbol } => Some(String::from_str("Parsing Error: Unexpected symbol: ").concat(symbol.as_str())),
            LexErrorKind::UnterminatedString => Some(String::from_str("Parsing Error: String literal not terminated before new-line or EOF.")),
            LexErrorKind::StringTooLong => Some(String::from_str("Parsing Error: identifier or string literal longer than the maximum allowed length.")),
            LexErrorKind::MalformedEscapeSequence { sequence } => Some(String::from_str("Parsing Error: string/character/numeric escape sequence is in an invalid format: ").concat(sequence.as_str())),
            LexErrorKind::MalformedNumber { number } => Some(String::from_str("Parsing Error: numeric literal is in an invalid format: ").concat(number.as_str())),
            LexErrorKind::MalformedChar { character } => Some(String::from_str("Parsing Error: character literal is in an invalid format: ").concat(character.as_str())),
            LexErrorKind::MalformedIdentifier { identifier } => Some(String::from_str("Parsing Error: identifier is in an invalid format: ").concat(identifier.as_str())),
            LexErrorKind::ImproperSymbol { symbol, description } => Some(String::from_str("Parsing Error: Bad symbol encountered: ").concat(symbol.as_str()).concat(" ").concat(description.as_str())),
            LexErrorKind::Runtime { message } => Some(String::from_str("Parsing Error: Runtime error: ").concat(message.as_str())),
            LexErrorKind::Other => None,
        },
        ParseErrorKind::UnexpectedEof => Some(String::from_str("Parsing Error: Unexpected end of file")),
        ParseErrorKind::UnknownOperator { op } => Some(String::from_str("Parsing Error: unknown operator encountered: ").concat(op.as_str())),
        ParseErrorKind::MissingToken { token, description } => Some(String::from_str("Parsing Error: Expected token: ").concat(token.as_str()).concat(" ").concat(description.as_str())),
        ParseErrorKind::MissingSymbol { description } => Some(String::from_str("Parsing Error: Expected Symbol: ").concat(description.as_str())),
        ParseErrorKind::MalformedIndexExpr { description } => Some(String::from_str("Parsing Error: Syntax error with expression in indexing brackets `[]`: ").concat(description.as_str())),
        ParseErrorKind::MalformedCapture { description } => Some(String::from_str("Parsing Error: Syntax error with a capture: ").concat(description.as_str())),
        ParseErrorKind::DuplicatedProperty { name } => Some(String::from_str("Parsing Error: Map definition has duplicated property names: ").concat(name.as_str())),
        ParseErrorKind::DuplicatedVariable { name } => Some(String::from_str("Parsing Error: variable name duplicated: ").concat(name.as_str())),
        ParseErrorKind::WrongSwitchIntegerCase => Some(String::from_str("Parsing Error: numeric case of `switch` statement is in an appropriate place.")),
        ParseErrorKind::WrongSwitchDefaultCase => Some(String::from_str("Parsing Error: default case of `switch` statement is in an appropriate place.")),
        ParseErrorKind::WrongSwitchCaseCondition => Some(String::from_str("Parsing Error: case condition of `switch` statement is not appropriate")),
        ParseErrorKind::PropertyExpected => Some(String::from_str("Parsing Error: Missing property name for custom type or map")),
        ParseErrorKind::VariableExpected => Some(String::from_str("Parsing Error: Missing variable name after a `let`, `const`, `for` or `catch` keyword.")),
        ParseErrorKind::ForbiddenVariable { name } => Some(String::from_str("Parsing Error: Forbidden variable name: ").concat(name.as_str())),
        ParseErrorKind::Reserved { name } => Some(String::from_str("Parsing Error: Reserved symbol: ").concat(name.as_str())),
        ParseErrorKind::MismatchedType { requested, actual } => Some(String::from_str("Parsing Error: Type mismatch. Requested: ").concat(requested.as_str()).concat(", Actual: ").concat(actual.as_str())),
        ParseErrorKind::ExprExpected { expression } => Some(String::from_str("Parsing Error: Expression expected: ").concat(expression.as_str())),
        ParseErrorKind::WrongDocComment => Some(String::from_str("Parsing Error: doc-comment defined in an appropriate place")),
        ParseErrorKind::WrongFnDefinition => Some(String::from_str("Parsing Error: function `fn` defined in an appropriate place")),
        ParseErrorKind::FnDuplicatedDefinition { name, params } => Some(String::from_str("Parsing Error: function defined with a name that conflicts with an existing function: ").concat(name.as_str()).concat(" ").concat(u64_to_string(*params).as_str()).concat(".")),
        ParseErrorKind::FnMissingName => Some(String::from_str("Parsing Error: Missing a function name after the `fn` keyword.")),
        ParseErrorKind::FnMissingParams { name } => Some(String::from_str("Parsing Error: function definition is missing the parameters list: ").concat(name.as_str())),
        ParseErrorKind::FnDuplicatedParam { name, param } => Some(String::from_str("Parsing Error: function definition has duplicated parameters: ").concat(name.as_str()).concat(" ").concat(param.as_str())),
        ParseErrorKind::FnMissingBody { name } => Some(String::from_str("Parsing Error: function definition is missing body: ").concat(name.as_str())),
        ParseErrorKind::WrongExport => Some(String::from_str("Parsing Error: Export statement found not at global level.")),
        ParseErrorKind::AssignmentToConstant { name } => Some(String::from_str("Parsing Error: Assignment to a constant variable: ").concat(name.as_str())),
        ParseErrorKind::AssignmentToInvalidLhs { message } => Some(String::from_str("Parsing Error: Assignment to an inappropriate left-hand-side expression: ").concat(message.as_str())),
        ParseErrorKind::VariableExists { name } => Some(String::from_str("Parsing Error: Variable is already defined: ").concat(name.as_str())),
        ParseErrorKind::VariableUndefined { name } => Some(String::from_str("Parsing Error: Variable not found: ").concat(name.as_str())),
        ParseErrorKind::ModuleUndefined { name } => Some(String::from_str("Parsing Error: Imported module not found: ").concat(name.as_str())),
        ParseErrorKind::ExprTooDeep => Some(String::from_str("Parsing Error: Expression exceeding the maximum levels of complexity.")),
        ParseErrorKind::TooManyFunctions => Some(String::from_str("Parsing Error: Number of scripted functions over maximum limit.")),
        ParseErrorKind::LiteralTooLarge { data_type, max } => Some(String::from_str("Parsing Error: Literal exceeding the maximum size: ").concat(data_type.as_str()).concat(" ").concat(u64_to_string(*max).as_str())),
        ParseErrorKind::LoopBreak => Some(String::from_str("Parsing Error: Break statement found not inside a loop.")),
        ParseErrorKind::Other { text } => Some(String::from_str("Parsing Error: Unknown error occurred: ").concat(text.as_str())),
    }
}

/// Translates an error into an ordered stack trace, outermost frame first.
/// The innermost frame comes last; its message and status are what the throw
/// matchers compare against.
pub fn get_stack_trace(error: &ScriptError, parent_source: Option<String>) -> (r: Vec<
    StackTraceDetail,
>)
    ensures
        trace_view(r@) == spec_stack_trace(*error, opt_str(parent_source)),
    decreases *error,
{
    let ghost pv: Seq<char> = opt_str(parent_source);
    let parent: String = match parent_source {
        Some(s) => s,
        None => String::new(),
    };
    let mut out: Vec<StackTraceDetail> = Vec::new();
    match error {
        ScriptError::System { message } => {
            let m = String::from_str("Unknown System Error: ").concat(message.as_str());
            out.push(StackTraceDetail::new(m, String::new(), Position { line: 0, column: 0 }, parent));
        },
        ScriptError::VariableExists { name, pos } => {
            let m = String::from_str("Shadowing of an existing variable disallowed: ").concat(name.as_str());
            out.push(StackTraceDetail::new(m, String::new(), *pos, parent));
        },
        ScriptError::ForbiddenVariable { name, pos } => {
            let m = String::from_str("Forbidden variable name: ").concat(name.as_str());
            out.push(StackTraceDetail::new(m, String::new(), *pos, parent));
        },
        ScriptError::VariableNotFound { name, pos } => {
            let m = String::from_str("Access of an unknown variable: ").concat(name.as_str());
            out.push(StackTraceDetail::new(m, String::new(), *pos, parent));
        },
        ScriptError::PropertyNotFound { name, pos } => {
            let m = String::from_str("Access of an unknown object map property: ").concat(name.as_str());
            out.push(StackTraceDetail::new(m, String::new(), *pos, parent));
        },
        ScriptError::IndexNotFound { index, pos } => {
            let m = String::from_str("Access of an invalid index: ").concat(index.as_str());
            out.push(StackTraceDetail::new(m, String::new(), *pos, parent));
        },
        ScriptError::ModuleNotFound { name, pos } => {
            let m = String::from_str("Module not found: ").concat(name.as_str()).concat(". Hint: If you're importing a module in a test file, don't forget to use inline imports scoped to the function you're using the import in.");
            out.push(StackTraceDetail::new(m, String::new(), *pos, parent));
        },
        ScriptError::FunctionNotFound { signature, pos } => {
            let m = String::from_str("Function not found: ").concat(signature.as_str()).concat(".");
            out.push(StackTraceDetail::new(m, String::new(), *pos, parent));
        },
        ScriptError::UnboundThis { pos } => {
            let m = String::from_str("Access to `this` that is not bound.");
            out.push(StackTraceDetail::new(m, String::new(), *pos, parent));
        },
        ScriptError::MismatchDataType { requested, actual, pos } => {
            let m = String::from_str("Data is not of the required type. Requested: ").concat(requested.as_str()).concat(" actual: ").concat(actual.as_str());
            out.push(StackTraceDetail::new(m, String::new(), *pos, parent));
        },
        ScriptError::MismatchOutputType { requested, actual, pos } => {
            let m = String::from_str("Returned type is not the same as the required output type. Requested: ").concat(requested.as_str()).concat(" actual: ").concat(actual.as_str());
            out.push(StackTraceDetail::new(m, String::new(), *pos, parent));
        },
        ScriptError::IndexingType { name, pos } => {
            let m = String::from_str("Tried to index into a type that has no indexer function defined: ").concat(name.as_str());
            out.push(StackTraceDetail::new(m, String::new(), *pos, parent));
        },
        ScriptError::ArrayBounds { length, index, pos } => {
            let m = String::from_str("Array access out-of-bounds: ").concat(u64_to_string(*length).as_str()).concat(" ").concat(i64_to_string(*index).as_str());
            out.push(StackTraceDetail::new(m, String::new(), *pos, parent));
        },
        ScriptError::StringBounds { length, index, pos } => {
            let m = String::from_str("String indexing out-of-bounds: ").concat(u64_to_string(*length).as_str()).concat(" ").concat(i64_to_string(*index).as_str());
            out.push(StackTraceDetail::new(m, String::new(), *pos, parent));
        },
        ScriptError::BitFieldBounds { length, index, pos } => {
            let m = String::from_str("Bit-field indexing out-of-bounds: ").concat(u64_to_string(*length).as_str()).concat(" ").concat(i64_to_string(*index).as_str());
            out.push(StackTraceDetail::new(m, String::new(), *pos, parent));
        },
        ScriptError::ForStatement { pos } => {
            let m = String::from_str("`for` statement encountered a type that is not iterable");
            out.push(StackTraceDetail::new(m, String::new(), *pos, parent));
        },
        ScriptError::DataRace { name, pos } => {
            let m = String::from_str("Data race detected when accessing variable: ").concat(name.as_str());
            out.push(StackTraceDetail::new(m, String::new(), *pos, parent));
        },
        ScriptError::NonPureMethodCallOnConstant { name, pos } => {
            let m = String::from_str("Called a non-pure method on constant: ").concat(name.as_str());
            out.push(StackTraceDetail::new(m, String::new(), *pos, parent));
        },
        ScriptError::AssignmentToConstant { name, pos } => {
            let m = String::from_str("Assignment to constant variable: ").concat(name.as_str());
            out.push(StackTraceDetail::new(m, String::new(), *pos, parent));
        },
        ScriptError::DotExpr { name, pos } => {
            let m = String::from_str("Inappropriate property access: ").concat(name.as_str());
            out.push(StackTraceDetail::new(m, String::new(), *pos, parent));
        },
        ScriptError::Arithmetic { message, pos } => {
            let m = String::from_str("Arithmetic error encountered: ").concat(message.as_str());
            out.push(StackTraceDetail::new(m, String::new(), *pos, parent));
        },
        ScriptError::TooManyOperations { pos } => {
            let m = String::from_str("Number of operations over maximum limit");
            out.push(StackTraceDetail::new(m, String::new(), *pos, parent));
        },
        ScriptError::TooManyVariables { pos } => {
            let m = String::from_str("Number of variables over maximum limit");
            out.push(StackTraceDetail::new(m, String::new(), *pos, parent));
        },
        ScriptError::TooManyModules { pos } => {
            let m = String::from_str("Number of modules over maximum limit");
            out.push(StackTraceDetail::new(m, String::new(), *pos, parent));
        },
        ScriptError::StackOverflow { pos } => {
            let m = String::from_str("Call stack over maximum limit");
            out.push(StackTraceDetail::new(m, String::new(), *pos, parent));
        },
        ScriptError::Terminated { token, pos } => {
            let m = String::from_str("The script is prematurely terminated with: ").concat(token.as_str());
            out.push(StackTraceDetail::new(m, String::new(), *pos, parent));
        },
        ScriptError::Other { text, pos } => {
            let m = String::from_str("Unknown error occurred: ").concat(text.as_str());
            out.push(StackTraceDetail::new(m, String::new(), *pos, parent));
        },
        ScriptError::Parsing { kind, pos } => {
            match parse_message(kind) {
                Some(m) => out.push(StackTraceDetail::new(m, String::new(), *pos, parent)),
                None => {},
            }
        },
        ScriptError::InFunctionCall { name, source, inner, pos } => {
            let file: String = if !source.as_str().is_empty() {
                String::from_str(source.as_str()).concat(".rhai")
            } else {
                String::new()
            };
            let file_again = String::from_str(file.as_str());
            let m = String::from_str("Error in function call: ").concat(name.as_str());
            out.push(StackTraceDetail::new(m, String::new(), *pos, file));
            let mut rest = get_stack_trace(&**inner, Some(file_again));
            let ghost head = out@;
            let ghost tail = rest@;
            proof {
                lemma_trace_view_concat(head, tail);
            }
            out.append(&mut rest);
            proof {
                assert(out@ == head + tail);
            }
        },
        ScriptError::InModule { name, inner, pos } => {
            let file = String::from_str(name.as_str()).concat(".rhai");
            let m = String::from_str("Error in module: ").concat(name.as_str());
            out.push(StackTraceDetail::new(m, String::new(), *pos, String::new()));
            let mut rest = get_stack_trace(&**inner, Some(file));
            let ghost head = out@;
            let ghost tail = rest@;
            proof {
                lemma_trace_view_concat(head, tail);
            }
            out.append(&mut rest);
            proof {
                assert(out@ == head + tail);
            }
        },
        ScriptError::Runtime { payload, pos } => {
            match payload {
                ThrowPayload::Structured { message, status } => {
                    let m = String::from_str(message.as_str());
                    let s = String::from_str(status.as_str());
                    out.push(StackTraceDetail::new(m, s, *pos, parent));
                },
                ThrowPayload::Text { text } => {
                    let m = String::from_str(text.as_str());
                    out.push(StackTraceDetail::new(m, String::new(), *pos, parent));
                },
            }
        },
        ScriptError::LoopBreak => {},
        ScriptError::Return => {},
        ScriptError::Exit => {},
    }
    proof {
        assert(trace_view(out@) =~= spec_stack_trace(*error, pv));
    }
    out
}

/// The line printed for one frame: the message, then `(source:line:column)`
/// when the frame carries a source.
pub open spec fn frame_line(f: FrameV) -> Seq<char> {
    let details = if f.source.len() != 0 {
        "("@ + f.source + ":"@ + dec_str(f.position.line as nat) + ":"@ + dec_str(
            f.position.column as nat,
        ) + ")"@
    } else {
        Seq::<char>::empty()
    };
    "\t\t"@ + f.message + " "@ + details + "\n"@
}

/// The frame lines in reverse order: innermost frame first.
pub open spec fn rev_lines(frames: Seq<FrameV>) -> Seq<char>
    decreases frames.len(),
{
    if frames.len() == 0 {
        Seq::<char>::empty()
    } else {
        frame_line(frames.last()) + rev_lines(frames.drop_last())
    }
}

/// The full printed report: the given message, then every frame line,
/// innermost frame first.
pub open spec fn spec_trace_output(message: Seq<char>, frames: Seq<FrameV>) -> Seq<char> {
    message + "\n"@ + rev_lines(frames)
}

proof fn lemma_rev_lines_unsnoc(frames: Seq<FrameV>)
    requires
        frames.len() > 0,
    ensures
        rev_lines(frames) == rev_lines(frames.skip(1)) + frame_line(frames[0]),
    decreases frames.len(),
{
    if frames.len() == 1 {
        assert(frames.drop_last() =~= Seq::<FrameV>::empty());
        assert(frames.skip(1) =~= Seq::<FrameV>::empty());
        assert(rev_lines(Seq::<FrameV>::empty()) == Seq::<char>::empty());
        assert(frames.last() == frames[0]);
        assert(rev_lines(frames) == frame_line(frames[0]) + Seq::<char>::empty());
        assert(rev_lines(frames) =~= rev_lines(frames.skip(1)) + frame_line(frames[0]));
    } else {
        let inner = frames.drop_last();
        lemma_rev_lines_unsnoc(inner);
        assert(frames.skip(1).drop_last() =~= inner.skip(1));
        assert(frames.skip(1).last() == frames.last());
        assert(rev_lines(frames.skip(1)) == frame_line(frames.last()) + rev_lines(inner.skip(1)));
        assert(rev_lines(frames) == frame_line(frames.last()) + (rev_lines(inner.skip(1))
            + frame_line(inner[0])));
        assert(rev_lines(frames) =~= rev_lines(frames.skip(1)) + frame_line(frames[0]));
    }
}

/// Renders a stack trace under a heading, innermost frame first.
pub fn get_stack_trace_output(message: String, stack_trace: &Vec<StackTraceDetail>) -> (r: String)
    ensures
        r@ == spec_trace_output(message@, trace_view(stack_trace@)),
{
    let ghost frames = trace_view(stack_trace@);
    let mut output = message.concat("\n");
    let mut idx: usize = stack_trace.len();
    proof {
        assert(frames.skip(idx as int) =~= Seq::<FrameV>::empty());
    }
    while idx > 0
        invariant
            idx <= stack_trace.len(),
            frames == trace_view(stack_trace@),
            frames.len() == stack_trace.len(),
            output@ == message@ + "\n"@ + rev_lines(frames.skip(idx as int)),
        decreases idx,
    {
        idx = idx - 1;
        let d = &stack_trace[idx];
        let details: String = if !d.source.as_str().is_empty() {
            String::from_str("(").concat(d.source.as_str()).concat(":").concat(
                u64_to_string(d.position.line).as_str(),
            ).concat(":").concat(u64_to_string(d.position.column).as_str()).concat(")")
        } else {
            String::new()
        };
        let line = String::from_str("\t\t").concat(d.message.as_str()).concat(" ").concat(
            details.as_str(),
        ).concat("\n");
        proof {
            assert(frames[idx as int] == stack_trace@[idx as int]@);
            assert(line@ =~= frame_line(frames[idx as int]));
        }
        output = output.concat(line.as_str());
        proof {
            lemma_rev_lines_unsnoc(frames.skip(idx as int));
            assert(frames.skip(idx as int).skip(1) =~= frames.skip(idx + 1));
            assert(frames.skip(idx as int)[0] == frames[idx as int]);
            assert(output@ =~= message@ + "\n"@ + rev_lines(frames.skip(idx as int)));
        }
    }
    proof {
        assert(frames.skip(0) =~= frames);
    }
    output
}

/// The innermost error: the target of a chain of function-call wrappers.
pub open spec fn spec_inner_most(e: ScriptError) -> ScriptError
    decreases e,
{
    match e {
        ScriptError::InFunctionCall { inner, .. } => spec_inner_most(*inner),
        _ => e,
    }
}

/// Follows function-call wrappers down to the error they wrap. The throw
/// matchers use it to decide whether a failure was a script-level `throw`.
pub fn get_inner_most_error(error: &ScriptError) -> (r: &ScriptError)
    ensures
        *r == spec_inner_most(*error),
    decreases *error,
{
    match error {
        ScriptError::InFunctionCall { inner, .. } => get_inner_most_error(&**inner),
        _ => error,
    }
}

} // verus!
