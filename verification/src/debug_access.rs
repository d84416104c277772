//! Debug access statements and expressions, the text inside the blocks of a
//! debug sequence: their syntax, how they are read from text and how they are
//! written back.
use vstd::prelude::*;
use vstd::string::StringExecFns;

use crate::number::{decimal, push_decimal};
use crate::{Error, ErrorModel};
use crate::text::{
    alphabetic, alphanumeric, char_is_alphabetic, char_is_alphanumeric, chars_to_string,
    find_char, find_from, has_prefix_at, is_ws, lemma_find_from, starts_with, str_eq, str_to_chars,
    trim, trim_bounds, trim_end, trim_start,
};

verus! {

/// Parse error for debug access XML elements.
#[derive(Debug, PartialEq, Eq, Clone)]
pub enum DebugAccessParseError {
    /// A required attribute or structural element was absent.
    MissingAttribute(String),
    /// An unrecognised statement or function name was encountered.
    UnknownStatement(String),
}

/// The value of a [`DebugAccessParseError`], with its text as characters.
pub enum DebugErrorModel {
    MissingAttribute(Seq<char>),
    UnknownStatement(Seq<char>),
}

impl View for DebugAccessParseError {
    type V = DebugErrorModel;

    open spec fn view(&self) -> DebugErrorModel {
        match self {
            DebugAccessParseError::MissingAttribute(m) => DebugErrorModel::MissingAttribute(m@),
            DebugAccessParseError::UnknownStatement(n) => DebugErrorModel::UnknownStatement(n@),
        }
    }
}

impl Default for DebugAccessParseError {
    fn default() -> (r: Self)
        ensures
            r@ == DebugErrorModel::UnknownStatement(Seq::empty()),
    {
        DebugAccessParseError::UnknownStatement(String::new())
    }
}

/// How a [`DebugAccessParseError`] reads as text.
pub open spec fn debug_error_text(e: DebugErrorModel) -> Seq<char> {
    match e {
        DebugErrorModel::MissingAttribute(m) => "missing attribute: "@ + m,
        DebugErrorModel::UnknownStatement(n) => "unknown statement: "@ + n,
    }
}

impl DebugAccessParseError {
    /// The error as text, e.g. `unknown statement: GetBase`.
    pub fn to_string(&self) -> (r: String)
        ensures
            r@ == debug_error_text(self@),
    {
        match self {
            DebugAccessParseError::MissingAttribute(m) => {
                let mut out = "missing attribute: ".to_owned();
                out.append(m.as_str());
                out
            },
            DebugAccessParseError::UnknownStatement(n) => {
                let mut out = "unknown statement: ".to_owned();
                out.append(n.as_str());
                out
            },
        }
    }
}

/// A [PDSC Debug Access](https://open-cmsis-pack.github.io/Open-CMSIS-Pack-Spec/main/html/pdsc_family_pg.html#block_DebugSyntaxRules)
/// statement.
#[derive(Debug, PartialEq, Eq)]
pub enum Statement {
    /// A sole expression, e.g. `expression;`
    Expression(Expression),
    /// A variable assignment, e.g. `variable = expression;`
    Assignment(Assignment),
    /// A variable definition, e.g. `__var variable = 0;`
    Definition(Assignment),
    /// Comment, e.g. `// This is a comment`
    Comment(String),
}

/// A variable assignment, e.g. `variable = expression;`
#[derive(Debug, PartialEq, Eq)]
pub struct Assignment {
    pub variable: String,
    pub expression: Expression,
}

/// A [PDSC Expression](https://open-cmsis-pack.github.io/Open-CMSIS-Pack-Spec/main/html/pdsc_family_pg.html#block_ExpressionType)
#[derive(Debug, PartialEq, Eq)]
pub enum Expression {
    /// An arithmetic, bitwise, or comparison expression, e.g. `2 + 2`, `reg & 0xFF`, `x == 1`, or a bare variable reference
    Normal(String),
    /// An inline if, e.g. `(x < y) ? a : b`.
    ///
    /// Nested conditionals, e.g. `(x < y) ? ( (a < b) ? c : d ) : e`, are not
    /// recognised as such.
    Conditional(Box<Conditional>),
    /// A call to a predefined [PDSC debug access function](https://open-cmsis-pack.github.io/Open-CMSIS-Pack-Spec/main/html/debug_description.html#DebugFunctions),
    /// e.g. `Read32(0x40000000)` or `Sequence("ResetAndHalt")`
    FunctionCall(Box<DebugFunction>),
}

/// An inline if, e.g. `(x < y) ? a : b`.
#[derive(Debug, PartialEq, Eq)]
pub struct Conditional {
    /// The conditional part, `(x < y) ? a : b -> x < y`
    pub condition: Expression,
    /// The value when the conditional evaluates to true, `(x < y) ? a : b -> a`
    pub true_value: Expression,
    /// The value when the conditional evaluates to false, `(x < y) ? a : b -> b`
    pub false_value: Expression,
}

/// A predefined [PDSC debug access function](https://open-cmsis-pack.github.io/Open-CMSIS-Pack-Spec/main/html/debug_description.html#DebugFunctions)
/// with its arguments.
#[derive(Debug, PartialEq, Eq)]
pub enum DebugFunction {
    /// Read 8-bit value from target memory
    Read8 { addr: Expression },
    /// Read 16-bit value from target memory
    Read16 { addr: Expression },
    /// Read 32-bit value from target memory
    Read32 { addr: Expression },
    /// Read 64-bit value from target memory
    Read64 { addr: Expression },
    /// Write 8-bit value to target memory
    Write8 { addr: Expression, val: Expression },
    /// Write 16-bit value to target memory
    Write16 { addr: Expression, val: Expression },
    /// Write 32-bit value to target memory
    Write32 { addr: Expression, val: Expression },
    /// Write 64-bit value to target memory
    Write64 { addr: Expression, val: Expression },
    /// Read access port register
    ReadAP { addr: Expression },
    /// Write access port register
    WriteAP { addr: Expression, val: Expression },
    /// Read debug port register
    ReadDP { addr: Expression },
    /// Write debug port register
    WriteDP { addr: Expression, val: Expression },
    /// APv2/ADIv6 access port read
    ReadAccessAP { addr: Expression },
    /// APv2/ADIv6 access port write
    WriteAccessAP { addr: Expression, val: Expression },
    /// Wait for a specific delay (microseconds)
    DapDelay { delay: Expression },
    /// Write abort request to CoreSight register
    DapWriteAbort { value: Expression },
    /// Monitor and control debugger I/O pins
    DapSwjPins { pinout: Expression, pinselect: Expression, pinwait: Expression },
    /// Set JTAG/SWD clock frequency (Hz)
    DapSwjClock { val: Expression },
    /// Generate SWJ sequences
    DapSwjSequence { cnt: Expression, val: Expression },
    /// Generate JTAG sequences
    DapJtagSequence { cnt: Expression, tms: Expression, tdi: Expression },
    /// Execute a debug access sequence by name
    Sequence { name: Expression },
    /// Prompt user for confirmation or selection
    Query { query_type: Expression, message: Expression, default: Expression },
    /// Query an input value from the user
    QueryValue { message: Expression, default: Expression },
    /// Output a formatted message to the debug log (variadic: `msg_type`, `format`, then optional extra args)
    Message { msg_type: Expression, format: Expression, args: Vec<Expression> },
    /// Write flash buffer contents into target memory
    FlashWriteBuffer { addr: Expression, offs: Expression, len: Expression, mode: Expression },
    /// Select FLM flash algorithm for operations
    FlashLoadAlgorithm { algo_path: Expression, ram_start: Expression, ram_size: Expression },
    /// Fill buffer with a value pattern
    BufferSet { buff_id: Expression, buff_offset: Expression, count: Expression, size: Expression, value: Expression },
    /// Retrieve an item from a buffer
    BufferGet { buff_id: Expression, buff_offset: Expression, size: Expression },
    /// Get current buffer size in bytes
    BufferSize { buff_id: Expression },
    /// Read target data into a buffer
    BufferRead { buff_id: Expression, buff_offset: Expression, addr: Expression, length: Expression, mode: Expression },
    /// Transfer buffer data to target
    BufferWrite { buff_id: Expression, buff_offset: Expression, addr: Expression, length: Expression, mode: Expression },
    /// Stream data from an external source into a buffer
    BufferStreamIn { buff_id: Expression, buff_offset: Expression, length: Expression, path: Expression, mode: Expression, timeout: Expression },
    /// Transfer buffer data to an external sink
    BufferStreamOut { buff_id: Expression, buff_offset: Expression, length: Expression, dest_path: Expression, dest_mode: Expression, timeout: Expression },
    /// Execute an external application
    RunApplication { app_path: Expression, arguments: Expression, work_directory: Expression, timeout: Expression },
    /// Run a Python script on the host system
    RunPythonScript { script_path: Expression, arguments: Expression, work_directory: Expression, timeout: Expression },
    /// Check if a path exists on the host filesystem
    FilePathExists { path: Expression, timeout: Expression },
    /// Load DWARF debug information
    LoadDebugInfo { file: Expression },
}

/// The value of an [`Expression`]: text as characters, and a function call as
/// its name and the values of its arguments in order.
pub enum ExpressionModel {
    Normal(Seq<char>),
    Conditional(Box<ExpressionModel>, Box<ExpressionModel>, Box<ExpressionModel>),
    FunctionCall(Seq<char>, Seq<ExpressionModel>),
}

/// The value of a [`Statement`].
pub enum StatementModel {
    Expression(ExpressionModel),
    Assignment(Seq<char>, ExpressionModel),
    Definition(Seq<char>, ExpressionModel),
    Comment(Seq<char>),
}

/// The name under which a debug function is called and printed.
pub open spec fn function_name(f: DebugFunction) -> Seq<char> {
    match f {
        DebugFunction::Read8 { .. } => "Read8"@,
        DebugFunction::Read16 { .. } => "Read16"@,
        DebugFunction::Read32 { .. } => "Read32"@,
        DebugFunction::Read64 { .. } => "Read64"@,
        DebugFunction::Write8 { .. } => "Write8"@,
        DebugFunction::Write16 { .. } => "Write16"@,
        DebugFunction::Write32 { .. } => "Write32"@,
        DebugFunction::Write64 { .. } => "Write64"@,
        DebugFunction::ReadAP { .. } => "ReadAP"@,
        DebugFunction::WriteAP { .. } => "WriteAP"@,
        DebugFunction::ReadDP { .. } => "ReadDP"@,
        DebugFunction::WriteDP { .. } => "WriteDP"@,
        DebugFunction::ReadAccessAP { .. } => "ReadAccessAP"@,
        DebugFunction::WriteAccessAP { .. } => "WriteAccessAP"@,
        DebugFunction::DapDelay { .. } => "DAP_Delay"@,
        DebugFunction::DapWriteAbort { .. } => "DAP_WriteABORT"@,
        DebugFunction::DapSwjPins { .. } => "DAP_SWJ_Pins"@,
        DebugFunction::DapSwjClock { .. } => "DAP_SWJ_Clock"@,
        DebugFunction::DapSwjSequence { .. } => "DAP_SWJ_Sequence"@,
        DebugFunction::DapJtagSequence { .. } => "DAP_JTAG_Sequence"@,
        DebugFunction::Sequence { .. } => "Sequence"@,
        DebugFunction::Query { .. } => "Query"@,
        DebugFunction::QueryValue { .. } => "QueryValue"@,
        DebugFunction::Message { .. } => "Message"@,
        DebugFunction::FlashWriteBuffer { .. } => "FlashWriteBuffer"@,
        DebugFunction::FlashLoadAlgorithm { .. } => "FlashLoadAlgorithm"@,
        DebugFunction::BufferSet { .. } => "BufferSet"@,
        DebugFunction::BufferGet { .. } => "BufferGet"@,
        DebugFunction::BufferSize { .. } => "BufferSize"@,
        DebugFunction::BufferRead { .. } => "BufferRead"@,
        DebugFunction::BufferWrite { .. } => "BufferWrite"@,
        DebugFunction::BufferStreamIn { .. } => "BufferStreamIn"@,
        DebugFunction::BufferStreamOut { .. } => "BufferStreamOut"@,
        DebugFunction::RunApplication { .. } => "RunApplication"@,
        DebugFunction::RunPythonScript { .. } => "RunPythonScript"@,
        DebugFunction::FilePathExists { .. } => "FilePathExists"@,
        DebugFunction::LoadDebugInfo { .. } => "LoadDebugInfo"@,
    }
}

/// The value of an expression.
pub open spec fn expression_model(e: Expression) -> ExpressionModel
    decreases e,
{
    match e {
        Expression::Normal(s) => ExpressionModel::Normal(s@),
        Expression::Conditional(c) => ExpressionModel::Conditional(
            Box::new(expression_model(c.condition)),
            Box::new(expression_model(c.true_value)),
            Box::new(expression_model(c.false_value)),
        ),
        Expression::FunctionCall(f) => ExpressionModel::FunctionCall(
            function_name(*f),
            function_args(*f),
        ),
    }
}

/// The values of a debug function's arguments, in the order in which they
/// are written.
pub open spec fn function_args(f: DebugFunction) -> Seq<ExpressionModel>
    decreases f,
{
    match f {
        DebugFunction::Read8 { addr } => seq![expression_model(addr)],
        DebugFunction::Read16 { addr } => seq![expression_model(addr)],
        DebugFunction::Read32 { addr } => seq![expression_model(addr)],
        DebugFunction::Read64 { addr } => seq![expression_model(addr)],
        DebugFunction::Write8 { addr, val } => seq![expression_model(addr), expression_model(val)],
        DebugFunction::Write16 { addr, val } => seq![expression_model(addr), expression_model(val)],
        DebugFunction::Write32 { addr, val } => seq![expression_model(addr), expression_model(val)],
        DebugFunction::Write64 { addr, val } => seq![expression_model(addr), expression_model(val)],
        DebugFunction::ReadAP { addr } => seq![expression_model(addr)],
        DebugFunction::WriteAP { addr, val } => seq![expression_model(addr), expression_model(val)],
        DebugFunction::ReadDP { addr } => seq![expression_model(addr)],
        DebugFunction::WriteDP { addr, val } => seq![expression_model(addr), expression_model(val)],
        DebugFunction::ReadAccessAP { addr } => seq![expression_model(addr)],
        DebugFunction::WriteAccessAP { addr, val } => seq![expression_model(addr), expression_model(val)],
        DebugFunction::DapDelay { delay } => seq![expression_model(delay)],
        DebugFunction::DapWriteAbort { value } => seq![expression_model(value)],
        DebugFunction::DapSwjPins { pinout, pinselect, pinwait } => seq![expression_model(pinout), expression_model(pinselect), expression_model(pinwait)],
        DebugFunction::DapSwjClock { val } => seq![expression_model(val)],
        DebugFunction::DapSwjSequence { cnt, val } => seq![expression_model(cnt), expression_model(val)],
        DebugFunction::DapJtagSequence { cnt, tms, tdi } => seq![expression_model(cnt), expression_model(tms), expression_model(tdi)],
        DebugFunction::Sequence { name } => seq![expression_model(name)],
        DebugFunction::Query { query_type, message, default } => seq![expression_model(query_type), expression_model(message), expression_model(default)],
        DebugFunction::QueryValue { message, default } => seq![expression_model(message), expression_model(default)],
        DebugFunction::Message { msg_type, format, args } => seq![
            expression_model(msg_type),
            expression_model(format),
        ] + Seq::new(
            args.len() as nat,
            |i: int|
                if 0 <= i < args.len() {
                    expression_model(args@[i])
                } else {
                    ExpressionModel::Normal(Seq::empty())
                },
        ),
        DebugFunction::FlashWriteBuffer { addr, offs, len, mode } => seq![expression_model(addr), expression_model(offs), expression_model(len), expression_model(mode)],
        DebugFunction::FlashLoadAlgorithm { algo_path, ram_start, ram_size } => seq![expression_model(algo_path), expression_model(ram_start), expression_model(ram_size)],
        DebugFunction::BufferSet { buff_id, buff_offset, count, size, value } => seq![expression_model(buff_id), expression_model(buff_offset), expression_model(count), expression_model(size), expression_model(value)],
        DebugFunction::BufferGet { buff_id, buff_offset, size } => seq![expression_model(buff_id), expression_model(buff_offset), expression_model(size)],
        DebugFunction::BufferSize { buff_id } => seq![expression_model(buff_id)],
        DebugFunction::BufferRead { buff_id, buff_offset, addr, length, mode } => seq![expression_model(buff_id), expression_model(buff_offset), expression_model(addr), expression_model(length), expression_model(mode)],
        DebugFunction::BufferWrite { buff_id, buff_offset, addr, length, mode } => seq![expression_model(buff_id), expression_model(buff_offset), expression_model(addr), expression_model(length), expression_model(mode)],
        DebugFunction::BufferStreamIn { buff_id, buff_offset, length, path, mode, timeout } => seq![expression_model(buff_id), expression_model(buff_offset), expression_model(length), expression_model(path), expression_model(mode), expression_model(timeout)],
        DebugFunction::BufferStreamOut { buff_id, buff_offset, length, dest_path, dest_mode, timeout } => seq![expression_model(buff_id), expression_model(buff_offset), expression_model(length), expression_model(dest_path), expression_model(dest_mode), expression_model(timeout)],
        DebugFunction::RunApplication { app_path, arguments, work_directory, timeout } => seq![expression_model(app_path), expression_model(arguments), expression_model(work_directory), expression_model(timeout)],
        DebugFunction::RunPythonScript { script_path, arguments, work_directory, timeout } => seq![expression_model(script_path), expression_model(arguments), expression_model(work_directory), expression_model(timeout)],
        DebugFunction::FilePathExists { path, timeout } => seq![expression_model(path), expression_model(timeout)],
        DebugFunction::LoadDebugInfo { file } => seq![expression_model(file)],
    }
}

/// The values of a sequence of expressions.
pub open spec fn expressions_model(es: Seq<Expression>) -> Seq<ExpressionModel> {
    Seq::new(es.len(), |i: int| expression_model(es[i]))
}

impl View for Expression {
    type V = ExpressionModel;

    open spec fn view(&self) -> ExpressionModel {
        expression_model(*self)
    }
}

impl View for Conditional {
    type V = ExpressionModel;

    open spec fn view(&self) -> ExpressionModel {
        ExpressionModel::Conditional(
            Box::new(self.condition@),
            Box::new(self.true_value@),
            Box::new(self.false_value@),
        )
    }
}

impl View for DebugFunction {
    type V = (Seq<char>, Seq<ExpressionModel>);

    open spec fn view(&self) -> (Seq<char>, Seq<ExpressionModel>) {
        (function_name(*self), function_args(*self))
    }
}

impl View for Assignment {
    type V = (Seq<char>, ExpressionModel);

    open spec fn view(&self) -> (Seq<char>, ExpressionModel) {
        (self.variable@, self.expression@)
    }
}

impl View for Statement {
    type V = StatementModel;

    open spec fn view(&self) -> StatementModel {
        match self {
            Statement::Expression(e) => StatementModel::Expression(e@),
            Statement::Assignment(a) => StatementModel::Assignment(a.variable@, a.expression@),
            Statement::Definition(a) => StatementModel::Definition(a.variable@, a.expression@),
            Statement::Comment(c) => StatementModel::Comment(c@),
        }
    }
}

impl Default for Statement {
    fn default() -> (r: Self)
        ensures
            r@ == StatementModel::Comment(Seq::empty()),
    {
        Statement::Comment(String::new())
    }
}

impl Default for Expression {
    fn default() -> (r: Self)
        ensures
            r@ == ExpressionModel::Normal(Seq::empty()),
    {
        Expression::Normal(String::new())
    }
}

impl Default for Assignment {
    fn default() -> (r: Self)
        ensures
            r@ == (Seq::<char>::empty(), ExpressionModel::Normal(Seq::empty())),
    {
        Assignment { variable: String::new(), expression: Expression::Normal(String::new()) }
    }
}

impl Default for Conditional {
    fn default() -> (r: Self)
        ensures
            r.condition@ == ExpressionModel::Normal(Seq::empty()),
            r.true_value@ == ExpressionModel::Normal(Seq::empty()),
            r.false_value@ == ExpressionModel::Normal(Seq::empty()),
    {
        Conditional {
            condition: Expression::Normal(String::new()),
            true_value: Expression::Normal(String::new()),
            false_value: Expression::Normal(String::new()),
        }
    }
}

impl Default for DebugFunction {
    fn default() -> (r: Self)
        ensures
            r@ == ("DAP_Delay"@, seq![ExpressionModel::Normal("0"@)]),
    {
        DebugFunction::DapDelay { delay: Expression::Normal("0".to_owned()) }
    }
}

// ---------------------------------------------------------------------------
// Writing expressions back as text.

/// `texts` joined with `", "` between neighbours.
pub open spec fn join_args(texts: Seq<Seq<char>>) -> Seq<char>
    decreases texts.len(),
{
    if texts.len() == 0 {
        Seq::empty()
    } else if texts.len() == 1 {
        texts[0]
    } else {
        join_args(texts.drop_last()) + ", "@ + texts.last()
    }
}

/// How an expression is written: text as it is, a conditional as
/// `(c) ? a : b`, and a call as `Name(arg1, arg2)`.
pub open spec fn expression_text(m: ExpressionModel) -> Seq<char>
    decreases m,
{
    match m {
        ExpressionModel::Normal(s) => s,
        ExpressionModel::Conditional(c, t, f) => "("@ + expression_text(*c) + ") ? "@
            + expression_text(*t) + " : "@ + expression_text(*f),
        ExpressionModel::FunctionCall(name, args) => name + "("@ + join_args(argument_texts(args))
            + ")"@,
    }
}

/// The texts of the arguments of a call, in order.
pub open spec fn argument_texts(args: Seq<ExpressionModel>) -> Seq<Seq<char>>
    decreases args,
{
    Seq::new(
        args.len(),
        |i: int|
            if 0 <= i < args.len() {
                expression_text(args[i])
            } else {
                Seq::empty()
            },
    )
}

impl DebugFunction {
    /// The name under which this function is called, e.g. `DAP_Delay`.
    pub fn name(&self) -> (r: &'static str)
        ensures
            r@ == function_name(*self),
    {
        match self {
            DebugFunction::Read8 { .. } => "Read8",
            DebugFunction::Read16 { .. } => "Read16",
            DebugFunction::Read32 { .. } => "Read32",
            DebugFunction::Read64 { .. } => "Read64",
            DebugFunction::Write8 { .. } => "Write8",
            DebugFunction::Write16 { .. } => "Write16",
            DebugFunction::Write32 { .. } => "Write32",
            DebugFunction::Write64 { .. } => "Write64",
            DebugFunction::ReadAP { .. } => "ReadAP",
            DebugFunction::WriteAP { .. } => "WriteAP",
            DebugFunction::ReadDP { .. } => "ReadDP",
            DebugFunction::WriteDP { .. } => "WriteDP",
            DebugFunction::ReadAccessAP { .. } => "ReadAccessAP",
            DebugFunction::WriteAccessAP { .. } => "WriteAccessAP",
            DebugFunction::DapDelay { .. } => "DAP_Delay",
            DebugFunction::DapWriteAbort { .. } => "DAP_WriteABORT",
            DebugFunction::DapSwjPins { .. } => "DAP_SWJ_Pins",
            DebugFunction::DapSwjClock { .. } => "DAP_SWJ_Clock",
            DebugFunction::DapSwjSequence { .. } => "DAP_SWJ_Sequence",
            DebugFunction::DapJtagSequence { .. } => "DAP_JTAG_Sequence",
            DebugFunction::Sequence { .. } => "Sequence",
            DebugFunction::Query { .. } => "Query",
            DebugFunction::QueryValue { .. } => "QueryValue",
            DebugFunction::Message { .. } => "Message",
            DebugFunction::FlashWriteBuffer { .. } => "FlashWriteBuffer",
            DebugFunction::FlashLoadAlgorithm { .. } => "FlashLoadAlgorithm",
            DebugFunction::BufferSet { .. } => "BufferSet",
            DebugFunction::BufferGet { .. } => "BufferGet",
            DebugFunction::BufferSize { .. } => "BufferSize",
            DebugFunction::BufferRead { .. } => "BufferRead",
            DebugFunction::BufferWrite { .. } => "BufferWrite",
            DebugFunction::BufferStreamIn { .. } => "BufferStreamIn",
            DebugFunction::BufferStreamOut { .. } => "BufferStreamOut",
            DebugFunction::RunApplication { .. } => "RunApplication",
            DebugFunction::RunPythonScript { .. } => "RunPythonScript",
            DebugFunction::FilePathExists { .. } => "FilePathExists",
            DebugFunction::LoadDebugInfo { .. } => "LoadDebugInfo",
        }
    }

    /// References to the arguments, in the order in which they are written.
    fn argument_refs(&self) -> (r: Vec<&Expression>)
        ensures
            r@.len() == function_args(*self).len(),
            forall|i: int| 0 <= i < r@.len() ==> (#[trigger] r@[i])@ == function_args(*self)[i],
    {
        match self {
            DebugFunction::Read8 { addr } => vec![addr],
            DebugFunction::Read16 { addr } => vec![addr],
            DebugFunction::Read32 { addr } => vec![addr],
            DebugFunction::Read64 { addr } => vec![addr],
            DebugFunction::Write8 { addr, val } => vec![addr, val],
            DebugFunction::Write16 { addr, val } => vec![addr, val],
            DebugFunction::Write32 { addr, val } => vec![addr, val],
            DebugFunction::Write64 { addr, val } => vec![addr, val],
            DebugFunction::ReadAP { addr } => vec![addr],
            DebugFunction::WriteAP { addr, val } => vec![addr, val],
            DebugFunction::ReadDP { addr } => vec![addr],
            DebugFunction::WriteDP { addr, val } => vec![addr, val],
            DebugFunction::ReadAccessAP { addr } => vec![addr],
            DebugFunction::WriteAccessAP { addr, val } => vec![addr, val],
            DebugFunction::DapDelay { delay } => vec![delay],
            DebugFunction::DapWriteAbort { value } => vec![value],
            DebugFunction::DapSwjPins { pinout, pinselect, pinwait } => vec![pinout, pinselect, pinwait],
            DebugFunction::DapSwjClock { val } => vec![val],
            DebugFunction::DapSwjSequence { cnt, val } => vec![cnt, val],
            DebugFunction::DapJtagSequence { cnt, tms, tdi } => vec![cnt, tms, tdi],
            DebugFunction::Sequence { name } => vec![name],
            DebugFunction::Query { query_type, message, default } => vec![query_type, message, default],
            DebugFunction::QueryValue { message, default } => vec![message, default],
            DebugFunction::Message { msg_type, format, args } => {
                let mut r: Vec<&Expression> = Vec::new();
                r.push(msg_type);
                r.push(format);
                let mut i: usize = 0;
                while i < args.len()
                    invariant
                        i <= args@.len(),
                        r@.len() == i + 2,
                        r@[0]@ == expression_model(*msg_type),
                        r@[1]@ == expression_model(*format),
                        forall|j: int| 0 <= j < i ==> (#[trigger] r@[j + 2])@ == expression_model(args@[j]),
                    decreases args@.len() - i,
                {
                    r.push(&args[i]);
                    i = i + 1;
                }
                proof {
                    let fa = function_args(*self);
                    assert forall|j: int| 0 <= j < r@.len() implies (#[trigger] r@[j])@ == fa[j] by {
                        if j >= 2 {
                            assert(r@[(j - 2) + 2]@ == expression_model(args@[j - 2]));
                        }
                    }
                }
                r
            },
            DebugFunction::FlashWriteBuffer { addr, offs, len, mode } => vec![addr, offs, len, mode],
            DebugFunction::FlashLoadAlgorithm { algo_path, ram_start, ram_size } => vec![algo_path, ram_start, ram_size],
            DebugFunction::BufferSet { buff_id, buff_offset, count, size, value } => vec![buff_id, buff_offset, count, size, value],
            DebugFunction::BufferGet { buff_id, buff_offset, size } => vec![buff_id, buff_offset, size],
            DebugFunction::BufferSize { buff_id } => vec![buff_id],
            DebugFunction::BufferRead { buff_id, buff_offset, addr, length, mode } => vec![buff_id, buff_offset, addr, length, mode],
            DebugFunction::BufferWrite { buff_id, buff_offset, addr, length, mode } => vec![buff_id, buff_offset, addr, length, mode],
            DebugFunction::BufferStreamIn { buff_id, buff_offset, length, path, mode, timeout } => vec![buff_id, buff_offset, length, path, mode, timeout],
            DebugFunction::BufferStreamOut { buff_id, buff_offset, length, dest_path, dest_mode, timeout } => vec![buff_id, buff_offset, length, dest_path, dest_mode, timeout],
            DebugFunction::RunApplication { app_path, arguments, work_directory, timeout } => vec![app_path, arguments, work_directory, timeout],
            DebugFunction::RunPythonScript { script_path, arguments, work_directory, timeout } => vec![script_path, arguments, work_directory, timeout],
            DebugFunction::FilePathExists { path, timeout } => vec![path, timeout],
            DebugFunction::LoadDebugInfo { file } => vec![file],
        }
    }

    /// The call as text, e.g. `Write32(addr, Read32(base))`.
    pub fn to_string(&self) -> (r: String)
        ensures
            r@ == function_name(*self) + "("@ + join_args(argument_texts(function_args(*self)))
                + ")"@,
    {
        let mut out = String::new();
        write_function(
            self,
            &mut out,
            Ghost(ExpressionModel::FunctionCall(function_name(*self), function_args(*self))),
        );
        out
    }
}

/// Appends the text of `f` to `out`; `parent` is the call that `f` stands
/// for, which bounds the recursion.
fn write_function(f: &DebugFunction, out: &mut String, parent: Ghost<ExpressionModel>)
    requires
        parent@ == ExpressionModel::FunctionCall(function_name(*f), function_args(*f)),
    ensures
        final(out)@ == old(out)@ + expression_text(parent@),
    decreases parent@, 0nat,
{
    let ghost start = old(out)@;
    let args = f.argument_refs();
    let ghost fa = function_args(*f);
    let ghost texts = argument_texts(fa);
    out.append(f.name());
    out.append("(");
    let mut i: usize = 0;
    while i < args.len()
        invariant
            i <= args@.len(),
            args@.len() == fa.len(),
            forall|j: int| 0 <= j < args@.len() ==> (#[trigger] args@[j])@ == fa[j],
            parent@ == ExpressionModel::FunctionCall(function_name(*f), fa),
            texts == argument_texts(fa),
            out@ == start + function_name(*f) + "("@ + join_args(texts.take(i as int)),
        decreases args@.len() - i,
    {
        if i > 0 {
            out.append(", ");
        }
        proof {
            let p = parent@;
            assert(decreases_to!(p => p->FunctionCall_1[i as int]));
        }
        write_expression(args[i], out);
        proof {
            let t = texts.take(i + 1);
            assert(t.drop_last() =~= texts.take(i as int));
            assert(t.last() == expression_text(fa[i as int]));
            if i == 0 {
                assert(join_args(t) == t[0]);
            }
            assert(join_args(t) == (if i == 0 { expression_text(fa[i as int]) } else {
                join_args(texts.take(i as int)) + ", "@ + expression_text(fa[i as int])
            }));
            assert(out@ =~= start + function_name(*f) + "("@ + join_args(t));
        }
        i = i + 1;
    }
    out.append(")");
    proof {
        assert(texts.take(i as int) =~= texts);
        assert(out@ =~= start + expression_text(parent@));
    }
}

/// Appends the text of `e` to `out`.
fn write_expression(e: &Expression, out: &mut String)
    ensures
        final(out)@ == old(out)@ + expression_text(e@),
    decreases e@, 1nat,
{
    let ghost start = old(out)@;
    match e {
        Expression::Normal(s) => {
            out.append(s.as_str());
        },
        Expression::Conditional(c) => {
            proof {
                let p = e@;
                assert(p == ExpressionModel::Conditional(
                    Box::new(c.condition@),
                    Box::new(c.true_value@),
                    Box::new(c.false_value@),
                ));
                assert(decreases_to!(p => *p->Conditional_0));
                assert(decreases_to!(p => *p->Conditional_1));
                assert(decreases_to!(p => *p->Conditional_2));
            }
            out.append("(");
            write_expression(&c.condition, out);
            out.append(") ? ");
            write_expression(&c.true_value, out);
            out.append(" : ");
            write_expression(&c.false_value, out);
            assert(out@ =~= start + expression_text(e@));
        },
        Expression::FunctionCall(f) => {
            write_function(f, out, Ghost(e@));
        },
    }
}

impl Expression {
    /// The expression as text: the inverse of parsing for the forms the
    /// parser produces.
    pub fn to_string(&self) -> (r: String)
        ensures
            r@ == expression_text(self@),
    {
        let mut out = String::new();
        write_expression(self, &mut out);
        out
    }
}

impl Conditional {
    /// The conditional as text, `(condition) ? true_value : false_value`.
    pub fn to_string(&self) -> (r: String)
        ensures
            r@ == expression_text(self@),
    {
        let mut out = String::new();
        out.append("(");
        write_expression(&self.condition, &mut out);
        out.append(") ? ");
        write_expression(&self.true_value, &mut out);
        out.append(" : ");
        write_expression(&self.false_value, &mut out);
        assert(out@ =~= expression_text(self@));
        out
    }
}

// ---------------------------------------------------------------------------
// Reading expressions from text.

/// The nesting depth of parentheses after reading `s`, kept as a 32-bit
/// unsigned counter that wraps around (a `)` with nothing open wraps below
/// zero).
pub open spec fn paren_depth(s: Seq<char>) -> int
    decreases s.len(),
{
    if s.len() == 0 {
        0
    } else {
        let d = paren_depth(s.drop_last());
        if s.last() == '(' {
            (d + 1) % 0x1_0000_0000
        } else if s.last() == ')' {
            (d + 0xFFFF_FFFF) % 0x1_0000_0000
        } else {
            d
        }
    }
}

/// Whether `s[i]` is a comma outside all parentheses.
pub open spec fn is_top_level_comma(s: Seq<char>, i: int) -> bool {
    s[i] == ',' && paren_depth(s.take(i)) == 0
}

/// The positions below `k` of the commas of `s` outside all parentheses, in
/// increasing order.
pub open spec fn top_level_commas(s: Seq<char>, k: int) -> Seq<int>
    decreases k,
{
    if k <= 0 {
        Seq::empty()
    } else {
        let c = top_level_commas(s, k - 1);
        if is_top_level_comma(s, k - 1) {
            c.push(k - 1)
        } else {
            c
        }
    }
}

/// The `k`-th piece of `s` when it is cut at the commas `cs`.
pub open spec fn argument_segment(s: Seq<char>, cs: Seq<int>, k: int) -> Seq<char> {
    let start = if k == 0 {
        0
    } else {
        cs[k - 1] + 1
    };
    let end = if k == cs.len() {
        s.len() as int
    } else {
        cs[k]
    };
    s.subrange(start, end)
}

/// The arguments of a call, from the text between its outer parentheses:
/// the pieces between commas outside parentheses, trimmed; none when the text
/// is blank, and without the last piece when that one is empty.
pub open spec fn split_args(s: Seq<char>) -> Seq<Seq<char>> {
    let cs = top_level_commas(s, s.len() as int);
    let pieces = Seq::new((cs.len() + 1) as nat, |k: int| trim(argument_segment(s, cs, k)));
    if trim(s).len() == 0 {
        Seq::empty()
    } else if pieces.last().len() == 0 {
        pieces.drop_last()
    } else {
        pieces
    }
}

/// Whether `s` is a name: a letter or `_`, then letters, digits or `_`.
pub open spec fn is_identifier(s: Seq<char>) -> bool {
    &&& s.len() > 0
    &&& (alphabetic(s[0]) || s[0] == '_')
    &&& forall|i: int| 1 <= i < s.len() ==> (alphanumeric(#[trigger] s[i]) || s[i] == '_')
}

/// The nesting depth of parentheses after reading `s`, counted without
/// bound: each `(` opens one level, each `)` closes one.
pub open spec fn nest_depth(s: Seq<char>) -> int
    decreases s.len(),
{
    if s.len() == 0 {
        0
    } else {
        let d = nest_depth(s.drop_last());
        if s.last() == '(' {
            d + 1
        } else if s.last() == ')' {
            d - 1
        } else {
            d
        }
    }
}

/// Whether the parentheses of `s` match: no `)` closes more than was opened
/// before it, and all that were opened are closed at the end.
pub open spec fn balanced(s: Seq<char>) -> bool {
    &&& nest_depth(s) == 0
    &&& forall|k: int| 0 <= k <= s.len() ==> nest_depth(#[trigger] s.take(k)) >= 0
}

/// Text without parentheses has matching parentheses.
proof fn lemma_balanced_without_parens(s: Seq<char>)
    requires
        forall|i: int| 0 <= i < s.len() ==> s[i] != '(' && s[i] != ')',
    ensures
        balanced(s),
{
    assert forall|k: int| 0 <= k <= s.len() implies nest_depth(#[trigger] s.take(k)) == 0 by {
        lemma_depth_without_parens(s, k);
    }
    assert(s.take(s.len() as int) =~= s);
}

proof fn lemma_depth_without_parens(s: Seq<char>, k: int)
    requires
        forall|i: int| 0 <= i < s.len() ==> s[i] != '(' && s[i] != ')',
        0 <= k <= s.len(),
    ensures
        nest_depth(s.take(k)) == 0,
    decreases k,
{
    if k > 0 {
        assert(s.take(k).drop_last() =~= s.take(k - 1));
        lemma_depth_without_parens(s, k - 1);
    }
}

/// Whether `v[lo..hi]` has matching parentheses, as [`balanced`] says.
fn parens_balanced(v: &Vec<char>, lo: usize, hi: usize) -> (r: bool)
    requires
        lo <= hi <= v@.len(),
    ensures
        r == balanced(v@.subrange(lo as int, hi as int)),
{
    let ghost s = v@.subrange(lo as int, hi as int);
    let mut depth: usize = 0;
    let mut i = lo;
    while i < hi
        invariant
            lo <= i <= hi <= v@.len(),
            s == v@.subrange(lo as int, hi as int),
            depth == nest_depth(s.take(i - lo)),
            depth <= i - lo,
            forall|k: int| 0 <= k <= i - lo ==> nest_depth(#[trigger] s.take(k)) >= 0,
        decreases hi - i,
    {
        assert(s.take(i - lo + 1).drop_last() =~= s.take(i - lo));
        assert(s.take(i - lo + 1).last() == v@[i as int]);
        if v[i] == '(' {
            depth = depth + 1;
        } else if v[i] == ')' {
            if depth == 0 {
                assert(nest_depth(s.take(i - lo + 1)) < 0);
                return false;
            }
            depth = depth - 1;
        }
        i = i + 1;
    }
    assert(s.take(s.len() as int) =~= s);
    depth == 0
}

/// Where the argument list of `s` opens, when `s` reads as `name(...)`: it
/// ends with `)`, the text before its first `(` is a name, and that `(`
/// closes at the final `)`: the parentheses between them match.
pub open spec fn call_paren(s: Seq<char>) -> Option<int> {
    if s.len() > 0 && s.last() == ')' {
        match find_from(s, '(', 0) {
            Some(p) => if is_identifier(s.take(p)) && balanced(s.subrange(p + 1, s.len() - 1)) {
                Some(p)
            } else {
                None
            },
            None => None,
        }
    } else {
        None
    }
}

/// The positions `(p, q, r, t, u)` that frame `(condition) ? truthy : falsy`
/// in `s`: the first `(`, the first `)` after it, the first `?` after that, the
/// first `:` after that, and the first `;` after that or the end; the falsy
/// part must not be empty.
pub open spec fn conditional_parts(s: Seq<char>) -> Option<(int, int, int, int, int)> {
    match find_from(s, '(', 0) {
        None => None,
        Some(p) => match find_from(s, ')', p + 1) {
            None => None,
            Some(q) => match find_from(s, '?', q + 1) {
                None => None,
                Some(r) => match find_from(s, ':', r + 1) {
                    None => None,
                    Some(t) => {
                        let u = match find_from(s, ';', t + 1) {
                            Some(u) => u,
                            None => s.len() as int,
                        };
                        if u > t + 1 {
                            Some((p, q, r, t, u))
                        } else {
                            None
                        }
                    },
                },
            },
        },
    }
}

/// The message of the error for text that is no conditional.
pub open spec fn conditional_syntax_message() -> Seq<char> {
    "conditional syntax: expected '(condition) ? truthy : falsy'"@
}

/// How many arguments a debug function with a fixed argument count takes.
pub open spec fn function_arity(name: Seq<char>) -> Option<nat> {
    if name == "Read8"@ {
        Some(1)
    } else if name == "Read16"@ {
        Some(1)
    } else if name == "Read32"@ {
        Some(1)
    } else if name == "Read64"@ {
        Some(1)
    } else if name == "Write8"@ {
        Some(2)
    } else if name == "Write16"@ {
        Some(2)
    } else if name == "Write32"@ {
        Some(2)
    } else if name == "Write64"@ {
        Some(2)
    } else if name == "ReadAP"@ {
        Some(1)
    } else if name == "WriteAP"@ {
        Some(2)
    } else if name == "ReadDP"@ {
        Some(1)
    } else if name == "WriteDP"@ {
        Some(2)
    } else if name == "ReadAccessAP"@ {
        Some(1)
    } else if name == "WriteAccessAP"@ {
        Some(2)
    } else if name == "DAP_Delay"@ {
        Some(1)
    } else if name == "DAP_WriteABORT"@ {
        Some(1)
    } else if name == "DAP_SWJ_Pins"@ {
        Some(3)
    } else if name == "DAP_SWJ_Clock"@ {
        Some(1)
    } else if name == "DAP_SWJ_Sequence"@ {
        Some(2)
    } else if name == "DAP_JTAG_Sequence"@ {
        Some(3)
    } else if name == "Sequence"@ {
        Some(1)
    } else if name == "Query"@ {
        Some(3)
    } else if name == "QueryValue"@ {
        Some(2)
    } else if name == "FlashWriteBuffer"@ {
        Some(4)
    } else if name == "FlashLoadAlgorithm"@ {
        Some(3)
    } else if name == "BufferSet"@ {
        Some(5)
    } else if name == "BufferGet"@ {
        Some(3)
    } else if name == "BufferSize"@ {
        Some(1)
    } else if name == "BufferRead"@ {
        Some(5)
    } else if name == "BufferWrite"@ {
        Some(5)
    } else if name == "BufferStreamIn"@ {
        Some(6)
    } else if name == "BufferStreamOut"@ {
        Some(6)
    } else if name == "RunApplication"@ {
        Some(4)
    } else if name == "RunPythonScript"@ {
        Some(4)
    } else if name == "FilePathExists"@ {
        Some(2)
    } else if name == "LoadDebugInfo"@ {
        Some(1)
    } else {
        None
    }
}

/// The message of the error for a call with the wrong number of arguments.
pub open spec fn arity_message(name: Seq<char>, expected: nat, got: nat) -> Seq<char> {
    name + " expects "@ + decimal(expected) + (if expected == 1 {
        " argument, got "@
    } else {
        " arguments, got "@
    }) + decimal(got)
}

/// The debug function that a call of `name` with arguments `args` denotes,
/// as its name and arguments: `Message` takes two arguments or more, the
/// others exactly their own number, and any other name is unknown.
pub open spec fn function_from_call(name: Seq<char>, args: Seq<ExpressionModel>) -> Result<
    (Seq<char>, Seq<ExpressionModel>),
    DebugErrorModel,
> {
    if name == "Message"@ {
        if args.len() >= 2 {
            Ok((name, args))
        } else {
            Err(
                DebugErrorModel::MissingAttribute(
                    "Message expects at least 2 arguments, got "@ + decimal(args.len()),
                ),
            )
        }
    } else {
        match function_arity(name) {
            Some(n) => if args.len() == n {
                Ok((name, args))
            } else {
                Err(DebugErrorModel::MissingAttribute(arity_message(name, n, args.len())))
            },
            None => Err(DebugErrorModel::UnknownStatement(name)),
        }
    }
}

/// What an expression parses to: a conditional where the text has that
/// shape and its three parts parse, else a debug function call where the
/// text reads as `name(args)`, else the text itself.
pub open spec fn parse_expression(s: Seq<char>) -> Result<ExpressionModel, DebugErrorModel>
    decreases s.len(), 2nat, 0nat,
{
    match parse_conditional(s) {
        Ok(m) => Ok(m),
        Err(_) => match call_paren(s) {
            Some(p) => match parse_arguments(split_args(s.subrange(p + 1, s.len() - 1)), s.len()) {
                Ok(args) => match function_from_call(s.take(p), args) {
                    Ok((n, a)) => Ok(ExpressionModel::FunctionCall(n, a)),
                    Err(e) => Err(e),
                },
                Err(e) => Err(e),
            },
            None => Ok(ExpressionModel::Normal(s)),
        },
    }
}

/// What a conditional parses to: its three parts, trimmed and parsed in
/// order; the first error wins.
pub open spec fn parse_conditional(s: Seq<char>) -> Result<ExpressionModel, DebugErrorModel>
    decreases s.len(), 1nat, 0nat,
{
    match conditional_parts(s) {
        Some((p, q, r, t, u)) => {
            let c = trim(s.subrange(p + 1, q));
            let a = trim(s.subrange(r + 1, t));
            let b = trim(s.subrange(t + 1, u));
            // The parts are shorter than `s`, which bounds the recursion.
            if c.len() < s.len() && a.len() < s.len() && b.len() < s.len() {
                match parse_expression(c) {
                    Err(e) => Err(e),
                    Ok(cm) => match parse_expression(a) {
                        Err(e) => Err(e),
                        Ok(am) => match parse_expression(b) {
                            Err(e) => Err(e),
                            Ok(bm) => Ok(
                                ExpressionModel::Conditional(
                                    Box::new(cm),
                                    Box::new(am),
                                    Box::new(bm),
                                ),
                            ),
                        },
                    },
                }
            } else {
                Err(DebugErrorModel::MissingAttribute(conditional_syntax_message()))
            }
        },
        None => Err(DebugErrorModel::MissingAttribute(conditional_syntax_message())),
    }
}

/// The arguments parsed in order; the first error wins. Each piece is
/// shorter than `limit`, the length of the whole call, which bounds the
/// recursion.
pub open spec fn parse_arguments(pieces: Seq<Seq<char>>, limit: nat) -> Result<
    Seq<ExpressionModel>,
    DebugErrorModel,
>
    decreases limit, 0nat, pieces.len(),
{
    if pieces.len() == 0 {
        Ok(Seq::empty())
    } else if pieces[0].len() < limit {
        match parse_expression(pieces[0]) {
            Err(e) => Err(e),
            Ok(m) => match parse_arguments(pieces.drop_first(), limit) {
                Ok(ms) => Ok(seq![m] + ms),
                Err(e) => Err(e),
            },
        }
    } else {
        // Never taken: the pieces of a call are shorter than the call.
        Ok(Seq::empty())
    }
}

/// Whether the `=` at `i` in `s` is an assignment sign: an `=` that is no
/// part of `==`, `!=`, `<=` or `>=`.
pub open spec fn is_assign_sign(s: Seq<char>, i: int) -> bool {
    &&& s[i] == '='
    &&& !(i > 0 && (s[i - 1] == '=' || s[i - 1] == '!' || s[i - 1] == '<' || s[i - 1] == '>'))
    &&& !(i + 1 < s.len() && s[i + 1] == '=')
}

/// The first assignment sign of `s` at or after `start`, if there is one.
pub open spec fn find_assign(s: Seq<char>, start: int) -> Option<int>
    decreases s.len() - start,
{
    if start < 0 || start >= s.len() {
        None
    } else if is_assign_sign(s, start) {
        Some(start)
    } else {
        find_assign(s, start + 1)
    }
}

/// The first assignment sign of `v[lo..hi]`, counted in `v`.
fn find_assign_sign(v: &Vec<char>, lo: usize, hi: usize) -> (r: Option<usize>)
    requires
        lo <= hi <= v@.len(),
    ensures
        match r {
            Some(i) => lo <= i < hi && find_assign(v@.subrange(lo as int, hi as int), 0) == Some(
                i - lo,
            ),
            None => find_assign(v@.subrange(lo as int, hi as int), 0) is None,
        },
{
    let ghost u = v@.subrange(lo as int, hi as int);
    let mut i = lo;
    while i < hi
        invariant
            lo <= i <= hi <= v@.len(),
            u == v@.subrange(lo as int, hi as int),
            find_assign(u, 0) == find_assign(u, i - lo),
        decreases hi - i,
    {
        if v[i] == '=' {
            let before_ok = !(i > lo && (v[i - 1] == '=' || v[i - 1] == '!' || v[i - 1] == '<'
                || v[i - 1] == '>'));
            let after_ok = !(i + 1 < hi && v[i + 1] == '=');
            if before_ok && after_ok {
                assert(is_assign_sign(u, i - lo));
                return Some(i);
            }
        }
        assert(!is_assign_sign(u, i - lo));
        i = i + 1;
    }
    None
}

/// What a statement parses to. The text is trimmed; `// text` is a comment;
/// otherwise one trailing `;` is dropped, and the text before the first
/// assignment sign (an `=` that is no part of `==`, `!=`, `<=` or `>=`) is
/// the variable of an assignment (of a definition when it starts with
/// `__var`), the text after it the expression; with no assignment sign the
/// whole text is an expression.
pub open spec fn parse_statement(s: Seq<char>) -> Result<StatementModel, DebugErrorModel> {
    let t = trim(s);
    if starts_with(t, "//"@) {
        Ok(StatementModel::Comment(trim(t.subrange("//"@.len() as int, t.len() as int))))
    } else {
        let u = if t.len() > 0 && t.last() == ';' {
            t.drop_last()
        } else {
            t
        };
        match find_assign(u, 0) {
            None => match parse_expression(u) {
                Ok(m) => Ok(StatementModel::Expression(m)),
                Err(e) => Err(e),
            },
            Some(e) => {
                let var = trim(u.take(e));
                let ex = trim(u.subrange(e + 1, u.len() as int));
                match parse_expression(ex) {
                    Err(err) => Err(err),
                    Ok(m) => if starts_with(var, "__var"@) {
                        Ok(
                            StatementModel::Definition(
                                trim(var.subrange("__var"@.len() as int, var.len() as int)),
                                m,
                            ),
                        )
                    } else {
                        Ok(StatementModel::Assignment(var, m))
                    },
                }
            },
        }
    }
}

/// Removes and returns the last expression of `v`.
fn take_last(v: &mut Vec<Expression>) -> (r: Expression)
    requires
        old(v)@.len() > 0,
    ensures
        r == old(v)@.last(),
        final(v)@ == old(v)@.drop_last(),
{
    match v.pop() {
        Some(x) => x,
        None => Expression::Normal(String::new()),
    }
}

/// The argument count of a debug function with a fixed count, by name.
fn function_arity_of(name: &str) -> (r: Option<usize>)
    ensures
        match r {
            Some(n) => function_arity(name@) == Some(n as nat),
            None => function_arity(name@) is None,
        },
{
    if str_eq(name, "Read8") {
        Some(1)
    } else if str_eq(name, "Read16") {
        Some(1)
    } else if str_eq(name, "Read32") {
        Some(1)
    } else if str_eq(name, "Read64") {
        Some(1)
    } else if str_eq(name, "Write8") {
        Some(2)
    } else if str_eq(name, "Write16") {
        Some(2)
    } else if str_eq(name, "Write32") {
        Some(2)
    } else if str_eq(name, "Write64") {
        Some(2)
    } else if str_eq(name, "ReadAP") {
        Some(1)
    } else if str_eq(name, "WriteAP") {
        Some(2)
    } else if str_eq(name, "ReadDP") {
        Some(1)
    } else if str_eq(name, "WriteDP") {
        Some(2)
    } else if str_eq(name, "ReadAccessAP") {
        Some(1)
    } else if str_eq(name, "WriteAccessAP") {
        Some(2)
    } else if str_eq(name, "DAP_Delay") {
        Some(1)
    } else if str_eq(name, "DAP_WriteABORT") {
        Some(1)
    } else if str_eq(name, "DAP_SWJ_Pins") {
        Some(3)
    } else if str_eq(name, "DAP_SWJ_Clock") {
        Some(1)
    } else if str_eq(name, "DAP_SWJ_Sequence") {
        Some(2)
    } else if str_eq(name, "DAP_JTAG_Sequence") {
        Some(3)
    } else if str_eq(name, "Sequence") {
        Some(1)
    } else if str_eq(name, "Query") {
        Some(3)
    } else if str_eq(name, "QueryValue") {
        Some(2)
    } else if str_eq(name, "FlashWriteBuffer") {
        Some(4)
    } else if str_eq(name, "FlashLoadAlgorithm") {
        Some(3)
    } else if str_eq(name, "BufferSet") {
        Some(5)
    } else if str_eq(name, "BufferGet") {
        Some(3)
    } else if str_eq(name, "BufferSize") {
        Some(1)
    } else if str_eq(name, "BufferRead") {
        Some(5)
    } else if str_eq(name, "BufferWrite") {
        Some(5)
    } else if str_eq(name, "BufferStreamIn") {
        Some(6)
    } else if str_eq(name, "BufferStreamOut") {
        Some(6)
    } else if str_eq(name, "RunApplication") {
        Some(4)
    } else if str_eq(name, "RunPythonScript") {
        Some(4)
    } else if str_eq(name, "FilePathExists") {
        Some(2)
    } else if str_eq(name, "LoadDebugInfo") {
        Some(1)
    } else {
        None
    }
}

/// The debug function `name` called with `args`, which are as many as it takes.
fn build_function(name: &str, args: Vec<Expression>) -> (f: DebugFunction)
    requires
        function_arity(name@) == Some(args@.len() as nat),
    ensures
        f@ == (name@, expressions_model(args@)),
{
    let n = args.len();
    if n == 1 {
        build_function_1(name, args)
    } else if n == 2 {
        build_function_2(name, args)
    } else if n == 3 {
        build_function_3(name, args)
    } else if n == 4 {
        build_function_4(name, args)
    } else if n == 5 {
        build_function_5(name, args)
    } else if n == 6 {
        build_function_6(name, args)
    } else {
        DebugFunction::default()
    }
}

/// The debug function `name`, which takes 1 argument, called with `args`.
fn build_function_1(name: &str, args: Vec<Expression>) -> (f: DebugFunction)
    requires
        args@.len() == 1,
        function_arity(name@) == Some(1nat),
    ensures
        f@ == (name@, expressions_model(args@)),
{
    let ghost orig = args@;
    let mut a = args;
    if str_eq(name, "Read8") {
        let addr = take_last(&mut a);
        let f = DebugFunction::Read8 { addr };
        proof {
            assert(function_args(f) =~= expressions_model(orig));
        }
        f
    } else if str_eq(name, "Read16") {
        let addr = take_last(&mut a);
        let f = DebugFunction::Read16 { addr };
        proof {
            assert(function_args(f) =~= expressions_model(orig));
        }
        f
    } else if str_eq(name, "Read32") {
        let addr = take_last(&mut a);
        let f = DebugFunction::Read32 { addr };
        proof {
            assert(function_args(f) =~= expressions_model(orig));
        }
        f
    } else if str_eq(name, "Read64") {
        let addr = take_last(&mut a);
        let f = DebugFunction::Read64 { addr };
        proof {
            assert(function_args(f) =~= expressions_model(orig));
        }
        f
    } else if str_eq(name, "ReadAP") {
        let addr = take_last(&mut a);
        let f = DebugFunction::ReadAP { addr };
        proof {
            assert(function_args(f) =~= expressions_model(orig));
        }
        f
    } else if str_eq(name, "ReadDP") {
        let addr = take_last(&mut a);
        let f = DebugFunction::ReadDP { addr };
        proof {
            assert(function_args(f) =~= expressions_model(orig));
        }
        f
    } else if str_eq(name, "ReadAccessAP") {
        let addr = take_last(&mut a);
        let f = DebugFunction::ReadAccessAP { addr };
        proof {
            assert(function_args(f) =~= expressions_model(orig));
        }
        f
    } else if str_eq(name, "DAP_Delay") {
        let delay = take_last(&mut a);
        let f = DebugFunction::DapDelay { delay };
        proof {
            assert(function_args(f) =~= expressions_model(orig));
        }
        f
    } else if str_eq(name, "DAP_WriteABORT") {
        let value = take_last(&mut a);
        let f = DebugFunction::DapWriteAbort { value };
        proof {
            assert(function_args(f) =~= expressions_model(orig));
        }
        f
    } else if str_eq(name, "DAP_SWJ_Clock") {
        let val = take_last(&mut a);
        let f = DebugFunction::DapSwjClock { val };
        proof {
            assert(function_args(f) =~= expressions_model(orig));
        }
        f
    } else if str_eq(name, "Sequence") {
        let name = take_last(&mut a);
        let f = DebugFunction::Sequence { name };
        proof {
            assert(function_args(f) =~= expressions_model(orig));
        }
        f
    } else if str_eq(name, "BufferSize") {
        let buff_id = take_last(&mut a);
        let f = DebugFunction::BufferSize { buff_id };
        proof {
            assert(function_args(f) =~= expressions_model(orig));
        }
        f
    } else if str_eq(name, "LoadDebugInfo") {
        let file = take_last(&mut a);
        let f = DebugFunction::LoadDebugInfo { file };
        proof {
            assert(function_args(f) =~= expressions_model(orig));
        }
        f
    } else {
        DebugFunction::default()
    }
}

/// The debug function `name`, which takes 2 arguments, called with `args`.
fn build_function_2(name: &str, args: Vec<Expression>) -> (f: DebugFunction)
    requires
        args@.len() == 2,
        function_arity(name@) == Some(2nat),
    ensures
        f@ == (name@, expressions_model(args@)),
{
    let ghost orig = args@;
    let mut a = args;
    if str_eq(name, "Write8") {
        let val = take_last(&mut a);
        let addr = take_last(&mut a);
        let f = DebugFunction::Write8 { addr, val };
        proof {
            assert(function_args(f) =~= expressions_model(orig));
        }
        f
    } else if str_eq(name, "Write16") {
        let val = take_last(&mut a);
        let addr = take_last(&mut a);
        let f = DebugFunction::Write16 { addr, val };
        proof {
            assert(function_args(f) =~= expressions_model(orig));
        }
        f
    } else if str_eq(name, "Write32") {
        let val = take_last(&mut a);
        let addr = take_last(&mut a);
        let f = DebugFunction::Write32 { addr, val };
        proof {
            assert(function_args(f) =~= expressions_model(orig));
        }
        f
    } else if str_eq(name, "Write64") {
        let val = take_last(&mut a);
        let addr = take_last(&mut a);
        let f = DebugFunction::Write64 { addr, val };
        proof {
            assert(function_args(f) =~= expressions_model(orig));
        }
        f
    } else if str_eq(name, "WriteAP") {
        let val = take_last(&mut a);
        let addr = take_last(&mut a);
        let f = DebugFunction::WriteAP { addr, val };
        proof {
            assert(function_args(f) =~= expressions_model(orig));
        }
        f
    } else if str_eq(name, "WriteDP") {
        let val = take_last(&mut a);
        let addr = take_last(&mut a);
        let f = DebugFunction::WriteDP { addr, val };
        proof {
            assert(function_args(f) =~= expressions_model(orig));
        }
        f
    } else if str_eq(name, "WriteAccessAP") {
        let val = take_last(&mut a);
        let addr = take_last(&mut a);
        let f = DebugFunction::WriteAccessAP { addr, val };
        proof {
            assert(function_args(f) =~= expressions_model(orig));
        }
        f
    } else if str_eq(name, "DAP_SWJ_Sequence") {
        let val = take_last(&mut a);
        let cnt = take_last(&mut a);
        let f = DebugFunction::DapSwjSequence { cnt, val };
        proof {
            assert(function_args(f) =~= expressions_model(orig));
        }
        f
    } else if str_eq(name, "QueryValue") {
        let default = take_last(&mut a);
        let message = take_last(&mut a);
        let f = DebugFunction::QueryValue { message, default };
        proof {
            assert(function_args(f) =~= expressions_model(orig));
        }
        f
    } else if str_eq(name, "FilePathExists") {
        let timeout = take_last(&mut a);
        let path = take_last(&mut a);
        let f = DebugFunction::FilePathExists { path, timeout };
        proof {
            assert(function_args(f) =~= expressions_model(orig));
        }
        f
    } else {
        DebugFunction::default()
    }
}

/// The debug function `name`, which takes 3 arguments, called with `args`.
fn build_function_3(name: &str, args: Vec<Expression>) -> (f: DebugFunction)
    requires
        args@.len() == 3,
        function_arity(name@) == Some(3nat),
    ensures
        f@ == (name@, expressions_model(args@)),
{
    let ghost orig = args@;
    let mut a = args;
    if str_eq(name, "DAP_SWJ_Pins") {
        let pinwait = take_last(&mut a);
        let pinselect = take_last(&mut a);
        let pinout = take_last(&mut a);
        let f = DebugFunction::DapSwjPins { pinout, pinselect, pinwait };
        proof {
            assert(function_args(f) =~= expressions_model(orig));
        }
        f
    } else if str_eq(name, "DAP_JTAG_Sequence") {
        let tdi = take_last(&mut a);
        let tms = take_last(&mut a);
        let cnt = take_last(&mut a);
        let f = DebugFunction::DapJtagSequence { cnt, tms, tdi };
        proof {
            assert(function_args(f) =~= expressions_model(orig));
        }
        f
    } else if str_eq(name, "Query") {
        let default = take_last(&mut a);
        let message = take_last(&mut a);
        let query_type = take_last(&mut a);
        let f = DebugFunction::Query { query_type, message, default };
        proof {
            assert(function_args(f) =~= expressions_model(orig));
        }
        f
    } else if str_eq(name, "FlashLoadAlgorithm") {
        let ram_size = take_last(&mut a);
        let ram_start = take_last(&mut a);
        let algo_path = take_last(&mut a);
        let f = DebugFunction::FlashLoadAlgorithm { algo_path, ram_start, ram_size };
        proof {
            assert(function_args(f) =~= expressions_model(orig));
        }
        f
    } else if str_eq(name, "BufferGet") {
        let size = take_last(&mut a);
        let buff_offset = take_last(&mut a);
        let buff_id = take_last(&mut a);
        let f = DebugFunction::BufferGet { buff_id, buff_offset, size };
        proof {
            assert(function_args(f) =~= expressions_model(orig));
        }
        f
    } else {
        DebugFunction::default()
    }
}

/// The debug function `name`, which takes 4 arguments, called with `args`.
fn build_function_4(name: &str, args: Vec<Expression>) -> (f: DebugFunction)
    requires
        args@.len() == 4,
        function_arity(name@) == Some(4nat),
    ensures
        f@ == (name@, expressions_model(args@)),
{
    let ghost orig = args@;
    let mut a = args;
    if str_eq(name, "FlashWriteBuffer") {
        let mode = take_last(&mut a);
        let len = take_last(&mut a);
        let offs = take_last(&mut a);
        let addr = take_last(&mut a);
        let f = DebugFunction::FlashWriteBuffer { addr, offs, len, mode };
        proof {
            assert(function_args(f) =~= expressions_model(orig));
        }
        f
    } else if str_eq(name, "RunApplication") {
        let timeout = take_last(&mut a);
        let work_directory = take_last(&mut a);
        let arguments = take_last(&mut a);
        let app_path = take_last(&mut a);
        let f = DebugFunction::RunApplication { app_path, arguments, work_directory, timeout };
        proof {
            assert(function_args(f) =~= expressions_model(orig));
        }
        f
    } else if str_eq(name, "RunPythonScript") {
        let timeout = take_last(&mut a);
        let work_directory = take_last(&mut a);
        let arguments = take_last(&mut a);
        let script_path = take_last(&mut a);
        let f = DebugFunction::RunPythonScript { script_path, arguments, work_directory, timeout };
        proof {
            assert(function_args(f) =~= expressions_model(orig));
        }
        f
    } else {
        DebugFunction::default()
    }
}

/// The debug function `name`, which takes 5 arguments, called with `args`.
fn build_function_5(name: &str, args: Vec<Expression>) -> (f: DebugFunction)
    requires
        args@.len() == 5,
        function_arity(name@) == Some(5nat),
    ensures
        f@ == (name@, expressions_model(args@)),
{
    let ghost orig = args@;
    let mut a = args;
    if str_eq(name, "BufferSet") {
        let value = take_last(&mut a);
        let size = take_last(&mut a);
        let count = take_last(&mut a);
        let buff_offset = take_last(&mut a);
        let buff_id = take_last(&mut a);
        let f = DebugFunction::BufferSet { buff_id, buff_offset, count, size, value };
        proof {
            assert(function_args(f) =~= expressions_model(orig));
        }
        f
    } else if str_eq(name, "BufferRead") {
        let mode = take_last(&mut a);
        let length = take_last(&mut a);
        let addr = take_last(&mut a);
        let buff_offset = take_last(&mut a);
        let buff_id = take_last(&mut a);
        let f = DebugFunction::BufferRead { buff_id, buff_offset, addr, length, mode };
        proof {
            assert(function_args(f) =~= expressions_model(orig));
        }
        f
    } else if str_eq(name, "BufferWrite") {
        let mode = take_last(&mut a);
        let length = take_last(&mut a);
        let addr = take_last(&mut a);
        let buff_offset = take_last(&mut a);
        let buff_id = take_last(&mut a);
        let f = DebugFunction::BufferWrite { buff_id, buff_offset, addr, length, mode };
        proof {
            assert(function_args(f) =~= expressions_model(orig));
        }
        f
    } else {
        DebugFunction::default()
    }
}

/// The debug function `name`, which takes 6 arguments, called with `args`.
fn build_function_6(name: &str, args: Vec<Expression>) -> (f: DebugFunction)
    requires
        args@.len() == 6,
        function_arity(name@) == Some(6nat),
    ensures
        f@ == (name@, expressions_model(args@)),
{
    let ghost orig = args@;
    let mut a = args;
    if str_eq(name, "BufferStreamIn") {
        let timeout = take_last(&mut a);
        let mode = take_last(&mut a);
        let path = take_last(&mut a);
        let length = take_last(&mut a);
        let buff_offset = take_last(&mut a);
        let buff_id = take_last(&mut a);
        let f = DebugFunction::BufferStreamIn { buff_id, buff_offset, length, path, mode, timeout };
        proof {
            assert(function_args(f) =~= expressions_model(orig));
        }
        f
    } else if str_eq(name, "BufferStreamOut") {
        let timeout = take_last(&mut a);
        let dest_mode = take_last(&mut a);
        let dest_path = take_last(&mut a);
        let length = take_last(&mut a);
        let buff_offset = take_last(&mut a);
        let buff_id = take_last(&mut a);
        let f = DebugFunction::BufferStreamOut { buff_id, buff_offset, length, dest_path, dest_mode, timeout };
        proof {
            assert(function_args(f) =~= expressions_model(orig));
        }
        f
    } else {
        DebugFunction::default()
    }
}

impl DebugFunction {
    /// The debug function that a call of `name` with `args` denotes, as
    /// [`function_from_call`] says.
    pub fn from_call(name: String, args: Vec<Expression>) -> (r: Result<
        DebugFunction,
        DebugAccessParseError,
    >)
        ensures
            match r {
                Ok(f) => function_from_call(name@, expressions_model(args@)) == Ok::<(Seq<char>, Seq<ExpressionModel>), DebugErrorModel>(f@),
                Err(e) => function_from_call(name@, expressions_model(args@)) == Err::<(Seq<char>, Seq<ExpressionModel>), DebugErrorModel>(e@),
            },
    {
        let ghost orig = args@;
        if str_eq(name.as_str(), "Message") {
            if args.len() < 2 {
                let mut msg = "Message expects at least 2 arguments, got ".to_owned();
                push_decimal(&mut msg, args.len());
                return Err(DebugAccessParseError::MissingAttribute(msg));
            }
            let mut rest = args;
            let msg_type = rest.remove(0);
            let format = rest.remove(0);
            proof {
                assert(rest@ =~= orig.subrange(2, orig.len() as int));
            }
            let f = DebugFunction::Message { msg_type, format, args: rest };
            proof {
                assert(function_args(f) =~= expressions_model(orig));
            }
            return Ok(f);
        }
        match function_arity_of(name.as_str()) {
            None => Err(DebugAccessParseError::UnknownStatement(name)),
            Some(n) => {
                if args.len() != n {
                    let mut msg = name.clone();
                    msg.append(" expects ");
                    push_decimal(&mut msg, n);
                    if n == 1 {
                        msg.append(" argument, got ");
                    } else {
                        msg.append(" arguments, got ");
                    }
                    push_decimal(&mut msg, args.len());
                    Err(DebugAccessParseError::MissingAttribute(msg))
                } else {
                    Ok(build_function(name.as_str(), args))
                }
            },
        }
    }
}

/// Where the argument list of `v[lo..hi]` opens (as a position in `v`), as
/// [`call_paren`] says.
fn detect_function_call(v: &Vec<char>, lo: usize, hi: usize) -> (r: Option<usize>)
    requires
        lo <= hi <= v@.len(),
    ensures
        match r {
            Some(p) => lo <= p && p + 1 < hi && call_paren(v@.subrange(lo as int, hi as int))
                == Some(p - lo),
            None => call_paren(v@.subrange(lo as int, hi as int)) is None,
        },
{
    let ghost s = v@.subrange(lo as int, hi as int);
    if hi == lo || v[hi - 1] != ')' {
        return None;
    }
    let p = match find_char(v, '(', lo, lo, hi) {
        Some(p) => p,
        None => return None,
    };
    proof {
        lemma_find_from(s, '(', 0);
    }
    let ghost name = s.take(p - lo);
    if p == lo {
        return None;
    }
    let c0 = v[lo];
    assert(name[0] == c0);
    if !(char_is_alphabetic(c0) || c0 == '_') {
        return None;
    }
    let ghost inner = s.subrange(p - lo + 1, s.len() - 1);
    assert(p + 1 < hi);
    assert(call_paren(s) == (if is_identifier(name) && balanced(inner) {
        Some(p - lo)
    } else {
        None::<int>
    }));
    let mut i = lo + 1;
    while i < p
        invariant
            lo < i <= p < hi <= v@.len(),
            s == v@.subrange(lo as int, hi as int),
            name == s.take(p - lo),
            name.len() == p - lo,
            alphabetic(name[0]) || name[0] == '_',
            inner == s.subrange(p - lo + 1, s.len() - 1),
            call_paren(s) == (if is_identifier(name) && balanced(inner) {
                Some(p - lo)
            } else {
                None::<int>
            }),
            forall|j: int| 1 <= j < i - lo ==> (alphanumeric(#[trigger] name[j]) || name[j] == '_'),
        decreases p - i,
    {
        let c = v[i];
        assert(name[i - lo] == c);
        if !(char_is_alphanumeric(c) || c == '_') {
            return None;
        }
        i = i + 1;
    }
    assert(inner =~= v@.subrange(p + 1, hi - 1));
    if !parens_balanced(v, p + 1, hi - 1) {
        return None;
    }
    Some(p)
}

/// The arguments of the call text `v[lo..hi]` (between the outer
/// parentheses), as positions in `v`, as [`split_args`] says.
fn split_arguments(v: &Vec<char>, lo: usize, hi: usize) -> (r: Vec<(usize, usize)>)
    requires
        lo <= hi <= v@.len(),
    ensures
        r@.len() == split_args(v@.subrange(lo as int, hi as int)).len(),
        forall|k: int|
            0 <= k < r@.len() ==> lo <= (#[trigger] r@[k]).0 <= r@[k].1 <= hi && v@.subrange(
                r@[k].0 as int,
                r@[k].1 as int,
            ) == split_args(v@.subrange(lo as int, hi as int))[k],
{
    let ghost s = v@.subrange(lo as int, hi as int);
    let (ta, tb) = trim_bounds(v, lo, hi);
    if ta == tb {
        return Vec::new();
    }
    let mut result: Vec<(usize, usize)> = Vec::new();
    let mut depth: u32 = 0;
    let mut start = lo;
    let mut i = lo;
    let ghost mut cs: Seq<int> = Seq::empty();
    while i < hi
        invariant
            lo <= start <= i <= hi <= v@.len(),
            s == v@.subrange(lo as int, hi as int),
            depth == paren_depth(s.take(i - lo)),
            cs == top_level_commas(s, i - lo),
            start - lo == (if cs.len() == 0 {
                0
            } else {
                cs.last() + 1
            }),
            result@.len() == cs.len(),
            forall|k: int|
                0 <= k < cs.len() ==> lo <= (#[trigger] result@[k]).0 <= result@[k].1 <= hi
                    && v@.subrange(result@[k].0 as int, result@[k].1 as int) == trim(
                    argument_segment(s, cs, k),
                ),
        decreases hi - i,
    {
        let c = v[i];
        let ghost k = i - lo;
        assert(s.take(k + 1).drop_last() =~= s.take(k));
        assert(s.take(k + 1).last() == c);
        if c == ',' && depth == 0 {
            let (a, b) = trim_bounds(v, start, i);
            let ghost old_cs = cs;
            result.push((a, b));
            proof {
                cs = cs.push(k);
                assert(argument_segment(s, cs, old_cs.len() as int) =~= v@.subrange(
                    start as int,
                    i as int,
                ));
                assert forall|j: int| 0 <= j < old_cs.len() implies argument_segment(s, cs, j)
                    == argument_segment(s, old_cs, j) by {}
            }
            start = i + 1;
        } else if c == '(' {
            depth = if depth == 0xFFFF_FFFF {
                0
            } else {
                depth + 1
            };
        } else if c == ')' {
            depth = if depth == 0 {
                0xFFFF_FFFF
            } else {
                depth - 1
            };
        }
        i = i + 1;
    }
    let (a, b) = trim_bounds(v, start, hi);
    proof {
        assert(s.take(s.len() as int) =~= s);
        assert(argument_segment(s, cs, cs.len() as int) =~= v@.subrange(start as int, hi as int));
        assert(v@.subrange(ta as int, tb as int) == trim(s));
    }
    let ghost pieces = Seq::new((cs.len() + 1) as nat, |k: int| trim(argument_segment(s, cs, k)));
    if a < b {
        result.push((a, b));
        proof {
            assert(split_args(s) == pieces);
        }
    } else {
        proof {
            assert(split_args(s) == pieces.drop_last());
        }
    }
    result
}

/// Parses `v[lo..hi]` as a conditional, as [`parse_conditional`] says.
fn parse_conditional_chars(v: &Vec<char>, lo: usize, hi: usize) -> (r: Result<
    Conditional,
    DebugAccessParseError,
>)
    requires
        lo <= hi <= v@.len(),
    ensures
        match r {
            Ok(c) => parse_conditional(v@.subrange(lo as int, hi as int)) == Ok::<ExpressionModel, DebugErrorModel>(c@),
            Err(e) => parse_conditional(v@.subrange(lo as int, hi as int)) == Err::<ExpressionModel, DebugErrorModel>(e@),
        },
    decreases hi - lo, 1nat,
{
    let ghost s = v@.subrange(lo as int, hi as int);
    let p = match find_char(v, '(', lo, lo, hi) {
        Some(p) => p,
        None => return Err(conditional_syntax_error()),
    };
    let q = match find_char(v, ')', lo, p + 1, hi) {
        Some(q) => q,
        None => return Err(conditional_syntax_error()),
    };
    let r = match find_char(v, '?', lo, q + 1, hi) {
        Some(r) => r,
        None => return Err(conditional_syntax_error()),
    };
    let t = match find_char(v, ':', lo, r + 1, hi) {
        Some(t) => t,
        None => return Err(conditional_syntax_error()),
    };
    let u = match find_char(v, ';', lo, t + 1, hi) {
        Some(u) => u,
        None => hi,
    };
    if u <= t + 1 {
        return Err(conditional_syntax_error());
    }
    let (ca, cb) = trim_bounds(v, p + 1, q);
    let (ta, tb) = trim_bounds(v, r + 1, t);
    let (fa, fb) = trim_bounds(v, t + 1, u);
    proof {
        assert(s.subrange(p - lo + 1, q - lo) =~= v@.subrange(p + 1, q as int));
        assert(s.subrange(r - lo + 1, t - lo) =~= v@.subrange(r + 1, t as int));
        assert(s.subrange(t - lo + 1, u - lo) =~= v@.subrange(t + 1, u as int));
    }
    let condition = match parse_expression_chars(v, ca, cb) {
        Ok(e) => e,
        Err(e) => return Err(e),
    };
    let true_value = match parse_expression_chars(v, ta, tb) {
        Ok(e) => e,
        Err(e) => return Err(e),
    };
    let false_value = match parse_expression_chars(v, fa, fb) {
        Ok(e) => e,
        Err(e) => return Err(e),
    };
    Ok(Conditional { condition, true_value, false_value })
}

/// The error for text that is no conditional.
fn conditional_syntax_error() -> (e: DebugAccessParseError)
    ensures
        e@ == DebugErrorModel::MissingAttribute(conditional_syntax_message()),
{
    DebugAccessParseError::MissingAttribute(
        "conditional syntax: expected '(condition) ? truthy : falsy'".to_owned(),
    )
}

/// Parses `v[lo..hi]` as an expression, as [`parse_expression`] says.
fn parse_expression_chars(v: &Vec<char>, lo: usize, hi: usize) -> (r: Result<
    Expression,
    DebugAccessParseError,
>)
    requires
        lo <= hi <= v@.len(),
    ensures
        match r {
            Ok(e) => parse_expression(v@.subrange(lo as int, hi as int)) == Ok::<ExpressionModel, DebugErrorModel>(e@),
            Err(e) => parse_expression(v@.subrange(lo as int, hi as int)) == Err::<ExpressionModel, DebugErrorModel>(e@),
        },
    decreases hi - lo, 2nat,
{
    let ghost s = v@.subrange(lo as int, hi as int);
    match parse_conditional_chars(v, lo, hi) {
        Ok(c) => return Ok(Expression::Conditional(Box::new(c))),
        Err(_) => {},
    }
    match detect_function_call(v, lo, hi) {
        Some(p) => {
            let pieces = split_arguments(v, p + 1, hi - 1);
            let ghost inner = v@.subrange(p + 1, hi - 1);
            proof {
                assert(s.subrange(p - lo + 1, s.len() - 1) =~= inner);
            }
            let ghost ps = split_args(inner);
            let ghost limit = s.len();
            let mut args: Vec<Expression> = Vec::new();
            let mut k: usize = 0;
            proof {
                assert(ps.skip(0) =~= ps);
                match parse_arguments(ps, limit) {
                    Ok(x) => {
                        assert(expressions_model(args@) + x =~= x);
                    },
                    Err(_) => {},
                }
            }
            while k < pieces.len()
                invariant
                    lo <= p && p + 1 < hi <= v@.len(),
                    k <= pieces@.len(),
                    s == v@.subrange(lo as int, hi as int),
                    limit == s.len(),
                    parse_conditional(s) is Err,
                    call_paren(s) == Some(p - lo),
                    s.subrange(p - lo + 1, s.len() - 1) == inner,
                    ps == split_args(inner),
                    inner == v@.subrange(p + 1, hi - 1),
                    pieces@.len() == ps.len(),
                    forall|j: int|
                        0 <= j < pieces@.len() ==> p + 1 <= (#[trigger] pieces@[j]).0
                            <= pieces@[j].1 <= hi - 1 && v@.subrange(
                            pieces@[j].0 as int,
                            pieces@[j].1 as int,
                        ) == ps[j],
                    parse_arguments(ps, limit) == (match parse_arguments(ps.skip(k as int), limit) {
                        Ok(rest) => Ok(expressions_model(args@) + rest),
                        Err(e) => Err(e),
                    }),
                decreases pieces@.len() - k,
            {
                let (a, b) = pieces[k];
                let ghost pk = ps.skip(k as int);
                assert(pk[0] == ps[k as int]);
                assert(pk.drop_first() =~= ps.skip(k + 1));
                let e = match parse_expression_chars(v, a, b) {
                    Ok(e) => e,
                    Err(err) => return Err(err),
                };
                let ghost before = expressions_model(args@);
                args.push(e);
                proof {
                    assert(expressions_model(args@) =~= before.push(e@));
                    match parse_arguments(ps.skip(k + 1), limit) {
                        Ok(ms) => {
                            assert(before + (seq![e@] + ms) =~= before.push(e@) + ms);
                        },
                        Err(_) => {},
                    }
                }
                k = k + 1;
            }
            proof {
                assert(ps.skip(k as int).len() == 0);
                assert(expressions_model(args@) + Seq::<ExpressionModel>::empty() =~= expressions_model(args@));
            }
            let name = chars_to_string(v, lo, p);
            proof {
                assert(s.take(p - lo) =~= v@.subrange(lo as int, p as int));
            }
            match DebugFunction::from_call(name, args) {
                Ok(f) => Ok(Expression::FunctionCall(Box::new(f))),
                Err(e) => Err(e),
            }
        },
        None => Ok(Expression::Normal(chars_to_string(v, lo, hi))),
    }
}

impl Expression {
    /// Parses an expression, as [`parse_expression`] says.
    pub fn parse(s: &str) -> (r: Result<Expression, DebugAccessParseError>)
        ensures
            match r {
                Ok(e) => parse_expression(s@) == Ok::<ExpressionModel, DebugErrorModel>(e@),
                Err(err) => parse_expression(s@) == Err::<ExpressionModel, DebugErrorModel>(err@),
            },
    {
        let v = str_to_chars(s);
        proof {
            assert(v@.subrange(0, v@.len() as int) =~= s@);
        }
        parse_expression_chars(&v, 0, v.len())
    }
}

impl Conditional {
    /// Parses a conditional `(condition) ? truthy : falsy`, as
    /// [`parse_conditional`] says.
    pub fn parse(s: &str) -> (r: Result<Conditional, DebugAccessParseError>)
        ensures
            match r {
                Ok(c) => parse_conditional(s@) == Ok::<ExpressionModel, DebugErrorModel>(c@),
                Err(err) => parse_conditional(s@) == Err::<ExpressionModel, DebugErrorModel>(err@),
            },
    {
        let v = str_to_chars(s);
        proof {
            assert(v@.subrange(0, v@.len() as int) =~= s@);
        }
        parse_conditional_chars(&v, 0, v.len())
    }
}

impl Statement {
    /// Parses a statement, as [`parse_statement`] says.
    #[verifier::rlimit(40)]
    #[verifier::rlimit(100)]
    pub fn parse(s: &str) -> (r: Result<Statement, DebugAccessParseError>)
        ensures
            match r {
                Ok(st) => parse_statement(s@) == Ok::<StatementModel, DebugErrorModel>(st@),
                Err(err) => parse_statement(s@) == Err::<StatementModel, DebugErrorModel>(err@),
            },
    {
        let v = str_to_chars(s);
        let ghost sv = v@;
        proof {
            assert(v@.subrange(0, v@.len() as int) =~= s@);
        }
        let (a, b) = trim_bounds(&v, 0, v.len());
        let ghost t = v@.subrange(a as int, b as int);
        let slashes = str_to_chars("//");
        if has_prefix_at(&v, a, b, &slashes) {
            let (ca, cb) = trim_bounds(&v, a + slashes.len(), b);
            proof {
                assert(t.subrange(slashes@.len() as int, t.len() as int) =~= v@.subrange(
                    a + slashes@.len(),
                    b as int,
                ));
            }
            return Ok(Statement::Comment(chars_to_string(&v, ca, cb)));
        }
        let mut end = b;
        if b > a && v[b - 1] == ';' {
            end = b - 1;
        }
        let ghost u = v@.subrange(a as int, end as int);
        assert(u =~= (if t.len() > 0 && t.last() == ';' {
            t.drop_last()
        } else {
            t
        }));
        match find_assign_sign(&v, a, end) {
            None => match parse_expression_chars(&v, a, end) {
                Ok(e) => Ok(Statement::Expression(e)),
                Err(e) => Err(e),
            },
            Some(eq) => {
                let (va, vb) = trim_bounds(&v, a, eq);
                let (xa, xb) = trim_bounds(&v, eq + 1, end);
                proof {
                    assert(u.take(eq - a) =~= v@.subrange(a as int, eq as int));
                    assert(u.subrange(eq - a + 1, u.len() as int) =~= v@.subrange(eq + 1, end as int));
                }
                let expression = match parse_expression_chars(&v, xa, xb) {
                    Ok(e) => e,
                    Err(e) => return Err(e),
                };
                let var_prefix = str_to_chars("__var");
                if has_prefix_at(&v, va, vb, &var_prefix) {
                    let ghost var = v@.subrange(va as int, vb as int);
                    let (na, nb) = trim_bounds(&v, va + var_prefix.len(), vb);
                    proof {
                        assert(var.subrange(var_prefix@.len() as int, var.len() as int) =~= v@.subrange(
                            va + var_prefix@.len(),
                            vb as int,
                        ));
                    }
                    Ok(
                        Statement::Definition(
                            Assignment { variable: chars_to_string(&v, na, nb), expression },
                        ),
                    )
                } else {
                    Ok(
                        Statement::Assignment(
                            Assignment { variable: chars_to_string(&v, va, vb), expression },
                        ),
                    )
                }
            },
        }
    }
}

// ---------------------------------------------------------------------------
// Conversions.

impl TryFrom<String> for Statement {
    type Error = Error;

    fn try_from(value: String) -> (r: Result<Statement, Error>)
        ensures
            match r {
                Ok(x) => parse_statement(value@) == Ok::<StatementModel, DebugErrorModel>(x@),
                Err(e) => parse_statement(value@) matches Err(d) && e@ == ErrorModel::Debug(d),
            },
    {
        match Statement::parse(value.as_str()) {
            Ok(x) => Ok(x),
            Err(e) => Err(Error::Debug(e)),
        }
    }
}

impl vstd::std_specs::convert::TryFromSpecImpl<String> for Statement {
    open spec fn obeys_try_from_spec() -> bool {
        false
    }

    open spec fn try_from_spec(value: String) -> Result<Statement, Error> {
        vstd::pervasive::arbitrary()
    }
}

impl TryFrom<String> for Expression {
    type Error = Error;

    fn try_from(value: String) -> (r: Result<Expression, Error>)
        ensures
            match r {
                Ok(x) => parse_expression(value@) == Ok::<ExpressionModel, DebugErrorModel>(x@),
                Err(e) => parse_expression(value@) matches Err(d) && e@ == ErrorModel::Debug(d),
            },
    {
        match Expression::parse(value.as_str()) {
            Ok(x) => Ok(x),
            Err(e) => Err(Error::Debug(e)),
        }
    }
}

impl vstd::std_specs::convert::TryFromSpecImpl<String> for Expression {
    open spec fn obeys_try_from_spec() -> bool {
        false
    }

    open spec fn try_from_spec(value: String) -> Result<Expression, Error> {
        vstd::pervasive::arbitrary()
    }
}

impl<'a> TryFrom<&'a str> for Expression {
    type Error = DebugAccessParseError;

    fn try_from(value: &'a str) -> (r: Result<Expression, DebugAccessParseError>)
        ensures
            match r {
                Ok(x) => parse_expression(value@) == Ok::<ExpressionModel, DebugErrorModel>(x@),
                Err(e) => parse_expression(value@) == Err::<ExpressionModel, DebugErrorModel>(e@),
            },
    {
        Expression::parse(value)
    }
}

impl<'a> vstd::std_specs::convert::TryFromSpecImpl<&'a str> for Expression {
    open spec fn obeys_try_from_spec() -> bool {
        false
    }

    open spec fn try_from_spec(value: &'a str) -> Result<Expression, DebugAccessParseError> {
        vstd::pervasive::arbitrary()
    }
}

impl TryFrom<String> for Conditional {
    type Error = DebugAccessParseError;

    fn try_from(value: String) -> (r: Result<Conditional, DebugAccessParseError>)
        ensures
            match r {
                Ok(x) => parse_conditional(value@) == Ok::<ExpressionModel, DebugErrorModel>(x@),
                Err(e) => parse_conditional(value@) == Err::<ExpressionModel, DebugErrorModel>(e@),
            },
    {
        Conditional::parse(value.as_str())
    }
}

impl vstd::std_specs::convert::TryFromSpecImpl<String> for Conditional {
    open spec fn obeys_try_from_spec() -> bool {
        false
    }

    open spec fn try_from_spec(value: String) -> Result<Conditional, DebugAccessParseError> {
        vstd::pervasive::arbitrary()
    }
}

impl<'a> TryFrom<&'a str> for Conditional {
    type Error = DebugAccessParseError;

    fn try_from(value: &'a str) -> (r: Result<Conditional, DebugAccessParseError>)
        ensures
            match r {
                Ok(x) => parse_conditional(value@) == Ok::<ExpressionModel, DebugErrorModel>(x@),
                Err(e) => parse_conditional(value@) == Err::<ExpressionModel, DebugErrorModel>(e@),
            },
    {
        Conditional::parse(value)
    }
}

impl<'a> vstd::std_specs::convert::TryFromSpecImpl<&'a str> for Conditional {
    open spec fn obeys_try_from_spec() -> bool {
        false
    }

    open spec fn try_from_spec(value: &'a str) -> Result<Conditional, DebugAccessParseError> {
        vstd::pervasive::arbitrary()
    }
}

impl TryFrom<(String, Vec<Expression>)> for DebugFunction {
    type Error = DebugAccessParseError;

    fn try_from(value: (String, Vec<Expression>)) -> (r: Result<DebugFunction, DebugAccessParseError>)
        ensures
            match r {
                Ok(f) => function_from_call(value.0@, expressions_model(value.1@)) == Ok::<
                    (Seq<char>, Seq<ExpressionModel>),
                    DebugErrorModel,
                >(f@),
                Err(e) => function_from_call(value.0@, expressions_model(value.1@)) == Err::<
                    (Seq<char>, Seq<ExpressionModel>),
                    DebugErrorModel,
                >(e@),
            },
    {
        DebugFunction::from_call(value.0, value.1)
    }
}

impl vstd::std_specs::convert::TryFromSpecImpl<(String, Vec<Expression>)> for DebugFunction {
    open spec fn obeys_try_from_spec() -> bool {
        false
    }

    open spec fn try_from_spec(value: (String, Vec<Expression>)) -> Result<DebugFunction, DebugAccessParseError> {
        vstd::pervasive::arbitrary()
    }
}

// ---------------------------------------------------------------------------
// Copies.

/// A copy of `e`.
fn clone_expression(e: &Expression) -> (r: Expression)
    ensures
        r@ == e@,
    decreases *e,
{
    match e {
        Expression::Normal(s) => Expression::Normal(s.clone()),
        Expression::Conditional(c) => Expression::Conditional(
            Box::new(
                Conditional {
                    condition: clone_expression(&c.condition),
                    true_value: clone_expression(&c.true_value),
                    false_value: clone_expression(&c.false_value),
                },
            ),
        ),
        Expression::FunctionCall(f) => Expression::FunctionCall(Box::new(clone_function(f))),
    }
}

/// A copy of `f`.
fn clone_function(f: &DebugFunction) -> (r: DebugFunction)
    ensures
        r@ == f@,
    decreases *f,
{
    match f {
        DebugFunction::Read8 { addr } => DebugFunction::Read8 { addr: clone_expression(addr) },
        DebugFunction::Read16 { addr } => DebugFunction::Read16 { addr: clone_expression(addr) },
        DebugFunction::Read32 { addr } => DebugFunction::Read32 { addr: clone_expression(addr) },
        DebugFunction::Read64 { addr } => DebugFunction::Read64 { addr: clone_expression(addr) },
        DebugFunction::Write8 { addr, val } => DebugFunction::Write8 { addr: clone_expression(addr), val: clone_expression(val) },
        DebugFunction::Write16 { addr, val } => DebugFunction::Write16 { addr: clone_expression(addr), val: clone_expression(val) },
        DebugFunction::Write32 { addr, val } => DebugFunction::Write32 { addr: clone_expression(addr), val: clone_expression(val) },
        DebugFunction::Write64 { addr, val } => DebugFunction::Write64 { addr: clone_expression(addr), val: clone_expression(val) },
        DebugFunction::ReadAP { addr } => DebugFunction::ReadAP { addr: clone_expression(addr) },
        DebugFunction::WriteAP { addr, val } => DebugFunction::WriteAP { addr: clone_expression(addr), val: clone_expression(val) },
        DebugFunction::ReadDP { addr } => DebugFunction::ReadDP { addr: clone_expression(addr) },
        DebugFunction::WriteDP { addr, val } => DebugFunction::WriteDP { addr: clone_expression(addr), val: clone_expression(val) },
        DebugFunction::ReadAccessAP { addr } => DebugFunction::ReadAccessAP { addr: clone_expression(addr) },
        DebugFunction::WriteAccessAP { addr, val } => DebugFunction::WriteAccessAP { addr: clone_expression(addr), val: clone_expression(val) },
        DebugFunction::DapDelay { delay } => DebugFunction::DapDelay { delay: clone_expression(delay) },
        DebugFunction::DapWriteAbort { value } => DebugFunction::DapWriteAbort { value: clone_expression(value) },
        DebugFunction::DapSwjPins { pinout, pinselect, pinwait } => DebugFunction::DapSwjPins { pinout: clone_expression(pinout), pinselect: clone_expression(pinselect), pinwait: clone_expression(pinwait) },
        DebugFunction::DapSwjClock { val } => DebugFunction::DapSwjClock { val: clone_expression(val) },
        DebugFunction::DapSwjSequence { cnt, val } => DebugFunction::DapSwjSequence { cnt: clone_expression(cnt), val: clone_expression(val) },
        DebugFunction::DapJtagSequence { cnt, tms, tdi } => DebugFunction::DapJtagSequence { cnt: clone_expression(cnt), tms: clone_expression(tms), tdi: clone_expression(tdi) },
        DebugFunction::Sequence { name } => DebugFunction::Sequence { name: clone_expression(name) },
        DebugFunction::Query { query_type, message, default } => DebugFunction::Query { query_type: clone_expression(query_type), message: clone_expression(message), default: clone_expression(default) },
        DebugFunction::QueryValue { message, default } => DebugFunction::QueryValue { message: clone_expression(message), default: clone_expression(default) },
        DebugFunction::Message { msg_type, format, args } => {
            let mut copy: Vec<Expression> = Vec::new();
            let mut i: usize = 0;
            let ghost g = *f;
            while i < args.len()
                invariant
                    g == *f,
                    g is Message,
                    g->Message_args == *args,
                    i <= args@.len(),
                    copy@.len() == i,
                    forall|j: int| 0 <= j < i ==> (#[trigger] copy@[j])@ == args@[j]@,
                decreases args@.len() - i,
            {
                proof {
                    assert(decreases_to!(g => g->Message_args));
                    assert(decreases_to!(g->Message_args => g->Message_args@));
                    assert(decreases_to!(g->Message_args@ => g->Message_args@[i as int]));
                }
                copy.push(clone_expression(&args[i]));
                i = i + 1;
            }
            let r = DebugFunction::Message {
                msg_type: clone_expression(msg_type),
                format: clone_expression(format),
                args: copy,
            };
            assert(function_args(r) =~= function_args(*f));
            r
        },
        DebugFunction::FlashWriteBuffer { addr, offs, len, mode } => DebugFunction::FlashWriteBuffer { addr: clone_expression(addr), offs: clone_expression(offs), len: clone_expression(len), mode: clone_expression(mode) },
        DebugFunction::FlashLoadAlgorithm { algo_path, ram_start, ram_size } => DebugFunction::FlashLoadAlgorithm { algo_path: clone_expression(algo_path), ram_start: clone_expression(ram_start), ram_size: clone_expression(ram_size) },
        DebugFunction::BufferSet { buff_id, buff_offset, count, size, value } => DebugFunction::BufferSet { buff_id: clone_expression(buff_id), buff_offset: clone_expression(buff_offset), count: clone_expression(count), size: clone_expression(size), value: clone_expression(value) },
        DebugFunction::BufferGet { buff_id, buff_offset, size } => DebugFunction::BufferGet { buff_id: clone_expression(buff_id), buff_offset: clone_expression(buff_offset), size: clone_expression(size) },
        DebugFunction::BufferSize { buff_id } => DebugFunction::BufferSize { buff_id: clone_expression(buff_id) },
        DebugFunction::BufferRead { buff_id, buff_offset, addr, length, mode } => DebugFunction::BufferRead { buff_id: clone_expression(buff_id), buff_offset: clone_expression(buff_offset), addr: clone_expression(addr), length: clone_expression(length), mode: clone_expression(mode) },
        DebugFunction::BufferWrite { buff_id, buff_offset, addr, length, mode } => DebugFunction::BufferWrite { buff_id: clone_expression(buff_id), buff_offset: clone_expression(buff_offset), addr: clone_expression(addr), length: clone_expression(length), mode: clone_expression(mode) },
        DebugFunction::BufferStreamIn { buff_id, buff_offset, length, path, mode, timeout } => DebugFunction::BufferStreamIn { buff_id: clone_expression(buff_id), buff_offset: clone_expression(buff_offset), length: clone_expression(length), path: clone_expression(path), mode: clone_expression(mode), timeout: clone_expression(timeout) },
        DebugFunction::BufferStreamOut { buff_id, buff_offset, length, dest_path, dest_mode, timeout } => DebugFunction::BufferStreamOut { buff_id: clone_expression(buff_id), buff_offset: clone_expression(buff_offset), length: clone_expression(length), dest_path: clone_expression(dest_path), dest_mode: clone_expression(dest_mode), timeout: clone_expression(timeout) },
        DebugFunction::RunApplication { app_path, arguments, work_directory, timeout } => DebugFunction::RunApplication { app_path: clone_expression(app_path), arguments: clone_expression(arguments), work_directory: clone_expression(work_directory), timeout: clone_expression(timeout) },
        DebugFunction::RunPythonScript { script_path, arguments, work_directory, timeout } => DebugFunction::RunPythonScript { script_path: clone_expression(script_path), arguments: clone_expression(arguments), work_directory: clone_expression(work_directory), timeout: clone_expression(timeout) },
        DebugFunction::FilePathExists { path, timeout } => DebugFunction::FilePathExists { path: clone_expression(path), timeout: clone_expression(timeout) },
        DebugFunction::LoadDebugInfo { file } => DebugFunction::LoadDebugInfo { file: clone_expression(file) },
    }
}

impl Clone for Expression {
    fn clone(&self) -> (r: Self)
        ensures
            r@ == self@,
    {
        clone_expression(self)
    }
}

impl Clone for Conditional {
    fn clone(&self) -> (r: Self)
        ensures
            r@ == self@,
    {
        Conditional {
            condition: clone_expression(&self.condition),
            true_value: clone_expression(&self.true_value),
            false_value: clone_expression(&self.false_value),
        }
    }
}

impl Clone for DebugFunction {
    fn clone(&self) -> (r: Self)
        ensures
            r@ == self@,
    {
        clone_function(self)
    }
}

impl Clone for Assignment {
    fn clone(&self) -> (r: Self)
        ensures
            r@ == self@,
    {
        Assignment { variable: self.variable.clone(), expression: clone_expression(&self.expression) }
    }
}

impl Clone for Statement {
    fn clone(&self) -> (r: Self)
        ensures
            r@ == self@,
    {
        match self {
            Statement::Expression(e) => Statement::Expression(clone_expression(e)),
            Statement::Assignment(a) => Statement::Assignment(
                Assignment { variable: a.variable.clone(), expression: clone_expression(&a.expression) },
            ),
            Statement::Definition(a) => Statement::Definition(
                Assignment { variable: a.variable.clone(), expression: clone_expression(&a.expression) },
            ),
            Statement::Comment(c) => Statement::Comment(c.clone()),
        }
    }
}

// ---------------------------------------------------------------------------
// Laws.

/// A statement reads the same with and without one `;` at its end: for any
/// trimmed text that does not end with `;` and is no comment, appending `;`
/// changes nothing.
pub proof fn lemma_semicolon_insensitive(t: Seq<char>)
    requires
        trim(t) == t,
        !(t.len() > 0 && t.last() == ';'),
        !starts_with(t, "//"@),
    ensures
        parse_statement(t.push(';')) == parse_statement(t),
{
    reveal_strlit("//");
    reveal_strlit(";");
    let u = t.push(';');
    assert(";"@.len() == 1);
    assert(!is_ws(';'));
    assert(trim_start(u) == u) by {
        if t.len() > 0 {
            lemma_trim_start_nonblank(t);
            lemma_trim_start_suffix(t);
            assert(!is_ws(t[0]));
            assert(u[0] == t[0]);
        }
    }
    assert(trim_end(u) == u);
    assert(trim(u) == u);
    assert("//"@.len() == 2 && "//"@[1] == '/');
    if t.len() < 2 {
        if u.len() >= 2 {
            assert(u.subrange(0, 2)[1] == u[1]);
            assert(u[1] == ';');
        }
        assert(!starts_with(u, "//"@));
    } else {
        assert(u.subrange(0, 2) =~= t.subrange(0, 2));
    }
    assert(u.drop_last() =~= t);
}

/// `trim_start` leaves a sequence alone when its first character is no
/// whitespace.
proof fn lemma_trim_start_nonblank(t: Seq<char>)
    requires
        trim_end(trim_start(t)) == t,
        t.len() > 0,
    ensures
        trim_start(t) == t,
{
    lemma_trim_end_prefix(trim_start(t));
    lemma_trim_start_suffix(t);
    assert(trim_start(t).len() == t.len());
    assert(t.subrange(0, t.len() as int) =~= t);
}

/// `trim_end(s)` is a prefix of `s`.
proof fn lemma_trim_end_prefix(s: Seq<char>)
    ensures
        trim_end(s).len() <= s.len(),
        trim_end(s) == s.subrange(0, trim_end(s).len() as int),
    decreases s.len(),
{
    if s.len() > 0 && is_ws(s.last()) {
        lemma_trim_end_prefix(s.drop_last());
        assert(s.drop_last().subrange(0, trim_end(s).len() as int) =~= s.subrange(
            0,
            trim_end(s).len() as int,
        ));
    } else {
        assert(s.subrange(0, s.len() as int) =~= s);
    }
}

/// `trim_start(s)` is a suffix of `s`, and shorter when `s` starts with
/// whitespace.
proof fn lemma_trim_start_suffix(s: Seq<char>)
    ensures
        trim_start(s).len() <= s.len(),
        s.len() > 0 && is_ws(s[0]) ==> trim_start(s).len() < s.len(),
        trim_start(s) == s.subrange(s.len() - trim_start(s).len(), s.len() as int),
    decreases s.len(),
{
    if s.len() > 0 && is_ws(s[0]) {
        lemma_trim_start_suffix(s.drop_first());
        let k = trim_start(s).len();
        assert(s.drop_first().subrange(s.len() - 1 - k, s.len() - 1) =~= s.subrange(
            s.len() - k,
            s.len() as int,
        ));
    } else {
        assert(s.subrange(0, s.len() as int) =~= s);
    }
}

/// A call of a name that is no debug function is refused with that name,
/// whatever its arguments.
pub proof fn lemma_unknown_function(name: Seq<char>, args: Seq<ExpressionModel>)
    requires
        function_arity(name) is None,
        name != "Message"@,
    ensures
        function_from_call(name, args) == Err::<(Seq<char>, Seq<ExpressionModel>), DebugErrorModel>(
            DebugErrorModel::UnknownStatement(name),
        ),
{
}

/// Every debug function is accepted back by the function table under the
/// name it prints with and with the arguments it prints: printing a call
/// and reading the call back gives the same function.
pub proof fn lemma_function_names_parse_back(f: DebugFunction)
    ensures
        function_from_call(function_name(f), function_args(f)) == Ok::<
            (Seq<char>, Seq<ExpressionModel>),
            DebugErrorModel,
        >((function_name(f), function_args(f))),
{
    match f {
        DebugFunction::Read8 { .. } => {
            reveal_strlit("Message");
            reveal_strlit("Read8");
            assert("Read8"@.len() == 5 && "Message"@.len() == 7);
        },
        DebugFunction::Read16 { .. } => {
            reveal_strlit("Message");
            reveal_strlit("Read16");
            reveal_strlit("Read8");
            assert("Read16"@.len() == 6 && "Message"@.len() == 7);
            assert("Read16"@.len() == 6 && "Read8"@.len() == 5);
        },
        DebugFunction::Read32 { .. } => {
            reveal_strlit("Message");
            reveal_strlit("Read16");
            reveal_strlit("Read32");
            reveal_strlit("Read8");
            assert("Read32"@.len() == 6 && "Message"@.len() == 7);
            assert("Read32"@.len() == 6 && "Read8"@.len() == 5);
            assert("Read32"@[4] != "Read16"@[4]);
        },
        DebugFunction::Read64 { .. } => {
            reveal_strlit("Message");
            reveal_strlit("Read16");
            reveal_strlit("Read32");
            reveal_strlit("Read64");
            reveal_strlit("Read8");
            assert("Read64"@.len() == 6 && "Message"@.len() == 7);
            assert("Read64"@.len() == 6 && "Read8"@.len() == 5);
            assert("Read64"@[4] != "Read16"@[4]);
            assert("Read64"@[4] != "Read32"@[4]);
        },
        DebugFunction::Write8 { .. } => {
            reveal_strlit("Message");
            reveal_strlit("Read16");
            reveal_strlit("Read32");
            reveal_strlit("Read64");
            reveal_strlit("Read8");
            reveal_strlit("Write8");
            assert("Write8"@.len() == 6 && "Message"@.len() == 7);
            assert("Write8"@.len() == 6 && "Read8"@.len() == 5);
            assert("Write8"@[0] != "Read16"@[0]);
            assert("Write8"@[0] != "Read32"@[0]);
            assert("Write8"@[0] != "Read64"@[0]);
        },
        DebugFunction::Write16 { .. } => {
            reveal_strlit("Message");
            reveal_strlit("Read16");
            reveal_strlit("Read32");
            reveal_strlit("Read64");
            reveal_strlit("Read8");
            reveal_strlit("Write16");
            reveal_strlit("Write8");
            assert("Write16"@[0] != "Message"@[0]);
            assert("Write16"@.len() == 7 && "Read8"@.len() == 5);
            assert("Write16"@.len() == 7 && "Read16"@.len() == 6);
            assert("Write16"@.len() == 7 && "Read32"@.len() == 6);
            assert("Write16"@.len() == 7 && "Read64"@.len() == 6);
            assert("Write16"@.len() == 7 && "Write8"@.len() == 6);
        },
        DebugFunction::Write32 { .. } => {
            reveal_strlit("Message");
            reveal_strlit("Read16");
            reveal_strlit("Read32");
            reveal_strlit("Read64");
            reveal_strlit("Read8");
            reveal_strlit("Write16");
            reveal_strlit("Write32");
            reveal_strlit("Write8");
            assert("Write32"@[0] != "Message"@[0]);
            assert("Write32"@.len() == 7 && "Read8"@.len() == 5);
            assert("Write32"@.len() == 7 && "Read16"@.len() == 6);
            assert("Write32"@.len() == 7 && "Read32"@.len() == 6);
            assert("Write32"@.len() == 7 && "Read64"@.len() == 6);
            assert("Write32"@.len() == 7 && "Write8"@.len() == 6);
            assert("Write32"@[5] != "Write16"@[5]);
        },
        DebugFunction::Write64 { .. } => {
            reveal_strlit("Message");
            reveal_strlit("Read16");
            reveal_strlit("Read32");
            reveal_strlit("Read64");
            reveal_strlit("Read8");
            reveal_strlit("Write16");
            reveal_strlit("Write32");
            reveal_strlit("Write64");
            reveal_strlit("Write8");
            assert("Write64"@[0] != "Message"@[0]);
            assert("Write64"@.len() == 7 && "Read8"@.len() == 5);
            assert("Write64"@.len() == 7 && "Read16"@.len() == 6);
            assert("Write64"@.len() == 7 && "Read32"@.len() == 6);
            assert("Write64"@.len() == 7 && "Read64"@.len() == 6);
            assert("Write64"@.len() == 7 && "Write8"@.len() == 6);
            assert("Write64"@[5] != "Write16"@[5]);
            assert("Write64"@[5] != "Write32"@[5]);
        },
        DebugFunction::ReadAP { .. } => {
            reveal_strlit("Message");
            reveal_strlit("Read16");
            reveal_strlit("Read32");
            reveal_strlit("Read64");
            reveal_strlit("Read8");
            reveal_strlit("ReadAP");
            reveal_strlit("Write16");
            reveal_strlit("Write32");
            reveal_strlit("Write64");
            reveal_strlit("Write8");
            assert("ReadAP"@.len() == 6 && "Message"@.len() == 7);
            assert("ReadAP"@.len() == 6 && "Read8"@.len() == 5);
            assert("ReadAP"@[4] != "Read16"@[4]);
            assert("ReadAP"@[4] != "Read32"@[4]);
            assert("ReadAP"@[4] != "Read64"@[4]);
            assert("ReadAP"@[0] != "Write8"@[0]);
            assert("ReadAP"@.len() == 6 && "Write16"@.len() == 7);
            assert("ReadAP"@.len() == 6 && "Write32"@.len() == 7);
            assert("ReadAP"@.len() == 6 && "Write64"@.len() == 7);
        },
        DebugFunction::WriteAP { .. } => {
            reveal_strlit("Message");
            reveal_strlit("Read16");
            reveal_strlit("Read32");
            reveal_strlit("Read64");
            reveal_strlit("Read8");
            reveal_strlit("ReadAP");
            reveal_strlit("Write16");
            reveal_strlit("Write32");
            reveal_strlit("Write64");
            reveal_strlit("Write8");
            reveal_strlit("WriteAP");
            assert("WriteAP"@[0] != "Message"@[0]);
            assert("WriteAP"@.len() == 7 && "Read8"@.len() == 5);
            assert("WriteAP"@.len() == 7 && "Read16"@.len() == 6);
            assert("WriteAP"@.len() == 7 && "Read32"@.len() == 6);
            assert("WriteAP"@.len() == 7 && "Read64"@.len() == 6);
            assert("WriteAP"@.len() == 7 && "Write8"@.len() == 6);
            assert("WriteAP"@[5] != "Write16"@[5]);
            assert("WriteAP"@[5] != "Write32"@[5]);
            assert("WriteAP"@[5] != "Write64"@[5]);
            assert("WriteAP"@.len() == 7 && "ReadAP"@.len() == 6);
        },
        DebugFunction::ReadDP { .. } => {
            reveal_strlit("Message");
            reveal_strlit("Read16");
            reveal_strlit("Read32");
            reveal_strlit("Read64");
            reveal_strlit("Read8");
            reveal_strlit("ReadAP");
            reveal_strlit("ReadDP");
            reveal_strlit("Write16");
            reveal_strlit("Write32");
            reveal_strlit("Write64");
            reveal_strlit("Write8");
            reveal_strlit("WriteAP");
            assert("ReadDP"@.len() == 6 && "Message"@.len() == 7);
            assert("ReadDP"@.len() == 6 && "Read8"@.len() == 5);
            assert("ReadDP"@[4] != "Read16"@[4]);
            assert("ReadDP"@[4] != "Read32"@[4]);
            assert("ReadDP"@[4] != "Read64"@[4]);
            assert("ReadDP"@[0] != "Write8"@[0]);
            assert("ReadDP"@.len() == 6 && "Write16"@.len() == 7);
            assert("ReadDP"@.len() == 6 && "Write32"@.len() == 7);
            assert("ReadDP"@.len() == 6 && "Write64"@.len() == 7);
            assert("ReadDP"@[4] != "ReadAP"@[4]);
            assert("ReadDP"@.len() == 6 && "WriteAP"@.len() == 7);
        },
        DebugFunction::WriteDP { .. } => {
            reveal_strlit("Message");
            reveal_strlit("Read16");
            reveal_strlit("Read32");
            reveal_strlit("Read64");
            reveal_strlit("Read8");
            reveal_strlit("ReadAP");
            reveal_strlit("ReadDP");
            reveal_strlit("Write16");
            reveal_strlit("Write32");
            reveal_strlit("Write64");
            reveal_strlit("Write8");
            reveal_strlit("WriteAP");
            reveal_strlit("WriteDP");
            assert("WriteDP"@[0] != "Message"@[0]);
            assert("WriteDP"@.len() == 7 && "Read8"@.len() == 5);
            assert("WriteDP"@.len() == 7 && "Read16"@.len() == 6);
            assert("WriteDP"@.len() == 7 && "Read32"@.len() == 6);
            assert("WriteDP"@.len() == 7 && "Read64"@.len() == 6);
            assert("WriteDP"@.len() == 7 && "Write8"@.len() == 6);
            assert("WriteDP"@[5] != "Write16"@[5]);
            assert("WriteDP"@[5] != "Write32"@[5]);
            assert("WriteDP"@[5] != "Write64"@[5]);
            assert("WriteDP"@.len() == 7 && "ReadAP"@.len() == 6);
            assert("WriteDP"@[5] != "WriteAP"@[5]);
            assert("WriteDP"@.len() == 7 && "ReadDP"@.len() == 6);
        },
        DebugFunction::ReadAccessAP { .. } => {
            reveal_strlit("Message");
            reveal_strlit("Read16");
            reveal_strlit("Read32");
            reveal_strlit("Read64");
            reveal_strlit("Read8");
            reveal_strlit("ReadAP");
            reveal_strlit("ReadAccessAP");
            reveal_strlit("ReadDP");
            reveal_strlit("Write16");
            reveal_strlit("Write32");
            reveal_strlit("Write64");
            reveal_strlit("Write8");
            reveal_strlit("WriteAP");
            reveal_strlit("WriteDP");
            assert("ReadAccessAP"@.len() == 12 && "Message"@.len() == 7);
            assert("ReadAccessAP"@.len() == 12 && "Read8"@.len() == 5);
            assert("ReadAccessAP"@.len() == 12 && "Read16"@.len() == 6);
            assert("ReadAccessAP"@.len() == 12 && "Read32"@.len() == 6);
            assert("ReadAccessAP"@.len() == 12 && "Read64"@.len() == 6);
            assert("ReadAccessAP"@.len() == 12 && "Write8"@.len() == 6);
            assert("ReadAccessAP"@.len() == 12 && "Write16"@.len() == 7);
            assert("ReadAccessAP"@.len() == 12 && "Write32"@.len() == 7);
            assert("ReadAccessAP"@.len() == 12 && "Write64"@.len() == 7);
            assert("ReadAccessAP"@.len() == 12 && "ReadAP"@.len() == 6);
            assert("ReadAccessAP"@.len() == 12 && "WriteAP"@.len() == 7);
            assert("ReadAccessAP"@.len() == 12 && "ReadDP"@.len() == 6);
            assert("ReadAccessAP"@.len() == 12 && "WriteDP"@.len() == 7);
        },
        DebugFunction::WriteAccessAP { .. } => {
            reveal_strlit("Message");
            reveal_strlit("Read16");
            reveal_strlit("Read32");
            reveal_strlit("Read64");
            reveal_strlit("Read8");
            reveal_strlit("ReadAP");
            reveal_strlit("ReadAccessAP");
            reveal_strlit("ReadDP");
            reveal_strlit("Write16");
            reveal_strlit("Write32");
            reveal_strlit("Write64");
            reveal_strlit("Write8");
            reveal_strlit("WriteAP");
            reveal_strlit("WriteAccessAP");
            reveal_strlit("WriteDP");
            assert("WriteAccessAP"@.len() == 13 && "Message"@.len() == 7);
            assert("WriteAccessAP"@.len() == 13 && "Read8"@.len() == 5);
            assert("WriteAccessAP"@.len() == 13 && "Read16"@.len() == 6);
            assert("WriteAccessAP"@.len() == 13 && "Read32"@.len() == 6);
            assert("WriteAccessAP"@.len() == 13 && "Read64"@.len() == 6);
            assert("WriteAccessAP"@.len() == 13 && "Write8"@.len() == 6);
            assert("WriteAccessAP"@.len() == 13 && "Write16"@.len() == 7);
            assert("WriteAccessAP"@.len() == 13 && "Write32"@.len() == 7);
            assert("WriteAccessAP"@.len() == 13 && "Write64"@.len() == 7);
            assert("WriteAccessAP"@.len() == 13 && "ReadAP"@.len() == 6);
            assert("WriteAccessAP"@.len() == 13 && "WriteAP"@.len() == 7);
            assert("WriteAccessAP"@.len() == 13 && "ReadDP"@.len() == 6);
            assert("WriteAccessAP"@.len() == 13 && "WriteDP"@.len() == 7);
            assert("WriteAccessAP"@.len() == 13 && "ReadAccessAP"@.len() == 12);
        },
        DebugFunction::DapDelay { .. } => {
            reveal_strlit("DAP_Delay");
            reveal_strlit("Message");
            reveal_strlit("Read16");
            reveal_strlit("Read32");
            reveal_strlit("Read64");
            reveal_strlit("Read8");
            reveal_strlit("ReadAP");
            reveal_strlit("ReadAccessAP");
            reveal_strlit("ReadDP");
            reveal_strlit("Write16");
            reveal_strlit("Write32");
            reveal_strlit("Write64");
            reveal_strlit("Write8");
            reveal_strlit("WriteAP");
            reveal_strlit("WriteAccessAP");
            reveal_strlit("WriteDP");
            assert("DAP_Delay"@.len() == 9 && "Message"@.len() == 7);
            assert("DAP_Delay"@.len() == 9 && "Read8"@.len() == 5);
            assert("DAP_Delay"@.len() == 9 && "Read16"@.len() == 6);
            assert("DAP_Delay"@.len() == 9 && "Read32"@.len() == 6);
            assert("DAP_Delay"@.len() == 9 && "Read64"@.len() == 6);
            assert("DAP_Delay"@.len() == 9 && "Write8"@.len() == 6);
            assert("DAP_Delay"@.len() == 9 && "Write16"@.len() == 7);
            assert("DAP_Delay"@.len() == 9 && "Write32"@.len() == 7);
            assert("DAP_Delay"@.len() == 9 && "Write64"@.len() == 7);
            assert("DAP_Delay"@.len() == 9 && "ReadAP"@.len() == 6);
            assert("DAP_Delay"@.len() == 9 && "WriteAP"@.len() == 7);
            assert("DAP_Delay"@.len() == 9 && "ReadDP"@.len() == 6);
            assert("DAP_Delay"@.len() == 9 && "WriteDP"@.len() == 7);
            assert("DAP_Delay"@.len() == 9 && "ReadAccessAP"@.len() == 12);
            assert("DAP_Delay"@.len() == 9 && "WriteAccessAP"@.len() == 13);
        },
        DebugFunction::DapWriteAbort { .. } => {
            reveal_strlit("DAP_Delay");
            reveal_strlit("DAP_WriteABORT");
            reveal_strlit("Message");
            reveal_strlit("Read16");
            reveal_strlit("Read32");
            reveal_strlit("Read64");
            reveal_strlit("Read8");
            reveal_strlit("ReadAP");
            reveal_strlit("ReadAccessAP");
            reveal_strlit("ReadDP");
            reveal_strlit("Write16");
            reveal_strlit("Write32");
            reveal_strlit("Write64");
            reveal_strlit("Write8");
            reveal_strlit("WriteAP");
            reveal_strlit("WriteAccessAP");
            reveal_strlit("WriteDP");
            assert("DAP_WriteABORT"@.len() == 14 && "Message"@.len() == 7);
            assert("DAP_WriteABORT"@.len() == 14 && "Read8"@.len() == 5);
            assert("DAP_WriteABORT"@.len() == 14 && "Read16"@.len() == 6);
            assert("DAP_WriteABORT"@.len() == 14 && "Read32"@.len() == 6);
            assert("DAP_WriteABORT"@.len() == 14 && "Read64"@.len() == 6);
            assert("DAP_WriteABORT"@.len() == 14 && "Write8"@.len() == 6);
            assert("DAP_WriteABORT"@.len() == 14 && "Write16"@.len() == 7);
            assert("DAP_WriteABORT"@.len() == 14 && "Write32"@.len() == 7);
            assert("DAP_WriteABORT"@.len() == 14 && "Write64"@.len() == 7);
            assert("DAP_WriteABORT"@.len() == 14 && "ReadAP"@.len() == 6);
            assert("DAP_WriteABORT"@.len() == 14 && "WriteAP"@.len() == 7);
            assert("DAP_WriteABORT"@.len() == 14 && "ReadDP"@.len() == 6);
            assert("DAP_WriteABORT"@.len() == 14 && "WriteDP"@.len() == 7);
            assert("DAP_WriteABORT"@.len() == 14 && "ReadAccessAP"@.len() == 12);
            assert("DAP_WriteABORT"@.len() == 14 && "WriteAccessAP"@.len() == 13);
            assert("DAP_WriteABORT"@.len() == 14 && "DAP_Delay"@.len() == 9);
        },
        DebugFunction::DapSwjPins { .. } => {
            reveal_strlit("DAP_Delay");
            reveal_strlit("DAP_SWJ_Pins");
            reveal_strlit("DAP_WriteABORT");
            reveal_strlit("Message");
            reveal_strlit("Read16");
            reveal_strlit("Read32");
            reveal_strlit("Read64");
            reveal_strlit("Read8");
            reveal_strlit("ReadAP");
            reveal_strlit("ReadAccessAP");
            reveal_strlit("ReadDP");
            reveal_strlit("Write16");
            reveal_strlit("Write32");
            reveal_strlit("Write64");
            reveal_strlit("Write8");
            reveal_strlit("WriteAP");
            reveal_strlit("WriteAccessAP");
            reveal_strlit("WriteDP");
            assert("DAP_SWJ_Pins"@.len() == 12 && "Message"@.len() == 7);
            assert("DAP_SWJ_Pins"@.len() == 12 && "Read8"@.len() == 5);
            assert("DAP_SWJ_Pins"@.len() == 12 && "Read16"@.len() == 6);
            assert("DAP_SWJ_Pins"@.len() == 12 && "Read32"@.len() == 6);
            assert("DAP_SWJ_Pins"@.len() == 12 && "Read64"@.len() == 6);
            assert("DAP_SWJ_Pins"@.len() == 12 && "Write8"@.len() == 6);
            assert("DAP_SWJ_Pins"@.len() == 12 && "Write16"@.len() == 7);
            assert("DAP_SWJ_Pins"@.len() == 12 && "Write32"@.len() == 7);
            assert("DAP_SWJ_Pins"@.len() == 12 && "Write64"@.len() == 7);
            assert("DAP_SWJ_Pins"@.len() == 12 && "ReadAP"@.len() == 6);
            assert("DAP_SWJ_Pins"@.len() == 12 && "WriteAP"@.len() == 7);
            assert("DAP_SWJ_Pins"@.len() == 12 && "ReadDP"@.len() == 6);
            assert("DAP_SWJ_Pins"@.len() == 12 && "WriteDP"@.len() == 7);
            assert("DAP_SWJ_Pins"@[0] != "ReadAccessAP"@[0]);
            assert("DAP_SWJ_Pins"@.len() == 12 && "WriteAccessAP"@.len() == 13);
            assert("DAP_SWJ_Pins"@.len() == 12 && "DAP_Delay"@.len() == 9);
            assert("DAP_SWJ_Pins"@.len() == 12 && "DAP_WriteABORT"@.len() == 14);
        },
        DebugFunction::DapSwjClock { .. } => {
            reveal_strlit("DAP_Delay");
            reveal_strlit("DAP_SWJ_Clock");
            reveal_strlit("DAP_SWJ_Pins");
            reveal_strlit("DAP_WriteABORT");
            reveal_strlit("Message");
            reveal_strlit("Read16");
            reveal_strlit("Read32");
            reveal_strlit("Read64");
            reveal_strlit("Read8");
            reveal_strlit("ReadAP");
            reveal_strlit("ReadAccessAP");
            reveal_strlit("ReadDP");
            reveal_strlit("Write16");
            reveal_strlit("Write32");
            reveal_strlit("Write64");
            reveal_strlit("Write8");
            reveal_strlit("WriteAP");
            reveal_strlit("WriteAccessAP");
            reveal_strlit("WriteDP");
            assert("DAP_SWJ_Clock"@.len() == 13 && "Message"@.len() == 7);
            assert("DAP_SWJ_Clock"@.len() == 13 && "Read8"@.len() == 5);
            assert("DAP_SWJ_Clock"@.len() == 13 && "Read16"@.len() == 6);
            assert("DAP_SWJ_Clock"@.len() == 13 && "Read32"@.len() == 6);
            assert("DAP_SWJ_Clock"@.len() == 13 && "Read64"@.len() == 6);
            assert("DAP_SWJ_Clock"@.len() == 13 && "Write8"@.len() == 6);
            assert("DAP_SWJ_Clock"@.len() == 13 && "Write16"@.len() == 7);
            assert("DAP_SWJ_Clock"@.len() == 13 && "Write32"@.len() == 7);
            assert("DAP_SWJ_Clock"@.len() == 13 && "Write64"@.len() == 7);
            assert("DAP_SWJ_Clock"@.len() == 13 && "ReadAP"@.len() == 6);
            assert("DAP_SWJ_Clock"@.len() == 13 && "WriteAP"@.len() == 7);
            assert("DAP_SWJ_Clock"@.len() == 13 && "ReadDP"@.len() == 6);
            assert("DAP_SWJ_Clock"@.len() == 13 && "WriteDP"@.len() == 7);
            assert("DAP_SWJ_Clock"@.len() == 13 && "ReadAccessAP"@.len() == 12);
            assert("DAP_SWJ_Clock"@[0] != "WriteAccessAP"@[0]);
            assert("DAP_SWJ_Clock"@.len() == 13 && "DAP_Delay"@.len() == 9);
            assert("DAP_SWJ_Clock"@.len() == 13 && "DAP_WriteABORT"@.len() == 14);
            assert("DAP_SWJ_Clock"@.len() == 13 && "DAP_SWJ_Pins"@.len() == 12);
        },
        DebugFunction::DapSwjSequence { .. } => {
            reveal_strlit("DAP_Delay");
            reveal_strlit("DAP_SWJ_Clock");
            reveal_strlit("DAP_SWJ_Pins");
            reveal_strlit("DAP_SWJ_Sequence");
            reveal_strlit("DAP_WriteABORT");
            reveal_strlit("Message");
            reveal_strlit("Read16");
            reveal_strlit("Read32");
            reveal_strlit("Read64");
            reveal_strlit("Read8");
            reveal_strlit("ReadAP");
            reveal_strlit("ReadAccessAP");
            reveal_strlit("ReadDP");
            reveal_strlit("Write16");
            reveal_strlit("Write32");
            reveal_strlit("Write64");
            reveal_strlit("Write8");
            reveal_strlit("WriteAP");
            reveal_strlit("WriteAccessAP");
            reveal_strlit("WriteDP");
            assert("DAP_SWJ_Sequence"@.len() == 16 && "Message"@.len() == 7);
            assert("DAP_SWJ_Sequence"@.len() == 16 && "Read8"@.len() == 5);
            assert("DAP_SWJ_Sequence"@.len() == 16 && "Read16"@.len() == 6);
            assert("DAP_SWJ_Sequence"@.len() == 16 && "Read32"@.len() == 6);
            assert("DAP_SWJ_Sequence"@.len() == 16 && "Read64"@.len() == 6);
            assert("DAP_SWJ_Sequence"@.len() == 16 && "Write8"@.len() == 6);
            assert("DAP_SWJ_Sequence"@.len() == 16 && "Write16"@.len() == 7);
            assert("DAP_SWJ_Sequence"@.len() == 16 && "Write32"@.len() == 7);
            assert("DAP_SWJ_Sequence"@.len() == 16 && "Write64"@.len() == 7);
            assert("DAP_SWJ_Sequence"@.len() == 16 && "ReadAP"@.len() == 6);
            assert("DAP_SWJ_Sequence"@.len() == 16 && "WriteAP"@.len() == 7);
            assert("DAP_SWJ_Sequence"@.len() == 16 && "ReadDP"@.len() == 6);
            assert("DAP_SWJ_Sequence"@.len() == 16 && "WriteDP"@.len() == 7);
            assert("DAP_SWJ_Sequence"@.len() == 16 && "ReadAccessAP"@.len() == 12);
            assert("DAP_SWJ_Sequence"@.len() == 16 && "WriteAccessAP"@.len() == 13);
            assert("DAP_SWJ_Sequence"@.len() == 16 && "DAP_Delay"@.len() == 9);
            assert("DAP_SWJ_Sequence"@.len() == 16 && "DAP_WriteABORT"@.len() == 14);
            assert("DAP_SWJ_Sequence"@.len() == 16 && "DAP_SWJ_Pins"@.len() == 12);
            assert("DAP_SWJ_Sequence"@.len() == 16 && "DAP_SWJ_Clock"@.len() == 13);
        },
        DebugFunction::DapJtagSequence { .. } => {
            reveal_strlit("DAP_Delay");
            reveal_strlit("DAP_JTAG_Sequence");
            reveal_strlit("DAP_SWJ_Clock");
            reveal_strlit("DAP_SWJ_Pins");
            reveal_strlit("DAP_SWJ_Sequence");
            reveal_strlit("DAP_WriteABORT");
            reveal_strlit("Message");
            reveal_strlit("Read16");
            reveal_strlit("Read32");
            reveal_strlit("Read64");
            reveal_strlit("Read8");
            reveal_strlit("ReadAP");
            reveal_strlit("ReadAccessAP");
            reveal_strlit("ReadDP");
            reveal_strlit("Write16");
            reveal_strlit("Write32");
            reveal_strlit("Write64");
            reveal_strlit("Write8");
            reveal_strlit("WriteAP");
            reveal_strlit("WriteAccessAP");
            reveal_strlit("WriteDP");
            assert("DAP_JTAG_Sequence"@.len() == 17 && "Message"@.len() == 7);
            assert("DAP_JTAG_Sequence"@.len() == 17 && "Read8"@.len() == 5);
            assert("DAP_JTAG_Sequence"@.len() == 17 && "Read16"@.len() == 6);
            assert("DAP_JTAG_Sequence"@.len() == 17 && "Read32"@.len() == 6);
            assert("DAP_JTAG_Sequence"@.len() == 17 && "Read64"@.len() == 6);
            assert("DAP_JTAG_Sequence"@.len() == 17 && "Write8"@.len() == 6);
            assert("DAP_JTAG_Sequence"@.len() == 17 && "Write16"@.len() == 7);
            assert("DAP_JTAG_Sequence"@.len() == 17 && "Write32"@.len() == 7);
            assert("DAP_JTAG_Sequence"@.len() == 17 && "Write64"@.len() == 7);
            assert("DAP_JTAG_Sequence"@.len() == 17 && "ReadAP"@.len() == 6);
            assert("DAP_JTAG_Sequence"@.len() == 17 && "WriteAP"@.len() == 7);
            assert("DAP_JTAG_Sequence"@.len() == 17 && "ReadDP"@.len() == 6);
            assert("DAP_JTAG_Sequence"@.len() == 17 && "WriteDP"@.len() == 7);
            assert("DAP_JTAG_Sequence"@.len() == 17 && "ReadAccessAP"@.len() == 12);
            assert("DAP_JTAG_Sequence"@.len() == 17 && "WriteAccessAP"@.len() == 13);
            assert("DAP_JTAG_Sequence"@.len() == 17 && "DAP_Delay"@.len() == 9);
            assert("DAP_JTAG_Sequence"@.len() == 17 && "DAP_WriteABORT"@.len() == 14);
            assert("DAP_JTAG_Sequence"@.len() == 17 && "DAP_SWJ_Pins"@.len() == 12);
            assert("DAP_JTAG_Sequence"@.len() == 17 && "DAP_SWJ_Clock"@.len() == 13);
            assert("DAP_JTAG_Sequence"@.len() == 17 && "DAP_SWJ_Sequence"@.len() == 16);
        },
        DebugFunction::Sequence { .. } => {
            reveal_strlit("DAP_Delay");
            reveal_strlit("DAP_JTAG_Sequence");
            reveal_strlit("DAP_SWJ_Clock");
            reveal_strlit("DAP_SWJ_Pins");
            reveal_strlit("DAP_SWJ_Sequence");
            reveal_strlit("DAP_WriteABORT");
            reveal_strlit("Message");
            reveal_strlit("Read16");
            reveal_strlit("Read32");
            reveal_strlit("Read64");
            reveal_strlit("Read8");
            reveal_strlit("ReadAP");
            reveal_strlit("ReadAccessAP");
            reveal_strlit("ReadDP");
            reveal_strlit("Sequence");
            reveal_strlit("Write16");
            reveal_strlit("Write32");
            reveal_strlit("Write64");
            reveal_strlit("Write8");
            reveal_strlit("WriteAP");
            reveal_strlit("WriteAccessAP");
            reveal_strlit("WriteDP");
            assert("Sequence"@.len() == 8 && "Message"@.len() == 7);
            assert("Sequence"@.len() == 8 && "Read8"@.len() == 5);
            assert("Sequence"@.len() == 8 && "Read16"@.len() == 6);
            assert("Sequence"@.len() == 8 && "Read32"@.len() == 6);
            assert("Sequence"@.len() == 8 && "Read64"@.len() == 6);
            assert("Sequence"@.len() == 8 && "Write8"@.len() == 6);
            assert("Sequence"@.len() == 8 && "Write16"@.len() == 7);
            assert("Sequence"@.len() == 8 && "Write32"@.len() == 7);
            assert("Sequence"@.len() == 8 && "Write64"@.len() == 7);
            assert("Sequence"@.len() == 8 && "ReadAP"@.len() == 6);
            assert("Sequence"@.len() == 8 && "WriteAP"@.len() == 7);
            assert("Sequence"@.len() == 8 && "ReadDP"@.len() == 6);
            assert("Sequence"@.len() == 8 && "WriteDP"@.len() == 7);
            assert("Sequence"@.len() == 8 && "ReadAccessAP"@.len() == 12);
            assert("Sequence"@.len() == 8 && "WriteAccessAP"@.len() == 13);
            assert("Sequence"@.len() == 8 && "DAP_Delay"@.len() == 9);
            assert("Sequence"@.len() == 8 && "DAP_WriteABORT"@.len() == 14);
            assert("Sequence"@.len() == 8 && "DAP_SWJ_Pins"@.len() == 12);
            assert("Sequence"@.len() == 8 && "DAP_SWJ_Clock"@.len() == 13);
            assert("Sequence"@.len() == 8 && "DAP_SWJ_Sequence"@.len() == 16);
            assert("Sequence"@.len() == 8 && "DAP_JTAG_Sequence"@.len() == 17);
        },
        DebugFunction::Query { .. } => {
            reveal_strlit("DAP_Delay");
            reveal_strlit("DAP_JTAG_Sequence");
            reveal_strlit("DAP_SWJ_Clock");
            reveal_strlit("DAP_SWJ_Pins");
            reveal_strlit("DAP_SWJ_Sequence");
            reveal_strlit("DAP_WriteABORT");
            reveal_strlit("Message");
            reveal_strlit("Query");
            reveal_strlit("Read16");
            reveal_strlit("Read32");
            reveal_strlit("Read64");
            reveal_strlit("Read8");
            reveal_strlit("ReadAP");
            reveal_strlit("ReadAccessAP");
            reveal_strlit("ReadDP");
            reveal_strlit("Sequence");
            reveal_strlit("Write16");
            reveal_strlit("Write32");
            reveal_strlit("Write64");
            reveal_strlit("Write8");
            reveal_strlit("WriteAP");
            reveal_strlit("WriteAccessAP");
            reveal_strlit("WriteDP");
            assert("Query"@.len() == 5 && "Message"@.len() == 7);
            assert("Query"@[0] != "Read8"@[0]);
            assert("Query"@.len() == 5 && "Read16"@.len() == 6);
            assert("Query"@.len() == 5 && "Read32"@.len() == 6);
            assert("Query"@.len() == 5 && "Read64"@.len() == 6);
            assert("Query"@.len() == 5 && "Write8"@.len() == 6);
            assert("Query"@.len() == 5 && "Write16"@.len() == 7);
            assert("Query"@.len() == 5 && "Write32"@.len() == 7);
            assert("Query"@.len() == 5 && "Write64"@.len() == 7);
            assert("Query"@.len() == 5 && "ReadAP"@.len() == 6);
            assert("Query"@.len() == 5 && "WriteAP"@.len() == 7);
            assert("Query"@.len() == 5 && "ReadDP"@.len() == 6);
            assert("Query"@.len() == 5 && "WriteDP"@.len() == 7);
            assert("Query"@.len() == 5 && "ReadAccessAP"@.len() == 12);
            assert("Query"@.len() == 5 && "WriteAccessAP"@.len() == 13);
            assert("Query"@.len() == 5 && "DAP_Delay"@.len() == 9);
            assert("Query"@.len() == 5 && "DAP_WriteABORT"@.len() == 14);
            assert("Query"@.len() == 5 && "DAP_SWJ_Pins"@.len() == 12);
            assert("Query"@.len() == 5 && "DAP_SWJ_Clock"@.len() == 13);
            assert("Query"@.len() == 5 && "DAP_SWJ_Sequence"@.len() == 16);
            assert("Query"@.len() == 5 && "DAP_JTAG_Sequence"@.len() == 17);
            assert("Query"@.len() == 5 && "Sequence"@.len() == 8);
        },
        DebugFunction::QueryValue { .. } => {
            reveal_strlit("DAP_Delay");
            reveal_strlit("DAP_JTAG_Sequence");
            reveal_strlit("DAP_SWJ_Clock");
            reveal_strlit("DAP_SWJ_Pins");
            reveal_strlit("DAP_SWJ_Sequence");
            reveal_strlit("DAP_WriteABORT");
            reveal_strlit("Message");
            reveal_strlit("Query");
            reveal_strlit("QueryValue");
            reveal_strlit("Read16");
            reveal_strlit("Read32");
            reveal_strlit("Read64");
            reveal_strlit("Read8");
            reveal_strlit("ReadAP");
            reveal_strlit("ReadAccessAP");
            reveal_strlit("ReadDP");
            reveal_strlit("Sequence");
            reveal_strlit("Write16");
            reveal_strlit("Write32");
            reveal_strlit("Write64");
            reveal_strlit("Write8");
            reveal_strlit("WriteAP");
            reveal_strlit("WriteAccessAP");
            reveal_strlit("WriteDP");
            assert("QueryValue"@.len() == 10 && "Message"@.len() == 7);
            assert("QueryValue"@.len() == 10 && "Read8"@.len() == 5);
            assert("QueryValue"@.len() == 10 && "Read16"@.len() == 6);
            assert("QueryValue"@.len() == 10 && "Read32"@.len() == 6);
            assert("QueryValue"@.len() == 10 && "Read64"@.len() == 6);
            assert("QueryValue"@.len() == 10 && "Write8"@.len() == 6);
            assert("QueryValue"@.len() == 10 && "Write16"@.len() == 7);
            assert("QueryValue"@.len() == 10 && "Write32"@.len() == 7);
            assert("QueryValue"@.len() == 10 && "Write64"@.len() == 7);
            assert("QueryValue"@.len() == 10 && "ReadAP"@.len() == 6);
            assert("QueryValue"@.len() == 10 && "WriteAP"@.len() == 7);
            assert("QueryValue"@.len() == 10 && "ReadDP"@.len() == 6);
            assert("QueryValue"@.len() == 10 && "WriteDP"@.len() == 7);
            assert("QueryValue"@.len() == 10 && "ReadAccessAP"@.len() == 12);
            assert("QueryValue"@.len() == 10 && "WriteAccessAP"@.len() == 13);
            assert("QueryValue"@.len() == 10 && "DAP_Delay"@.len() == 9);
            assert("QueryValue"@.len() == 10 && "DAP_WriteABORT"@.len() == 14);
            assert("QueryValue"@.len() == 10 && "DAP_SWJ_Pins"@.len() == 12);
            assert("QueryValue"@.len() == 10 && "DAP_SWJ_Clock"@.len() == 13);
            assert("QueryValue"@.len() == 10 && "DAP_SWJ_Sequence"@.len() == 16);
            assert("QueryValue"@.len() == 10 && "DAP_JTAG_Sequence"@.len() == 17);
            assert("QueryValue"@.len() == 10 && "Sequence"@.len() == 8);
            assert("QueryValue"@.len() == 10 && "Query"@.len() == 5);
        },
        DebugFunction::Message { .. } => {
            reveal_strlit("Message");
        },
        DebugFunction::FlashWriteBuffer { .. } => {
            reveal_strlit("DAP_Delay");
            reveal_strlit("DAP_JTAG_Sequence");
            reveal_strlit("DAP_SWJ_Clock");
            reveal_strlit("DAP_SWJ_Pins");
            reveal_strlit("DAP_SWJ_Sequence");
            reveal_strlit("DAP_WriteABORT");
            reveal_strlit("FlashWriteBuffer");
            reveal_strlit("Message");
            reveal_strlit("Query");
            reveal_strlit("QueryValue");
            reveal_strlit("Read16");
            reveal_strlit("Read32");
            reveal_strlit("Read64");
            reveal_strlit("Read8");
            reveal_strlit("ReadAP");
            reveal_strlit("ReadAccessAP");
            reveal_strlit("ReadDP");
            reveal_strlit("Sequence");
            reveal_strlit("Write16");
            reveal_strlit("Write32");
            reveal_strlit("Write64");
            reveal_strlit("Write8");
            reveal_strlit("WriteAP");
            reveal_strlit("WriteAccessAP");
            reveal_strlit("WriteDP");
            assert("FlashWriteBuffer"@.len() == 16 && "Message"@.len() == 7);
            assert("FlashWriteBuffer"@.len() == 16 && "Read8"@.len() == 5);
            assert("FlashWriteBuffer"@.len() == 16 && "Read16"@.len() == 6);
            assert("FlashWriteBuffer"@.len() == 16 && "Read32"@.len() == 6);
            assert("FlashWriteBuffer"@.len() == 16 && "Read64"@.len() == 6);
            assert("FlashWriteBuffer"@.len() == 16 && "Write8"@.len() == 6);
            assert("FlashWriteBuffer"@.len() == 16 && "Write16"@.len() == 7);
            assert("FlashWriteBuffer"@.len() == 16 && "Write32"@.len() == 7);
            assert("FlashWriteBuffer"@.len() == 16 && "Write64"@.len() == 7);
            assert("FlashWriteBuffer"@.len() == 16 && "ReadAP"@.len() == 6);
            assert("FlashWriteBuffer"@.len() == 16 && "WriteAP"@.len() == 7);
            assert("FlashWriteBuffer"@.len() == 16 && "ReadDP"@.len() == 6);
            assert("FlashWriteBuffer"@.len() == 16 && "WriteDP"@.len() == 7);
            assert("FlashWriteBuffer"@.len() == 16 && "ReadAccessAP"@.len() == 12);
            assert("FlashWriteBuffer"@.len() == 16 && "WriteAccessAP"@.len() == 13);
            assert("FlashWriteBuffer"@.len() == 16 && "DAP_Delay"@.len() == 9);
            assert("FlashWriteBuffer"@.len() == 16 && "DAP_WriteABORT"@.len() == 14);
            assert("FlashWriteBuffer"@.len() == 16 && "DAP_SWJ_Pins"@.len() == 12);
            assert("FlashWriteBuffer"@.len() == 16 && "DAP_SWJ_Clock"@.len() == 13);
            assert("FlashWriteBuffer"@[0] != "DAP_SWJ_Sequence"@[0]);
            assert("FlashWriteBuffer"@.len() == 16 && "DAP_JTAG_Sequence"@.len() == 17);
            assert("FlashWriteBuffer"@.len() == 16 && "Sequence"@.len() == 8);
            assert("FlashWriteBuffer"@.len() == 16 && "Query"@.len() == 5);
            assert("FlashWriteBuffer"@.len() == 16 && "QueryValue"@.len() == 10);
        },
        DebugFunction::FlashLoadAlgorithm { .. } => {
            reveal_strlit("DAP_Delay");
            reveal_strlit("DAP_JTAG_Sequence");
            reveal_strlit("DAP_SWJ_Clock");
            reveal_strlit("DAP_SWJ_Pins");
            reveal_strlit("DAP_SWJ_Sequence");
            reveal_strlit("DAP_WriteABORT");
            reveal_strlit("FlashLoadAlgorithm");
            reveal_strlit("FlashWriteBuffer");
            reveal_strlit("Message");
            reveal_strlit("Query");
            reveal_strlit("QueryValue");
            reveal_strlit("Read16");
            reveal_strlit("Read32");
            reveal_strlit("Read64");
            reveal_strlit("Read8");
            reveal_strlit("ReadAP");
            reveal_strlit("ReadAccessAP");
            reveal_strlit("ReadDP");
            reveal_strlit("Sequence");
            reveal_strlit("Write16");
            reveal_strlit("Write32");
            reveal_strlit("Write64");
            reveal_strlit("Write8");
            reveal_strlit("WriteAP");
            reveal_strlit("WriteAccessAP");
            reveal_strlit("WriteDP");
            assert("FlashLoadAlgorithm"@.len() == 18 && "Message"@.len() == 7);
            assert("FlashLoadAlgorithm"@.len() == 18 && "Read8"@.len() == 5);
            assert("FlashLoadAlgorithm"@.len() == 18 && "Read16"@.len() == 6);
            assert("FlashLoadAlgorithm"@.len() == 18 && "Read32"@.len() == 6);
            assert("FlashLoadAlgorithm"@.len() == 18 && "Read64"@.len() == 6);
            assert("FlashLoadAlgorithm"@.len() == 18 && "Write8"@.len() == 6);
            assert("FlashLoadAlgorithm"@.len() == 18 && "Write16"@.len() == 7);
            assert("FlashLoadAlgorithm"@.len() == 18 && "Write32"@.len() == 7);
            assert("FlashLoadAlgorithm"@.len() == 18 && "Write64"@.len() == 7);
            assert("FlashLoadAlgorithm"@.len() == 18 && "ReadAP"@.len() == 6);
            assert("FlashLoadAlgorithm"@.len() == 18 && "WriteAP"@.len() == 7);
            assert("FlashLoadAlgorithm"@.len() == 18 && "ReadDP"@.len() == 6);
            assert("FlashLoadAlgorithm"@.len() == 18 && "WriteDP"@.len() == 7);
            assert("FlashLoadAlgorithm"@.len() == 18 && "ReadAccessAP"@.len() == 12);
            assert("FlashLoadAlgorithm"@.len() == 18 && "WriteAccessAP"@.len() == 13);
            assert("FlashLoadAlgorithm"@.len() == 18 && "DAP_Delay"@.len() == 9);
            assert("FlashLoadAlgorithm"@.len() == 18 && "DAP_WriteABORT"@.len() == 14);
            assert("FlashLoadAlgorithm"@.len() == 18 && "DAP_SWJ_Pins"@.len() == 12);
            assert("FlashLoadAlgorithm"@.len() == 18 && "DAP_SWJ_Clock"@.len() == 13);
            assert("FlashLoadAlgorithm"@.len() == 18 && "DAP_SWJ_Sequence"@.len() == 16);
            assert("FlashLoadAlgorithm"@.len() == 18 && "DAP_JTAG_Sequence"@.len() == 17);
            assert("FlashLoadAlgorithm"@.len() == 18 && "Sequence"@.len() == 8);
            assert("FlashLoadAlgorithm"@.len() == 18 && "Query"@.len() == 5);
            assert("FlashLoadAlgorithm"@.len() == 18 && "QueryValue"@.len() == 10);
            assert("FlashLoadAlgorithm"@.len() == 18 && "FlashWriteBuffer"@.len() == 16);
        },
        DebugFunction::BufferSet { .. } => {
            reveal_strlit("BufferSet");
            reveal_strlit("DAP_Delay");
            reveal_strlit("DAP_JTAG_Sequence");
            reveal_strlit("DAP_SWJ_Clock");
            reveal_strlit("DAP_SWJ_Pins");
            reveal_strlit("DAP_SWJ_Sequence");
            reveal_strlit("DAP_WriteABORT");
            reveal_strlit("FlashLoadAlgorithm");
            reveal_strlit("FlashWriteBuffer");
            reveal_strlit("Message");
            reveal_strlit("Query");
            reveal_strlit("QueryValue");
            reveal_strlit("Read16");
            reveal_strlit("Read32");
            reveal_strlit("Read64");
            reveal_strlit("Read8");
            reveal_strlit("ReadAP");
            reveal_strlit("ReadAccessAP");
            reveal_strlit("ReadDP");
            reveal_strlit("Sequence");
            reveal_strlit("Write16");
            reveal_strlit("Write32");
            reveal_strlit("Write64");
            reveal_strlit("Write8");
            reveal_strlit("WriteAP");
            reveal_strlit("WriteAccessAP");
            reveal_strlit("WriteDP");
            assert("BufferSet"@.len() == 9 && "Message"@.len() == 7);
            assert("BufferSet"@.len() == 9 && "Read8"@.len() == 5);
            assert("BufferSet"@.len() == 9 && "Read16"@.len() == 6);
            assert("BufferSet"@.len() == 9 && "Read32"@.len() == 6);
            assert("BufferSet"@.len() == 9 && "Read64"@.len() == 6);
            assert("BufferSet"@.len() == 9 && "Write8"@.len() == 6);
            assert("BufferSet"@.len() == 9 && "Write16"@.len() == 7);
            assert("BufferSet"@.len() == 9 && "Write32"@.len() == 7);
            assert("BufferSet"@.len() == 9 && "Write64"@.len() == 7);
            assert("BufferSet"@.len() == 9 && "ReadAP"@.len() == 6);
            assert("BufferSet"@.len() == 9 && "WriteAP"@.len() == 7);
            assert("BufferSet"@.len() == 9 && "ReadDP"@.len() == 6);
            assert("BufferSet"@.len() == 9 && "WriteDP"@.len() == 7);
            assert("BufferSet"@.len() == 9 && "ReadAccessAP"@.len() == 12);
            assert("BufferSet"@.len() == 9 && "WriteAccessAP"@.len() == 13);
            assert("BufferSet"@[0] != "DAP_Delay"@[0]);
            assert("BufferSet"@.len() == 9 && "DAP_WriteABORT"@.len() == 14);
            assert("BufferSet"@.len() == 9 && "DAP_SWJ_Pins"@.len() == 12);
            assert("BufferSet"@.len() == 9 && "DAP_SWJ_Clock"@.len() == 13);
            assert("BufferSet"@.len() == 9 && "DAP_SWJ_Sequence"@.len() == 16);
            assert("BufferSet"@.len() == 9 && "DAP_JTAG_Sequence"@.len() == 17);
            assert("BufferSet"@.len() == 9 && "Sequence"@.len() == 8);
            assert("BufferSet"@.len() == 9 && "Query"@.len() == 5);
            assert("BufferSet"@.len() == 9 && "QueryValue"@.len() == 10);
            assert("BufferSet"@.len() == 9 && "FlashWriteBuffer"@.len() == 16);
            assert("BufferSet"@.len() == 9 && "FlashLoadAlgorithm"@.len() == 18);
        },
        DebugFunction::BufferGet { .. } => {
            reveal_strlit("BufferGet");
            reveal_strlit("BufferSet");
            reveal_strlit("DAP_Delay");
            reveal_strlit("DAP_JTAG_Sequence");
            reveal_strlit("DAP_SWJ_Clock");
            reveal_strlit("DAP_SWJ_Pins");
            reveal_strlit("DAP_SWJ_Sequence");
            reveal_strlit("DAP_WriteABORT");
            reveal_strlit("FlashLoadAlgorithm");
            reveal_strlit("FlashWriteBuffer");
            reveal_strlit("Message");
            reveal_strlit("Query");
            reveal_strlit("QueryValue");
            reveal_strlit("Read16");
            reveal_strlit("Read32");
            reveal_strlit("Read64");
            reveal_strlit("Read8");
            reveal_strlit("ReadAP");
            reveal_strlit("ReadAccessAP");
            reveal_strlit("ReadDP");
            reveal_strlit("Sequence");
            reveal_strlit("Write16");
            reveal_strlit("Write32");
            reveal_strlit("Write64");
            reveal_strlit("Write8");
            reveal_strlit("WriteAP");
            reveal_strlit("WriteAccessAP");
            reveal_strlit("WriteDP");
            assert("BufferGet"@.len() == 9 && "Message"@.len() == 7);
            assert("BufferGet"@.len() == 9 && "Read8"@.len() == 5);
            assert("BufferGet"@.len() == 9 && "Read16"@.len() == 6);
            assert("BufferGet"@.len() == 9 && "Read32"@.len() == 6);
            assert("BufferGet"@.len() == 9 && "Read64"@.len() == 6);
            assert("BufferGet"@.len() == 9 && "Write8"@.len() == 6);
            assert("BufferGet"@.len() == 9 && "Write16"@.len() == 7);
            assert("BufferGet"@.len() == 9 && "Write32"@.len() == 7);
            assert("BufferGet"@.len() == 9 && "Write64"@.len() == 7);
            assert("BufferGet"@.len() == 9 && "ReadAP"@.len() == 6);
            assert("BufferGet"@.len() == 9 && "WriteAP"@.len() == 7);
            assert("BufferGet"@.len() == 9 && "ReadDP"@.len() == 6);
            assert("BufferGet"@.len() == 9 && "WriteDP"@.len() == 7);
            assert("BufferGet"@.len() == 9 && "ReadAccessAP"@.len() == 12);
            assert("BufferGet"@.len() == 9 && "WriteAccessAP"@.len() == 13);
            assert("BufferGet"@[0] != "DAP_Delay"@[0]);
            assert("BufferGet"@.len() == 9 && "DAP_WriteABORT"@.len() == 14);
            assert("BufferGet"@.len() == 9 && "DAP_SWJ_Pins"@.len() == 12);
            assert("BufferGet"@.len() == 9 && "DAP_SWJ_Clock"@.len() == 13);
            assert("BufferGet"@.len() == 9 && "DAP_SWJ_Sequence"@.len() == 16);
            assert("BufferGet"@.len() == 9 && "DAP_JTAG_Sequence"@.len() == 17);
            assert("BufferGet"@.len() == 9 && "Sequence"@.len() == 8);
            assert("BufferGet"@.len() == 9 && "Query"@.len() == 5);
            assert("BufferGet"@.len() == 9 && "QueryValue"@.len() == 10);
            assert("BufferGet"@.len() == 9 && "FlashWriteBuffer"@.len() == 16);
            assert("BufferGet"@.len() == 9 && "FlashLoadAlgorithm"@.len() == 18);
            assert("BufferGet"@[6] != "BufferSet"@[6]);
        },
        DebugFunction::BufferSize { .. } => {
            reveal_strlit("BufferGet");
            reveal_strlit("BufferSet");
            reveal_strlit("BufferSize");
            reveal_strlit("DAP_Delay");
            reveal_strlit("DAP_JTAG_Sequence");
            reveal_strlit("DAP_SWJ_Clock");
            reveal_strlit("DAP_SWJ_Pins");
            reveal_strlit("DAP_SWJ_Sequence");
            reveal_strlit("DAP_WriteABORT");
            reveal_strlit("FlashLoadAlgorithm");
            reveal_strlit("FlashWriteBuffer");
            reveal_strlit("Message");
            reveal_strlit("Query");
            reveal_strlit("QueryValue");
            reveal_strlit("Read16");
            reveal_strlit("Read32");
            reveal_strlit("Read64");
            reveal_strlit("Read8");
            reveal_strlit("ReadAP");
            reveal_strlit("ReadAccessAP");
            reveal_strlit("ReadDP");
            reveal_strlit("Sequence");
            reveal_strlit("Write16");
            reveal_strlit("Write32");
            reveal_strlit("Write64");
            reveal_strlit("Write8");
            reveal_strlit("WriteAP");
            reveal_strlit("WriteAccessAP");
            reveal_strlit("WriteDP");
            assert("BufferSize"@.len() == 10 && "Message"@.len() == 7);
            assert("BufferSize"@.len() == 10 && "Read8"@.len() == 5);
            assert("BufferSize"@.len() == 10 && "Read16"@.len() == 6);
            assert("BufferSize"@.len() == 10 && "Read32"@.len() == 6);
            assert("BufferSize"@.len() == 10 && "Read64"@.len() == 6);
            assert("BufferSize"@.len() == 10 && "Write8"@.len() == 6);
            assert("BufferSize"@.len() == 10 && "Write16"@.len() == 7);
            assert("BufferSize"@.len() == 10 && "Write32"@.len() == 7);
            assert("BufferSize"@.len() == 10 && "Write64"@.len() == 7);
            assert("BufferSize"@.len() == 10 && "ReadAP"@.len() == 6);
            assert("BufferSize"@.len() == 10 && "WriteAP"@.len() == 7);
            assert("BufferSize"@.len() == 10 && "ReadDP"@.len() == 6);
            assert("BufferSize"@.len() == 10 && "WriteDP"@.len() == 7);
            assert("BufferSize"@.len() == 10 && "ReadAccessAP"@.len() == 12);
            assert("BufferSize"@.len() == 10 && "WriteAccessAP"@.len() == 13);
            assert("BufferSize"@.len() == 10 && "DAP_Delay"@.len() == 9);
            assert("BufferSize"@.len() == 10 && "DAP_WriteABORT"@.len() == 14);
            assert("BufferSize"@.len() == 10 && "DAP_SWJ_Pins"@.len() == 12);
            assert("BufferSize"@.len() == 10 && "DAP_SWJ_Clock"@.len() == 13);
            assert("BufferSize"@.len() == 10 && "DAP_SWJ_Sequence"@.len() == 16);
            assert("BufferSize"@.len() == 10 && "DAP_JTAG_Sequence"@.len() == 17);
            assert("BufferSize"@.len() == 10 && "Sequence"@.len() == 8);
            assert("BufferSize"@.len() == 10 && "Query"@.len() == 5);
            assert("BufferSize"@[0] != "QueryValue"@[0]);
            assert("BufferSize"@.len() == 10 && "FlashWriteBuffer"@.len() == 16);
            assert("BufferSize"@.len() == 10 && "FlashLoadAlgorithm"@.len() == 18);
            assert("BufferSize"@.len() == 10 && "BufferSet"@.len() == 9);
            assert("BufferSize"@.len() == 10 && "BufferGet"@.len() == 9);
        },
        DebugFunction::BufferRead { .. } => {
            reveal_strlit("BufferGet");
            reveal_strlit("BufferRead");
            reveal_strlit("BufferSet");
            reveal_strlit("BufferSize");
            reveal_strlit("DAP_Delay");
            reveal_strlit("DAP_JTAG_Sequence");
            reveal_strlit("DAP_SWJ_Clock");
            reveal_strlit("DAP_SWJ_Pins");
            reveal_strlit("DAP_SWJ_Sequence");
            reveal_strlit("DAP_WriteABORT");
            reveal_strlit("FlashLoadAlgorithm");
            reveal_strlit("FlashWriteBuffer");
            reveal_strlit("Message");
            reveal_strlit("Query");
            reveal_strlit("QueryValue");
            reveal_strlit("Read16");
            reveal_strlit("Read32");
            reveal_strlit("Read64");
            reveal_strlit("Read8");
            reveal_strlit("ReadAP");
            reveal_strlit("ReadAccessAP");
            reveal_strlit("ReadDP");
            reveal_strlit("Sequence");
            reveal_strlit("Write16");
            reveal_strlit("Write32");
            reveal_strlit("Write64");
            reveal_strlit("Write8");
            reveal_strlit("WriteAP");
            reveal_strlit("WriteAccessAP");
            reveal_strlit("WriteDP");
            assert("BufferRead"@.len() == 10 && "Message"@.len() == 7);
            assert("BufferRead"@.len() == 10 && "Read8"@.len() == 5);
            assert("BufferRead"@.len() == 10 && "Read16"@.len() == 6);
            assert("BufferRead"@.len() == 10 && "Read32"@.len() == 6);
            assert("BufferRead"@.len() == 10 && "Read64"@.len() == 6);
            assert("BufferRead"@.len() == 10 && "Write8"@.len() == 6);
            assert("BufferRead"@.len() == 10 && "Write16"@.len() == 7);
            assert("BufferRead"@.len() == 10 && "Write32"@.len() == 7);
            assert("BufferRead"@.len() == 10 && "Write64"@.len() == 7);
            assert("BufferRead"@.len() == 10 && "ReadAP"@.len() == 6);
            assert("BufferRead"@.len() == 10 && "WriteAP"@.len() == 7);
            assert("BufferRead"@.len() == 10 && "ReadDP"@.len() == 6);
            assert("BufferRead"@.len() == 10 && "WriteDP"@.len() == 7);
            assert("BufferRead"@.len() == 10 && "ReadAccessAP"@.len() == 12);
            assert("BufferRead"@.len() == 10 && "WriteAccessAP"@.len() == 13);
            assert("BufferRead"@.len() == 10 && "DAP_Delay"@.len() == 9);
            assert("BufferRead"@.len() == 10 && "DAP_WriteABORT"@.len() == 14);
            assert("BufferRead"@.len() == 10 && "DAP_SWJ_Pins"@.len() == 12);
            assert("BufferRead"@.len() == 10 && "DAP_SWJ_Clock"@.len() == 13);
            assert("BufferRead"@.len() == 10 && "DAP_SWJ_Sequence"@.len() == 16);
            assert("BufferRead"@.len() == 10 && "DAP_JTAG_Sequence"@.len() == 17);
            assert("BufferRead"@.len() == 10 && "Sequence"@.len() == 8);
            assert("BufferRead"@.len() == 10 && "Query"@.len() == 5);
            assert("BufferRead"@[0] != "QueryValue"@[0]);
            assert("BufferRead"@.len() == 10 && "FlashWriteBuffer"@.len() == 16);
            assert("BufferRead"@.len() == 10 && "FlashLoadAlgorithm"@.len() == 18);
            assert("BufferRead"@.len() == 10 && "BufferSet"@.len() == 9);
            assert("BufferRead"@.len() == 10 && "BufferGet"@.len() == 9);
            assert("BufferRead"@[6] != "BufferSize"@[6]);
        },
        DebugFunction::BufferWrite { .. } => {
            reveal_strlit("BufferGet");
            reveal_strlit("BufferRead");
            reveal_strlit("BufferSet");
            reveal_strlit("BufferSize");
            reveal_strlit("BufferWrite");
            reveal_strlit("DAP_Delay");
            reveal_strlit("DAP_JTAG_Sequence");
            reveal_strlit("DAP_SWJ_Clock");
            reveal_strlit("DAP_SWJ_Pins");
            reveal_strlit("DAP_SWJ_Sequence");
            reveal_strlit("DAP_WriteABORT");
            reveal_strlit("FlashLoadAlgorithm");
            reveal_strlit("FlashWriteBuffer");
            reveal_strlit("Message");
            reveal_strlit("Query");
            reveal_strlit("QueryValue");
            reveal_strlit("Read16");
            reveal_strlit("Read32");
            reveal_strlit("Read64");
            reveal_strlit("Read8");
            reveal_strlit("ReadAP");
            reveal_strlit("ReadAccessAP");
            reveal_strlit("ReadDP");
            reveal_strlit("Sequence");
            reveal_strlit("Write16");
            reveal_strlit("Write32");
            reveal_strlit("Write64");
            reveal_strlit("Write8");
            reveal_strlit("WriteAP");
            reveal_strlit("WriteAccessAP");
            reveal_strlit("WriteDP");
            assert("BufferWrite"@.len() == 11 && "Message"@.len() == 7);
            assert("BufferWrite"@.len() == 11 && "Read8"@.len() == 5);
            assert("BufferWrite"@.len() == 11 && "Read16"@.len() == 6);
            assert("BufferWrite"@.len() == 11 && "Read32"@.len() == 6);
            assert("BufferWrite"@.len() == 11 && "Read64"@.len() == 6);
            assert("BufferWrite"@.len() == 11 && "Write8"@.len() == 6);
            assert("BufferWrite"@.len() == 11 && "Write16"@.len() == 7);
            assert("BufferWrite"@.len() == 11 && "Write32"@.len() == 7);
            assert("BufferWrite"@.len() == 11 && "Write64"@.len() == 7);
            assert("BufferWrite"@.len() == 11 && "ReadAP"@.len() == 6);
            assert("BufferWrite"@.len() == 11 && "WriteAP"@.len() == 7);
            assert("BufferWrite"@.len() == 11 && "ReadDP"@.len() == 6);
            assert("BufferWrite"@.len() == 11 && "WriteDP"@.len() == 7);
            assert("BufferWrite"@.len() == 11 && "ReadAccessAP"@.len() == 12);
            assert("BufferWrite"@.len() == 11 && "WriteAccessAP"@.len() == 13);
            assert("BufferWrite"@.len() == 11 && "DAP_Delay"@.len() == 9);
            assert("BufferWrite"@.len() == 11 && "DAP_WriteABORT"@.len() == 14);
            assert("BufferWrite"@.len() == 11 && "DAP_SWJ_Pins"@.len() == 12);
            assert("BufferWrite"@.len() == 11 && "DAP_SWJ_Clock"@.len() == 13);
            assert("BufferWrite"@.len() == 11 && "DAP_SWJ_Sequence"@.len() == 16);
            assert("BufferWrite"@.len() == 11 && "DAP_JTAG_Sequence"@.len() == 17);
            assert("BufferWrite"@.len() == 11 && "Sequence"@.len() == 8);
            assert("BufferWrite"@.len() == 11 && "Query"@.len() == 5);
            assert("BufferWrite"@.len() == 11 && "QueryValue"@.len() == 10);
            assert("BufferWrite"@.len() == 11 && "FlashWriteBuffer"@.len() == 16);
            assert("BufferWrite"@.len() == 11 && "FlashLoadAlgorithm"@.len() == 18);
            assert("BufferWrite"@.len() == 11 && "BufferSet"@.len() == 9);
            assert("BufferWrite"@.len() == 11 && "BufferGet"@.len() == 9);
            assert("BufferWrite"@.len() == 11 && "BufferSize"@.len() == 10);
            assert("BufferWrite"@.len() == 11 && "BufferRead"@.len() == 10);
        },
        DebugFunction::BufferStreamIn { .. } => {
            reveal_strlit("BufferGet");
            reveal_strlit("BufferRead");
            reveal_strlit("BufferSet");
            reveal_strlit("BufferSize");
            reveal_strlit("BufferStreamIn");
            reveal_strlit("BufferWrite");
            reveal_strlit("DAP_Delay");
            reveal_strlit("DAP_JTAG_Sequence");
            reveal_strlit("DAP_SWJ_Clock");
            reveal_strlit("DAP_SWJ_Pins");
            reveal_strlit("DAP_SWJ_Sequence");
            reveal_strlit("DAP_WriteABORT");
            reveal_strlit("FlashLoadAlgorithm");
            reveal_strlit("FlashWriteBuffer");
            reveal_strlit("Message");
            reveal_strlit("Query");
            reveal_strlit("QueryValue");
            reveal_strlit("Read16");
            reveal_strlit("Read32");
            reveal_strlit("Read64");
            reveal_strlit("Read8");
            reveal_strlit("ReadAP");
            reveal_strlit("ReadAccessAP");
            reveal_strlit("ReadDP");
            reveal_strlit("Sequence");
            reveal_strlit("Write16");
            reveal_strlit("Write32");
            reveal_strlit("Write64");
            reveal_strlit("Write8");
            reveal_strlit("WriteAP");
            reveal_strlit("WriteAccessAP");
            reveal_strlit("WriteDP");
            assert("BufferStreamIn"@.len() == 14 && "Message"@.len() == 7);
            assert("BufferStreamIn"@.len() == 14 && "Read8"@.len() == 5);
            assert("BufferStreamIn"@.len() == 14 && "Read16"@.len() == 6);
            assert("BufferStreamIn"@.len() == 14 && "Read32"@.len() == 6);
            assert("BufferStreamIn"@.len() == 14 && "Read64"@.len() == 6);
            assert("BufferStreamIn"@.len() == 14 && "Write8"@.len() == 6);
            assert("BufferStreamIn"@.len() == 14 && "Write16"@.len() == 7);
            assert("BufferStreamIn"@.len() == 14 && "Write32"@.len() == 7);
            assert("BufferStreamIn"@.len() == 14 && "Write64"@.len() == 7);
            assert("BufferStreamIn"@.len() == 14 && "ReadAP"@.len() == 6);
            assert("BufferStreamIn"@.len() == 14 && "WriteAP"@.len() == 7);
            assert("BufferStreamIn"@.len() == 14 && "ReadDP"@.len() == 6);
            assert("BufferStreamIn"@.len() == 14 && "WriteDP"@.len() == 7);
            assert("BufferStreamIn"@.len() == 14 && "ReadAccessAP"@.len() == 12);
            assert("BufferStreamIn"@.len() == 14 && "WriteAccessAP"@.len() == 13);
            assert("BufferStreamIn"@.len() == 14 && "DAP_Delay"@.len() == 9);
            assert("BufferStreamIn"@[0] != "DAP_WriteABORT"@[0]);
            assert("BufferStreamIn"@.len() == 14 && "DAP_SWJ_Pins"@.len() == 12);
            assert("BufferStreamIn"@.len() == 14 && "DAP_SWJ_Clock"@.len() == 13);
            assert("BufferStreamIn"@.len() == 14 && "DAP_SWJ_Sequence"@.len() == 16);
            assert("BufferStreamIn"@.len() == 14 && "DAP_JTAG_Sequence"@.len() == 17);
            assert("BufferStreamIn"@.len() == 14 && "Sequence"@.len() == 8);
            assert("BufferStreamIn"@.len() == 14 && "Query"@.len() == 5);
            assert("BufferStreamIn"@.len() == 14 && "QueryValue"@.len() == 10);
            assert("BufferStreamIn"@.len() == 14 && "FlashWriteBuffer"@.len() == 16);
            assert("BufferStreamIn"@.len() == 14 && "FlashLoadAlgorithm"@.len() == 18);
            assert("BufferStreamIn"@.len() == 14 && "BufferSet"@.len() == 9);
            assert("BufferStreamIn"@.len() == 14 && "BufferGet"@.len() == 9);
            assert("BufferStreamIn"@.len() == 14 && "BufferSize"@.len() == 10);
            assert("BufferStreamIn"@.len() == 14 && "BufferRead"@.len() == 10);
            assert("BufferStreamIn"@.len() == 14 && "BufferWrite"@.len() == 11);
        },
        DebugFunction::BufferStreamOut { .. } => {
            reveal_strlit("BufferGet");
            reveal_strlit("BufferRead");
            reveal_strlit("BufferSet");
            reveal_strlit("BufferSize");
            reveal_strlit("BufferStreamIn");
            reveal_strlit("BufferStreamOut");
            reveal_strlit("BufferWrite");
            reveal_strlit("DAP_Delay");
            reveal_strlit("DAP_JTAG_Sequence");
            reveal_strlit("DAP_SWJ_Clock");
            reveal_strlit("DAP_SWJ_Pins");
            reveal_strlit("DAP_SWJ_Sequence");
            reveal_strlit("DAP_WriteABORT");
            reveal_strlit("FlashLoadAlgorithm");
            reveal_strlit("FlashWriteBuffer");
            reveal_strlit("Message");
            reveal_strlit("Query");
            reveal_strlit("QueryValue");
            reveal_strlit("Read16");
            reveal_strlit("Read32");
            reveal_strlit("Read64");
            reveal_strlit("Read8");
            reveal_strlit("ReadAP");
            reveal_strlit("ReadAccessAP");
            reveal_strlit("ReadDP");
            reveal_strlit("Sequence");
            reveal_strlit("Write16");
            reveal_strlit("Write32");
            reveal_strlit("Write64");
            reveal_strlit("Write8");
            reveal_strlit("WriteAP");
            reveal_strlit("WriteAccessAP");
            reveal_strlit("WriteDP");
            assert("BufferStreamOut"@.len() == 15 && "Message"@.len() == 7);
            assert("BufferStreamOut"@.len() == 15 && "Read8"@.len() == 5);
            assert("BufferStreamOut"@.len() == 15 && "Read16"@.len() == 6);
            assert("BufferStreamOut"@.len() == 15 && "Read32"@.len() == 6);
            assert("BufferStreamOut"@.len() == 15 && "Read64"@.len() == 6);
            assert("BufferStreamOut"@.len() == 15 && "Write8"@.len() == 6);
            assert("BufferStreamOut"@.len() == 15 && "Write16"@.len() == 7);
            assert("BufferStreamOut"@.len() == 15 && "Write32"@.len() == 7);
            assert("BufferStreamOut"@.len() == 15 && "Write64"@.len() == 7);
            assert("BufferStreamOut"@.len() == 15 && "ReadAP"@.len() == 6);
            assert("BufferStreamOut"@.len() == 15 && "WriteAP"@.len() == 7);
            assert("BufferStreamOut"@.len() == 15 && "ReadDP"@.len() == 6);
            assert("BufferStreamOut"@.len() == 15 && "WriteDP"@.len() == 7);
            assert("BufferStreamOut"@.len() == 15 && "ReadAccessAP"@.len() == 12);
            assert("BufferStreamOut"@.len() == 15 && "WriteAccessAP"@.len() == 13);
            assert("BufferStreamOut"@.len() == 15 && "DAP_Delay"@.len() == 9);
            assert("BufferStreamOut"@.len() == 15 && "DAP_WriteABORT"@.len() == 14);
            assert("BufferStreamOut"@.len() == 15 && "DAP_SWJ_Pins"@.len() == 12);
            assert("BufferStreamOut"@.len() == 15 && "DAP_SWJ_Clock"@.len() == 13);
            assert("BufferStreamOut"@.len() == 15 && "DAP_SWJ_Sequence"@.len() == 16);
            assert("BufferStreamOut"@.len() == 15 && "DAP_JTAG_Sequence"@.len() == 17);
            assert("BufferStreamOut"@.len() == 15 && "Sequence"@.len() == 8);
            assert("BufferStreamOut"@.len() == 15 && "Query"@.len() == 5);
            assert("BufferStreamOut"@.len() == 15 && "QueryValue"@.len() == 10);
            assert("BufferStreamOut"@.len() == 15 && "FlashWriteBuffer"@.len() == 16);
            assert("BufferStreamOut"@.len() == 15 && "FlashLoadAlgorithm"@.len() == 18);
            assert("BufferStreamOut"@.len() == 15 && "BufferSet"@.len() == 9);
            assert("BufferStreamOut"@.len() == 15 && "BufferGet"@.len() == 9);
            assert("BufferStreamOut"@.len() == 15 && "BufferSize"@.len() == 10);
            assert("BufferStreamOut"@.len() == 15 && "BufferRead"@.len() == 10);
            assert("BufferStreamOut"@.len() == 15 && "BufferWrite"@.len() == 11);
            assert("BufferStreamOut"@.len() == 15 && "BufferStreamIn"@.len() == 14);
        },
        DebugFunction::RunApplication { .. } => {
            reveal_strlit("BufferGet");
            reveal_strlit("BufferRead");
            reveal_strlit("BufferSet");
            reveal_strlit("BufferSize");
            reveal_strlit("BufferStreamIn");
            reveal_strlit("BufferStreamOut");
            reveal_strlit("BufferWrite");
            reveal_strlit("DAP_Delay");
            reveal_strlit("DAP_JTAG_Sequence");
            reveal_strlit("DAP_SWJ_Clock");
            reveal_strlit("DAP_SWJ_Pins");
            reveal_strlit("DAP_SWJ_Sequence");
            reveal_strlit("DAP_WriteABORT");
            reveal_strlit("FlashLoadAlgorithm");
            reveal_strlit("FlashWriteBuffer");
            reveal_strlit("Message");
            reveal_strlit("Query");
            reveal_strlit("QueryValue");
            reveal_strlit("Read16");
            reveal_strlit("Read32");
            reveal_strlit("Read64");
            reveal_strlit("Read8");
            reveal_strlit("ReadAP");
            reveal_strlit("ReadAccessAP");
            reveal_strlit("ReadDP");
            reveal_strlit("RunApplication");
            reveal_strlit("Sequence");
            reveal_strlit("Write16");
            reveal_strlit("Write32");
            reveal_strlit("Write64");
            reveal_strlit("Write8");
            reveal_strlit("WriteAP");
            reveal_strlit("WriteAccessAP");
            reveal_strlit("WriteDP");
            assert("RunApplication"@.len() == 14 && "Message"@.len() == 7);
            assert("RunApplication"@.len() == 14 && "Read8"@.len() == 5);
            assert("RunApplication"@.len() == 14 && "Read16"@.len() == 6);
            assert("RunApplication"@.len() == 14 && "Read32"@.len() == 6);
            assert("RunApplication"@.len() == 14 && "Read64"@.len() == 6);
            assert("RunApplication"@.len() == 14 && "Write8"@.len() == 6);
            assert("RunApplication"@.len() == 14 && "Write16"@.len() == 7);
            assert("RunApplication"@.len() == 14 && "Write32"@.len() == 7);
            assert("RunApplication"@.len() == 14 && "Write64"@.len() == 7);
            assert("RunApplication"@.len() == 14 && "ReadAP"@.len() == 6);
            assert("RunApplication"@.len() == 14 && "WriteAP"@.len() == 7);
            assert("RunApplication"@.len() == 14 && "ReadDP"@.len() == 6);
            assert("RunApplication"@.len() == 14 && "WriteDP"@.len() == 7);
            assert("RunApplication"@.len() == 14 && "ReadAccessAP"@.len() == 12);
            assert("RunApplication"@.len() == 14 && "WriteAccessAP"@.len() == 13);
            assert("RunApplication"@.len() == 14 && "DAP_Delay"@.len() == 9);
            assert("RunApplication"@[0] != "DAP_WriteABORT"@[0]);
            assert("RunApplication"@.len() == 14 && "DAP_SWJ_Pins"@.len() == 12);
            assert("RunApplication"@.len() == 14 && "DAP_SWJ_Clock"@.len() == 13);
            assert("RunApplication"@.len() == 14 && "DAP_SWJ_Sequence"@.len() == 16);
            assert("RunApplication"@.len() == 14 && "DAP_JTAG_Sequence"@.len() == 17);
            assert("RunApplication"@.len() == 14 && "Sequence"@.len() == 8);
            assert("RunApplication"@.len() == 14 && "Query"@.len() == 5);
            assert("RunApplication"@.len() == 14 && "QueryValue"@.len() == 10);
            assert("RunApplication"@.len() == 14 && "FlashWriteBuffer"@.len() == 16);
            assert("RunApplication"@.len() == 14 && "FlashLoadAlgorithm"@.len() == 18);
            assert("RunApplication"@.len() == 14 && "BufferSet"@.len() == 9);
            assert("RunApplication"@.len() == 14 && "BufferGet"@.len() == 9);
            assert("RunApplication"@.len() == 14 && "BufferSize"@.len() == 10);
            assert("RunApplication"@.len() == 14 && "BufferRead"@.len() == 10);
            assert("RunApplication"@.len() == 14 && "BufferWrite"@.len() == 11);
            assert("RunApplication"@[0] != "BufferStreamIn"@[0]);
            assert("RunApplication"@.len() == 14 && "BufferStreamOut"@.len() == 15);
        },
        DebugFunction::RunPythonScript { .. } => {
            reveal_strlit("BufferGet");
            reveal_strlit("BufferRead");
            reveal_strlit("BufferSet");
            reveal_strlit("BufferSize");
            reveal_strlit("BufferStreamIn");
            reveal_strlit("BufferStreamOut");
            reveal_strlit("BufferWrite");
            reveal_strlit("DAP_Delay");
            reveal_strlit("DAP_JTAG_Sequence");
            reveal_strlit("DAP_SWJ_Clock");
            reveal_strlit("DAP_SWJ_Pins");
            reveal_strlit("DAP_SWJ_Sequence");
            reveal_strlit("DAP_WriteABORT");
            reveal_strlit("FlashLoadAlgorithm");
            reveal_strlit("FlashWriteBuffer");
            reveal_strlit("Message");
            reveal_strlit("Query");
            reveal_strlit("QueryValue");
            reveal_strlit("Read16");
            reveal_strlit("Read32");
            reveal_strlit("Read64");
            reveal_strlit("Read8");
            reveal_strlit("ReadAP");
            reveal_strlit("ReadAccessAP");
            reveal_strlit("ReadDP");
            reveal_strlit("RunApplication");
            reveal_strlit("RunPythonScript");
            reveal_strlit("Sequence");
            reveal_strlit("Write16");
            reveal_strlit("Write32");
            reveal_strlit("Write64");
            reveal_strlit("Write8");
            reveal_strlit("WriteAP");
            reveal_strlit("WriteAccessAP");
            reveal_strlit("WriteDP");
            assert("RunPythonScript"@.len() == 15 && "Message"@.len() == 7);
            assert("RunPythonScript"@.len() == 15 && "Read8"@.len() == 5);
            assert("RunPythonScript"@.len() == 15 && "Read16"@.len() == 6);
            assert("RunPythonScript"@.len() == 15 && "Read32"@.len() == 6);
            assert("RunPythonScript"@.len() == 15 && "Read64"@.len() == 6);
            assert("RunPythonScript"@.len() == 15 && "Write8"@.len() == 6);
            assert("RunPythonScript"@.len() == 15 && "Write16"@.len() == 7);
            assert("RunPythonScript"@.len() == 15 && "Write32"@.len() == 7);
            assert("RunPythonScript"@.len() == 15 && "Write64"@.len() == 7);
            assert("RunPythonScript"@.len() == 15 && "ReadAP"@.len() == 6);
            assert("RunPythonScript"@.len() == 15 && "WriteAP"@.len() == 7);
            assert("RunPythonScript"@.len() == 15 && "ReadDP"@.len() == 6);
            assert("RunPythonScript"@.len() == 15 && "WriteDP"@.len() == 7);
            assert("RunPythonScript"@.len() == 15 && "ReadAccessAP"@.len() == 12);
            assert("RunPythonScript"@.len() == 15 && "WriteAccessAP"@.len() == 13);
            assert("RunPythonScript"@.len() == 15 && "DAP_Delay"@.len() == 9);
            assert("RunPythonScript"@.len() == 15 && "DAP_WriteABORT"@.len() == 14);
            assert("RunPythonScript"@.len() == 15 && "DAP_SWJ_Pins"@.len() == 12);
            assert("RunPythonScript"@.len() == 15 && "DAP_SWJ_Clock"@.len() == 13);
            assert("RunPythonScript"@.len() == 15 && "DAP_SWJ_Sequence"@.len() == 16);
            assert("RunPythonScript"@.len() == 15 && "DAP_JTAG_Sequence"@.len() == 17);
            assert("RunPythonScript"@.len() == 15 && "Sequence"@.len() == 8);
            assert("RunPythonScript"@.len() == 15 && "Query"@.len() == 5);
            assert("RunPythonScript"@.len() == 15 && "QueryValue"@.len() == 10);
            assert("RunPythonScript"@.len() == 15 && "FlashWriteBuffer"@.len() == 16);
            assert("RunPythonScript"@.len() == 15 && "FlashLoadAlgorithm"@.len() == 18);
            assert("RunPythonScript"@.len() == 15 && "BufferSet"@.len() == 9);
            assert("RunPythonScript"@.len() == 15 && "BufferGet"@.len() == 9);
            assert("RunPythonScript"@.len() == 15 && "BufferSize"@.len() == 10);
            assert("RunPythonScript"@.len() == 15 && "BufferRead"@.len() == 10);
            assert("RunPythonScript"@.len() == 15 && "BufferWrite"@.len() == 11);
            assert("RunPythonScript"@.len() == 15 && "BufferStreamIn"@.len() == 14);
            assert("RunPythonScript"@[0] != "BufferStreamOut"@[0]);
            assert("RunPythonScript"@.len() == 15 && "RunApplication"@.len() == 14);
        },
        DebugFunction::FilePathExists { .. } => {
            reveal_strlit("BufferGet");
            reveal_strlit("BufferRead");
            reveal_strlit("BufferSet");
            reveal_strlit("BufferSize");
            reveal_strlit("BufferStreamIn");
            reveal_strlit("BufferStreamOut");
            reveal_strlit("BufferWrite");
            reveal_strlit("DAP_Delay");
            reveal_strlit("DAP_JTAG_Sequence");
            reveal_strlit("DAP_SWJ_Clock");
            reveal_strlit("DAP_SWJ_Pins");
            reveal_strlit("DAP_SWJ_Sequence");
            reveal_strlit("DAP_WriteABORT");
            reveal_strlit("FilePathExists");
            reveal_strlit("FlashLoadAlgorithm");
            reveal_strlit("FlashWriteBuffer");
            reveal_strlit("Message");
            reveal_strlit("Query");
            reveal_strlit("QueryValue");
            reveal_strlit("Read16");
            reveal_strlit("Read32");
            reveal_strlit("Read64");
            reveal_strlit("Read8");
            reveal_strlit("ReadAP");
            reveal_strlit("ReadAccessAP");
            reveal_strlit("ReadDP");
            reveal_strlit("RunApplication");
            reveal_strlit("RunPythonScript");
            reveal_strlit("Sequence");
            reveal_strlit("Write16");
            reveal_strlit("Write32");
            reveal_strlit("Write64");
            reveal_strlit("Write8");
            reveal_strlit("WriteAP");
            reveal_strlit("WriteAccessAP");
            reveal_strlit("WriteDP");
            assert("FilePathExists"@.len() == 14 && "Message"@.len() == 7);
            assert("FilePathExists"@.len() == 14 && "Read8"@.len() == 5);
            assert("FilePathExists"@.len() == 14 && "Read16"@.len() == 6);
            assert("FilePathExists"@.len() == 14 && "Read32"@.len() == 6);
            assert("FilePathExists"@.len() == 14 && "Read64"@.len() == 6);
            assert("FilePathExists"@.len() == 14 && "Write8"@.len() == 6);
            assert("FilePathExists"@.len() == 14 && "Write16"@.len() == 7);
            assert("FilePathExists"@.len() == 14 && "Write32"@.len() == 7);
            assert("FilePathExists"@.len() == 14 && "Write64"@.len() == 7);
            assert("FilePathExists"@.len() == 14 && "ReadAP"@.len() == 6);
            assert("FilePathExists"@.len() == 14 && "WriteAP"@.len() == 7);
            assert("FilePathExists"@.len() == 14 && "ReadDP"@.len() == 6);
            assert("FilePathExists"@.len() == 14 && "WriteDP"@.len() == 7);
            assert("FilePathExists"@.len() == 14 && "ReadAccessAP"@.len() == 12);
            assert("FilePathExists"@.len() == 14 && "WriteAccessAP"@.len() == 13);
            assert("FilePathExists"@.len() == 14 && "DAP_Delay"@.len() == 9);
            assert("FilePathExists"@[0] != "DAP_WriteABORT"@[0]);
            assert("FilePathExists"@.len() == 14 && "DAP_SWJ_Pins"@.len() == 12);
            assert("FilePathExists"@.len() == 14 && "DAP_SWJ_Clock"@.len() == 13);
            assert("FilePathExists"@.len() == 14 && "DAP_SWJ_Sequence"@.len() == 16);
            assert("FilePathExists"@.len() == 14 && "DAP_JTAG_Sequence"@.len() == 17);
            assert("FilePathExists"@.len() == 14 && "Sequence"@.len() == 8);
            assert("FilePathExists"@.len() == 14 && "Query"@.len() == 5);
            assert("FilePathExists"@.len() == 14 && "QueryValue"@.len() == 10);
            assert("FilePathExists"@.len() == 14 && "FlashWriteBuffer"@.len() == 16);
            assert("FilePathExists"@.len() == 14 && "FlashLoadAlgorithm"@.len() == 18);
            assert("FilePathExists"@.len() == 14 && "BufferSet"@.len() == 9);
            assert("FilePathExists"@.len() == 14 && "BufferGet"@.len() == 9);
            assert("FilePathExists"@.len() == 14 && "BufferSize"@.len() == 10);
            assert("FilePathExists"@.len() == 14 && "BufferRead"@.len() == 10);
            assert("FilePathExists"@.len() == 14 && "BufferWrite"@.len() == 11);
            assert("FilePathExists"@[0] != "BufferStreamIn"@[0]);
            assert("FilePathExists"@.len() == 14 && "BufferStreamOut"@.len() == 15);
            assert("FilePathExists"@[0] != "RunApplication"@[0]);
            assert("FilePathExists"@.len() == 14 && "RunPythonScript"@.len() == 15);
        },
        DebugFunction::LoadDebugInfo { .. } => {
            reveal_strlit("BufferGet");
            reveal_strlit("BufferRead");
            reveal_strlit("BufferSet");
            reveal_strlit("BufferSize");
            reveal_strlit("BufferStreamIn");
            reveal_strlit("BufferStreamOut");
            reveal_strlit("BufferWrite");
            reveal_strlit("DAP_Delay");
            reveal_strlit("DAP_JTAG_Sequence");
            reveal_strlit("DAP_SWJ_Clock");
            reveal_strlit("DAP_SWJ_Pins");
            reveal_strlit("DAP_SWJ_Sequence");
            reveal_strlit("DAP_WriteABORT");
            reveal_strlit("FilePathExists");
            reveal_strlit("FlashLoadAlgorithm");
            reveal_strlit("FlashWriteBuffer");
            reveal_strlit("LoadDebugInfo");
            reveal_strlit("Message");
            reveal_strlit("Query");
            reveal_strlit("QueryValue");
            reveal_strlit("Read16");
            reveal_strlit("Read32");
            reveal_strlit("Read64");
            reveal_strlit("Read8");
            reveal_strlit("ReadAP");
            reveal_strlit("ReadAccessAP");
            reveal_strlit("ReadDP");
            reveal_strlit("RunApplication");
            reveal_strlit("RunPythonScript");
            reveal_strlit("Sequence");
            reveal_strlit("Write16");
            reveal_strlit("Write32");
            reveal_strlit("Write64");
            reveal_strlit("Write8");
            reveal_strlit("WriteAP");
            reveal_strlit("WriteAccessAP");
            reveal_strlit("WriteDP");
            assert("LoadDebugInfo"@.len() == 13 && "Message"@.len() == 7);
            assert("LoadDebugInfo"@.len() == 13 && "Read8"@.len() == 5);
            assert("LoadDebugInfo"@.len() == 13 && "Read16"@.len() == 6);
            assert("LoadDebugInfo"@.len() == 13 && "Read32"@.len() == 6);
            assert("LoadDebugInfo"@.len() == 13 && "Read64"@.len() == 6);
            assert("LoadDebugInfo"@.len() == 13 && "Write8"@.len() == 6);
            assert("LoadDebugInfo"@.len() == 13 && "Write16"@.len() == 7);
            assert("LoadDebugInfo"@.len() == 13 && "Write32"@.len() == 7);
            assert("LoadDebugInfo"@.len() == 13 && "Write64"@.len() == 7);
            assert("LoadDebugInfo"@.len() == 13 && "ReadAP"@.len() == 6);
            assert("LoadDebugInfo"@.len() == 13 && "WriteAP"@.len() == 7);
            assert("LoadDebugInfo"@.len() == 13 && "ReadDP"@.len() == 6);
            assert("LoadDebugInfo"@.len() == 13 && "WriteDP"@.len() == 7);
            assert("LoadDebugInfo"@.len() == 13 && "ReadAccessAP"@.len() == 12);
            assert("LoadDebugInfo"@[0] != "WriteAccessAP"@[0]);
            assert("LoadDebugInfo"@.len() == 13 && "DAP_Delay"@.len() == 9);
            assert("LoadDebugInfo"@.len() == 13 && "DAP_WriteABORT"@.len() == 14);
            assert("LoadDebugInfo"@.len() == 13 && "DAP_SWJ_Pins"@.len() == 12);
            assert("LoadDebugInfo"@[0] != "DAP_SWJ_Clock"@[0]);
            assert("LoadDebugInfo"@.len() == 13 && "DAP_SWJ_Sequence"@.len() == 16);
            assert("LoadDebugInfo"@.len() == 13 && "DAP_JTAG_Sequence"@.len() == 17);
            assert("LoadDebugInfo"@.len() == 13 && "Sequence"@.len() == 8);
            assert("LoadDebugInfo"@.len() == 13 && "Query"@.len() == 5);
            assert("LoadDebugInfo"@.len() == 13 && "QueryValue"@.len() == 10);
            assert("LoadDebugInfo"@.len() == 13 && "FlashWriteBuffer"@.len() == 16);
            assert("LoadDebugInfo"@.len() == 13 && "FlashLoadAlgorithm"@.len() == 18);
            assert("LoadDebugInfo"@.len() == 13 && "BufferSet"@.len() == 9);
            assert("LoadDebugInfo"@.len() == 13 && "BufferGet"@.len() == 9);
            assert("LoadDebugInfo"@.len() == 13 && "BufferSize"@.len() == 10);
            assert("LoadDebugInfo"@.len() == 13 && "BufferRead"@.len() == 10);
            assert("LoadDebugInfo"@.len() == 13 && "BufferWrite"@.len() == 11);
            assert("LoadDebugInfo"@.len() == 13 && "BufferStreamIn"@.len() == 14);
            assert("LoadDebugInfo"@.len() == 13 && "BufferStreamOut"@.len() == 15);
            assert("LoadDebugInfo"@.len() == 13 && "RunApplication"@.len() == 14);
            assert("LoadDebugInfo"@.len() == 13 && "RunPythonScript"@.len() == 15);
            assert("LoadDebugInfo"@.len() == 13 && "FilePathExists"@.len() == 14);
        },
    }
}


/// Text that stands for itself as an argument of a call: not empty, without
/// whitespace at either end, and without parentheses or commas.
pub open spec fn is_plain_argument(a: Seq<char>) -> bool {
    &&& a.len() > 0
    &&& !is_ws(a[0])
    &&& !is_ws(a.last())
    &&& forall|i: int| 0 <= i < a.len() ==> a[i] != '(' && a[i] != ')' && a[i] != ','
}

/// The expressions that stand for the texts `args` as they are.
pub open spec fn normal_arguments(args: Seq<Seq<char>>) -> Seq<ExpressionModel> {
    Seq::new(args.len(), |i: int| ExpressionModel::Normal(args[i]))
}

/// A plain argument is its own trimmed text, also after one space.
proof fn lemma_trim_plain(a: Seq<char>)
    requires
        is_plain_argument(a),
    ensures
        trim(a) == a,
        trim(seq![' '] + a) == a,
{
    assert(trim_start(a) == a);
    assert(trim_end(a) == a);
    let b = seq![' '] + a;
    assert(is_ws(b[0]));
    assert(b.drop_first() =~= a);
    assert(trim_start(b) == trim_start(a));
}

/// Text without parentheses is at depth zero.
proof fn lemma_no_parens_depth(s: Seq<char>)
    requires
        forall|i: int| 0 <= i < s.len() ==> s[i] != '(' && s[i] != ')',
    ensures
        paren_depth(s) == 0,
    decreases s.len(),
{
    if s.len() > 0 {
        lemma_no_parens_depth(s.drop_last());
    }
}

/// The commas below `k` do not depend on what follows `s`.
proof fn lemma_commas_prefix(s: Seq<char>, w: Seq<char>, k: int)
    requires
        0 <= k <= s.len(),
    ensures
        top_level_commas(s + w, k) == top_level_commas(s, k),
    decreases k,
{
    if k > 0 {
        lemma_commas_prefix(s, w, k - 1);
        assert((s + w).take(k - 1) =~= s.take(k - 1));
        assert((s + w)[k - 1] == s[k - 1]);
    }
}

/// Where `s[from..k]` holds no comma, no comma is added there.
proof fn lemma_commas_none(s: Seq<char>, from: int, k: int)
    requires
        0 <= from <= k <= s.len(),
        forall|i: int| from <= i < k ==> s[i] != ',',
    ensures
        top_level_commas(s, k) == top_level_commas(s, from),
    decreases k - from,
{
    if k > from {
        lemma_commas_none(s, from, k - 1);
    }
}

/// The commas below `k` lie below `k`, in increasing order.
proof fn lemma_commas_bound(s: Seq<char>, k: int)
    ensures
        forall|j: int|
            0 <= j < top_level_commas(s, k).len() ==> 0 <= #[trigger] top_level_commas(s, k)[j]
                < k,
        forall|a: int, b: int|
            0 <= a < b < top_level_commas(s, k).len() ==> #[trigger] top_level_commas(s, k)[a]
                < #[trigger] top_level_commas(s, k)[b],
    decreases k,
{
    if k > 0 {
        lemma_commas_bound(s, k - 1);
        let c = top_level_commas(s, k - 1);
        if is_top_level_comma(s, k - 1) {
            let d = c.push(k - 1);
            assert(top_level_commas(s, k) == d);
            assert forall|j: int| 0 <= j < d.len() implies 0 <= #[trigger] d[j] < k by {
                if j < c.len() {
                    assert(d[j] == c[j]);
                }
            }
            assert forall|a: int, b: int| 0 <= a < b < d.len() implies #[trigger] d[a] < #[trigger] d[b] by {
                assert(d[a] == c[a]);
                if b < c.len() {
                    assert(d[b] == c[b]);
                }
            }
        }
    }
}

/// How plain arguments joined with `", "` cut back into pieces.
proof fn lemma_join_pieces(args: Seq<Seq<char>>)
    requires
        args.len() > 0,
        forall|i: int| 0 <= i < args.len() ==> is_plain_argument(#[trigger] args[i]),
    ensures
        ({
            let j = join_args(args);
            let cs = top_level_commas(j, j.len() as int);
            &&& forall|i: int| 0 <= i < j.len() ==> j[i] != '(' && j[i] != ')'
            &&& j.len() > 0 && !is_ws(j[0]) && !is_ws(j.last())
            &&& cs.len() == args.len() - 1
            &&& forall|i: int| 0 <= i < cs.len() ==> 0 <= #[trigger] cs[i] < j.len()
            &&& forall|k: int|
                0 <= k < args.len() ==> #[trigger] argument_segment(j, cs, k) == (if k == 0 {
                    args[0]
                } else {
                    seq![' '] + args[k]
                })
        }),
    decreases args.len(),
{
    reveal_strlit(", ");
    let j = join_args(args);
    if args.len() == 1 {
        assert(j == args[0]);
        lemma_commas_none(j, 0, j.len() as int);
        assert(j.subrange(0, j.len() as int) =~= j);
    } else {
        let p = args.drop_last();
        assert forall|i: int| 0 <= i < p.len() implies is_plain_argument(#[trigger] p[i]) by {
            assert(p[i] == args[i]);
        }
        lemma_join_pieces(p);
        let s = join_args(p);
        let t = args.last();
        assert(is_plain_argument(args[args.len() - 1]));
        let w = seq![',', ' '] + t;
        assert(", "@ =~= seq![',', ' ']);
        assert(j =~= s + w);
        let cs_s = top_level_commas(s, s.len() as int);
        let n = s.len() as int;
        // The commas of `j`: those of `s`, then the one that joins `t`.
        lemma_commas_prefix(s, w, n);
        lemma_no_parens_depth(s);
        assert(j.take(n) =~= s);
        assert(j[n] == ',');
        assert(top_level_commas(j, n + 1) == cs_s.push(n));
        assert forall|i: int| n + 1 <= i < j.len() implies j[i] != ',' by {
            if i > n + 1 {
                assert(j[i] == t[i - n - 2]);
            }
        }
        lemma_commas_none(j, n + 1, j.len() as int);
        let cs = top_level_commas(j, j.len() as int);
        assert(cs == cs_s.push(n));
        lemma_commas_bound(s, n);
        lemma_commas_bound(j, j.len() as int);
        assert forall|i: int| 0 <= i < j.len() implies j[i] != '(' && j[i] != ')' by {
            if i < n {
                assert(j[i] == s[i]);
            } else if i > n + 1 {
                assert(j[i] == t[i - n - 2]);
            }
        }
        assert(j[0] == s[0]);
        assert(j.last() == t.last());
        assert forall|k: int| 0 <= k < args.len() implies #[trigger] argument_segment(j, cs, k) == (
        if k == 0 {
            args[0]
        } else {
            seq![' '] + args[k]
        }) by {
            if k < args.len() - 1 {
                assert(args[k] == p[k]);
                let seg_s = argument_segment(s, cs_s, k);
                let start = if k == 0 {
                    0
                } else {
                    cs_s[k - 1] + 1
                };
                let end = if k == cs_s.len() {
                    n
                } else {
                    cs_s[k]
                };
                if k > 0 {
                    assert(cs_s[k - 1] < n);
                }
                if k < cs_s.len() {
                    assert(cs_s[k] < n);
                    if k > 0 {
                        assert(cs_s[k - 1] < cs_s[k]);
                    }
                    assert(cs[k] == cs_s[k]);
                } else {
                    assert(cs[k] == n);
                }
                if k > 0 {
                    assert(cs[k - 1] == cs_s[k - 1]);
                }
                assert(0 <= start <= end <= n);
                assert(argument_segment(j, cs, k) =~= s.subrange(start, end));
                assert(seg_s =~= s.subrange(start, end));
            } else {
                assert(argument_segment(j, cs, k) =~= seq![' '] + t);
            }
        }
    }
}

/// Plain arguments joined with `", "` split back into themselves.
proof fn lemma_split_join(args: Seq<Seq<char>>)
    requires
        forall|i: int| 0 <= i < args.len() ==> is_plain_argument(#[trigger] args[i]),
    ensures
        split_args(join_args(args)) == args,
        forall|i: int| 0 <= i < args.len() ==> (#[trigger] args[i]).len() <= join_args(args).len(),
{
    let j = join_args(args);
    if args.len() == 0 {
        assert(trim(j) =~= Seq::<char>::empty());
        assert(split_args(j) =~= args);
    } else {
        lemma_join_pieces(args);
        let cs = top_level_commas(j, j.len() as int);
        assert(trim_start(j) == j);
        assert(trim_end(j) == j);
        let pieces = Seq::new((cs.len() + 1) as nat, |k: int| trim(argument_segment(j, cs, k)));
        assert forall|k: int| 0 <= k < args.len() implies pieces[k] == args[k] by {
            lemma_trim_plain(args[k]);
        }
        assert(pieces =~= args);
        assert(pieces.last() == args.last());
        assert(split_args(j) == pieces);
        lemma_commas_bound(j, j.len() as int);
        assert forall|i: int| 0 <= i < args.len() implies (#[trigger] args[i]).len() <= j.len() by {
            let seg = argument_segment(j, cs, i);
            if i > 0 && i < cs.len() {
                assert(cs[i - 1] < cs[i]);
            }
            let start = if i == 0 {
                0
            } else {
                cs[i - 1] + 1
            };
            let end = if i == cs.len() {
                j.len() as int
            } else {
                cs[i]
            };
            assert(seg.len() == end - start);
            if i > 0 {
                assert(seg == seq![' '] + args[i]);
            }
        }
    }
}

/// A plain argument parses to itself.
proof fn lemma_plain_parses(a: Seq<char>)
    requires
        is_plain_argument(a),
    ensures
        parse_expression(a) == Ok::<ExpressionModel, DebugErrorModel>(ExpressionModel::Normal(a)),
{
    lemma_find_from(a, '(', 0);
    assert(find_from(a, '(', 0) is None);
    assert(conditional_parts(a) is None);
    assert(call_paren(a) is None);
}

/// Plain arguments, each shorter than `limit`, parse to themselves.
proof fn lemma_plain_arguments_parse(pieces: Seq<Seq<char>>, limit: nat)
    requires
        forall|i: int| 0 <= i < pieces.len() ==> is_plain_argument(#[trigger] pieces[i]),
        forall|i: int| 0 <= i < pieces.len() ==> (#[trigger] pieces[i]).len() < limit,
    ensures
        parse_arguments(pieces, limit) == Ok::<Seq<ExpressionModel>, DebugErrorModel>(
            normal_arguments(pieces),
        ),
    decreases pieces.len(),
{
    if pieces.len() > 0 {
        let rest = pieces.drop_first();
        assert forall|i: int| 0 <= i < rest.len() implies is_plain_argument(#[trigger] rest[i]) && rest[i].len() < limit by {
            assert(rest[i] == pieces[i + 1]);
        }
        lemma_plain_arguments_parse(rest, limit);
        assert(pieces[0].len() < limit);
        lemma_plain_parses(pieces[0]);
        assert(seq![ExpressionModel::Normal(pieces[0])] + normal_arguments(rest) =~= normal_arguments(
            pieces,
        ));
    } else {
        assert(normal_arguments(pieces) =~= Seq::<ExpressionModel>::empty());
    }
}

/// Printing a call of a debug function whose arguments are plain text, and
/// parsing the printed text, gives the call back.
pub proof fn lemma_call_round_trip(name: Seq<char>, args: Seq<Seq<char>>)
    requires
        is_identifier(name),
        forall|i: int| 0 <= i < name.len() ==> name[i] != '(',
        forall|i: int| 0 <= i < args.len() ==> is_plain_argument(#[trigger] args[i]),
        function_from_call(name, normal_arguments(args)) is Ok,
    ensures
        parse_expression(
            expression_text(ExpressionModel::FunctionCall(name, normal_arguments(args))),
        ) == Ok::<ExpressionModel, DebugErrorModel>(
            ExpressionModel::FunctionCall(name, normal_arguments(args)),
        ),
{
    reveal_strlit("(");
    reveal_strlit(")");
    let models = normal_arguments(args);
    assert(argument_texts(models) =~= args);
    let j = join_args(args);
    lemma_split_join(args);
    if args.len() > 0 {
        lemma_join_pieces(args);
    }
    let t = expression_text(ExpressionModel::FunctionCall(name, models));
    let p = name.len() as int;
    assert(t =~= name + seq!['('] + j + seq![')']);
    assert(t[p] == '(');
    assert forall|i: int| p < i < t.len() - 1 implies t[i] != '(' && t[i] != ')' by {
        assert(t[i] == j[i - p - 1]);
    }
    // The first `(` closes the name; no `?` follows the last `)`.
    lemma_find_from(t, '(', 0);
    assert(find_from(t, '(', 0) == Some(p));
    assert(t[t.len() - 1] == ')');
    assert(find_from(t, ')', p + 1) == Some(t.len() - 1)) by {
        lemma_find_from(t, ')', p + 1);
        if find_from(t, ')', p + 1) != Some(t.len() - 1) {
            let k = find_from(t, ')', p + 1)->0;
            assert(t[k] == ')');
        }
    }
    assert(find_from(t, '?', t.len() as int) is None);
    assert(conditional_parts(t) is None);
    assert(t.take(p) =~= name);
    assert forall|i: int| 0 <= i < j.len() implies j[i] != '(' && j[i] != ')' by {
        assert(j[i] == t[i + p + 1]);
    }
    lemma_balanced_without_parens(j);
    assert(t.subrange(p + 1, t.len() - 1) =~= j);
    assert(call_paren(t) == Some(p));
    assert(t.subrange(p + 1, t.len() - 1) =~= j);
    lemma_plain_arguments_parse(args, t.len());
}


/// A plain argument between two spaces trims to itself.
proof fn lemma_trim_padded(a: Seq<char>)
    requires
        is_plain_argument(a),
    ensures
        trim(seq![' '] + a + seq![' ']) == a,
{
    let b = seq![' '] + a + seq![' '];
    let c = a + seq![' '];
    assert(b.drop_first() =~= c);
    assert(is_ws(b[0]));
    assert(c[0] == a[0]);
    assert(trim_start(c) == c);
    assert(trim_start(b) == c);
    assert(c.drop_last() =~= a);
    assert(is_ws(c.last()));
    assert(trim_end(a) == a);
    assert(trim_end(c) == a);
}

/// Printing a conditional whose three parts are plain text (the true value
/// without `:`, the false value without `;`), and parsing the printed text,
/// gives the conditional back.
pub proof fn lemma_conditional_round_trip(c: Seq<char>, a: Seq<char>, b: Seq<char>)
    requires
        is_plain_argument(c),
        is_plain_argument(a),
        is_plain_argument(b),
        forall|i: int| 0 <= i < a.len() ==> a[i] != ':',
        forall|i: int| 0 <= i < b.len() ==> b[i] != ';',
    ensures
        ({
            let m = ExpressionModel::Conditional(
                Box::new(ExpressionModel::Normal(c)),
                Box::new(ExpressionModel::Normal(a)),
                Box::new(ExpressionModel::Normal(b)),
            );
            parse_expression(expression_text(m)) == Ok::<ExpressionModel, DebugErrorModel>(m)
        }),
{
    reveal_strlit("(");
    reveal_strlit(") ? ");
    reveal_strlit(" : ");
    let m = ExpressionModel::Conditional(
        Box::new(ExpressionModel::Normal(c)),
        Box::new(ExpressionModel::Normal(a)),
        Box::new(ExpressionModel::Normal(b)),
    );
    let t = expression_text(m);
    let nc = c.len() as int;
    let na = a.len() as int;
    let q = nc + 1;
    let r = q + 2;
    let tt = r + 3 + na;
    assert("("@ =~= seq!['(']);
    assert(") ? "@ =~= seq![')', ' ', '?', ' ']);
    assert(" : "@ =~= seq![' ', ':', ' ']);
    assert(expression_text(ExpressionModel::Normal(c)) == c);
    assert(expression_text(ExpressionModel::Normal(a)) == a);
    assert(expression_text(ExpressionModel::Normal(b)) == b);
    assert(t == "("@ + c + ") ? "@ + a + " : "@ + b);
    assert(t =~= seq!['('] + c + seq![')', ' ', '?', ' '] + a + seq![' ', ':', ' '] + b);
    assert(t[0] == '(');
    assert(t[q] == ')');
    assert(t[r] == '?');
    assert(t[tt] == ':');
    assert forall|i: int| 0 < i < q implies t[i] != ')' by {
        assert(t[i] == c[i - 1]);
    }
    assert forall|i: int| r < i < tt implies t[i] != ':' by {
        if r + 1 < i < r + 2 + na {
            assert(t[i] == a[i - r - 2]);
        }
    }
    assert forall|i: int| tt < i < t.len() implies t[i] != ';' by {
        if i > tt + 1 {
            assert(t[i] == b[i - tt - 2]);
        }
    }
    lemma_find_from(t, '(', 0);
    lemma_find_from(t, ')', 1);
    lemma_find_from(t, '?', q + 1);
    lemma_find_from(t, ':', r + 1);
    lemma_find_from(t, ';', tt + 1);
    assert(find_from(t, '(', 0) == Some(0int));
    assert(find_from(t, ')', 1) == Some(q));
    assert(find_from(t, '?', q + 1) == Some(r));
    assert(find_from(t, ':', r + 1) == Some(tt));
    assert(find_from(t, ';', tt + 1) is None);
    assert(conditional_parts(t) == Some((0int, q, r, tt, t.len() as int)));
    assert(t.subrange(1, q) =~= c);
    assert(t.subrange(r + 1, tt) =~= seq![' '] + a + seq![' ']);
    assert(t.subrange(tt + 1, t.len() as int) =~= seq![' '] + b);
    lemma_trim_plain(c);
    lemma_trim_plain(b);
    lemma_trim_padded(a);
    lemma_plain_parses(c);
    lemma_plain_parses(a);
    lemma_plain_parses(b);
}

// ---------------------------------------------------------------------------
// Nested calls read back.

/// Text that reads as one argument of a call: not empty, without whitespace
/// at either end, without `?`, with matching parentheses, and with each of
/// its commas inside parentheses.
#[verifier::opaque]
pub open spec fn is_argument_text(t: Seq<char>) -> bool {
    &&& t.len() > 0
    &&& !is_ws(t[0])
    &&& !is_ws(t.last())
    &&& forall|i: int| 0 <= i < t.len() ==> t[i] != '?'
    &&& balanced(t)
    &&& forall|i: int| #![trigger t[i]] 0 <= i < t.len() && t[i] == ',' ==> nest_depth(t.take(i)) > 0
}

/// The expressions that are written as text that reads back as themselves:
/// plain text without `?`, and calls of debug functions (with a fitting
/// number of arguments) whose names are plain text without `?` and whose
/// arguments are, in turn, such expressions.
pub open spec fn reads_back(m: ExpressionModel) -> bool
    decreases m,
{
    match m {
        ExpressionModel::Normal(s) => is_plain_argument(s) && forall|i: int|
            0 <= i < s.len() ==> s[i] != '?',
        ExpressionModel::FunctionCall(name, args) => {
            &&& is_plain_argument(name)
            &&& is_identifier(name)
            &&& forall|i: int| 0 <= i < name.len() ==> name[i] != '?'
            &&& function_from_call(name, args) is Ok
            &&& forall|i: int| 0 <= i < args.len() ==> reads_back(#[trigger] args[i])
        },
        ExpressionModel::Conditional(..) => false,
    }
}

/// The depth after two texts is the sum of their depths.
proof fn lemma_nest_concat(a: Seq<char>, b: Seq<char>)
    ensures
        nest_depth(a + b) == nest_depth(a) + nest_depth(b),
    decreases b.len(),
{
    if b.len() == 0 {
        assert(a + b =~= a);
    } else {
        assert((a + b).drop_last() =~= a + b.drop_last());
        assert((a + b).last() == b.last());
        lemma_nest_concat(a, b.drop_last());
    }
}

/// The depth is at most the length.
proof fn lemma_nest_bound(s: Seq<char>)
    ensures
        nest_depth(s) <= s.len(),
    decreases s.len(),
{
    if s.len() > 0 {
        lemma_nest_bound(s.drop_last());
    }
}

/// Where no prefix of `s` closes more than it opened, and `s` is shorter
/// than the range of the 32-bit counter, the counter never wraps: it holds
/// the depth.
proof fn lemma_depth_agrees(s: Seq<char>, k: int)
    requires
        0 <= k <= s.len(),
        s.len() < 0x1_0000_0000,
        forall|i: int| 0 <= i <= s.len() ==> nest_depth(#[trigger] s.take(i)) >= 0,
    ensures
        paren_depth(s.take(k)) == nest_depth(s.take(k)),
    decreases k,
{
    if k > 0 {
        lemma_depth_agrees(s, k - 1);
        assert(s.take(k).drop_last() =~= s.take(k - 1));
        lemma_nest_bound(s.take(k));
        assert(nest_depth(s.take(k)) >= 0);
        assert(nest_depth(s.take(k - 1)) >= 0);
    }
}

/// Where `s[from..k]` holds no comma outside parentheses, none is added
/// there.
proof fn lemma_no_top_level_commas(s: Seq<char>, from: int, k: int)
    requires
        0 <= from <= k <= s.len(),
        forall|i: int| from <= i < k ==> !is_top_level_comma(s, i),
    ensures
        top_level_commas(s, k) == top_level_commas(s, from),
    decreases k - from,
{
    if k > from {
        lemma_no_top_level_commas(s, from, k - 1);
    }
}

/// Text that is not empty and has no whitespace at either end trims to
/// itself, also after one space.
proof fn lemma_trim_word(a: Seq<char>)
    requires
        a.len() > 0,
        !is_ws(a[0]),
        !is_ws(a.last()),
    ensures
        trim(a) == a,
        trim(seq![' '] + a) == a,
{
    assert(trim_start(a) == a);
    assert(trim_end(a) == a);
    let b = seq![' '] + a;
    assert(is_ws(b[0]));
    assert(b.drop_first() =~= a);
    assert(trim_start(b) == trim_start(a));
}

/// Joining text `s` with matching parentheses and argument text `t` with
/// `", "`: the result has matching parentheses, and its commas outside
/// parentheses are those of `s` and the joining one.
#[verifier::rlimit(30)]
proof fn lemma_join_step(s: Seq<char>, t: Seq<char>)
    requires
        balanced(s),
        is_argument_text(t),
        (s + seq![',', ' '] + t).len() < 0x1_0000_0000,
    ensures
        ({
            let j = s + seq![',', ' '] + t;
            &&& balanced(j)
            &&& top_level_commas(j, j.len() as int) == top_level_commas(s, s.len() as int).push(
                s.len() as int,
            )
        }),
{
    reveal(is_argument_text);
    let sep = seq![',', ' '];
    let j = s + sep + t;
    let w = sep + t;
    assert(j =~= s + w);
    let n = s.len() as int;
    assert(nest_depth(sep) == 0) by {
        lemma_depth_without_parens(sep, 2);
        assert(sep.take(2) =~= sep);
    }
    assert(s.take(n) =~= s);
    // The depth within `j`: that of `s`, then that of `t`.
    assert forall|k: int| n + 2 <= k <= j.len() implies nest_depth(#[trigger] j.take(k)) == nest_depth(
        t.take(k - n - 2),
    ) by {
        assert(j.take(k) =~= s + sep + t.take(k - n - 2));
        lemma_nest_concat(s + sep, t.take(k - n - 2));
        lemma_nest_concat(s, sep);
    }
    assert forall|k: int| 0 <= k <= j.len() implies nest_depth(#[trigger] j.take(k)) >= 0 by {
        if k <= n {
            assert(j.take(k) =~= s.take(k));
        } else if k < n + 2 {
            assert(j.take(k) =~= s + sep.take(k - n));
            lemma_nest_concat(s, sep.take(k - n));
            lemma_depth_without_parens(sep, k - n);
        } else {
            assert(nest_depth(j.take(k)) == nest_depth(t.take(k - n - 2)));
        }
    }
    assert(t.take(t.len() as int) =~= t);
    assert(j.take(j.len() as int) =~= j);
    assert(nest_depth(j) == 0);
    // The commas of `j` outside parentheses.
    lemma_commas_prefix(s, w, n);
    assert(j.take(n) =~= s);
    lemma_depth_agrees(j, n);
    assert(j[n] == ',');
    assert(is_top_level_comma(j, n));
    assert(top_level_commas(j, n + 1) == top_level_commas(s, n).push(n));
    assert forall|i: int| n + 1 <= i < j.len() implies !is_top_level_comma(j, i) by {
        if i > n + 1 && j[i] == ',' {
            assert(j[i] == t[i - n - 2]);
            lemma_depth_agrees(j, i);
            assert(nest_depth(j.take(i)) == nest_depth(t.take(i - n - 2)));
        }
    }
    lemma_no_top_level_commas(j, n + 1, j.len() as int);
}

/// One argument text alone: its commas are all inside parentheses.
proof fn lemma_join_single(j: Seq<char>)
    requires
        is_argument_text(j),
        j.len() < 0x1_0000_0000,
    ensures
        j.len() > 0 && !is_ws(j[0]) && !is_ws(j.last()),
        forall|i: int| 0 <= i < j.len() ==> j[i] != '?',
        balanced(j),
        top_level_commas(j, j.len() as int) == Seq::<int>::empty(),
{
    reveal(is_argument_text);
    assert forall|i: int| 0 <= i < j.len() implies !is_top_level_comma(j, i) by {
        if j[i] == ',' {
            lemma_depth_agrees(j, i);
        }
    }
    lemma_no_top_level_commas(j, 0, j.len() as int);
}

/// How argument texts joined with `", "` cut back into pieces: the joined
/// text has matching parentheses, and its commas outside parentheses are
/// exactly the ones that join.
#[verifier::rlimit(100)]
#[verifier::spinoff_prover]
proof fn lemma_join_arguments(ts: Seq<Seq<char>>)
    requires
        ts.len() > 0,
        forall|i: int| 0 <= i < ts.len() ==> is_argument_text(#[trigger] ts[i]),
        join_args(ts).len() < 0x1_0000_0000,
    ensures
        ({
            let j = join_args(ts);
            let cs = top_level_commas(j, j.len() as int);
            &&& j.len() > 0 && !is_ws(j[0]) && !is_ws(j.last())
            &&& forall|i: int| 0 <= i < j.len() ==> j[i] != '?'
            &&& balanced(j)
            &&& cs.len() == ts.len() - 1
            &&& forall|i: int| 0 <= i < cs.len() ==> 0 <= #[trigger] cs[i] < j.len()
            &&& forall|k: int|
                0 <= k < ts.len() ==> #[trigger] argument_segment(j, cs, k) == (if k == 0 {
                    ts[0]
                } else {
                    seq![' '] + ts[k]
                })
        }),
    decreases ts.len(),
{
    reveal_strlit(", ");
    let j = join_args(ts);
    if ts.len() == 1 {
        assert(j == ts[0]);
        lemma_join_single(ts[0]);
        assert(j.subrange(0, j.len() as int) =~= j);
    } else {
        let p = ts.drop_last();
        assert forall|i: int| 0 <= i < p.len() implies is_argument_text(#[trigger] p[i]) by {
            assert(p[i] == ts[i]);
        }
        let s = join_args(p);
        let t = ts.last();
        assert(is_argument_text(ts[ts.len() - 1]));
        let sep = seq![',', ' '];
        assert(", "@ =~= sep);
        let w = sep + t;
        assert(j =~= s + w);
        lemma_join_arguments(p);
        let n = s.len() as int;
        let cs_s = top_level_commas(s, n);
        lemma_join_step(s, t);
        let cs = top_level_commas(j, j.len() as int);
        assert(cs == cs_s.push(n));
        lemma_commas_bound(s, n);
        lemma_commas_bound(j, j.len() as int);
        assert(t.len() > 0 && !is_ws(t.last()) && forall|i: int| 0 <= i < t.len() ==> t[i] != '?')
            by {
            reveal(is_argument_text);
        }
        assert forall|i: int| 0 <= i < j.len() implies j[i] != '?' by {
            if i < n {
                assert(j[i] == s[i]);
            } else if i > n + 1 {
                assert(j[i] == t[i - n - 2]);
            }
        }
        assert(j[0] == s[0]);
        assert(j.last() == t.last());
        assert forall|k: int| 0 <= k < ts.len() implies #[trigger] argument_segment(j, cs, k) == (
        if k == 0 {
            ts[0]
        } else {
            seq![' '] + ts[k]
        }) by {
            if k < ts.len() - 1 {
                lemma_segments_push(s, t, cs_s, k);
                assert(ts[k] == p[k]);
            } else {
                lemma_segments_push(s, t, cs_s, 0);
            }
        }
    }
}

/// The pieces of `s + ", " + t` cut at the commas `cs` of `s` and the one
/// that joins: those of `s`, then `t` after a space.
proof fn lemma_segments_push(s: Seq<char>, t: Seq<char>, cs: Seq<int>, k: int)
    requires
        0 <= k <= cs.len(),
        forall|i: int| 0 <= i < cs.len() ==> 0 <= #[trigger] cs[i] < s.len(),
        forall|a: int, b: int| 0 <= a < b < cs.len() ==> #[trigger] cs[a] < #[trigger] cs[b],
    ensures
        argument_segment(s + seq![',', ' '] + t, cs.push(s.len() as int), k) == argument_segment(
            s,
            cs,
            k,
        ),
        argument_segment(s + seq![',', ' '] + t, cs.push(s.len() as int), cs.len() as int + 1) == seq![' ']
            + t,
{
    let j = s + seq![',', ' '] + t;
    let n = s.len() as int;
    let d = cs.push(n);
    let start = if k == 0 {
        0
    } else {
        cs[k - 1] + 1
    };
    let end = if k == cs.len() {
        n
    } else {
        cs[k]
    };
    if k > 0 {
        assert(d[k - 1] == cs[k - 1]);
        assert(cs[k - 1] < n);
    }
    if k < cs.len() {
        assert(d[k] == cs[k]);
        if k > 0 {
            assert(cs[k - 1] < cs[k]);
        }
    } else {
        assert(d[k] == n);
    }
    assert(0 <= start <= end <= n);
    assert(argument_segment(j, d, k) =~= s.subrange(start, end));
    assert(argument_segment(s, cs, k) =~= s.subrange(start, end));
    assert(d[cs.len() as int] == n);
    assert(argument_segment(j, d, cs.len() as int + 1) =~= seq![' '] + t);
}

/// Argument texts joined with `", "` split back into themselves.
proof fn lemma_split_joined_arguments(ts: Seq<Seq<char>>)
    requires
        forall|i: int| 0 <= i < ts.len() ==> is_argument_text(#[trigger] ts[i]),
        join_args(ts).len() < 0x1_0000_0000,
    ensures
        split_args(join_args(ts)) == ts,
        forall|i: int| 0 <= i < ts.len() ==> (#[trigger] ts[i]).len() <= join_args(ts).len(),
{
    let j = join_args(ts);
    if ts.len() == 0 {
        assert(trim(j) =~= Seq::<char>::empty());
        assert(split_args(j) =~= ts);
    } else {
        lemma_join_arguments(ts);
        let cs = top_level_commas(j, j.len() as int);
        lemma_trim_word(j);
        let pieces = Seq::new((cs.len() + 1) as nat, |k: int| trim(argument_segment(j, cs, k)));
        assert forall|k: int| 0 <= k < ts.len() implies pieces[k] == ts[k] by {
            assert(is_argument_text(ts[k]));
            assert(ts[k].len() > 0 && !is_ws(ts[k][0]) && !is_ws(ts[k].last())) by {
                reveal(is_argument_text);
            }
            lemma_trim_word(ts[k]);
        }
        assert(pieces =~= ts);
        assert(pieces.last() == ts.last());
        assert(split_args(j) == pieces);
        lemma_commas_bound(j, j.len() as int);
        assert forall|i: int| 0 <= i < ts.len() implies (#[trigger] ts[i]).len() <= j.len() by {
            let seg = argument_segment(j, cs, i);
            if i > 0 && i < cs.len() {
                assert(cs[i - 1] < cs[i]);
            }
            let start = if i == 0 {
                0
            } else {
                cs[i - 1] + 1
            };
            let end = if i == cs.len() {
                j.len() as int
            } else {
                cs[i]
            };
            assert(seg.len() == end - start);
            if i > 0 {
                assert(seg == seq![' '] + ts[i]);
            }
        }
    }
}

/// Pieces, each shorter than `limit` and each parsing to the matching
/// model, parse to the models.
proof fn lemma_arguments_parse(pieces: Seq<Seq<char>>, ms: Seq<ExpressionModel>, limit: nat)
    requires
        pieces.len() == ms.len(),
        forall|i: int| 0 <= i < pieces.len() ==> (#[trigger] pieces[i]).len() < limit,
        forall|i: int|
            0 <= i < pieces.len() ==> parse_expression(#[trigger] pieces[i]) == Ok::<
                ExpressionModel,
                DebugErrorModel,
            >(ms[i]),
    ensures
        parse_arguments(pieces, limit) == Ok::<Seq<ExpressionModel>, DebugErrorModel>(ms),
    decreases pieces.len(),
{
    if pieces.len() > 0 {
        let rest = pieces.drop_first();
        let mrest = ms.drop_first();
        assert forall|i: int| 0 <= i < rest.len() implies (#[trigger] rest[i]).len() < limit
            && parse_expression(rest[i]) == Ok::<ExpressionModel, DebugErrorModel>(mrest[i]) by {
            assert(rest[i] == pieces[i + 1]);
        }
        lemma_arguments_parse(rest, mrest, limit);
        assert(pieces[0].len() < limit);
        assert(seq![ms[0]] + mrest =~= ms);
    } else {
        assert(ms =~= Seq::<ExpressionModel>::empty());
    }
}

/// Each text is at most as long as the texts joined.
proof fn lemma_join_len(ts: Seq<Seq<char>>)
    ensures
        forall|i: int| 0 <= i < ts.len() ==> (#[trigger] ts[i]).len() <= join_args(ts).len(),
    decreases ts.len(),
{
    if ts.len() > 1 {
        lemma_join_len(ts.drop_last());
        assert forall|i: int| 0 <= i < ts.len() implies (#[trigger] ts[i]).len() <= join_args(ts).len() by {
            if i < ts.len() - 1 {
                assert(ts[i] == ts.drop_last()[i]);
            }
        }
    }
}

/// A call's text `name(j)`, where `j` has matching parentheses and neither
/// has `?`, is argument text that reads as a call of `name` with `j`
/// between its parentheses.
#[verifier::rlimit(30)]
proof fn lemma_call_text(name: Seq<char>, j: Seq<char>)
    requires
        is_plain_argument(name),
        is_identifier(name),
        forall|i: int| 0 <= i < name.len() ==> name[i] != '?',
        balanced(j),
        forall|i: int| 0 <= i < j.len() ==> j[i] != '?',
    ensures
        ({
            let t = name + seq!['('] + j + seq![')'];
            &&& is_argument_text(t)
            &&& parse_conditional(t) is Err
            &&& call_paren(t) == Some(name.len() as int)
            &&& t.take(name.len() as int) == name
            &&& t.subrange(name.len() as int + 1, t.len() - 1) == j
        }),
{
    let open = seq!['('];
    let t = name + open + j + seq![')'];
    let p = name.len() as int;
    // The depth within `t`: none over the name, one more than in `j`
    // inside the parentheses, none at the end.
    assert(nest_depth(open) == 1) by {
        assert(open.drop_last() =~= Seq::<char>::empty());
        assert(nest_depth(open.drop_last()) == 0);
        assert(open.last() == '(');
    }
    assert(nest_depth(name) == 0) by {
        lemma_depth_without_parens(name, p);
        assert(name.take(p) =~= name);
    }
    assert forall|k: int| p < k < t.len() implies nest_depth(#[trigger] t.take(k)) == 1 + nest_depth(
        j.take(k - p - 1),
    ) by {
        assert(t.take(k) =~= name + open + j.take(k - p - 1));
        lemma_nest_concat(name + open, j.take(k - p - 1));
        lemma_nest_concat(name, open);
    }
    assert forall|k: int| 0 <= k <= t.len() implies nest_depth(#[trigger] t.take(k)) >= 0 by {
        if k <= p {
            assert(t.take(k) =~= name.take(k));
            lemma_depth_without_parens(name, k);
        } else if k < t.len() {
            assert(nest_depth(t.take(k)) == 1 + nest_depth(j.take(k - p - 1)));
        } else {
            assert(t.take(k) =~= t);
        }
    }
    assert(nest_depth(t) == 0) by {
        let body = name + open + j;
        assert(t =~= body + seq![')']);
        assert((body + seq![')']).drop_last() =~= body);
        lemma_nest_concat(name + open, j);
        lemma_nest_concat(name, open);
        assert(j.take(j.len() as int) =~= j);
    }
    assert forall|i: int| #![trigger t[i]] 0 <= i < t.len() && t[i] == ',' implies nest_depth(
        t.take(i),
    ) > 0 by {
        if i < p {
            assert(t[i] == name[i]);
        } else if p < i < t.len() - 1 {
            assert(nest_depth(t.take(i)) == 1 + nest_depth(j.take(i - p - 1)));
        }
    }
    assert forall|i: int| 0 <= i < t.len() implies t[i] != '?' by {
        if i < p {
            assert(t[i] == name[i]);
        } else if p < i < t.len() - 1 {
            assert(t[i] == j[i - p - 1]);
        }
    }
    assert(t[0] == name[0]);
    assert(is_argument_text(t)) by {
        reveal(is_argument_text);
    }
    // Reading it: no conditional, a call of `name`.
    assert(t[p] == '(');
    assert forall|i: int| 0 <= i < p implies t[i] != '(' by {
        assert(t[i] == name[i]);
    }
    lemma_find_from(t, '(', 0);
    assert(find_from(t, '(', 0) == Some(p));
    lemma_find_from(t, ')', p + 1);
    match find_from(t, ')', p + 1) {
        Some(q) => {
            lemma_find_from(t, '?', q + 1);
        },
        None => {},
    }
    assert(conditional_parts(t) is None);
    assert(t.take(p) =~= name);
    assert(t.subrange(p + 1, t.len() - 1) =~= j);
    assert(call_paren(t) == Some(p));
}

/// What is written of an expression that reads back, where it is shorter
/// than the range of the 32-bit nesting counter, is argument text that
/// parses to the expression.
proof fn lemma_reads_back(m: ExpressionModel)
    requires
        reads_back(m),
        expression_text(m).len() < 0x1_0000_0000,
    ensures
        is_argument_text(expression_text(m)),
        parse_expression(expression_text(m)) == Ok::<ExpressionModel, DebugErrorModel>(m),
    decreases m,
{
    reveal_strlit("(");
    reveal_strlit(")");
    match m {
        ExpressionModel::Normal(s) => {
            lemma_balanced_without_parens(s);
            assert(is_argument_text(s)) by {
                reveal(is_argument_text);
            }
            lemma_find_from(s, '(', 0);
            assert(find_from(s, '(', 0) is None);
            assert(conditional_parts(s) is None);
            assert(call_paren(s) is None);
        },
        ExpressionModel::FunctionCall(name, args) => {
            let ts = argument_texts(args);
            let j = join_args(ts);
            let t = expression_text(m);
            assert(t =~= name + seq!['('] + j + seq![')']);
            lemma_join_len(ts);
            assert forall|i: int| 0 <= i < ts.len() implies is_argument_text(#[trigger] ts[i])
                && parse_expression(ts[i]) == Ok::<ExpressionModel, DebugErrorModel>(args[i]) by {
                assert(ts[i] == expression_text(args[i]));
                assert(ts[i].len() <= j.len());
                assert(reads_back(args[i]));
                lemma_reads_back(args[i]);
            }
            // What the arguments' text brings: matching parentheses, no `?`.
            if ts.len() > 0 {
                lemma_join_arguments(ts);
            } else {
                assert(j =~= Seq::<char>::empty());
                assert(j.take(0) =~= j);
            }
            lemma_call_text(name, j);
            lemma_split_joined_arguments(ts);
            lemma_arguments_parse(ts, args, t.len());
        },
        ExpressionModel::Conditional(..) => {},
    }
}

/// Printing a call of a debug function whose arguments are plain text or,
/// in turn, such calls, nested to any depth, and parsing the printed text,
/// gives the call back, for text shorter than the range of the 32-bit
/// counter that the parser keeps of the nesting depth.
pub proof fn lemma_nested_call_round_trip(m: ExpressionModel)
    requires
        reads_back(m),
        expression_text(m).len() < 0x1_0000_0000,
    ensures
        parse_expression(expression_text(m)) == Ok::<ExpressionModel, DebugErrorModel>(m),
{
    lemma_reads_back(m);
}

// ---------------------------------------------------------------------------
// Assignments read their right side as an expression.

/// Up to `stop`, `s` holds no `=`: the first assignment sign from `start` is
/// the first from `stop`.
proof fn lemma_find_assign_skip(s: Seq<char>, start: int, stop: int)
    requires
        0 <= start <= stop <= s.len(),
        forall|i: int| start <= i < stop ==> s[i] != '=',
    ensures
        find_assign(s, start) == find_assign(s, stop),
    decreases stop - start,
{
    if start < stop {
        lemma_find_assign_skip(s, start + 1, stop);
    }
}

/// A statement `v = e;`, with a name `v` that holds no `=`, assigns to `v`
/// what `e` parses to on its own: a conditional on the right side is a
/// conditional, a call is a call, plain text is plain text, and where `e`
/// does not parse, the statement fails with the same error. With `__var`
/// before the name, it is a definition of the name that follows `__var`.
pub proof fn lemma_assignment_reads_expression(v: Seq<char>, e: Seq<char>)
    requires
        v.len() > 0,
        !is_ws(v[0]),
        !is_ws(v.last()),
        forall|i: int| 0 <= i < v.len() ==> v[i] != '=',
        !starts_with(v, "//"@),
        e.len() > 0,
        !is_ws(e[0]),
        !is_ws(e.last()),
        e.last() != ';',
    ensures
        parse_statement(v + " = "@ + e + ";"@) == (match parse_expression(e) {
            Ok(m) => Ok(
                if starts_with(v, "__var"@) {
                    StatementModel::Definition(
                        trim(v.subrange("__var"@.len() as int, v.len() as int)),
                        m,
                    )
                } else {
                    StatementModel::Assignment(v, m)
                },
            ),
            Err(x) => Err(x),
        }),
{
    reveal_strlit(" = ");
    reveal_strlit(";");
    reveal_strlit("//");
    let n = v.len() as int;
    let sp = seq![' ', '=', ' '];
    assert(" = "@ =~= sp);
    assert(";"@ =~= seq![';']);
    let s = v + " = "@ + e + ";"@;
    let u = v + sp + e;
    assert(s =~= u + seq![';']);
    // The statement is already trimmed, and is no comment.
    assert(s[0] == v[0]);
    assert(s.last() == ';');
    lemma_trim_word(s);
    assert(trim(s) == s);
    let slashes = seq!['/', '/'];
    assert("//"@ =~= slashes);
    if n >= 2 {
        assert(s.subrange(0, 2) =~= v.subrange(0, 2));
    } else {
        assert(s[1] == ' ');
        assert(s.subrange(0, 2)[1] != slashes[1]);
    }
    assert(!starts_with(s, "//"@));
    assert(s.drop_last() =~= u);
    // Its first assignment sign is the one after the name.
    lemma_find_assign_skip(u, 0, n + 1);
    assert(u[n] == ' ' && u[n + 1] == '=' && u[n + 2] == ' ');
    assert(is_assign_sign(u, n + 1));
    assert(find_assign(u, 0) == Some(n + 1));
    // The name and the expression, trimmed.
    let left = u.take(n + 1);
    assert(left =~= v + seq![' ']);
    assert(trim_start(left) == left) by {
        assert(left[0] == v[0]);
    }
    assert(left.drop_last() =~= v);
    assert(trim_end(v) == v);
    assert(trim(left) == v);
    let right = u.subrange(n + 2, u.len() as int);
    assert(right =~= seq![' '] + e);
    lemma_trim_word(e);
}

// ---------------------------------------------------------------------------
// Texts of a given shape read as their parts.

/// `(c) ? a : b`, with plain parts (the true value without `:`, the false
/// value without `;`), reads as the conditional whose condition is `c`,
/// whose value when true is `a` and whose value when false is `b`.
pub proof fn lemma_conditional_reads_parts(c: Seq<char>, a: Seq<char>, b: Seq<char>)
    requires
        is_plain_argument(c),
        is_plain_argument(a),
        is_plain_argument(b),
        forall|i: int| 0 <= i < a.len() ==> a[i] != ':',
        forall|i: int| 0 <= i < b.len() ==> b[i] != ';',
    ensures
        parse_expression("("@ + c + ") ? "@ + a + " : "@ + b) == Ok::<ExpressionModel, DebugErrorModel>(
            ExpressionModel::Conditional(
                Box::new(ExpressionModel::Normal(c)),
                Box::new(ExpressionModel::Normal(a)),
                Box::new(ExpressionModel::Normal(b)),
            ),
        ),
{
    lemma_conditional_round_trip(c, a, b);
    let m = ExpressionModel::Conditional(
        Box::new(ExpressionModel::Normal(c)),
        Box::new(ExpressionModel::Normal(a)),
        Box::new(ExpressionModel::Normal(b)),
    );
    assert(expression_text(ExpressionModel::Normal(c)) == c);
    assert(expression_text(ExpressionModel::Normal(a)) == a);
    assert(expression_text(ExpressionModel::Normal(b)) == b);
    assert(expression_text(m) == "("@ + c + ") ? "@ + a + " : "@ + b);
}

/// `name(a)`, with a plain argument, reads as a call of `name` with the
/// argument `a`, where `name` takes one argument.
pub proof fn lemma_call_reads_argument(name: Seq<char>, a: Seq<char>)
    requires
        is_identifier(name),
        forall|i: int| 0 <= i < name.len() ==> name[i] != '(',
        is_plain_argument(a),
        function_from_call(name, seq![ExpressionModel::Normal(a)]) is Ok,
    ensures
        parse_expression(name + "("@ + a + ")"@) == Ok::<ExpressionModel, DebugErrorModel>(
            ExpressionModel::FunctionCall(name, seq![ExpressionModel::Normal(a)]),
        ),
{
    let args = seq![a];
    let models = normal_arguments(args);
    assert(models =~= seq![ExpressionModel::Normal(a)]);
    assert(argument_texts(models) =~= args);
    assert(join_args(args) == a);
    lemma_call_round_trip(name, args);
}

/// `name(a, b)`, with plain arguments, reads as a call of `name` with the
/// arguments `a` and `b`, in that order, where `name` takes two arguments.
pub proof fn lemma_call_reads_arguments(name: Seq<char>, a: Seq<char>, b: Seq<char>)
    requires
        is_identifier(name),
        forall|i: int| 0 <= i < name.len() ==> name[i] != '(',
        is_plain_argument(a),
        is_plain_argument(b),
        function_from_call(name, seq![ExpressionModel::Normal(a), ExpressionModel::Normal(b)]) is Ok,
    ensures
        parse_expression(name + "("@ + a + ", "@ + b + ")"@) == Ok::<ExpressionModel, DebugErrorModel>(
            ExpressionModel::FunctionCall(
                name,
                seq![ExpressionModel::Normal(a), ExpressionModel::Normal(b)],
            ),
        ),
{
    let args = seq![a, b];
    let models = normal_arguments(args);
    assert(models =~= seq![ExpressionModel::Normal(a), ExpressionModel::Normal(b)]);
    assert(argument_texts(models) =~= args);
    assert(args.drop_last() =~= seq![a]);
    assert(join_args(seq![a]) == a);
    assert(join_args(args) == a + ", "@ + b);
    lemma_call_round_trip(name, args);
    assert(name + "("@ + a + ", "@ + b + ")"@ =~= name + "("@ + join_args(args) + ")"@);
}

/// How expressions are written: a call with arguments `a` and `b` as
/// `name(a, b)`, with one argument `a` as `name(a)`, and a conditional as
/// `(c) ? a : b`, the parts written in turn.
pub proof fn lemma_expression_layout(name: Seq<char>, c: ExpressionModel, a: ExpressionModel, b: ExpressionModel)
    ensures
        expression_text(ExpressionModel::FunctionCall(name, seq![a, b])) == name + "("@ + expression_text(a)
            + ", "@ + expression_text(b) + ")"@,
        expression_text(ExpressionModel::FunctionCall(name, seq![a])) == name + "("@ + expression_text(a)
            + ")"@,
        expression_text(ExpressionModel::Conditional(Box::new(c), Box::new(a), Box::new(b))) == "("@
            + expression_text(c) + ") ? "@ + expression_text(a) + " : "@ + expression_text(b),
{
    let two = argument_texts(seq![a, b]);
    assert(two =~= seq![expression_text(a), expression_text(b)]);
    assert(two.drop_last() =~= seq![expression_text(a)]);
    assert(join_args(two.drop_last()) == expression_text(a));
    let one = argument_texts(seq![a]);
    assert(one =~= seq![expression_text(a)]);
}

} // verus!
