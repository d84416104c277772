use cmsis_pdsc_parser::debug_access::{
    Assignment, Conditional, DebugAccessParseError, DebugFunction, Expression, Statement,
};

#[test]
fn parse_comment() {
    let line = "// This is a comment!".to_string();

    let statement: Statement = line.try_into().unwrap();

    assert_eq!(
        statement,
        Statement::Comment("This is a comment!".to_string())
    );
}

#[test]
fn semicolon_handling() {
    let line1 = "Read32(0x10)".to_string();
    let line2 = "Read32(0x10);".to_string();

    let statement1: Statement = line1.try_into().unwrap();
    let statement2: Statement = line2.try_into().unwrap();

    assert_eq!(statement1, statement2);
}

#[test]
fn parse_expression_normal() {
    let line = "addr + offset;".to_string();

    let statement: Statement = line.try_into().unwrap();

    assert_eq!(
        statement,
        Statement::Expression(Expression::Normal("addr + offset".to_string()))
    );
}

#[test]
fn parse_expression_normal_variable() {
    let line = "doIfBlock".to_string();

    let statement: Statement = line.try_into().unwrap();

    assert_eq!(
        statement,
        Statement::Expression(Expression::Normal("doIfBlock".to_string()))
    );
}

#[test]
fn parse_expression_conditional() {
    let line = "(x < y) ? a : b".to_string();

    let statement: Statement = line.try_into().unwrap();

    assert_eq!(
        statement,
        Statement::Expression(Expression::Conditional(Box::new(Conditional {
            condition: Expression::Normal("x < y".to_string()),
            true_value: Expression::Normal("a".to_string()),
            false_value: Expression::Normal("b".to_string())
        })))
    );
}

#[test]
fn parse_assignment_comparison() {
    let line = "thisValue = (readTheCoolRegister(0x248) == 5);".to_string();

    let statement: Statement = line.try_into().unwrap();

    assert_eq!(
        statement,
        Statement::Assignment(Assignment {
            variable: "thisValue".to_string(),
            expression: Expression::Normal("(readTheCoolRegister(0x248) == 5)".to_string())
        })
    );
}

#[test]
fn parse_assignment() {
    let line = "variable = expression;".to_string();

    let statement: Statement = line.try_into().unwrap();

    assert_eq!(
        statement,
        Statement::Assignment(Assignment {
            expression: Expression::Normal("expression".to_string()),
            variable: "variable".to_string(),
        })
    )
}

#[test]
fn parse_definition() {
    let line = "__var variable = 0;".to_string();

    let statement: Statement = line.try_into().unwrap();

    assert_eq!(
        statement,
        Statement::Definition(Assignment {
            expression: Expression::Normal("0".to_string()),
            variable: "variable".to_string(),
        })
    )
}

#[test]
fn parse_function_call_single_arg() {
    let line = "Read32(0x40000000);".to_string();

    let statement: Statement = line.try_into().unwrap();

    assert_eq!(
        statement,
        Statement::Expression(Expression::FunctionCall(Box::new(DebugFunction::Read32 {
            addr: Expression::Normal("0x40000000".to_string())
        })))
    );
}

#[test]
fn parse_function_call_two_args() {
    let line = "Write32(addr, val);".to_string();

    let statement: Statement = line.try_into().unwrap();

    assert_eq!(
        statement,
        Statement::Expression(Expression::FunctionCall(Box::new(DebugFunction::Write32 {
            addr: Expression::Normal("addr".to_string()),
            val: Expression::Normal("val".to_string()),
        })))
    );
}

#[test]
fn parse_function_call_string_arg() {
    let line = "Sequence(\"ResetAndHalt\");".to_string();

    let statement: Statement = line.try_into().unwrap();

    assert_eq!(
        statement,
        Statement::Expression(Expression::FunctionCall(Box::new(
            DebugFunction::Sequence {
                name: Expression::Normal("\"ResetAndHalt\"".to_string())
            }
        )))
    );
}

#[test]
fn parse_function_call_three_args() {
    let line = "DAP_SWJ_Pins(pinout, pinselect, pinwait);".to_string();

    let statement: Statement = line.try_into().unwrap();

    assert_eq!(
        statement,
        Statement::Expression(Expression::FunctionCall(Box::new(
            DebugFunction::DapSwjPins {
                pinout: Expression::Normal("pinout".to_string()),
                pinselect: Expression::Normal("pinselect".to_string()),
                pinwait: Expression::Normal("pinwait".to_string()),
            }
        )))
    );
}

#[test]
fn parse_function_call_variadic() {
    let line = "Message(1, \"debug message\");".to_string();

    let statement: Statement = line.try_into().unwrap();

    assert_eq!(
        statement,
        Statement::Expression(Expression::FunctionCall(Box::new(DebugFunction::Message {
            msg_type: Expression::Normal("1".to_string()),
            format: Expression::Normal("\"debug message\"".to_string()),
            args: vec![],
        })))
    );
}

#[test]
fn parse_function_call_nested_arg() {
    // Read32(base) is an argument to Write32 — split_args must not split on the inner comma
    let line = "Write32(addr, Read32(base));".to_string();

    let statement: Statement = line.try_into().unwrap();

    assert_eq!(
        statement,
        Statement::Expression(Expression::FunctionCall(Box::new(DebugFunction::Write32 {
            addr: Expression::Normal("addr".to_string()),
            val: Expression::FunctionCall(Box::new(DebugFunction::Read32 {
                addr: Expression::Normal("base".to_string()),
            })),
        })))
    );
}

#[test]
#[should_panic(expected = "unknown statement: GetBase")]
fn unknown_function_panics() {
    if let Err(e) = Expression::try_from("GetBase()") {
        panic!("{}", e.to_string());
    }
}

#[test]
fn conditional_missing_syntax() {
    let result = Conditional::try_from("no parentheses here");
    assert!(matches!(
        result,
        Err(DebugAccessParseError::MissingAttribute(_))
    ));
}

#[test]
fn unknown_function_returns_unknown_statement() {
    let result = DebugFunction::try_from(("GetBase".to_string(), vec![]));
    assert_eq!(
        result.unwrap_err(),
        DebugAccessParseError::UnknownStatement("GetBase".to_string())
    );
}

fn normal(value: &str) -> Expression {
    Expression::Normal(value.to_string())
}

#[test]
fn format_debug_functions_exhaustively() {
    let cases = vec![
        (DebugFunction::Read8 { addr: normal("a") }, "Read8(a)"),
        (DebugFunction::Read16 { addr: normal("a") }, "Read16(a)"),
        (DebugFunction::Read32 { addr: normal("a") }, "Read32(a)"),
        (DebugFunction::Read64 { addr: normal("a") }, "Read64(a)"),
        (
            DebugFunction::Write8 {
                addr: normal("a"),
                val: normal("v"),
            },
            "Write8(a, v)",
        ),
        (
            DebugFunction::Write16 {
                addr: normal("a"),
                val: normal("v"),
            },
            "Write16(a, v)",
        ),
        (
            DebugFunction::Write32 {
                addr: normal("a"),
                val: normal("v"),
            },
            "Write32(a, v)",
        ),
        (
            DebugFunction::Write64 {
                addr: normal("a"),
                val: normal("v"),
            },
            "Write64(a, v)",
        ),
        (DebugFunction::ReadAP { addr: normal("a") }, "ReadAP(a)"),
        (
            DebugFunction::WriteAP {
                addr: normal("a"),
                val: normal("v"),
            },
            "WriteAP(a, v)",
        ),
        (DebugFunction::ReadDP { addr: normal("a") }, "ReadDP(a)"),
        (
            DebugFunction::WriteDP {
                addr: normal("a"),
                val: normal("v"),
            },
            "WriteDP(a, v)",
        ),
        (
            DebugFunction::ReadAccessAP { addr: normal("a") },
            "ReadAccessAP(a)",
        ),
        (
            DebugFunction::WriteAccessAP {
                addr: normal("a"),
                val: normal("v"),
            },
            "WriteAccessAP(a, v)",
        ),
        (
            DebugFunction::DapDelay {
                delay: normal("delay"),
            },
            "DAP_Delay(delay)",
        ),
        (
            DebugFunction::DapWriteAbort {
                value: normal("value"),
            },
            "DAP_WriteABORT(value)",
        ),
        (
            DebugFunction::DapSwjPins {
                pinout: normal("pinout"),
                pinselect: normal("pinselect"),
                pinwait: normal("pinwait"),
            },
            "DAP_SWJ_Pins(pinout, pinselect, pinwait)",
        ),
        (
            DebugFunction::DapSwjClock { val: normal("val") },
            "DAP_SWJ_Clock(val)",
        ),
        (
            DebugFunction::DapSwjSequence {
                cnt: normal("cnt"),
                val: normal("val"),
            },
            "DAP_SWJ_Sequence(cnt, val)",
        ),
        (
            DebugFunction::DapJtagSequence {
                cnt: normal("cnt"),
                tms: normal("tms"),
                tdi: normal("tdi"),
            },
            "DAP_JTAG_Sequence(cnt, tms, tdi)",
        ),
        (
            DebugFunction::Sequence {
                name: normal("name"),
            },
            "Sequence(name)",
        ),
        (
            DebugFunction::Query {
                query_type: normal("query_type"),
                message: normal("message"),
                default: normal("default"),
            },
            "Query(query_type, message, default)",
        ),
        (
            DebugFunction::QueryValue {
                message: normal("message"),
                default: normal("default"),
            },
            "QueryValue(message, default)",
        ),
        (
            DebugFunction::Message {
                msg_type: normal("msg_type"),
                format: normal("format"),
                args: vec![],
            },
            "Message(msg_type, format)",
        ),
        (
            DebugFunction::FlashWriteBuffer {
                addr: normal("addr"),
                offs: normal("offs"),
                len: normal("len"),
                mode: normal("mode"),
            },
            "FlashWriteBuffer(addr, offs, len, mode)",
        ),
        (
            DebugFunction::FlashLoadAlgorithm {
                algo_path: normal("algo_path"),
                ram_start: normal("ram_start"),
                ram_size: normal("ram_size"),
            },
            "FlashLoadAlgorithm(algo_path, ram_start, ram_size)",
        ),
        (
            DebugFunction::BufferSet {
                buff_id: normal("buff_id"),
                buff_offset: normal("buff_offset"),
                count: normal("count"),
                size: normal("size"),
                value: normal("value"),
            },
            "BufferSet(buff_id, buff_offset, count, size, value)",
        ),
        (
            DebugFunction::BufferGet {
                buff_id: normal("buff_id"),
                buff_offset: normal("buff_offset"),
                size: normal("size"),
            },
            "BufferGet(buff_id, buff_offset, size)",
        ),
        (
            DebugFunction::BufferSize {
                buff_id: normal("buff_id"),
            },
            "BufferSize(buff_id)",
        ),
        (
            DebugFunction::BufferRead {
                buff_id: normal("buff_id"),
                buff_offset: normal("buff_offset"),
                addr: normal("addr"),
                length: normal("length"),
                mode: normal("mode"),
            },
            "BufferRead(buff_id, buff_offset, addr, length, mode)",
        ),
        (
            DebugFunction::BufferWrite {
                buff_id: normal("buff_id"),
                buff_offset: normal("buff_offset"),
                addr: normal("addr"),
                length: normal("length"),
                mode: normal("mode"),
            },
            "BufferWrite(buff_id, buff_offset, addr, length, mode)",
        ),
        (
            DebugFunction::BufferStreamIn {
                buff_id: normal("buff_id"),
                buff_offset: normal("buff_offset"),
                length: normal("length"),
                path: normal("path"),
                mode: normal("mode"),
                timeout: normal("timeout"),
            },
            "BufferStreamIn(buff_id, buff_offset, length, path, mode, timeout)",
        ),
        (
            DebugFunction::BufferStreamOut {
                buff_id: normal("buff_id"),
                buff_offset: normal("buff_offset"),
                length: normal("length"),
                dest_path: normal("dest_path"),
                dest_mode: normal("dest_mode"),
                timeout: normal("timeout"),
            },
            "BufferStreamOut(buff_id, buff_offset, length, dest_path, dest_mode, timeout)",
        ),
        (
            DebugFunction::RunApplication {
                app_path: normal("app_path"),
                arguments: normal("arguments"),
                work_directory: normal("work_directory"),
                timeout: normal("timeout"),
            },
            "RunApplication(app_path, arguments, work_directory, timeout)",
        ),
        (
            DebugFunction::RunPythonScript {
                script_path: normal("script_path"),
                arguments: normal("arguments"),
                work_directory: normal("work_directory"),
                timeout: normal("timeout"),
            },
            "RunPythonScript(script_path, arguments, work_directory, timeout)",
        ),
        (
            DebugFunction::FilePathExists {
                path: normal("path"),
                timeout: normal("timeout"),
            },
            "FilePathExists(path, timeout)",
        ),
        (
            DebugFunction::LoadDebugInfo {
                file: normal("file"),
            },
            "LoadDebugInfo(file)",
        ),
    ];

    for (function, expected) in cases {
        let actual = function.to_string();
        assert_eq!(actual, expected);
        assert!(!actual.contains(';'));
        assert!(!actual.contains(",  "));
    }

    assert_eq!(
        DebugFunction::Read8 {
            addr: normal("0x64FF")
        }
        .to_string(),
        "Read8(0x64FF)"
    );
}

#[test]
fn format_expression_variants_recursively() {
    assert_eq!(
        normal("arbitrary text, unchanged").to_string(),
        "arbitrary text, unchanged"
    );
    assert_eq!(
        Expression::Conditional(Box::new(Conditional {
            condition: normal("x < y"),
            true_value: normal("a"),
            false_value: normal("b"),
        }))
        .to_string(),
        "(x < y) ? a : b"
    );

    let nested = Expression::Conditional(Box::new(Conditional {
        condition: Expression::FunctionCall(Box::new(DebugFunction::Read8 {
            addr: normal("condition_addr"),
        })),
        true_value: Expression::FunctionCall(Box::new(DebugFunction::Read16 {
            addr: normal("true_addr"),
        })),
        false_value: Expression::FunctionCall(Box::new(DebugFunction::Read32 {
            addr: normal("false_addr"),
        })),
    }));
    assert_eq!(
        nested.to_string(),
        "(Read8(condition_addr)) ? Read16(true_addr) : Read32(false_addr)"
    );
}

#[test]
fn format_message_variadic_arguments() {
    let message = |args| DebugFunction::Message {
        msg_type: normal("1"),
        format: normal("\"message\""),
        args,
    };

    assert_eq!(message(vec![]).to_string(), "Message(1, \"message\")");
    assert_eq!(
        message(vec![normal("arg1")]).to_string(),
        "Message(1, \"message\", arg1)"
    );
    assert_eq!(
        message(vec![normal("arg1"), normal("arg2"), normal("arg3")]).to_string(),
        "Message(1, \"message\", arg1, arg2, arg3)"
    );
}

#[test]
fn format_canonical_debug_names() {
    let cases = [
        ("DAP_Delay", DebugFunction::DapDelay { delay: normal("1") }),
        (
            "DAP_WriteABORT",
            DebugFunction::DapWriteAbort { value: normal("2") },
        ),
        (
            "DAP_SWJ_Pins",
            DebugFunction::DapSwjPins {
                pinout: normal("3"),
                pinselect: normal("4"),
                pinwait: normal("5"),
            },
        ),
        (
            "DAP_SWJ_Clock",
            DebugFunction::DapSwjClock { val: normal("6") },
        ),
        (
            "DAP_SWJ_Sequence",
            DebugFunction::DapSwjSequence {
                cnt: normal("7"),
                val: normal("8"),
            },
        ),
        (
            "DAP_JTAG_Sequence",
            DebugFunction::DapJtagSequence {
                cnt: normal("9"),
                tms: normal("10"),
                tdi: normal("11"),
            },
        ),
    ];

    for (name, function) in cases {
        assert!(function.to_string().starts_with(name));
    }
}

#[test]
fn format_parsed_expressions_round_trip() {
    let cases = [
        ("Read8(0x64FF)", "Read8(0x64FF)"),
        ("Write32(addr, Read32(base))", "Write32(addr, Read32(base))"),
        (
            "(condition) ? Write8(addr, 1) : Read16(addr)",
            "(condition) ? Write8(addr, 1) : Read16(addr)",
        ),
        ("Sequence(\"ResetAndHalt\")", "Sequence(\"ResetAndHalt\")"),
        (
            "Message(1, \"value\", Read32(addr), extra)",
            "Message(1, \"value\", Read32(addr), extra)",
        ),
    ];

    for (source, expected) in cases {
        let expression = Expression::try_from(source).unwrap();
        assert_eq!(expression.to_string(), expected);
    }
}

#[test]
fn comment_value_does_not_contain_leading_slashes() {
    let example: String = r"        // This is a cool comment!".to_string();

    let parsed: Statement = example.try_into().unwrap();

    assert_eq!(parsed, Statement::Comment(String::from("This is a cool comment!")))
}
