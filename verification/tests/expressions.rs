use cmsis_pdsc_parser::debug_access::{
    Assignment, Conditional, DebugAccessParseError, DebugFunction, Expression, Statement,
};
use cmsis_pdsc_parser::Error;

fn normal(value: &str) -> Expression {
    Expression::Normal(value.to_string())
}

#[test]
fn wrong_argument_counts_are_reported() {
    assert_eq!(
        Expression::try_from("Read8(a, b)").unwrap_err(),
        DebugAccessParseError::MissingAttribute("Read8 expects 1 argument, got 2".to_string())
    );
    assert_eq!(
        Expression::try_from("Write32(a)").unwrap_err(),
        DebugAccessParseError::MissingAttribute("Write32 expects 2 arguments, got 1".to_string())
    );
    assert_eq!(
        Expression::try_from("BufferStreamIn()").unwrap_err(),
        DebugAccessParseError::MissingAttribute(
            "BufferStreamIn expects 6 arguments, got 0".to_string()
        )
    );
    assert_eq!(
        DebugFunction::try_from(("Message".to_string(), vec![])).unwrap_err(),
        DebugAccessParseError::MissingAttribute(
            "Message expects at least 2 arguments, got 0".to_string()
        )
    );
    assert_eq!(
        DebugFunction::try_from(("Message".to_string(), vec![normal("1")])).unwrap_err(),
        DebugAccessParseError::MissingAttribute(
            "Message expects at least 2 arguments, got 1".to_string()
        )
    );
}

#[test]
fn arguments_split_at_top_level_commas_only() {
    let trailing = Expression::try_from("Write32( a , Read32(b), )").unwrap();
    let call = Expression::try_from("Write32( a , Read32(b))").unwrap();
    assert_eq!(trailing, call);
    assert_eq!(
        call,
        Expression::FunctionCall(Box::new(DebugFunction::Write32 {
            addr: normal("a"),
            val: Expression::FunctionCall(Box::new(DebugFunction::Read32 { addr: normal("b") })),
        }))
    );
    let empty_middle = Expression::try_from("Query(a,,c)").unwrap();
    assert_eq!(
        empty_middle,
        Expression::FunctionCall(Box::new(DebugFunction::Query {
            query_type: normal("a"),
            message: normal(""),
            default: normal("c"),
        }))
    );
}

#[test]
fn text_that_is_no_call_stays_normal() {
    assert_eq!(Expression::try_from("1abc(x)").unwrap(), normal("1abc(x)"));
    assert_eq!(Expression::try_from("(a + b)").unwrap(), normal("(a + b)"));
    assert_eq!(Expression::try_from("x(y) + 1").unwrap(), normal("x(y) + 1"));
    assert_eq!(Expression::try_from("").unwrap(), normal(""));
}

#[test]
fn conditional_errors_and_parts() {
    assert_eq!(
        Conditional::try_from("(a) ? b :").unwrap_err(),
        DebugAccessParseError::MissingAttribute(
            "conditional syntax: expected '(condition) ? truthy : falsy'".to_string()
        )
    );
    let c = Conditional::try_from("( a )?b: c ; ignored").unwrap();
    assert_eq!(
        c,
        Conditional {
            condition: normal("a"),
            true_value: normal("b"),
            false_value: normal("c"),
        }
    );
    assert_eq!(c.to_string(), "(a) ? b : c");
    assert_eq!(
        Conditional::try_from("(x) ? Unknown(1) : 2".to_string()).unwrap_err(),
        DebugAccessParseError::UnknownStatement("Unknown".to_string())
    );
}

#[test]
fn statements_of_each_kind() {
    let s: Statement = "  __var  width = Read32(0x1) ;  ".to_string().try_into().unwrap();
    assert_eq!(
        s,
        Statement::Definition(Assignment {
            variable: "width".to_string(),
            expression: Expression::FunctionCall(Box::new(DebugFunction::Read32 {
                addr: normal("0x1")
            })),
        })
    );
    let s: Statement = "a == b".to_string().try_into().unwrap();
    assert_eq!(s, Statement::Expression(normal("a == b")));
    let e: Result<Statement, Error> = "x = Nope(1);".to_string().try_into();
    assert_eq!(
        e.unwrap_err(),
        Error::Debug(DebugAccessParseError::UnknownStatement("Nope".to_string()))
    );
    let s: Statement = "//".to_string().try_into().unwrap();
    assert_eq!(s, Statement::Comment(String::new()));
}

#[test]
fn errors_as_text() {
    assert_eq!(
        DebugAccessParseError::MissingAttribute("x".to_string()).to_string(),
        "missing attribute: x"
    );
    assert_eq!(
        DebugAccessParseError::UnknownStatement("GetBase".to_string()).to_string(),
        "unknown statement: GetBase"
    );
}

#[test]
fn defaults() {
    assert_eq!(DebugFunction::default().to_string(), "DAP_Delay(0)");
    assert_eq!(Expression::default(), normal(""));
    assert_eq!(Statement::default(), Statement::Comment(String::new()));
}

#[test]
fn unicode_function_names() {
    let call = Expression::try_from("Lesen(ä)").unwrap_err();
    assert_eq!(call, DebugAccessParseError::UnknownStatement("Lesen".to_string()));
    let call = Expression::try_from("_x9ß(1)").unwrap_err();
    assert_eq!(call, DebugAccessParseError::UnknownStatement("_x9ß".to_string()));
}

#[test]
fn comparisons_are_expressions_not_assignments() {
    let s: Statement = "x == 1;".to_string().try_into().unwrap();
    assert_eq!(s, Statement::Expression(normal("x == 1")));
    for text in ["a != b", "a <= b", "a >= b"] {
        let s: Statement = text.to_string().try_into().unwrap();
        assert_eq!(s, Statement::Expression(normal(text)));
    }
    let s: Statement = "x = a == b;".to_string().try_into().unwrap();
    assert_eq!(
        s,
        Statement::Assignment(Assignment { variable: "x".to_string(), expression: normal("a == b") })
    );
    let s: Statement = "__var ok = (a >= b);".to_string().try_into().unwrap();
    assert_eq!(
        s,
        Statement::Definition(Assignment { variable: "ok".to_string(), expression: normal("(a >= b)") })
    );
}

#[test]
fn calls_need_their_parentheses_to_match() {
    assert_eq!(Expression::try_from("Read32(a) & Read32(b)").unwrap(), normal("Read32(a) & Read32(b)"));
    assert_eq!(Expression::try_from("f(a) + g(b)").unwrap(), normal("f(a) + g(b)"));
    assert_eq!(Expression::try_from("Read32(a))").unwrap(), normal("Read32(a))"));
    assert_eq!(Expression::try_from("Read32((a)").unwrap(), normal("Read32((a)"));
    assert_eq!(
        Expression::try_from("Read32((a) + (b))").unwrap(),
        Expression::FunctionCall(Box::new(DebugFunction::Read32 { addr: normal("(a) + (b)") }))
    );
}
