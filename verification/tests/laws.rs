use cmsis_pdsc_parser::part_taxonomy::{HclassType, HgroupType};
use cmsis_pdsc_parser::taxonomy::{CclassType, CgroupType};
use cmsis_pdsc_parser::debug_access::{Conditional, DebugFunction, Expression, Statement};
use cmsis_pdsc_parser::family::Debugvars;

fn normal(value: &str) -> Expression {
    Expression::Normal(value.to_string())
}

#[test]
fn a_trailing_semicolon_changes_nothing() {
    for text in ["Write32(a, b)", "x = (y) ? 1 : 2", "__var v = 0x10", "plain + text"] {
        let with: Statement = format!("{text};").try_into().unwrap();
        let without: Statement = text.to_string().try_into().unwrap();
        assert_eq!(with, without);
    }
}

#[test]
fn printed_calls_parse_back() {
    let calls = vec![
        DebugFunction::Read8 { addr: normal("0x64FF") },
        DebugFunction::WriteAccessAP { addr: normal("a"), val: normal("v") },
        DebugFunction::DapJtagSequence { cnt: normal("1"), tms: normal("2"), tdi: normal("3") },
        DebugFunction::BufferStreamOut {
            buff_id: normal("1"),
            buff_offset: normal("2"),
            length: normal("3"),
            dest_path: normal("\"out.bin\""),
            dest_mode: normal("4"),
            timeout: normal("5"),
        },
        DebugFunction::Message {
            msg_type: normal("1"),
            format: normal("\"%d\""),
            args: vec![normal("x"), normal("y")],
        },
        DebugFunction::LoadDebugInfo { file: normal("\"a.elf\"") },
    ];
    for call in calls {
        let text = call.to_string();
        let parsed = Expression::try_from(text.as_str()).unwrap();
        assert_eq!(parsed, Expression::FunctionCall(Box::new(call)));
    }
}

#[test]
fn printed_conditionals_parse_back() {
    let c = Conditional {
        condition: normal("x < y"),
        true_value: normal("a"),
        false_value: normal("b + 1"),
    };
    let text = c.to_string();
    assert_eq!(text, "(x < y) ? a : b + 1");
    assert_eq!(
        Expression::try_from(text.as_str()).unwrap(),
        Expression::Conditional(Box::new(c))
    );
}

#[test]
fn the_last_declaration_of_a_name_wins() {
    let vars = Debugvars {
        configfile: None,
        version: None,
        content: "__var a = 1; __var b = 2;\n__var a = 3;\n__var c = nonsense;".to_string(),
        parsed_debugvars: None,
    };
    let mut parsed = vars.parse_debugvars_content();
    parsed.sort();
    assert_eq!(parsed, vec![("a".to_string(), 3), ("b".to_string(), 2)]);
}

#[test]
fn a_declaration_may_end_with_a_semicolon() {
    assert_eq!(Debugvars::parse_single_debugvar("__var foo = 5;"), Ok(("foo".to_string(), 5)));
    assert_eq!(Debugvars::parse_single_debugvar("__var foo = 0x10 ;"), Ok(("foo".to_string(), 0x10)));
    assert_eq!(Debugvars::parse_single_debugvar("__var foo = 5"), Ok(("foo".to_string(), 5)));
}

#[test]
fn taxonomy_names_are_one_to_one() {
    assert_eq!(HgroupType::try_from("RTC"), Ok(HgroupType::Rtc));
    assert_eq!(HgroupType::try_from("rtc"), Err(()));
    assert_eq!(HgroupType::try_from("RTC".to_string()), HgroupType::try_from("RTC"));
    assert_eq!(HclassType::try_from("Audio ICs"), Ok(HclassType::AudioIcs));
    assert_eq!(CclassType::try_from("CMSIS Driver"), Ok(CclassType::CmsisDriver));
    assert_eq!(CclassType::try_from("CMSIS"), Ok(CclassType::Cmsis));
    assert_eq!(CgroupType::try_from("RTOS2"), Ok(CgroupType::Rtos2));
    assert_eq!(CgroupType::try_from("RTOS"), Ok(CgroupType::Rtos));
}

#[test]
fn printed_nested_calls_parse_back() {
    let inner = Expression::FunctionCall(Box::new(DebugFunction::Read32 { addr: normal("0x40000000") }));
    let call = Expression::FunctionCall(Box::new(DebugFunction::Write32 {
        addr: Expression::FunctionCall(Box::new(DebugFunction::Read8 { addr: inner.clone() })),
        val: Expression::FunctionCall(Box::new(DebugFunction::Write16 {
            addr: normal("base"),
            val: inner,
        })),
    }));
    let text = call.to_string();
    assert_eq!(text, "Write32(Read8(Read32(0x40000000)), Write16(base, Read32(0x40000000)))");
    assert_eq!(Expression::try_from(text.as_str()).unwrap(), call);
}
