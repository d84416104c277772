use cmsis_pdsc_parser::debug_access::{Assignment, DebugFunction, Expression, Statement};
use cmsis_pdsc_parser::family::{
    parse_flashinfo, parse_uint, parse_xs_bool, Debugvars, FamilyParseError, FlashBlock, FlashGap,
    FlashInfoElement, Sequence, SequenceBlock, SequenceControl, SequenceElement, Sequences,
};
use cmsis_pdsc_parser::xml::{XmlAttribute, XmlNode, XmlValueError};
use cmsis_pdsc_parser::Error;

fn to_xml(node: roxmltree::Node) -> XmlNode {
    XmlNode {
        is_element: node.is_element(),
        tag_name: node.tag_name().name().to_string(),
        attributes: node
            .attributes()
            .map(|a| XmlAttribute {
                name: a.name().to_string(),
                value: a.value().to_string(),
            })
            .collect(),
        text: node.text().map(|t| t.to_string()),
        children: node.children().map(to_xml).collect(),
    }
}

fn root(xml_str: &str) -> XmlNode {
    let document = roxmltree::Document::parse(xml_str).unwrap();
    to_xml(document.root_element())
}

/// The `<flashinfo>` children of a node, as a document reader collects them
/// for an element's raw flash information.
fn flashinfo_nodes(node: &XmlNode) -> Vec<XmlNode> {
    node.children
        .iter()
        .filter(|c| c.is_element && c.tag_name == "flashinfo")
        .cloned()
        .collect()
}

#[test]
fn basic_sequence() {
    let xml_str = r#"<?xml version="1.0" encoding="UTF-8"?>
<sequence name="ResetSystem">
    <block>
        Sequence("ResetAndHalt");
    </block>
</sequence>"#;

    let node = root(xml_str);
    let sequence: Sequence = (&node).try_into().unwrap();

    assert_eq!(sequence.name, "ResetSystem".to_string());
    assert_eq!(
        sequence.elements,
        vec![SequenceBlock {
            atomic: None,
            info: None,
            content: "\n        Sequence(\"ResetAndHalt\");\n    ".to_string(),
            statements: vec![Statement::Expression(Expression::FunctionCall(Box::new(
                DebugFunction::Sequence {
                    name: Expression::Normal("\"ResetAndHalt\"".to_string())
                }
            )))]
        }
        .into()]
    );
}

#[test]
fn sequence_missing_name_attribute() {
    let xml_str = r#"<?xml version="1.0" encoding="UTF-8"?>
<sequence>
    <block>Write32(0x40000000, 0x1);</block>
</sequence>"#;
    let node = root(xml_str);
    let result: Result<Sequence, _> = (&node).try_into();
    let err = result.unwrap_err();
    let Error::Family(inner) = err else {
        panic!("wrong error type")
    };
    assert_eq!(inner, FamilyParseError::MissingAttribute("name".to_string()));
}

#[test]
fn sequence_element_unknown_tag() {
    let xml_str = r#"<?xml version="1.0" encoding="UTF-8"?>
<unknown/>"#;
    let node = root(xml_str);
    let result: Result<SequenceElement, _> = (&node).try_into();
    let err = result.unwrap_err();
    let Error::Family(inner) = err else {
        panic!("wrong error type")
    };
    assert_eq!(inner, FamilyParseError::UnknownElementType("unknown".to_string()));
}

#[test]
fn debugvar_missing_var_prefix() {
    let result = Debugvars::parse_single_debugvar("  myVar = 0x1;");
    assert!(matches!(result, Err(FamilyParseError::MalformedDebugvar(_))));
}

#[test]
fn debugvar_empty_segment() {
    let result = Debugvars::parse_single_debugvar("   ");
    assert!(matches!(result, Err(FamilyParseError::MalformedDebugvar(_))));
}

#[test]
fn debugvar_declaration_values() {
    assert_eq!(
        Debugvars::parse_single_debugvar("  __var AIRCR_Addr = 0xE000ED0C "),
        Ok(("AIRCR_Addr".to_string(), 0xE000ED0C))
    );
    assert_eq!(
        Debugvars::parse_single_debugvar("__var count = 42"),
        Ok(("count".to_string(), 42))
    );
    assert_eq!(
        Debugvars::parse_single_debugvar("__var plus = +7"),
        Ok(("plus".to_string(), 7))
    );
    assert_eq!(
        Debugvars::parse_single_debugvar("// leading comment\n  __var x = 0x10"),
        Ok(("x".to_string(), 16))
    );
}

#[test]
fn debugvar_error_messages() {
    assert_eq!(
        Debugvars::parse_single_debugvar("   "),
        Err(FamilyParseError::MalformedDebugvar("empty declaration".to_string()))
    );
    assert_eq!(
        Debugvars::parse_single_debugvar("  myVar = 0x1"),
        Err(FamilyParseError::MalformedDebugvar(
            "missing '__var' prefix: \"myVar = 0x1\"".to_string()
        ))
    );
    assert_eq!(
        Debugvars::parse_single_debugvar("__var a = 1 = 2"),
        Err(FamilyParseError::MalformedDebugvar(
            "expected exactly one '=' separator, got 3 fields".to_string()
        ))
    );
    assert_eq!(
        Debugvars::parse_single_debugvar("__var a = zz"),
        Err(FamilyParseError::MalformedDebugvar(
            "could not parse value as u64: \"zz\"".to_string()
        ))
    );
    assert_eq!(
        Debugvars::parse_single_debugvar("// only a comment"),
        Err(FamilyParseError::MalformedDebugvar(
            "Unable to get comment body".to_string()
        ))
    );
    assert_eq!(
        Debugvars::parse_single_debugvar("__var big = 18446744073709551616"),
        Err(FamilyParseError::MalformedDebugvar(
            "could not parse value as u64: \"18446744073709551616\"".to_string()
        ))
    );
}

#[test]
fn debugvar_value_strings() {
    assert_eq!(Debugvars::parse_value_string("0x1F"), Some(31));
    assert_eq!(Debugvars::parse_value_string("0xffffffffffffffff"), Some(u64::MAX));
    assert_eq!(Debugvars::parse_value_string("18446744073709551615"), Some(u64::MAX));
    assert_eq!(Debugvars::parse_value_string("0x"), None);
    assert_eq!(Debugvars::parse_value_string("0X10"), None);
    assert_eq!(Debugvars::parse_value_string(""), None);
    assert_eq!(Debugvars::parse_value_string("-1"), None);
    assert_eq!(Debugvars::parse_value_string("+"), None);
    assert_eq!(Debugvars::parse_value_string("0x+1F"), Some(31));
}

#[test]
fn parse_debugvars_content_reads_every_declaration() {
    let vars = Debugvars {
        configfile: None,
        version: None,
        content: "\n  // comment line with __var hidden = 1;\n  __var foo = 5; __var bar = 0x42;\n  __var foo = 6;\n  not a declaration;\n"
            .to_string(),
        parsed_debugvars: None,
    };
    let mut parsed = vars.parse_debugvars_content();
    parsed.sort();
    assert_eq!(parsed, vec![("bar".to_string(), 0x42), ("foo".to_string(), 6)]);
}

#[test]
fn parse_debugvars_stores_the_variables() {
    let mut vars = Debugvars {
        configfile: Some("debug.dbgconf".to_string()),
        version: Some("1.0.0".to_string()),
        content: "__var RAM_BUFFER = 0x20000000;".to_string(),
        parsed_debugvars: None,
    };
    vars.parse_debugvars();
    assert_eq!(
        vars.parsed_debugvars,
        Some(vec![("RAM_BUFFER".to_string(), 0x20000000)])
    );
    assert_eq!(vars.configfile, Some("debug.dbgconf".to_string()));
}

#[test]
fn block_statements_from_content() {
    let mut block = SequenceBlock {
        atomic: None,
        info: None,
        content: "\n  // set up\n  __var x = 1; y = Read32(x);\n\n  Write32(x, y)\n".to_string(),
        statements: vec![],
    };
    block.parse_statements().unwrap();
    assert_eq!(
        block.statements,
        vec![
            Statement::Comment("// set up".to_string()),
            Statement::Definition(Assignment {
                variable: "x".to_string(),
                expression: Expression::Normal("1".to_string()),
            }),
            Statement::Assignment(Assignment {
                variable: "y".to_string(),
                expression: Expression::FunctionCall(Box::new(DebugFunction::Read32 {
                    addr: Expression::Normal("x".to_string())
                })),
            }),
            Statement::Expression(Expression::FunctionCall(Box::new(DebugFunction::Write32 {
                addr: Expression::Normal("x".to_string()),
                val: Expression::Normal("y".to_string()),
            }))),
        ]
    );
}

#[test]
fn block_statement_error_leaves_block_unchanged() {
    let mut block = SequenceBlock {
        atomic: None,
        info: None,
        content: "Read32(a); GetBase();".to_string(),
        statements: vec![Statement::Comment("kept".to_string())],
    };
    let result = block.parse_statements();
    assert!(matches!(result, Err(Error::Debug(_))));
    assert_eq!(block.statements, vec![Statement::Comment("kept".to_string())]);
}

#[test]
fn control_element_reads_condition_and_children() {
    let xml_str = r#"<control while="counter &lt; 3" timeout=" 100 " info="loop">
    <block atomic="true">counter = counter + 1;</block>
    <control if="(counter == 2) ? 1 : 0"><block>Read8(0x0)</block></control>
</control>"#;
    let node = root(xml_str);
    let control: SequenceControl = (&node).try_into().unwrap();
    assert_eq!(control.conditional_while, Some("counter < 3".to_string()));
    assert_eq!(control.conditional_if, None);
    assert_eq!(control.timeout, Some(100));
    assert_eq!(control.info, Some("loop".to_string()));
    assert_eq!(control.conditional, Some(Expression::Normal("counter < 3".to_string())));
    assert_eq!(control.elements.len(), 2);
    match &control.elements[0] {
        SequenceElement::Block(b) => {
            assert_eq!(b.atomic, Some(true));
            assert_eq!(b.statements.len(), 1);
        }
        _ => panic!("expected a block"),
    }
    match &control.elements[1] {
        SequenceElement::Control(c) => {
            assert_eq!(c.conditional.as_ref().unwrap().to_string(), "(counter == 2) ? 1 : 0");
        }
        _ => panic!("expected a control element"),
    }
}

#[test]
fn control_element_errors() {
    let missing = root(r#"<control><block/></control>"#);
    assert_eq!(
        SequenceControl::try_from(&missing).unwrap_err(),
        Error::Family(FamilyParseError::MissingAttribute(
            "conditional 'if' or 'while' attribute".to_string()
        ))
    );
    let bad_timeout = root(r#"<control if="1" timeout="soon"/>"#);
    assert_eq!(
        SequenceControl::try_from(&bad_timeout).unwrap_err(),
        Error::Xml(XmlValueError::InvalidInteger("timeout".to_string()))
    );
    let bad_atomic = root(r#"<block atomic="yes"/>"#);
    assert_eq!(
        SequenceBlock::try_from(&bad_atomic).unwrap_err(),
        Error::Xml(XmlValueError::InvalidBool("atomic".to_string()))
    );
    let text = to_xml_text_node();
    assert_eq!(
        SequenceElement::try_from(&text).unwrap_err(),
        Error::Family(FamilyParseError::UnimplementedContent)
    );
}

fn to_xml_text_node() -> XmlNode {
    XmlNode {
        is_element: false,
        tag_name: String::new(),
        attributes: vec![],
        text: Some("text".to_string()),
        children: vec![],
    }
}

#[test]
fn sequence_attributes_and_upper_case_tags() {
    let xml_str = r#"<sequence name="Init" Pname="Core0" disable="maybe" info="start">
    <BLOCK>__var v = 1;</BLOCK>
</sequence>"#;
    let node = root(xml_str);
    let sequence = Sequence::try_from(&node).unwrap();
    assert_eq!(sequence.processor_name, Some("Core0".to_string()));
    assert_eq!(sequence.disable, None);
    assert_eq!(sequence.info, Some("start".to_string()));
    assert_eq!(sequence.elements.len(), 1);

    let wrong = root(r#"<sequences/>"#);
    assert_eq!(
        Sequence::try_from(&wrong).unwrap_err(),
        Error::Family(FamilyParseError::UnknownElementType("sequences".to_string()))
    );
}

#[test]
fn sequences_keep_previous_result_on_error() {
    let good = root(r#"<sequence name="A" disable="true"><block>Read8(1)</block></sequence>"#);
    let bad = root(r#"<sequence name="B"><block>GetBase()</block></sequence>"#);
    let mut sequences = Sequences {
        trace_setup: None,
        raw_nodes: vec![good],
        sequences: vec![],
    };
    sequences.parse_sequences().unwrap();
    assert_eq!(sequences.sequences.len(), 1);
    assert_eq!(sequences.sequences[0].disable, Some(true));

    sequences.raw_nodes.push(bad);
    assert!(sequences.parse_sequences().is_err());
    assert_eq!(sequences.sequences.len(), 1);
    assert_eq!(sequences.sequences[0].name, "A".to_string());
}

#[test]
fn flashinfo_blocks_and_gaps_in_order() {
    let xml_str = r#"<flashinfo name="Flash" start="0x08000000" pagesize="0x400" blankval="0xFF" ptime=" 10 " etime="20">
    <block count="0x80" size="0x400"/>
    <gap size="0x10"/>
    <Block count=" 128 " size="0x400" arg="x"/>
</flashinfo>"#;
    let node = root(xml_str);
    let infos = parse_flashinfo(&[node]).unwrap();
    assert_eq!(infos.len(), 1);
    let info = &infos[0];
    assert_eq!(info.name, "Flash");
    assert_eq!(info.ptime, Some(10));
    assert_eq!(info.etime, Some(20));
    assert_eq!(info.blankval, Some("0xFF".to_string()));
    assert_eq!(
        info.elements,
        vec![
            FlashInfoElement::Block(FlashBlock { count: 128, size: "0x400".to_string(), arg: None }),
            FlashInfoElement::Gap(FlashGap { size: "0x10".to_string() }),
            FlashInfoElement::Block(FlashBlock {
                count: 128,
                size: "0x400".to_string(),
                arg: Some("x".to_string())
            }),
        ]
    );
}

#[test]
fn flashinfo_errors() {
    let missing = root(r#"<flashinfo name="Flash" pagesize="1"/>"#);
    assert_eq!(
        parse_flashinfo(&[missing]).unwrap_err(),
        Error::Xml(XmlValueError::MissingField("start".to_string()))
    );
    let bad_times = root(r#"<flashinfo etime="x" ptime="y" name="F" start="0" pagesize="1"/>"#);
    assert_eq!(
        parse_flashinfo(&[bad_times]).unwrap_err(),
        Error::Xml(XmlValueError::InvalidInteger("etime".to_string()))
    );
    let bad_child = root(r#"<flashinfo name="F" start="0" pagesize="1"><sector/></flashinfo>"#);
    assert_eq!(
        parse_flashinfo(&[bad_child]).unwrap_err(),
        Error::Family(FamilyParseError::UnknownElementType("sector".to_string()))
    );
    let bad_count = root(r#"<flashinfo name="F" start="0" pagesize="1"><block count="0x" size="1"/></flashinfo>"#);
    assert_eq!(
        parse_flashinfo(&[bad_count]).unwrap_err(),
        Error::Xml(XmlValueError::InvalidInteger("count".to_string()))
    );
}

#[test]
fn attribute_number_and_bool_readers() {
    assert_eq!(parse_uint(" 0x10 "), Some(16));
    assert_eq!(parse_uint("0X1f"), Some(31));
    assert_eq!(parse_uint("4294967295"), Some(u32::MAX));
    assert_eq!(parse_uint("4294967296"), None);
    assert_eq!(parse_uint("0x"), None);
    assert_eq!(parse_xs_bool("1"), Some(true));
    assert_eq!(parse_xs_bool("false"), Some(false));
    assert_eq!(parse_xs_bool("True"), None);
}

#[test]
fn family_errors_as_text() {
    assert_eq!(
        FamilyParseError::MissingAttribute("name".to_string()).to_string(),
        "missing attribute: name"
    );
    assert_eq!(
        FamilyParseError::UnimplementedContent.to_string(),
        "unimplemented content-parse branch"
    );
    assert_eq!(
        FamilyParseError::MalformedDebugvar("x".to_string()).to_string(),
        "malformed debugvar: x"
    );
    assert_eq!(
        FamilyParseError::UnknownElementType("gap".to_string()).to_string(),
        "unknown element type: gap"
    );
}

#[test]
/// Tests the example sequence from https://open-cmsis-pack.github.io/Open-CMSIS-Pack-Spec/main/html/pdsc_family_pg.html#element_sequence
fn full_sequence() {
    let xml_str = r#"<?xml version="1.0" encoding="UTF-8"?>
<sequence name="UserSequence">
    <block info="Define variables and do debug accesses">
        __var tpWidth = (__traceout &amp; 0x003F0000) >> 16;
    </block>

    <control if="__traceout &amp; 0x2" info="Parallel Trace Port enabled">
        <block>
            // Do something generic for parallel trace port trace
        </block>

        <control if="tpWidth == 1" info="Configure device for 1-bit TPIU trace.">
            <block>
                // Do debug accesses
            </block>
        </control>

        <control if="tpWidth == 2" info="Configure device for 2-bit TPIU trace.">
            <block>
                // Do debug accesses
            </block>
        </control>

        <control if="tpWidth == 4" info="Configure device for 4-bit TPIU trace.">
            <block>
                // Do debug accesses
            </block>
        </control>
    </control>
</sequence>"#;

    let node = root(xml_str);

    let sequence: Sequence = (&node).try_into().unwrap();

    // Check basic info
    assert_eq!(sequence.name, "UserSequence".to_string());
    assert_eq!(sequence.disable, None);
    assert_eq!(sequence.info, None);
    assert_eq!(sequence.processor_name, None);

    // Define a repeated element for future use
    let debug_access_block: SequenceElement = SequenceBlock {
        atomic: None,
        info: None,
        content: r#"
                // Do debug accesses
            "#
        .to_string(),
        statements: vec![Statement::Comment("// Do debug accesses".to_string())],
    }
    .into();

    // Check that the elements are correct and in the correct order
    let expected_elements: Vec<SequenceElement> = vec![
        SequenceBlock {
            atomic: None,
            info: Some("Define variables and do debug accesses".to_string()),
            content: r#"
        __var tpWidth = (__traceout & 0x003F0000) >> 16;
    "#
            .to_string(),
            statements: vec![Statement::Definition(Assignment {
                variable: "tpWidth".to_string(),
                expression: Expression::Normal("(__traceout & 0x003F0000) >> 16".to_string()),
            })],
        }
        .into(),
        SequenceControl {
            conditional_if: Some("__traceout & 0x2".to_string()),
            conditional_while: None,
            timeout: None,
            info: Some("Parallel Trace Port enabled".to_string()),
            elements: vec![
                SequenceBlock {
                    atomic: None,
                    info: None,
                    content: r#"
            // Do something generic for parallel trace port trace
        "#
                    .to_string(),
                    statements: vec![Statement::Comment(
                        "// Do something generic for parallel trace port trace".to_string(),
                    )],
                }
                .into(),
                SequenceControl {
                    conditional_if: Some("tpWidth == 1".to_string()),
                    conditional_while: None,
                    timeout: None,
                    info: Some("Configure device for 1-bit TPIU trace.".to_string()),
                    elements: vec![debug_access_block.clone().into()],
                    conditional: Some(Expression::Normal("tpWidth == 1".to_string())),
                }
                .into(),
                SequenceControl {
                    conditional_if: Some("tpWidth == 2".to_string()),
                    conditional_while: None,
                    timeout: None,
                    info: Some("Configure device for 2-bit TPIU trace.".to_string()),
                    elements: vec![debug_access_block.clone().into()],
                    conditional: Some(Expression::Normal("tpWidth == 2".to_string())),
                }
                .into(),
                SequenceControl {
                    conditional_if: Some("tpWidth == 4".to_string()),
                    conditional_while: None,
                    timeout: None,
                    info: Some("Configure device for 4-bit TPIU trace.".to_string()),
                    elements: vec![debug_access_block.clone().into()],
                    conditional: Some(Expression::Normal("tpWidth == 4".to_string())),
                }
                .into(),
            ],
            conditional: Some(Expression::Normal("__traceout & 0x2".to_string())),
        }
        .into(),
    ];

    println!("Expected: {:#?}", expected_elements);
    println!("Actual: {:#?}", sequence.elements);

    assert_eq!(sequence.elements, expected_elements);
}

#[test]
fn basic_sequence_block() {
    let xml_str = r#"<?xml version="1.0" encoding="UTF-8"?>
<block info="Define condition variales for later use in block elements.">
    // Variable definition by __var keyword
    __var doIfBlock      = 1;
    __var whileCondition = 1;
</block>"#;

    let node = root(xml_str);

    let block: SequenceBlock = (&node).try_into().unwrap();

    assert_eq!(
        block.info,
        Some("Define condition variales for later use in block elements.".to_string())
    );
    assert_eq!(block.atomic, None);
    assert_eq!(
        block.content,
        r#"
    // Variable definition by __var keyword
    __var doIfBlock      = 1;
    __var whileCondition = 1;
"#
    );
    assert_eq!(
        block.statements,
        vec![
            Statement::Comment("// Variable definition by __var keyword".to_string()),
            Statement::Definition(Assignment {
                variable: "doIfBlock".to_string(),
                expression: Expression::Normal("1".to_string())
            }),
            Statement::Definition(Assignment {
                variable: "whileCondition".to_string(),
                expression: Expression::Normal("1".to_string())
            })
        ]
    );
}

#[test]
fn parse_control_element_if() {
    let xml_str = r#"<?xml version="1.0" encoding="UTF-8"?>
<control if="doIfBlock">
    <block>
        // Do debug accesses
    </block>
</control>"#;

    let node = root(xml_str);

    let block: SequenceControl = (&node).try_into().unwrap();

    println!("{:#?}", block);
    assert_eq!(block.info, None);
    assert_eq!(block.conditional_if, Some("doIfBlock".to_string()));
    assert_eq!(block.conditional_while, None);
    assert_eq!(block.timeout, None);
    assert_eq!(
        block.elements,
        vec![
            SequenceBlock {
                atomic: None,
                info: None,
                content: "\n        // Do debug accesses\n    ".to_string(),
                statements: vec![Statement::Comment("// Do debug accesses".to_string())]
            }
            .into()
        ]
    );
}

#[test]
fn parse_control_element_while() {
    let xml_str = r#"<?xml version="1.0" encoding="UTF-8"?>
<control while="whileCondition" timeout="5000">
    <block>
        // Execute while "whileCondition" different from '0' with a timeout of 5ms
        whileCondition = 0;
    </block>
</control>"#;

    let node = root(xml_str);

    let block: SequenceControl = (&node).try_into().unwrap();

    println!("{:#?}", block);
    assert_eq!(block.info, None);
    assert_eq!(block.conditional_if, None);
    assert_eq!(block.conditional_while, Some("whileCondition".to_string()));
    assert_eq!(block.timeout, Some(5000));
    assert_eq!(block.elements, vec![
        SequenceBlock{
            atomic: None,
            info: None,
            content: r#"
        // Execute while "whileCondition" different from '0' with a timeout of 5ms
        whileCondition = 0;
    "#.to_string(),
            statements: vec![
                Statement::Comment("// Execute while \"whileCondition\" different from '0' with a timeout of 5ms".to_string()),
                Statement::Assignment(Assignment {
                    variable: "whileCondition".to_string(),
                    expression: Expression::Normal("0".to_string())
                })
            ]
        }.into()
    ]);
}

#[test]
fn parse_family_flashinfo() {
    let xml_str = r#"<?xml version="1.0" encoding="UTF-8"?>
<family Dfamily="STM32F1" Dvendor="STMicroelectronics:13">
    <flashinfo name="Flash" start="0x08000000" pagesize="0x400" blankval="0xFF">
        <block count="128" size="0x400"/>
    </flashinfo>
    <debugvars></debugvars>
    <sequences/>
</family>"#;
    let family = root(xml_str);
    let flashinfo_raw = flashinfo_nodes(&family);
    assert_eq!(flashinfo_raw.len(), 1);
    let flashinfo = parse_flashinfo(&flashinfo_raw).unwrap();
    assert_eq!(flashinfo.len(), 1);
    let fi = &flashinfo[0];
    assert_eq!(fi.name, "Flash");
    assert_eq!(fi.start, "0x08000000");
    assert_eq!(fi.pagesize, "0x400");
    assert_eq!(fi.blankval, Some("0xFF".to_string()));
    assert_eq!(
        fi.elements,
        vec![FlashInfoElement::Block(FlashBlock {
            count: 128,
            size: "0x400".to_string(),
            arg: None,
        })]
    );
}

#[test]
fn parse_family_flashinfo_interleaved_order() {
    let xml_str = r#"<?xml version="1.0" encoding="UTF-8"?>
<family Dfamily="STM32F1" Dvendor="STMicroelectronics:13">
    <flashinfo name="Flash" start="0x08000000" pagesize="0x400" blankval="0xFF">
        <gap size="0x10"/>
        <block count="128" size="0x400"/>
        <gap size="0x20"/>
    </flashinfo>
    <debugvars></debugvars>
    <sequences/>
</family>"#;
    let family = root(xml_str);
    let flashinfo_raw = flashinfo_nodes(&family);
    let flashinfo = parse_flashinfo(&flashinfo_raw).unwrap();
    assert_eq!(flashinfo.len(), 1);
    assert_eq!(
        flashinfo[0].elements,
        vec![
            FlashInfoElement::Gap(FlashGap {
                size: "0x10".to_string(),
            }),
            FlashInfoElement::Block(FlashBlock {
                count: 128,
                size: "0x400".to_string(),
                arg: None,
            }),
            FlashInfoElement::Gap(FlashGap {
                size: "0x20".to_string(),
            }),
        ]
    );
}
