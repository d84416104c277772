use cmsis_pdsc_parser::family::{
    Debugvars, Device, Family, FlashBlock, FlashGap, FlashInfoElement, Sequences, SubFamily, Variant,
};
use cmsis_pdsc_parser::pdsc::{Description, Devices, Releases};
use cmsis_pdsc_parser::xml::{XmlAttribute, XmlNode};
use cmsis_pdsc_parser::Package;

fn element(tag: &str, attributes: &[(&str, &str)], text: Option<&str>, children: Vec<XmlNode>) -> XmlNode {
    XmlNode {
        is_element: true,
        tag_name: tag.to_string(),
        attributes: attributes
            .iter()
            .map(|(n, v)| XmlAttribute { name: n.to_string(), value: v.to_string() })
            .collect(),
        text: text.map(|t| t.to_string()),
        children,
    }
}

fn package(families: Vec<Family>) -> Package {
    Package {
        name: "DFP".to_string(),
        vendor: "Vendor".to_string(),
        schema_version: Some("1.7.7".to_string()),
        d_core: None,
        d_vendor: None,
        d_name: None,
        t_compiler: None,
        description: Description { overview: None, content: Some("pack".to_string()) },
        eccn: None,
        url: "https://example.com/".to_string(),
        support_contact: None,
        license: None,
        license_sets: None,
        dominate: None,
        requirements: None,
        repository: None,
        releases: Releases::default(),
        changelogs: None,
        keywords: None,
        environments: None,
        generators: None,
        boards: None,
        parts: None,
        taxonomy: None,
        part_taxonomy: None,
        apis: None,
        devices: Devices { families },
        conditions: None,
        examples: None,
        csolution: None,
        components: None,
    }
}

#[test]
fn new_reads_debugvars_and_sequences_of_every_family() {
    let block = element("block", &[], Some("Read32(0x0); __var x = 1;"), vec![]);
    let sequence = element("sequence", &[("name", "ResetSystem")], None, vec![block]);
    let first = Family {
        device_family: "F1".to_string(),
        debugvars: Debugvars {
            content: "__var A = 0x10;".to_string(),
            ..Debugvars::default()
        },
        sequences: Sequences { trace_setup: None, raw_nodes: vec![sequence], sequences: vec![] },
        ..Family::default()
    };
    let broken = element("sequence", &[], None, vec![]);
    let second = Family {
        device_family: "F2".to_string(),
        sequences: Sequences { trace_setup: None, raw_nodes: vec![broken], sequences: vec![] },
        ..Family::default()
    };
    let pdsc = Package::new(package(vec![first, second.clone()]));
    assert_eq!(pdsc.name, "DFP");
    let families = &pdsc.devices.families;
    assert_eq!(families.len(), 2);
    assert_eq!(families[0].device_family, "F1");
    assert_eq!(
        families[0].debugvars.parsed_debugvars,
        Some(vec![("A".to_string(), 0x10)])
    );
    assert_eq!(families[0].sequences.sequences.len(), 1);
    assert_eq!(families[0].sequences.sequences[0].name, "ResetSystem");
    assert_eq!(families[1].debugvars.parsed_debugvars, Some(vec![]));
    assert!(families[1].sequences.sequences.is_empty());
    assert_eq!(families[1].sequences.raw_nodes, second.sequences.raw_nodes);
}

#[test]
fn copies_are_equal() {
    let block = element("block", &[("atomic", "false")], Some("Write8(1, Read8(2)); Message(0, \"m\", a, b)"), vec![]);
    let control = element("control", &[("if", "1")], None, vec![block.clone()]);
    let node = element("sequence", &[("name", "S")], None, vec![control]);
    assert_eq!(node.clone(), node);
    let sequence = cmsis_pdsc_parser::family::Sequence::try_from(&node).unwrap();
    assert_eq!(sequence.clone(), sequence);
}

fn flashinfo(name: &str, children: Vec<XmlNode>) -> XmlNode {
    element("flashinfo", &[("name", name), ("start", "0x0"), ("pagesize", "0x100")], None, children)
}

#[test]
fn new_reads_flash_information_at_every_level() {
    let block = element("block", &[("count", "0x100"), ("size", "0x200")], None, vec![]);
    let gap = element("gap", &[("size", "0x10")], None, vec![]);
    let variant = Variant {
        variant_name: "V".to_string(),
        flashinfo_raw: vec![flashinfo("VariantFlash", vec![gap.clone()])],
        ..Variant::default()
    };
    let device = Device {
        device_name: "D".to_string(),
        flashinfo_raw: vec![
            flashinfo("Flash", vec![block.clone()]),
            flashinfo("ROMCFG", vec![gap.clone(), block.clone()]),
        ],
        variants: vec![variant],
        ..Device::default()
    };
    let sub_device = Device {
        device_name: "S1".to_string(),
        flashinfo_raw: vec![flashinfo("SubDeviceFlash", vec![])],
        ..Device::default()
    };
    let sub_family = SubFamily {
        sub_family_name: "Sub".to_string(),
        flashinfo_raw: vec![flashinfo("SubFlash", vec![block.clone()])],
        devices: vec![sub_device],
        ..SubFamily::default()
    };
    let family = Family {
        device_family: "F".to_string(),
        flashinfo_raw: vec![flashinfo("FamilyFlash", vec![])],
        sub_families: vec![sub_family],
        devices: vec![device],
        ..Family::default()
    };
    let pdsc = Package::new(package(vec![family]));
    let family = &pdsc.devices.families[0];
    assert_eq!(family.flashinfo.len(), 1);
    assert_eq!(family.flashinfo[0].name, "FamilyFlash");
    assert!(family.flashinfo[0].elements.is_empty());

    let device = &family.devices[0];
    assert_eq!(device.flashinfo.len(), 2);
    assert_eq!(device.flashinfo[0].name, "Flash");
    assert_eq!(device.flashinfo[0].start, "0x0");
    assert_eq!(device.flashinfo[0].pagesize, "0x100");
    assert_eq!(
        device.flashinfo[0].elements,
        vec![FlashInfoElement::Block(FlashBlock { count: 0x100, size: "0x200".to_string(), arg: None })]
    );
    assert_eq!(device.flashinfo[1].name, "ROMCFG");
    assert_eq!(
        device.flashinfo[1].elements,
        vec![
            FlashInfoElement::Gap(FlashGap { size: "0x10".to_string() }),
            FlashInfoElement::Block(FlashBlock { count: 0x100, size: "0x200".to_string(), arg: None }),
        ]
    );
    assert_eq!(device.variants[0].flashinfo.len(), 1);
    assert_eq!(device.variants[0].flashinfo[0].name, "VariantFlash");

    let sub_family = &family.sub_families[0];
    assert_eq!(sub_family.flashinfo[0].name, "SubFlash");
    assert_eq!(sub_family.devices[0].flashinfo[0].name, "SubDeviceFlash");
    // The raw nodes stay as they were.
    assert_eq!(device.flashinfo_raw.len(), 2);
}

#[test]
fn new_keeps_flash_information_that_does_not_read() {
    // A block without its required `count` does not read.
    let broken = element("block", &[("size", "0x200")], None, vec![]);
    let device = Device {
        device_name: "D".to_string(),
        flashinfo_raw: vec![flashinfo("Flash", vec![broken])],
        ..Device::default()
    };
    let family = Family { device_family: "F".to_string(), devices: vec![device], ..Family::default() };
    let pdsc = Package::new(package(vec![family]));
    assert!(pdsc.devices.families[0].devices[0].flashinfo.is_empty());
}
