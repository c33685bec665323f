use svd_parser::cpu::{Cpu, CpuBuilder, Endian};
use svd_parser::device::{Device, DeviceBuilder};
use svd_parser::error::{BuildError, ErrorKind, NameError, SVDError};
use svd_parser::name::{check_dimable_name, check_name};
use svd_parser::peripheral::PeripheralBuilder;
use svd_parser::registerproperties::{Access, RegisterProperties};
use svd_parser::scalar::{parse_u32, parse_u64, u32_to_dec, u64_to_dec};
use svd_parser::tree::Tree;

fn text_elem(name: &str, text: &str) -> Tree {
    Tree::new_element(name, Some(text.to_string()))
}

fn peripheral_tree(name: &str, base: &str) -> Tree {
    Tree {
        name: "peripheral".to_string(),
        attributes: Vec::new(),
        children: vec![text_elem("name", name), text_elem("baseAddress", base)],
        text: None,
    }
}

fn device_tree(peripherals: Vec<Tree>) -> Tree {
    Tree {
        name: "device".to_string(),
        attributes: vec![("schemaVersion".to_string(), "1.1".to_string())],
        children: vec![
            text_elem("name", "DEV"),
            text_elem("version", "1.0"),
            Tree {
                name: "peripherals".to_string(),
                attributes: Vec::new(),
                children: peripherals,
                text: None,
            },
        ],
        text: None,
    }
}

fn sample_device() -> Device {
    let cpu = CpuBuilder::default()
        .name("CM4".to_string())
        .revision(Some("r0p1".to_string()))
        .endian(Endian::Little)
        .mpu_present(Some(true))
        .build()
        .unwrap();
    let pa = PeripheralBuilder::default()
        .name("GPIOA".to_string())
        .base_address(0x4000_0000)
        .description(Some("port A".to_string()))
        .build()
        .unwrap();
    let pb = PeripheralBuilder::default()
        .name("TIMER[%s]".to_string())
        .base_address(18446744073709551615)
        .build()
        .unwrap();
    DeviceBuilder::default()
        .name("DEV_1".to_string())
        .schema_version(Some("1.1".to_string()))
        .version(Some("1.0".to_string()))
        .description(Some("demo".to_string()))
        .address_unit_bits(Some(8))
        .width(Some(32))
        .cpu(Some(cpu))
        .peripherals(vec![pa, pb])
        .default_register_properties(RegisterProperties {
            size: Some(32),
            access: Some(Access::ReadWrite),
            reset_value: Some(0),
            reset_mask: Some(4294967295),
        })
        .build()
        .unwrap()
}

#[test]
fn plain_name_accepts_identifier() {
    assert!(check_name("PERIPH0", "peripheral").is_ok());
    assert!(check_name("", "peripheral").is_ok());
    assert!(check_name("_a9", "peripheral").is_ok());
}

#[test]
fn plain_name_rejects_space() {
    let e = check_name("PERI PH", "peripheral").unwrap_err();
    assert_eq!(
        e.kind,
        ErrorKind::Name(NameError::Invalid(
            "PERI PH".to_string(),
            "peripheral".to_string()
        ))
    );
    assert!(e.context.is_empty());
}

#[test]
fn dimable_name_accepts_bracketed_placeholder() {
    assert!(check_dimable_name("LED[%s]", "name").is_ok());
    assert!(check_dimable_name("%s", "name").is_ok());
    assert!(check_dimable_name("%sX0", "name").is_ok());
    assert!(check_dimable_name("TIM%s2", "name").is_ok());
    assert!(check_dimable_name("GPIOA", "name").is_ok());
}

#[test]
fn dimable_name_rejects_unbalanced_placeholder() {
    assert!(check_dimable_name("LED[%s", "name").is_err());
    assert!(check_dimable_name("", "name").is_err());
    assert!(check_dimable_name("9LED", "name").is_err());
    assert!(check_dimable_name("A%sB%s", "name").is_err());
}

#[test]
fn build_without_peripherals_names_peripherals() {
    let e = DeviceBuilder::default()
        .name("DEV".to_string())
        .build()
        .unwrap_err();
    assert_eq!(
        e.kind,
        ErrorKind::Build(BuildError::Uninitialized("peripherals".to_string()))
    );
}

#[test]
fn build_without_name_names_name() {
    let e = DeviceBuilder::default()
        .peripherals(Vec::new())
        .build()
        .unwrap_err();
    assert_eq!(
        e.kind,
        ErrorKind::Build(BuildError::Uninitialized("name".to_string()))
    );
}

#[test]
fn empty_device_is_structural_error() {
    let e = DeviceBuilder::default()
        .name("DEV".to_string())
        .peripherals(Vec::new())
        .build()
        .unwrap_err();
    assert_eq!(e.kind, ErrorKind::Svd(SVDError::EmptyDevice));
}

#[test]
fn wrong_root_tag_is_rejected() {
    let t = peripheral_tree("GPIOA", "1024");
    let e = Device::parse(&t).unwrap_err();
    assert_eq!(
        e.kind,
        ErrorKind::Svd(SVDError::NotExpectedTag {
            expected: "device".to_string(),
            found: "peripheral".to_string()
        })
    );
}

#[test]
fn device_round_trip_preserves_every_field() {
    let d = sample_device();
    let encoded = d.encode().unwrap();
    let parsed = Device::parse(&encoded).unwrap();
    assert_eq!(parsed, d);
}

#[test]
fn unstrict_round_trip_reports_clean_diagnostic() {
    let d = sample_device();
    let encoded = d.encode().unwrap();
    let (parsed, warning) = Device::parse_unstrict(&encoded).unwrap();
    assert_eq!(parsed, d);
    assert!(warning.is_ok());
}

#[test]
fn encode_writes_schema_attributes() {
    let d = sample_device();
    let t = d.encode().unwrap();
    assert_eq!(t.name, "device");
    assert_eq!(
        t.attributes[0],
        (
            "xmlns:xs".to_string(),
            "http://www.w3.org/2001/XMLSchema-instance".to_string()
        )
    );
    assert_eq!(
        t.attributes[1],
        ("schemaVersion".to_string(), "1.1".to_string())
    );
    assert_eq!(
        t.attributes[2],
        (
            "xs:noNamespaceSchemaLocation".to_string(),
            "CMSIS-SVD_Schema_1.1.xsd".to_string()
        )
    );
}

#[test]
fn malformed_sibling_failure_names_the_sibling() {
    let t = device_tree(vec![
        peripheral_tree("A", "4096"),
        peripheral_tree("B", "0x40"),
    ]);
    let e = Device::parse(&t).unwrap_err();
    assert_eq!(
        e.kind,
        ErrorKind::Svd(SVDError::ParseError("0x40".to_string()))
    );
    assert_eq!(e.context.len(), 2);
    assert_eq!(e.context[0].entity, "peripheral");
    assert_eq!(e.context[0].name, "B");
    assert_eq!(e.context[1].entity, "device");
    assert_eq!(e.context[1].name, "DEV");
}

#[test]
fn sibling_warning_is_wrapped_with_device_name() {
    let t = device_tree(vec![
        peripheral_tree("PERI PH", "4096"),
        peripheral_tree("B", "8192"),
    ]);
    let (d, warning) = Device::parse_unstrict(&t).unwrap();
    assert_eq!(d.peripherals.len(), 2);
    assert_eq!(d.peripherals[0].name, "PERI PH");
    let w = warning.unwrap_err();
    assert_eq!(
        w.kind,
        ErrorKind::Name(NameError::Invalid(
            "PERI PH".to_string(),
            "name".to_string()
        ))
    );
    assert_eq!(w.context.len(), 2);
    assert_eq!(w.context[0].entity, "peripheral");
    assert_eq!(w.context[0].name, "PERI PH");
    assert_eq!(w.context[1].entity, "device");
    assert_eq!(w.context[1].name, "DEV");
    // Strict mode promotes the same deviation to a hard failure.
    let e = Device::parse(&t).unwrap_err();
    assert_eq!(
        e.kind,
        ErrorKind::Name(NameError::Invalid(
            "PERI PH".to_string(),
            "name".to_string()
        ))
    );
}

#[test]
fn missing_name_child_is_missing_tag() {
    let t = Tree {
        name: "device".to_string(),
        attributes: Vec::new(),
        children: Vec::new(),
        text: None,
    };
    let e = Device::parse(&t).unwrap_err();
    assert_eq!(e.kind, ErrorKind::Svd(SVDError::MissingTag("name".to_string())));
}

#[test]
fn empty_name_child_is_empty_tag() {
    let t = Tree {
        name: "device".to_string(),
        attributes: Vec::new(),
        children: vec![Tree::new_element("name", None)],
        text: None,
    };
    let e = Device::parse(&t).unwrap_err();
    assert_eq!(e.kind, ErrorKind::Svd(SVDError::EmptyTag("name".to_string())));
}

#[test]
fn missing_peripherals_child_is_missing_tag() {
    let t = Tree {
        name: "device".to_string(),
        attributes: Vec::new(),
        children: vec![text_elem("name", "DEV")],
        text: None,
    };
    let e = Device::parse(&t).unwrap_err();
    assert_eq!(
        e.kind,
        ErrorKind::Svd(SVDError::MissingTag("peripherals".to_string()))
    );
    assert_eq!(e.context[0].entity, "device");
    assert_eq!(e.context[0].name, "DEV");
}

#[test]
fn unknown_endian_is_reported() {
    let t = Tree {
        name: "cpu".to_string(),
        attributes: Vec::new(),
        children: vec![text_elem("name", "CM4"), text_elem("endian", "middle")],
        text: None,
    };
    let e = Cpu::parse(&t).unwrap_err();
    assert_eq!(
        e.kind,
        ErrorKind::Svd(SVDError::UnknownEndian("middle".to_string()))
    );
    assert_eq!(e.context[0].entity, "cpu");
    assert_eq!(e.context[0].name, "CM4");
}

#[test]
fn invalid_boolean_is_reported() {
    let t = Tree {
        name: "cpu".to_string(),
        attributes: Vec::new(),
        children: vec![
            text_elem("name", "CM4"),
            text_elem("endian", "big"),
            text_elem("mpuPresent", "maybe"),
        ],
        text: None,
    };
    let e = Cpu::parse(&t).unwrap_err();
    assert_eq!(
        e.kind,
        ErrorKind::Svd(SVDError::InvalidBooleanValue("maybe".to_string()))
    );
}

#[test]
fn cpu_round_trip() {
    let c = CpuBuilder::default()
        .name("CM0".to_string())
        .endian(Endian::Big)
        .build()
        .unwrap();
    let t = c.encode().unwrap();
    assert_eq!(Cpu::parse(&t).unwrap(), c);
}

#[test]
fn cpu_requires_endian() {
    let e = CpuBuilder::default()
        .name("CM0".to_string())
        .build()
        .unwrap_err();
    assert_eq!(
        e.kind,
        ErrorKind::Build(BuildError::Uninitialized("endian".to_string()))
    );
}

#[test]
fn peripheral_strict_build_rejects_bad_name() {
    let e = PeripheralBuilder::default()
        .name("PERI PH".to_string())
        .base_address(0)
        .build()
        .unwrap_err();
    assert_eq!(
        e.kind,
        ErrorKind::Name(NameError::Invalid(
            "PERI PH".to_string(),
            "name".to_string()
        ))
    );
}

#[test]
fn unknown_access_is_reported() {
    let t = Tree {
        name: "device".to_string(),
        attributes: Vec::new(),
        children: vec![
            text_elem("name", "DEV"),
            text_elem("access", "rw"),
            Tree {
                name: "peripherals".to_string(),
                attributes: Vec::new(),
                children: vec![peripheral_tree("A", "0")],
                text: None,
            },
        ],
        text: None,
    };
    let e = Device::parse(&t).unwrap_err();
    assert_eq!(
        e.kind,
        ErrorKind::Svd(SVDError::UnknownAccessType("rw".to_string()))
    );
}

#[test]
fn decimal_parse_exact_values() {
    assert_eq!(parse_u32("0").unwrap(), 0);
    assert_eq!(parse_u32("047").unwrap(), 47);
    assert_eq!(parse_u32("4294967295").unwrap(), 4294967295);
    assert!(parse_u32("4294967296").is_err());
    assert_eq!(parse_u64("18446744073709551615").unwrap(), 18446744073709551615);
    assert!(parse_u64("18446744073709551616").is_err());
    assert!(parse_u64("").is_err());
    assert!(parse_u64("12x").is_err());
    let e = parse_u64("-3").unwrap_err();
    assert_eq!(e.kind, ErrorKind::Svd(SVDError::ParseError("-3".to_string())));
}

#[test]
fn decimal_format_exact_values() {
    assert_eq!(u32_to_dec(0), "0");
    assert_eq!(u32_to_dec(100), "100");
    assert_eq!(u64_to_dec(18446744073709551615), "18446744073709551615");
}

#[test]
fn malformed_address_unit_bits_is_parse_error() {
    let mut t = device_tree(vec![peripheral_tree("A", "0")]);
    t.children.push(text_elem("addressUnitBits", "12x"));
    let e = Device::parse(&t).unwrap_err();
    assert_eq!(e.kind, ErrorKind::Svd(SVDError::ParseError("12x".to_string())));
}

#[test]
fn accessor_finds_first_matching_child() {
    let t = Tree {
        name: "device".to_string(),
        attributes: vec![
            ("k".to_string(), "v1".to_string()),
            ("k".to_string(), "v2".to_string()),
        ],
        children: vec![text_elem("x", "first"), text_elem("x", "second")],
        text: None,
    };
    assert_eq!(t.child_text("x").unwrap(), "first");
    assert_eq!(t.attribute("k").unwrap(), "v1");
    assert_eq!(t.attribute("missing"), None);
    let e = t.child_text("absent").unwrap_err();
    assert_eq!(
        e.kind,
        ErrorKind::Svd(SVDError::MissingTag("absent".to_string()))
    );
}

#[test]
fn optional_child_with_no_text_is_empty_tag() {
    let t = Tree {
        name: "device".to_string(),
        attributes: Vec::new(),
        children: vec![Tree::new_element("version", None)],
        text: None,
    };
    let e = t.optional_child_text("version").unwrap_err();
    assert_eq!(
        e.kind,
        ErrorKind::Svd(SVDError::EmptyTag("version".to_string()))
    );
    assert_eq!(t.optional_child_text("absent").unwrap(), None);
}

#[test]
fn width_and_register_defaults_round_trip() {
    let d = DeviceBuilder::default()
        .name("D0".to_string())
        .width(Some(16))
        .peripherals(vec![PeripheralBuilder::default()
            .name("PER0".to_string())
            .base_address(64)
            .build()
            .unwrap()])
        .default_register_properties(RegisterProperties {
            size: None,
            access: Some(Access::WriteOnce),
            reset_value: Some(18446744073709551615),
            reset_mask: None,
        })
        .build()
        .unwrap();
    let parsed = Device::parse(&d.encode().unwrap()).unwrap();
    assert_eq!(parsed, d);
    assert_eq!(parsed.width, Some(16));
    assert_eq!(parsed.default_register_properties.access, Some(Access::WriteOnce));
}
