use neo::svd::parse_access;
use neo::svd::parse_u32;
use neo::svd::Access;
use neo::svd::Builder;
use neo::svd::Device;
use neo::svd::Field;
use neo::svd::Peripheral;
use neo::svd::Register;

#[test]
fn numbers_parse_in_decimal_and_hex() {
    assert_eq!(parse_u32("123"), Some(123));
    assert_eq!(parse_u32("0"), Some(0));
    assert_eq!(parse_u32("0x1F"), Some(31));
    assert_eq!(parse_u32("0X1f"), Some(31));
    assert_eq!(parse_u32("4294967295"), Some(u32::MAX));
    assert_eq!(parse_u32("+7"), Some(7));
}

#[test]
fn numbers_reject_overflow_and_junk() {
    assert_eq!(parse_u32("4294967296"), None);
    assert_eq!(parse_u32(""), None);
    assert_eq!(parse_u32("0x"), None);
    assert_eq!(parse_u32("12a"), None);
    assert_eq!(parse_u32("-5"), None);
    assert_eq!(parse_u32("-0"), Some(0));
    // Repeated prefixes are all trimmed.
    assert_eq!(parse_u32("0x0x10"), Some(16));
}

#[test]
fn access_strings_parse() {
    assert_eq!(parse_access("read-only"), Some(Access::ReadOnly));
    assert_eq!(parse_access("write-only"), Some(Access::WriteOnly));
    assert_eq!(parse_access("read-write"), Some(Access::ReadWrite));
    assert_eq!(parse_access("read-mostly"), None);
    assert_eq!(parse_access(""), None);
}

fn timer_register(access: Option<Access>, field_access: Option<Access>) -> Register {
    Register {
        name: "CR".to_string(),
        address_offset: 4,
        access,
        fields: vec![Field {
            name: "EN".to_string(),
            bit_offset: 0,
            bit_width: 1,
            access: field_access,
        }],
    }
}

#[test]
fn normalize_resolves_inheritance_and_access() {
    let mut device = Device {
        peripherals: vec![
            Peripheral {
                derived_from: None,
                name: "TIMER1".to_string(),
                base_address: Some(0x4000_0000),
                registers: Some(vec![timer_register(Some(Access::ReadOnly), None)]),
            },
            Peripheral {
                derived_from: Some("TIMER1".to_string()),
                name: "TIMER2".to_string(),
                base_address: Some(0x4000_0400),
                registers: None,
            },
        ],
    };
    device.normalize();
    let t2 = &device.peripherals[1];
    assert_eq!(t2.base_address, Some(0x4000_0400));
    let regs = t2.registers.as_ref().unwrap();
    assert_eq!(regs.len(), 1);
    assert_eq!(regs[0].name, "CR");
    // The register's access mode reached the field that named none.
    assert_eq!(regs[0].fields[0].access, Some(Access::ReadOnly));
    // A field keeping its own mode is untouched.
    let t1 = &device.peripherals[0];
    assert_eq!(
        t1.registers.as_ref().unwrap()[0].fields[0].access,
        Some(Access::ReadOnly)
    );
}

#[test]
fn find_and_filter_peripherals() {
    let mut device = Device {
        peripherals: vec![
            Peripheral {
                derived_from: None,
                name: "RCC".to_string(),
                base_address: Some(1),
                registers: Some(vec![]),
            },
            Peripheral {
                derived_from: None,
                name: "GPIOA".to_string(),
                base_address: Some(2),
                registers: Some(vec![]),
            },
        ],
    };
    assert_eq!(device.find_peripheral(&"GPIOA".to_string()), Some(1));
    assert_eq!(device.find_peripheral(&"UART9".to_string()), None);
    device.filter(&vec!["GPIOA".to_string()]);
    assert_eq!(device.peripherals.len(), 1);
    assert_eq!(device.peripherals[0].name, "GPIOA");
    // An empty keep-list keeps everything.
    device.filter(&Vec::new());
    assert_eq!(device.peripherals.len(), 1);
}

#[test]
fn builder_collects_options() {
    let builder = Builder::default()
        .svd_file("STM32F0x2.svd")
        .with_peripheral("RCC")
        .with_peripheral("GPIOA");
    assert_eq!(builder.options.svd_file, "STM32F0x2.svd");
    assert_eq!(builder.options.only, vec!["RCC".to_string(), "GPIOA".to_string()]);
}
