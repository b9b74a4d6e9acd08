use collector::ports::{hex4, port_lines, port_report, PortEntry, PortKind};

#[test]
fn hex4_pads_to_four_digits() {
    assert_eq!(hex4(0x0000), "0000");
    assert_eq!(hex4(0x04D8), "04d8");
    assert_eq!(hex4(0xFFFF), "ffff");
    assert_eq!(hex4(0x001A), "001a");
}

#[test]
fn usb_port_block() {
    let entry = PortEntry {
        name: String::from("/dev/ttyUSB0"),
        kind: PortKind::Usb {
            vid: 0x04D8,
            pid: 0x000A,
            serial_number: Some(String::from("S123")),
            manufacturer: None,
            product: Some(String::from("Sensor")),
        },
    };
    let expected = "  /dev/ttyUSB0\n    Type: USB\n    VID:04d8 PID:000a\n     Serial Number: S123\n      Manufacturer: \n           Product: Sensor\n";
    assert_eq!(port_lines(&entry), expected);
}

#[test]
fn non_usb_port_blocks() {
    let bt = PortEntry { name: String::from("btport"), kind: PortKind::Bluetooth };
    assert_eq!(port_lines(&bt), "  btport\n    Type: Bluetooth\n");
    let pci = PortEntry { name: String::from("pciport"), kind: PortKind::Pci };
    assert_eq!(port_lines(&pci), "  pciport\n    Type: PCI\n");
    let unknown = PortEntry { name: String::from("x"), kind: PortKind::Unknown };
    assert_eq!(port_lines(&unknown), "  x\n    Type: Unknown\n");
}

#[test]
fn report_lists_ports_in_order() {
    let ports = vec![
        PortEntry { name: String::from("first"), kind: PortKind::Pci },
        PortEntry { name: String::from("second"), kind: PortKind::Unknown },
    ];
    assert_eq!(
        port_report(&ports),
        "--- Available ports --- \n  first\n    Type: PCI\n  second\n    Type: Unknown\n"
    );
}

#[test]
fn report_of_no_ports_is_just_the_header() {
    let ports: Vec<PortEntry> = vec![];
    assert_eq!(port_report(&ports), "--- Available ports --- \n");
}
