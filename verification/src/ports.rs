//! Serial-port diagnostic report: renders a description of the serial
//! devices found on the machine, one block per port, as printed when the
//! configured device cannot be opened.

use vstd::prelude::*;
use vstd::string::StringExecFns;

verus! {

/// What kind of serial port a device is, with the identifying details a USB
/// port carries.
pub enum PortKind {
    Usb {
        /// USB vendor identifier.
        vid: u16,
        /// USB product identifier.
        pid: u16,
        /// The device's serial number, when the system reports one.
        serial_number: Option<String>,
        /// The device's manufacturer string, when the system reports one.
        manufacturer: Option<String>,
        /// The device's product string, when the system reports one.
        product: Option<String>,
    },
    Bluetooth,
    Pci,
    Unknown,
}

/// One serial device found on the machine.
pub struct PortEntry {
    /// The device path of the port.
    pub name: String,
    /// What kind of port it is.
    pub kind: PortKind,
}

/// The character for one hexadecimal digit, lower case.
pub open spec fn hex_char(d: int) -> char {
    if d < 10 {
        crate::exposition::digit_char(d)
    } else if d == 10 {
        'a'
    } else if d == 11 {
        'b'
    } else if d == 12 {
        'c'
    } else if d == 13 {
        'd'
    } else if d == 14 {
        'e'
    } else {
        'f'
    }
}

/// A 16-bit value as four hexadecimal digits, most significant first.
pub open spec fn hex4_spec(v: int) -> Seq<char> {
    seq![
        hex_char(v / 4096 % 16),
        hex_char(v / 256 % 16),
        hex_char(v / 16 % 16),
        hex_char(v % 16),
    ]
}

/// The hexadecimal character for a value below sixteen.
fn hex_digit_str(d: u16) -> (r: &'static str)
    requires
        d < 16,
    ensures
        r@ == seq![hex_char(d as int)],
{
    proof {
        reveal_strlit("a");
        reveal_strlit("b");
        reveal_strlit("c");
        reveal_strlit("d");
        reveal_strlit("e");
        reveal_strlit("f");
    }
    if d < 10 {
        crate::exposition::digit_str(d as u8)
    } else {
        match d {
            10 => "a",
            11 => "b",
            12 => "c",
            13 => "d",
            14 => "e",
            _ => "f",
        }
    }
}

/// Render a 16-bit identifier as four hexadecimal digits.
pub fn hex4(v: u16) -> (s: String)
    ensures
        s@ == hex4_spec(v as int),
{
    let mut s = String::new();
    s.append(hex_digit_str(v / 4096));
    s.append(hex_digit_str(v / 256 % 16));
    s.append(hex_digit_str(v / 16 % 16));
    s.append(hex_digit_str(v % 16));
    proof {
        assert(s@ =~= hex4_spec(v as int));
    }
    s
}

/// The text shown for an optional detail: the value when present, empty
/// otherwise.
pub open spec fn opt_text(o: Option<String>) -> Seq<char> {
    match o {
        Some(s) => s@,
        None => Seq::empty(),
    }
}

/// The description lines for a port of a given kind.
pub open spec fn kind_lines_spec(kind: PortKind) -> Seq<char> {
    match kind {
        PortKind::Usb { vid, pid, serial_number, manufacturer, product } => "    Type: USB\n"@
            + "    VID:"@ + hex4_spec(vid as int) + " PID:"@ + hex4_spec(pid as int) + "\n"@
            + "     Serial Number: "@ + opt_text(serial_number) + "\n"@
            + "      Manufacturer: "@ + opt_text(manufacturer) + "\n"@ + "           Product: "@
            + opt_text(product) + "\n"@,
        PortKind::Bluetooth => "    Type: Bluetooth\n"@,
        PortKind::Pci => "    Type: PCI\n"@,
        PortKind::Unknown => "    Type: Unknown\n"@,
    }
}

/// The description block for one port: its name, then its kind's lines.
pub open spec fn port_lines_spec(entry: PortEntry) -> Seq<char> {
    "  "@ + entry.name@ + "\n"@ + kind_lines_spec(entry.kind)
}

/// The description blocks for a sequence of ports, in order.
pub open spec fn report_body_spec(ports: Seq<PortEntry>) -> Seq<char>
    decreases ports.len(),
{
    if ports.len() == 0 {
        Seq::empty()
    } else {
        report_body_spec(ports.drop_last()) + port_lines_spec(ports.last())
    }
}

/// The text an optional detail renders as.
fn opt_str<'a>(o: &'a Option<String>) -> (r: &'a str)
    ensures
        r@ == opt_text(*o),
{
    proof {
        reveal_strlit("");
    }
    match o {
        Some(s) => s.as_str(),
        None => "",
    }
}

/// Render the description block for one port.
pub fn port_lines(entry: &PortEntry) -> (s: String)
    ensures
        s@ == port_lines_spec(*entry),
{
    let mut s = String::from_str("  ");
    s.append(entry.name.as_str());
    s.append("\n");
    match &entry.kind {
        PortKind::Usb { vid, pid, serial_number, manufacturer, product } => {
            s.append("    Type: USB\n");
            s.append("    VID:");
            let vid_hex = hex4(*vid);
            s.append(vid_hex.as_str());
            s.append(" PID:");
            let pid_hex = hex4(*pid);
            s.append(pid_hex.as_str());
            s.append("\n");
            s.append("     Serial Number: ");
            s.append(opt_str(serial_number));
            s.append("\n");
            s.append("      Manufacturer: ");
            s.append(opt_str(manufacturer));
            s.append("\n");
            s.append("           Product: ");
            s.append(opt_str(product));
            s.append("\n");
        },
        PortKind::Bluetooth => {
            s.append("    Type: Bluetooth\n");
        },
        PortKind::Pci => {
            s.append("    Type: PCI\n");
        },
        PortKind::Unknown => {
            s.append("    Type: Unknown\n");
        },
    }
    s
}

/// Render the full diagnostic report: a header line, then one description
/// block per port, in the order the ports were found.
pub fn port_report(ports: &Vec<PortEntry>) -> (s: String)
    ensures
        s@ == "--- Available ports --- \n"@ + report_body_spec(ports@),
{
    let mut s = String::from_str("--- Available ports --- \n");
    let mut i: usize = 0;
    while i < ports.len()
        invariant
            i <= ports@.len(),
            s@ == "--- Available ports --- \n"@ + report_body_spec(ports@.take(i as int)),
        decreases ports@.len() - i,
    {
        let block = port_lines(&ports[i]);
        s.append(block.as_str());
        proof {
            assert(ports@.take(i + 1 as int).drop_last() =~= ports@.take(i as int));
            assert(ports@.take(i + 1 as int).last() == ports@[i as int]);
        }
        i = i + 1;
    }
    proof {
        assert(ports@.take(ports@.len() as int) =~= ports@);
    }
    s
}

} // verus!
