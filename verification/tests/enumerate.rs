use serialport::enumerate::{available_ports, parse_hex_id, Bus, Candidate, SerialPortInfo, SerialPortType, UsbPortInfo};
use serialport::ErrorKind;

fn candidate(name: &str, bus: Bus, vid: Option<u16>, pid: Option<u16>) -> Candidate {
    Candidate {
        port_name: name.to_string(),
        bus,
        vid,
        pid,
        serial_number: Some("A702TB52".to_string()),
        manufacturer: Some("FTDI".to_string()),
        product: None,
    }
}

#[test]
fn no_candidates_is_an_empty_success() {
    let ports = available_ports(Some(Vec::new())).unwrap();
    assert_eq!(ports, Vec::<SerialPortInfo>::new());
}

#[test]
fn failed_discovery_is_unknown() {
    let error = available_ports(None).unwrap_err();
    assert_eq!(error.kind(), ErrorKind::Unknown);
    assert_eq!(error.description(), "the platform's device discovery could not be queried");
}

#[test]
fn usb_candidate_carries_its_metadata() {
    let info = candidate("/dev/ttyUSB0", Bus::Usb, Some(0x0403), Some(0x6001)).into_info();
    assert_eq!(
        info,
        SerialPortInfo {
            port_name: "/dev/ttyUSB0".to_string(),
            port_type: SerialPortType::UsbPort(UsbPortInfo {
                vid: 0x0403,
                pid: 0x6001,
                serial_number: Some("A702TB52".to_string()),
                manufacturer: Some("FTDI".to_string()),
                product: None,
            }),
        }
    );
}

#[test]
fn usb_candidate_without_ids_is_unknown() {
    let no_pid = candidate("/dev/ttyACM0", Bus::Usb, Some(0x2341), None).into_info();
    assert_eq!(no_pid.port_name, "/dev/ttyACM0");
    assert_eq!(no_pid.port_type, SerialPortType::Unknown);
    let no_vid = candidate("/dev/ttyACM1", Bus::Usb, None, Some(0x0043)).into_info();
    assert_eq!(no_vid.port_type, SerialPortType::Unknown);
}

#[test]
fn pci_candidate_is_a_pci_port() {
    let info = candidate("/dev/ttyS0", Bus::Pci, None, None).into_info();
    assert_eq!(info.port_type, SerialPortType::PciPort);
    let with_ids = candidate("/dev/ttyS1", Bus::Pci, Some(1), Some(2)).into_info();
    assert_eq!(with_ids.port_type, SerialPortType::PciPort);
}

#[test]
fn unclassified_candidate_is_listed_as_unknown() {
    let info = candidate("COM7", Bus::Unclassified, Some(1), Some(2)).into_info();
    assert_eq!(info, SerialPortInfo { port_name: "COM7".to_string(), port_type: SerialPortType::Unknown });
}

#[test]
fn every_candidate_is_reported_in_order() {
    let found = vec![
        candidate("/dev/ttyS0", Bus::Pci, None, None),
        candidate("/dev/ttyUSB0", Bus::Usb, Some(0x0403), Some(0x6001)),
        candidate("/dev/ttyACM0", Bus::Usb, None, None),
        candidate("/dev/rfcomm0", Bus::Unclassified, None, None),
    ];
    let ports = available_ports(Some(found.clone())).unwrap();
    assert_eq!(ports.len(), 4);
    let names: Vec<&str> = ports.iter().map(|p| p.port_name.as_str()).collect();
    assert_eq!(names, vec!["/dev/ttyS0", "/dev/ttyUSB0", "/dev/ttyACM0", "/dev/rfcomm0"]);
    assert_eq!(ports[0].port_type, SerialPortType::PciPort);
    assert!(matches!(ports[1].port_type, SerialPortType::UsbPort(_)));
    assert_eq!(ports[2].port_type, SerialPortType::Unknown);
    assert_eq!(ports[3].port_type, SerialPortType::Unknown);
    for (port, found) in ports.iter().zip(found) {
        assert_eq!(*port, found.into_info());
    }
}

#[test]
fn bus_is_known_by_its_name() {
    assert_eq!(Bus::from_name("usb"), Bus::Usb);
    assert_eq!(Bus::from_name("pci"), Bus::Pci);
    assert_eq!(Bus::from_name("platform"), Bus::Unclassified);
    assert_eq!(Bus::from_name("USB"), Bus::Unclassified);
    assert_eq!(Bus::from_name("usb "), Bus::Unclassified);
    assert_eq!(Bus::from_name(""), Bus::Unclassified);
}

#[test]
fn hex_ids_are_read() {
    assert_eq!(parse_hex_id("0403"), Some(0x0403));
    assert_eq!(parse_hex_id("6001"), Some(0x6001));
    assert_eq!(parse_hex_id("1d50"), Some(0x1d50));
    assert_eq!(parse_hex_id("1D50"), Some(0x1d50));
    assert_eq!(parse_hex_id("ffff"), Some(0xffff));
    assert_eq!(parse_hex_id("FfFf"), Some(0xffff));
    assert_eq!(parse_hex_id("0"), Some(0));
    assert_eq!(parse_hex_id("a"), Some(10));
    assert_eq!(parse_hex_id("F"), Some(15));
    assert_eq!(parse_hex_id("9"), Some(9));
    assert_eq!(parse_hex_id("00000001"), Some(1));
    assert_eq!(parse_hex_id("0000ffff"), Some(0xffff));
}

#[test]
fn texts_that_are_no_hex_id_are_refused() {
    assert_eq!(parse_hex_id(""), None);
    assert_eq!(parse_hex_id("10000"), None);
    assert_eq!(parse_hex_id("fffff"), None);
    assert_eq!(parse_hex_id("123456789abcdef"), None);
    assert_eq!(parse_hex_id("0x0403"), None);
    assert_eq!(parse_hex_id("+403"), None);
    assert_eq!(parse_hex_id("-1"), None);
    assert_eq!(parse_hex_id("04g3"), None);
    assert_eq!(parse_hex_id("04 3"), None);
    assert_eq!(parse_hex_id(" 403"), None);
    assert_eq!(parse_hex_id("403\n"), None);
    assert_eq!(parse_hex_id("04\u{e9}3"), None);
    assert_eq!(parse_hex_id("/"), None);
    assert_eq!(parse_hex_id(":"), None);
    assert_eq!(parse_hex_id("@"), None);
    assert_eq!(parse_hex_id("G"), None);
    assert_eq!(parse_hex_id("`"), None);
}
