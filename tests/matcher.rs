use android_usbser::descriptor::{
    find_bulk_endpoints, find_interfaces, probe, select_interfaces, AltSetting, DeviceInfo, Direction,
    EndpointInfo, InterfaceInfo, TransferType,
};
use android_usbser::error::SerialError;

fn intf(number: u8, class: u8, sub_class: u8) -> InterfaceInfo {
    InterfaceInfo {
        interface_number: number,
        alternate_setting: Some(0),
        class,
        sub_class,
        protocol: 0,
        num_endpoints: 2,
    }
}

fn device(path: &str, interfaces: Vec<InterfaceInfo>) -> DeviceInfo {
    DeviceInfo {
        vendor_id: 0x2341,
        product_id: 0x0043,
        class: 0x02,
        subclass: 0,
        protocol: 0,
        path_name: path.to_string(),
        manufacturer_string: None,
        product_string: None,
        version: None,
        serial_number: Some("A1".to_string()),
        interfaces,
    }
}

fn ep(address: u8, direction: Direction, transfer_type: TransferType) -> EndpointInfo {
    EndpointInfo {
        number: address & 0x0f,
        address,
        direction,
        transfer_type,
        max_packet_size: 64,
        interval: 0,
    }
}

#[test]
fn matcher_finds_comm_and_data() {
    let dev = device("/dev/bus/usb/001/002", vec![intf(0, 0x02, 0x02), intf(1, 0x0A, 0)]);
    let (comm, data) = find_interfaces(&dev).unwrap();
    assert_eq!(comm.interface_number, 0);
    assert_eq!(data.interface_number, 1);
}

#[test]
fn matcher_takes_the_first_of_each() {
    let dev = device(
        "/dev/bus/usb/001/003",
        vec![intf(0, 0xFF, 0), intf(1, 0x0A, 0), intf(2, 0x02, 0x02), intf(3, 0x02, 0x02), intf(4, 0x0A, 0)],
    );
    let (comm, data) = find_interfaces(&dev).unwrap();
    assert_eq!(comm.interface_number, 2);
    assert_eq!(data.interface_number, 1);
}

#[test]
fn matcher_data_only_is_not_matched() {
    let dev = device("/dev/bus/usb/001/004", vec![intf(0, 0x0A, 0)]);
    assert_eq!(find_interfaces(&dev), None);
    assert_eq!(select_interfaces(&dev), Err(SerialError::NotACdcDevice));
}

#[test]
fn matcher_needs_acm_subclass() {
    let dev = device("/dev/bus/usb/001/005", vec![intf(0, 0x02, 0x06), intf(1, 0x0A, 0)]);
    assert_eq!(find_interfaces(&dev), None);
    let dev = device("/dev/bus/usb/001/005", vec![intf(0, 0x02, 0x02)]);
    assert_eq!(find_interfaces(&dev), None);
    assert_eq!(find_interfaces(&device("/dev/bus/usb/001/005", vec![])), None);
}

#[test]
fn probe_keeps_cdc_acm_devices_in_order() {
    let devs = vec![
        device("/a", vec![intf(0, 0x02, 0x02), intf(1, 0x0A, 0)]),
        device("/b", vec![intf(0, 0x0A, 0)]),
        device("/c", vec![intf(0, 0x08, 0x06)]),
        device("/d", vec![intf(3, 0x0A, 0), intf(2, 0x02, 0x02)]),
    ];
    let found = probe(devs);
    let paths: Vec<&str> = found.iter().map(|d| d.path_name.as_str()).collect();
    assert_eq!(paths, vec!["/a", "/d"]);
    assert!(probe(Vec::new()).is_empty());
}

#[test]
fn device_equality_ignores_classes() {
    let a = device("/dev/bus/usb/001/002", vec![intf(0, 0x02, 0x02)]);
    let mut b = device("/dev/bus/usb/001/002", vec![]);
    b.class = 0xEF;
    b.subclass = 2;
    assert!(a == b);
    let mut c = a.clone();
    c.serial_number = None;
    assert!(a != c);
    let mut d = a.clone();
    d.path_name = "/dev/bus/usb/001/009".to_string();
    assert!(a != d);
    let mut e = a.clone();
    e.product_id = 1;
    assert!(a != e);
}

#[test]
fn bulk_endpoints_from_first_complete_setting() {
    let alts = vec![
        AltSetting { alternate_setting: 0, endpoints: vec![] },
        AltSetting {
            alternate_setting: 1,
            endpoints: vec![ep(0x81, Direction::In, TransferType::Bulk), ep(0x83, Direction::In, TransferType::Interrupt)],
        },
        AltSetting {
            alternate_setting: 2,
            endpoints: vec![
                ep(0x83, Direction::In, TransferType::Interrupt),
                ep(0x02, Direction::Out, TransferType::Bulk),
                ep(0x82, Direction::In, TransferType::Bulk),
                ep(0x04, Direction::Out, TransferType::Bulk),
            ],
        },
        AltSetting {
            alternate_setting: 3,
            endpoints: vec![ep(0x85, Direction::In, TransferType::Bulk), ep(0x05, Direction::Out, TransferType::Bulk)],
        },
    ];
    assert_eq!(find_bulk_endpoints(&alts), Ok((0x82, 0x02)));
}

#[test]
fn bulk_endpoints_not_found() {
    let alts = vec![AltSetting {
        alternate_setting: 0,
        endpoints: vec![ep(0x81, Direction::In, TransferType::Interrupt), ep(0x01, Direction::Out, TransferType::Isochronous)],
    }];
    assert_eq!(find_bulk_endpoints(&alts), Err(SerialError::EndpointsNotFound));
    assert_eq!(find_bulk_endpoints(&Vec::new()), Err(SerialError::EndpointsNotFound));
}
