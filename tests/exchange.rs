use usbip::attach::{accept_import_reply, check_import_header, import_request_bytes};
use usbip::devlist::{check_devlist_header, devlist_request_bytes, parse_devlist};
use usbip::net::{unpad, same_bytes, Error, OpCommon, Status, UsbDevice, SYSFS_BUS_ID_SIZE, VERSION};
use usbip::protocol::{OP_REP_DEVLIST, OP_REP_IMPORT};

fn device(bus_id: &[u8], nintf: u8) -> UsbDevice {
    let mut id = bus_id.to_vec();
    id.resize(32, 0);
    UsbDevice {
        path: vec![b'p'; 256],
        bus_id: id,
        busnum: 2,
        devnum: 5,
        speed: 2,
        id_vendor: 0x046d,
        id_product: 0xc52b,
        bcd_device: 0x1201,
        b_device_class: 0,
        b_device_sub_class: 0,
        b_device_protocol: 0,
        b_configuration_value: 1,
        b_num_configurations: 1,
        b_num_interfaces: nintf,
    }
}

#[test]
fn import_request_is_header_then_bus_id() {
    let bytes = import_request_bytes(b"1-1").unwrap();
    assert_eq!(bytes.len(), 8 + SYSFS_BUS_ID_SIZE);
    assert_eq!(&bytes[..8], &[0x01, 0x11, 0x80, 0x03, 0, 0, 0, 0]);
    assert_eq!(&bytes[8..11], b"1-1");
    assert!(bytes[11..].iter().all(|b| *b == 0));
}

#[test]
fn import_request_over_capacity_sends_nothing() {
    let id = vec![b'2'; SYSFS_BUS_ID_SIZE];
    assert_eq!(import_request_bytes(&id), Err(Error::BusIdTooLong(SYSFS_BUS_ID_SIZE)));
    let id = vec![b'2'; SYSFS_BUS_ID_SIZE - 1];
    assert_eq!(import_request_bytes(&id).unwrap().len(), 8 + SYSFS_BUS_ID_SIZE);
}

#[test]
fn import_header_checks() {
    let ok = OpCommon { version: VERSION, code: OP_REP_IMPORT, status: Status::Success };
    assert_eq!(check_import_header(&ok.encode()), Ok(()));
    let wrong = OpCommon { code: OP_REP_DEVLIST, ..ok };
    assert_eq!(check_import_header(&wrong.encode()), Err(Error::UnexpectedReply));
    let refused = OpCommon { status: Status::NotAvailable, ..ok };
    assert_eq!(
        check_import_header(&refused.encode()),
        Err(Error::RemoteStatus(Status::NotAvailable))
    );
    let old = OpCommon { version: 0x0100, ..ok };
    assert_eq!(check_import_header(&old.encode()), Err(Error::VersionMismatch(0x0100)));
}

#[test]
fn import_reply_with_other_bus_id_is_refused() {
    let reply = device(b"1-2", 1).encode();
    assert_eq!(accept_import_reply(b"1-1", &reply), Err(Error::BusIdMismatch(b"1-2".to_vec())));
}

#[test]
fn import_reply_with_same_bus_id_is_accepted() {
    let d = device(b"1-1", 1);
    let reply = accept_import_reply(b"1-1", &d.encode()).unwrap();
    assert_eq!(reply.udev, d);
    assert_eq!(accept_import_reply(b"1-1", &d.encode()[..100]), Err(Error::Truncated));
}

#[test]
fn devlist_request_bytes_are_a_header() {
    assert_eq!(devlist_request_bytes(), vec![0x01, 0x11, 0x80, 0x05, 0, 0, 0, 0]);
}

#[test]
fn devlist_two_devices() {
    let header = OpCommon { version: 273, code: OP_REP_DEVLIST, status: Status::Success };
    assert_eq!(check_devlist_header(&header.encode()), Ok(()));
    let a = device(b"1-1", 0);
    let b = device(b"1-2", 2);
    let mut body = vec![0, 0, 0, 2];
    body.extend_from_slice(&a.encode());
    body.extend_from_slice(&b.encode());
    body.extend_from_slice(&[9, 1, 0, 0, 3, 0, 0, 0]);
    let expected_len = body.len();
    body.extend_from_slice(&[0xee; 20]);
    let (devs, used) = parse_devlist(&body).unwrap();
    assert_eq!(devs, vec![a, b]);
    assert_eq!(used, expected_len);
}

#[test]
fn devlist_reply_with_request_code_is_unexpected() {
    let header = OpCommon { version: 273, code: 0x8005, status: Status::Success };
    assert_eq!(check_devlist_header(&header.encode()), Err(Error::UnexpectedReply));
}

#[test]
fn devlist_short_body_is_truncated() {
    let a = device(b"1-1", 1);
    let mut body = vec![0, 0, 0, 1];
    body.extend_from_slice(&a.encode());
    assert_eq!(parse_devlist(&body), Err(Error::Truncated));
    body.extend_from_slice(&[0, 0, 0, 0]);
    assert_eq!(parse_devlist(&body).unwrap().1, body.len());
    assert_eq!(parse_devlist(&[0, 0]), Err(Error::Truncated));
    assert_eq!(parse_devlist(&[0, 0, 0, 0]), Ok((vec![], 4)));
}

#[test]
fn unpad_and_compare() {
    assert_eq!(unpad(b"1-1\0\0\0"), b"1-1".to_vec());
    assert_eq!(unpad(b"abc"), b"abc".to_vec());
    assert_eq!(unpad(b"\0x"), Vec::<u8>::new());
    assert!(same_bytes(b"1-1", b"1-1"));
    assert!(!same_bytes(b"1-1", b"1-2"));
    assert!(!same_bytes(b"1-1", b"1-10"));
}
