use usbip::net::{
    Error, OpCommon, OpDevlistReply, OpImportReply, OpImportRequest, Status, UsbDevice,
    SYSFS_BUS_ID_SIZE, USB_DEVICE_LEN, VERSION,
};
use usbip::protocol::{OP_REP_IMPORT, OP_REQ_DEVLIST, OP_REQ_IMPORT};

fn sample_device(bus_id: &[u8], nintf: u8) -> UsbDevice {
    let mut path = b"/sys/devices/pci0000:00/usb1/".to_vec();
    path.extend_from_slice(bus_id);
    path.resize(256, 0);
    let mut id = bus_id.to_vec();
    id.resize(32, 0);
    UsbDevice {
        path,
        bus_id: id,
        busnum: 1,
        devnum: 0x0102_0304,
        speed: 3,
        id_vendor: 0x1d6b,
        id_product: 0x0002,
        bcd_device: 0x0510,
        b_device_class: 9,
        b_device_sub_class: 0,
        b_device_protocol: 1,
        b_configuration_value: 1,
        b_num_configurations: 1,
        b_num_interfaces: nintf,
    }
}

#[test]
fn header_encodes_big_endian() {
    let h = OpCommon { version: VERSION, code: OP_REQ_IMPORT, status: Status::Success };
    assert_eq!(h.encode(), vec![0x01, 0x11, 0x80, 0x03, 0, 0, 0, 0]);
    let h = OpCommon { version: 0x0102, code: 0x0304, status: Status::NoDevice };
    assert_eq!(h.encode(), vec![0x01, 0x02, 0x03, 0x04, 0, 0, 0, 4]);
}

#[test]
fn header_round_trip_keeps_trailing_bytes_out() {
    for status in [
        Status::Success,
        Status::NotAvailable,
        Status::DeviceBusy,
        Status::DeviceError,
        Status::NoDevice,
        Status::Failed,
        Status::Unexpected,
    ] {
        let h = OpCommon { version: VERSION, code: OP_REP_IMPORT, status };
        let mut bytes = h.encode();
        assert_eq!(bytes.len(), 8);
        bytes.extend_from_slice(&[0xaa, 0xbb]);
        assert_eq!(OpCommon::decode(&bytes), Ok(h));
    }
}

#[test]
fn header_decode_errors() {
    assert_eq!(OpCommon::decode(&[1, 17, 0, 3, 0, 0, 0]), Err(Error::Truncated));
    assert_eq!(OpCommon::decode(&[]), Err(Error::Truncated));
    assert_eq!(
        OpCommon::decode(&[1, 17, 0, 3, 0, 0, 1, 0]),
        Err(Error::UnknownStatus(256))
    );
}

#[test]
fn status_codes() {
    assert_eq!(Status::Success.code(), 0);
    assert_eq!(Status::Failed.code(), 5);
    assert_eq!(Status::from_code(2), Some(Status::DeviceBusy));
    assert_eq!(Status::from_code(7), None);
}

#[test]
fn import_request_at_capacity_is_accepted() {
    let id = vec![b'1'; SYSFS_BUS_ID_SIZE - 1];
    let q = OpImportRequest::new(&id).unwrap();
    assert_eq!(q.bus_id.len(), SYSFS_BUS_ID_SIZE);
    assert_eq!(&q.bus_id[..SYSFS_BUS_ID_SIZE - 1], &id[..]);
    assert_eq!(q.bus_id[SYSFS_BUS_ID_SIZE - 1], 0);
}

#[test]
fn import_request_over_capacity_is_refused() {
    let id = vec![b'1'; SYSFS_BUS_ID_SIZE];
    assert_eq!(OpImportRequest::new(&id), Err(Error::BusIdTooLong(SYSFS_BUS_ID_SIZE)));
    let id = vec![b'1'; SYSFS_BUS_ID_SIZE + 5];
    assert_eq!(OpImportRequest::new(&id), Err(Error::BusIdTooLong(SYSFS_BUS_ID_SIZE + 5)));
}

#[test]
fn import_request_round_trip() {
    let q = OpImportRequest::new(b"1-1").unwrap();
    let mut bytes = q.encode();
    assert_eq!(&bytes[..4], &[b'1', b'-', b'1', 0]);
    assert!(bytes[3..].iter().all(|b| *b == 0));
    bytes.push(7);
    assert_eq!(OpImportRequest::decode(&bytes), Ok(q));
    assert_eq!(OpImportRequest::decode(&bytes[..31]), Err(Error::Truncated));
}

#[test]
fn device_layout_is_big_endian() {
    let d = sample_device(b"1-1", 1);
    let bytes = d.encode();
    assert_eq!(bytes.len(), USB_DEVICE_LEN);
    assert_eq!(&bytes[256..259], b"1-1");
    assert_eq!(&bytes[288..292], &[0, 0, 0, 1]);
    assert_eq!(&bytes[292..296], &[1, 2, 3, 4]);
    assert_eq!(&bytes[300..302], &[0x1d, 0x6b]);
    assert_eq!(&bytes[304..306], &[0x05, 0x10]);
    assert_eq!(&bytes[306..312], &[9, 0, 1, 1, 1, 1]);
}

#[test]
fn import_reply_round_trip() {
    let r = OpImportReply { udev: sample_device(b"3-4.1", 2) };
    let mut bytes = r.encode();
    bytes.extend_from_slice(&[1, 2, 3]);
    assert_eq!(OpImportReply::decode(&bytes), Ok(r.clone()));
    assert_eq!(UsbDevice::decode(&bytes), Ok(r.udev.clone()));
    assert_eq!(OpImportReply::decode(&bytes[..USB_DEVICE_LEN - 1]), Err(Error::Truncated));
    assert!(r.udev.is_well_formed());
}

#[test]
fn devlist_reply_round_trip() {
    let r = OpDevlistReply { ndev: 0x0a0b_0c0d };
    let mut bytes = r.encode();
    assert_eq!(bytes, vec![0x0a, 0x0b, 0x0c, 0x0d]);
    bytes.push(0xff);
    assert_eq!(OpDevlistReply::decode(&bytes), Ok(r));
    assert_eq!(OpDevlistReply::decode(&bytes[..3]), Err(Error::Truncated));
}

#[test]
fn request_codes() {
    assert_eq!(OP_REQ_IMPORT, 0x8003);
    assert_eq!(OP_REQ_DEVLIST, 0x8005);
    assert_eq!(OP_REP_IMPORT, 0x0003);
}
