//! Messages of the USB/IP control plane, their byte layout and the
//! validation of a received header.

use vstd::prelude::*;

use crate::codec::{
    be16, be32, dec16, dec32, lemma_be16_round_trip, lemma_be32_round_trip, push_be16,
    push_be32, push_bytes, read_be16, read_be32, read_bytes,
};
use crate::protocol::OP_UNSPEC;

verus! {

/// The one protocol version that this client speaks.
pub const VERSION: u16 = 273;

/// Capacity of a bus id buffer, terminating zero included.
pub const SYSFS_BUS_ID_SIZE: usize = 32;

/// Capacity of the sysfs path buffer of a device.
pub const SYSFS_PATH_MAX: usize = 256;

/// Bytes of an encoded `OpCommon`.
pub const OP_COMMON_LEN: usize = 8;

/// Bytes of an encoded `UsbDevice`.
pub const USB_DEVICE_LEN: usize = 312;

/// Bytes of one interface record that follows a device in a device list.
pub const USB_INTERFACE_LEN: usize = 4;

/// Bytes of an encoded `OpDevlistReply`.
pub const OP_DEVLIST_REPLY_LEN: usize = 4;

/// Result indicator carried in a header.
#[derive(Debug, Clone, Copy, PartialEq, Eq, Structural)]
pub enum Status {
    Success,
    NotAvailable,
    DeviceBusy,
    DeviceError,
    NoDevice,
    Failed,
    /// Set by this client when a reply carries another code than expected.
    Unexpected,
}

/// The number that stands for a status on the wire.
pub open spec fn status_code(s: Status) -> u32 {
    match s {
        Status::Success => 0,
        Status::NotAvailable => 1,
        Status::DeviceBusy => 2,
        Status::DeviceError => 3,
        Status::NoDevice => 4,
        Status::Failed => 5,
        Status::Unexpected => 6,
    }
}

/// The status that a wire number stands for, if any.
pub open spec fn status_of(c: u32) -> Option<Status> {
    if c == 0 {
        Some(Status::Success)
    } else if c == 1 {
        Some(Status::NotAvailable)
    } else if c == 2 {
        Some(Status::DeviceBusy)
    } else if c == 3 {
        Some(Status::DeviceError)
    } else if c == 4 {
        Some(Status::NoDevice)
    } else if c == 5 {
        Some(Status::Failed)
    } else if c == 6 {
        Some(Status::Unexpected)
    } else {
        None
    }
}

impl Status {
    pub fn code(&self) -> (r: u32)
        ensures
            r == status_code(*self),
    {
        match self {
            Status::Success => 0,
            Status::NotAvailable => 1,
            Status::DeviceBusy => 2,
            Status::DeviceError => 3,
            Status::NoDevice => 4,
            Status::Failed => 5,
            Status::Unexpected => 6,
        }
    }

    pub fn from_code(c: u32) -> (r: Option<Status>)
        ensures
            r == status_of(c),
    {
        if c == 0 {
            Some(Status::Success)
        } else if c == 1 {
            Some(Status::NotAvailable)
        } else if c == 2 {
            Some(Status::DeviceBusy)
        } else if c == 3 {
            Some(Status::DeviceError)
        } else if c == 4 {
            Some(Status::NoDevice)
        } else if c == 5 {
            Some(Status::Failed)
        } else if c == 6 {
            Some(Status::Unexpected)
        } else {
            None
        }
    }
}

/// Failures of an exchange with a remote host.
#[derive(Debug, Clone, PartialEq, Eq)]
pub enum Error {
    /// The remote speaks another protocol version, the one held here.
    VersionMismatch(u16),
    /// The remote answered with another device, whose bus id is held here.
    BusIdMismatch(Vec<u8>),
    /// A bus id of the length held here does not fit its buffer.
    BusIdTooLong(usize),
    /// The reply carried another operation code than the one expected.
    UnexpectedReply,
    /// The remote reported a status other than success.
    RemoteStatus(Status),
    /// The bytes end before the message does.
    Truncated,
    /// A header carries a status number that stands for no status.
    UnknownStatus(u32),
}

/// Header that precedes every request and reply.
#[derive(Debug, Clone, Copy, PartialEq, Eq, Structural)]
pub struct OpCommon {
    pub version: u16,
    pub code: u16,
    pub status: Status,
}

/// What a received header asks the caller to act on, given the code expected.
pub open spec fn validate_spec(h: OpCommon, code: u16) -> Result<Status, Error> {
    if h.version != VERSION {
        Err(Error::VersionMismatch(h.version))
    } else if code != OP_UNSPEC && code != h.code {
        Ok(Status::Unexpected)
    } else {
        Ok(h.status)
    }
}

/// The bytes of a header.
pub open spec fn enc_common(h: OpCommon) -> Seq<u8> {
    be16(h.version) + be16(h.code) + be32(status_code(h.status))
}

/// The header at the start of `s`, if its status number is known.
pub open spec fn dec_common(s: Seq<u8>) -> Option<OpCommon>
    recommends
        s.len() >= OP_COMMON_LEN,
{
    match status_of(dec32(s, 4)) {
        Some(st) => Some(OpCommon { version: dec16(s, 0), code: dec16(s, 2), status: st }),
        None => None,
    }
}

impl OpCommon {
    /// Checks the version of a received header and, unless `code` is
    /// `OP_UNSPEC`, its operation code. A code other than the one expected
    /// gives `Status::Unexpected`, whatever status the header claims.
    pub fn validate(&self, code: u16) -> (r: Result<Status, Error>)
        ensures
            r == validate_spec(*self, code),
            self.version != VERSION ==> r == Err::<Status, Error>(
                Error::VersionMismatch(self.version),
            ),
            self.version == VERSION && code == OP_UNSPEC ==> r == Ok::<Status, Error>(
                self.status,
            ),
            self.version == VERSION && code != OP_UNSPEC && code != self.code ==> r == Ok::<
                Status,
                Error,
            >(Status::Unexpected),
    {
        if self.version != VERSION {
            Err(Error::VersionMismatch(self.version))
        } else if code != OP_UNSPEC && code != self.code {
            Ok(Status::Unexpected)
        } else {
            Ok(self.status)
        }
    }

    pub fn encode(&self) -> (r: Vec<u8>)
        ensures
            r@ == enc_common(*self),
    {
        let mut out: Vec<u8> = Vec::new();
        push_be16(&mut out, self.version);
        push_be16(&mut out, self.code);
        push_be32(&mut out, self.status.code());
        assert(out@ =~= enc_common(*self));
        out
    }

    /// Reads a header from the start of `b`; bytes after it are left alone.
    pub fn decode(b: &[u8]) -> (r: Result<OpCommon, Error>)
        ensures
            b@.len() < OP_COMMON_LEN ==> r == Err::<OpCommon, Error>(Error::Truncated),
            b@.len() >= OP_COMMON_LEN ==> r == match dec_common(b@) {
                Some(h) => Ok::<OpCommon, Error>(h),
                None => Err(Error::UnknownStatus(dec32(b@, 4))),
            },
    {
        if b.len() < OP_COMMON_LEN {
            return Err(Error::Truncated);
        }
        let version = read_be16(b, 0);
        let code = read_be16(b, 2);
        let c = read_be32(b, 4);
        match Status::from_code(c) {
            Some(status) => Ok(OpCommon { version, code, status }),
            None => Err(Error::UnknownStatus(c)),
        }
    }
}

/// Decoding the bytes of a header, whatever follows them, gives the header back.
pub proof fn lemma_common_round_trip(h: OpCommon, rest: Seq<u8>)
    ensures
        dec_common(enc_common(h) + rest) == Some(h),
{
    let s = enc_common(h) + rest;
    assert(s.subrange(0, 2) =~= be16(h.version));
    assert(s.subrange(2, 4) =~= be16(h.code));
    assert(s.subrange(4, 8) =~= be32(status_code(h.status)));
    lemma_be16_round_trip(h.version, s, 0);
    lemma_be16_round_trip(h.code, s, 2);
    lemma_be32_round_trip(status_code(h.status), s, 4);
}

/// Device descriptor as an exporting host reports it.
#[derive(Debug, Clone, PartialEq, Eq)]
pub struct UsbDevice {
    /// Sysfs path on the exporting host, zero padded to `SYSFS_PATH_MAX`.
    pub path: Vec<u8>,
    /// Bus id on the exporting host, zero padded to `SYSFS_BUS_ID_SIZE`.
    pub bus_id: Vec<u8>,
    pub busnum: u32,
    pub devnum: u32,
    pub speed: u32,
    pub id_vendor: u16,
    pub id_product: u16,
    pub bcd_device: u16,
    pub b_device_class: u8,
    pub b_device_sub_class: u8,
    pub b_device_protocol: u8,
    pub b_configuration_value: u8,
    pub b_num_configurations: u8,
    pub b_num_interfaces: u8,
}

/// What a `UsbDevice` holds, as mathematical values.
pub struct UsbDeviceModel {
    pub path: Seq<u8>,
    pub bus_id: Seq<u8>,
    pub busnum: u32,
    pub devnum: u32,
    pub speed: u32,
    pub id_vendor: u16,
    pub id_product: u16,
    pub bcd_device: u16,
    pub b_device_class: u8,
    pub b_device_sub_class: u8,
    pub b_device_protocol: u8,
    pub b_configuration_value: u8,
    pub b_num_configurations: u8,
    pub b_num_interfaces: u8,
}

/// Both buffers of a device have their fixed sizes.
pub open spec fn device_wf(d: UsbDeviceModel) -> bool {
    d.path.len() == SYSFS_PATH_MAX && d.bus_id.len() == SYSFS_BUS_ID_SIZE
}

/// The bytes of a device descriptor.
pub open spec fn enc_device(d: UsbDeviceModel) -> Seq<u8> {
    d.path + d.bus_id + be32(d.busnum) + be32(d.devnum) + be32(d.speed) + be16(d.id_vendor)
        + be16(d.id_product) + be16(d.bcd_device) + seq![
        d.b_device_class,
        d.b_device_sub_class,
        d.b_device_protocol,
        d.b_configuration_value,
        d.b_num_configurations,
        d.b_num_interfaces,
    ]
}

/// The device descriptor whose bytes start at `s[i]`.
pub open spec fn dec_device(s: Seq<u8>, i: int) -> UsbDeviceModel
    recommends
        0 <= i,
        i + USB_DEVICE_LEN <= s.len(),
{
    UsbDeviceModel {
        path: s.subrange(i, i + 256),
        bus_id: s.subrange(i + 256, i + 288),
        busnum: dec32(s, i + 288),
        devnum: dec32(s, i + 292),
        speed: dec32(s, i + 296),
        id_vendor: dec16(s, i + 300),
        id_product: dec16(s, i + 302),
        bcd_device: dec16(s, i + 304),
        b_device_class: s[i + 306],
        b_device_sub_class: s[i + 307],
        b_device_protocol: s[i + 308],
        b_configuration_value: s[i + 309],
        b_num_configurations: s[i + 310],
        b_num_interfaces: s[i + 311],
    }
}

impl View for UsbDevice {
    type V = UsbDeviceModel;

    open spec fn view(&self) -> UsbDeviceModel {
        UsbDeviceModel {
            path: self.path@,
            bus_id: self.bus_id@,
            busnum: self.busnum,
            devnum: self.devnum,
            speed: self.speed,
            id_vendor: self.id_vendor,
            id_product: self.id_product,
            bcd_device: self.bcd_device,
            b_device_class: self.b_device_class,
            b_device_sub_class: self.b_device_sub_class,
            b_device_protocol: self.b_device_protocol,
            b_configuration_value: self.b_configuration_value,
            b_num_configurations: self.b_num_configurations,
            b_num_interfaces: self.b_num_interfaces,
        }
    }
}

/// Reads the device descriptor whose bytes start at `b[i]`.
pub(crate) fn read_device(b: &[u8], i: usize) -> (r: UsbDevice)
    requires
        i + USB_DEVICE_LEN <= b@.len(),
    ensures
        r@ == dec_device(b@, i as int),
        device_wf(r@),
{
    let len = b.len();
    assert(i + USB_DEVICE_LEN <= len);
    UsbDevice {
        path: read_bytes(b, i, SYSFS_PATH_MAX),
        bus_id: read_bytes(b, i + 256, SYSFS_BUS_ID_SIZE),
        busnum: read_be32(b, i + 288),
        devnum: read_be32(b, i + 292),
        speed: read_be32(b, i + 296),
        id_vendor: read_be16(b, i + 300),
        id_product: read_be16(b, i + 302),
        bcd_device: read_be16(b, i + 304),
        b_device_class: b[i + 306],
        b_device_sub_class: b[i + 307],
        b_device_protocol: b[i + 308],
        b_configuration_value: b[i + 309],
        b_num_configurations: b[i + 310],
        b_num_interfaces: b[i + 311],
    }
}

impl UsbDevice {
    /// Both buffers have their fixed sizes.
    pub fn is_well_formed(&self) -> (r: bool)
        ensures
            r == device_wf(self@),
    {
        self.path.len() == SYSFS_PATH_MAX && self.bus_id.len() == SYSFS_BUS_ID_SIZE
    }

    pub fn encode(&self) -> (r: Vec<u8>)
        requires
            device_wf(self@),
        ensures
            r@ == enc_device(self@),
    {
        let mut out: Vec<u8> = Vec::with_capacity(USB_DEVICE_LEN);
        push_bytes(&mut out, self.path.as_slice());
        push_bytes(&mut out, self.bus_id.as_slice());
        push_be32(&mut out, self.busnum);
        push_be32(&mut out, self.devnum);
        push_be32(&mut out, self.speed);
        push_be16(&mut out, self.id_vendor);
        push_be16(&mut out, self.id_product);
        push_be16(&mut out, self.bcd_device);
        out.push(self.b_device_class);
        out.push(self.b_device_sub_class);
        out.push(self.b_device_protocol);
        out.push(self.b_configuration_value);
        out.push(self.b_num_configurations);
        out.push(self.b_num_interfaces);
        assert(out@ =~= enc_device(self@));
        out
    }

    /// Reads a device descriptor from the start of `b`; bytes after it are
    /// left alone.
    pub fn decode(b: &[u8]) -> (r: Result<UsbDevice, Error>)
        ensures
            b@.len() < USB_DEVICE_LEN <==> r is Err,
            r is Err ==> r == Err::<UsbDevice, Error>(Error::Truncated),
            r matches Ok(d) ==> d@ == dec_device(b@, 0) && device_wf(d@),
    {
        if b.len() < USB_DEVICE_LEN {
            Err(Error::Truncated)
        } else {
            Ok(read_device(b, 0))
        }
    }
}

/// Decoding the bytes of a well-formed device descriptor, whatever follows
/// them, gives the descriptor back.
pub proof fn lemma_device_round_trip(d: UsbDeviceModel, rest: Seq<u8>)
    requires
        device_wf(d),
    ensures
        dec_device(enc_device(d) + rest, 0) == d,
{
    let s = enc_device(d) + rest;
    assert(s.subrange(0, 256) =~= d.path);
    assert(s.subrange(256, 288) =~= d.bus_id);
    assert(s.subrange(288, 292) =~= be32(d.busnum));
    assert(s.subrange(292, 296) =~= be32(d.devnum));
    assert(s.subrange(296, 300) =~= be32(d.speed));
    assert(s.subrange(300, 302) =~= be16(d.id_vendor));
    assert(s.subrange(302, 304) =~= be16(d.id_product));
    assert(s.subrange(304, 306) =~= be16(d.bcd_device));
    lemma_be32_round_trip(d.busnum, s, 288);
    lemma_be32_round_trip(d.devnum, s, 292);
    lemma_be32_round_trip(d.speed, s, 296);
    lemma_be16_round_trip(d.id_vendor, s, 300);
    lemma_be16_round_trip(d.id_product, s, 302);
    lemma_be16_round_trip(d.bcd_device, s, 304);
}

/// Request to import the device with the given bus id.
#[derive(Debug, Clone, PartialEq, Eq)]
pub struct OpImportRequest {
    /// The bus id, zero padded to `SYSFS_BUS_ID_SIZE` bytes.
    pub bus_id: Vec<u8>,
}

/// `id` followed by zeros up to the size of a bus id buffer.
pub open spec fn padded_bus_id(id: Seq<u8>) -> Seq<u8> {
    id + Seq::new((SYSFS_BUS_ID_SIZE - id.len()) as nat, |i: int| 0u8)
}

/// The bytes of a bus id buffer.
pub open spec fn enc_import_request(bus_id: Seq<u8>) -> Seq<u8> {
    bus_id
}

/// The bus id buffer at the start of `s`.
pub open spec fn dec_import_request(s: Seq<u8>) -> Seq<u8>
    recommends
        s.len() >= SYSFS_BUS_ID_SIZE,
{
    s.subrange(0, SYSFS_BUS_ID_SIZE as int)
}

impl OpImportRequest {
    /// Copies `bus_id` into a zero-padded buffer. The buffer must keep a
    /// terminating zero, so a bus id of `SYSFS_BUS_ID_SIZE` bytes or more is
    /// refused.
    pub fn new(bus_id: &[u8]) -> (r: Result<OpImportRequest, Error>)
        ensures
            r is Ok <==> bus_id@.len() < SYSFS_BUS_ID_SIZE,
            r matches Ok(q) ==> q.bus_id@ == padded_bus_id(bus_id@),
            r is Err ==> r == Err::<OpImportRequest, Error>(Error::BusIdTooLong(bus_id@.len() as usize)),
    {
        if bus_id.len() >= SYSFS_BUS_ID_SIZE {
            return Err(Error::BusIdTooLong(bus_id.len()));
        }
        let mut buf: Vec<u8> = Vec::with_capacity(SYSFS_BUS_ID_SIZE);
        push_bytes(&mut buf, bus_id);
        while buf.len() < SYSFS_BUS_ID_SIZE
            invariant
                bus_id@.len() <= buf@.len() <= SYSFS_BUS_ID_SIZE,
                buf@.subrange(0, bus_id@.len() as int) == bus_id@,
                forall|k: int| bus_id@.len() <= k < buf@.len() ==> buf@[k] == 0,
            decreases SYSFS_BUS_ID_SIZE - buf@.len(),
        {
            buf.push(0);
        }
        assert(buf@ =~= padded_bus_id(bus_id@));
        Ok(OpImportRequest { bus_id: buf })
    }

    pub fn encode(&self) -> (r: Vec<u8>)
        requires
            self.bus_id@.len() == SYSFS_BUS_ID_SIZE,
        ensures
            r@ == enc_import_request(self.bus_id@),
    {
        let mut out: Vec<u8> = Vec::with_capacity(SYSFS_BUS_ID_SIZE);
        push_bytes(&mut out, self.bus_id.as_slice());
        assert(out@ =~= self.bus_id@);
        out
    }

    /// Reads a bus id buffer from the start of `b`; bytes after it are left
    /// alone.
    pub fn decode(b: &[u8]) -> (r: Result<OpImportRequest, Error>)
        ensures
            b@.len() < SYSFS_BUS_ID_SIZE <==> r is Err,
            r is Err ==> r == Err::<OpImportRequest, Error>(Error::Truncated),
            r matches Ok(q) ==> q.bus_id@ == dec_import_request(b@),
    {
        if b.len() < SYSFS_BUS_ID_SIZE {
            Err(Error::Truncated)
        } else {
            Ok(OpImportRequest { bus_id: read_bytes(b, 0, SYSFS_BUS_ID_SIZE) })
        }
    }
}

/// Decoding the bytes of a bus id buffer, whatever follows them, gives the
/// buffer back.
pub proof fn lemma_import_request_round_trip(bus_id: Seq<u8>, rest: Seq<u8>)
    requires
        bus_id.len() == SYSFS_BUS_ID_SIZE,
    ensures
        dec_import_request(enc_import_request(bus_id) + rest) == bus_id,
{
    assert(dec_import_request(enc_import_request(bus_id) + rest) =~= bus_id);
}

/// Reply to an import request: the device that was imported.
#[derive(Debug, Clone, PartialEq, Eq)]
pub struct OpImportReply {
    pub udev: UsbDevice,
}

impl OpImportReply {
    pub fn encode(&self) -> (r: Vec<u8>)
        requires
            device_wf(self.udev@),
        ensures
            r@ == enc_device(self.udev@),
    {
        self.udev.encode()
    }

    /// Reads an import reply from the start of `b`; bytes after it are left
    /// alone.
    pub fn decode(b: &[u8]) -> (r: Result<OpImportReply, Error>)
        ensures
            b@.len() < USB_DEVICE_LEN <==> r is Err,
            r is Err ==> r == Err::<OpImportReply, Error>(Error::Truncated),
            r matches Ok(q) ==> q.udev@ == dec_device(b@, 0) && device_wf(q.udev@),
    {
        match UsbDevice::decode(b) {
            Ok(udev) => Ok(OpImportReply { udev }),
            Err(e) => Err(e),
        }
    }
}

/// Decoding the bytes of an import reply, whatever follows them, gives the
/// reply back: its bytes are those of its well-formed device.
pub proof fn lemma_import_reply_round_trip(r: OpImportReply, rest: Seq<u8>)
    requires
        device_wf(r.udev@),
    ensures
        dec_device(enc_device(r.udev@) + rest, 0) == r.udev@,
{
    lemma_device_round_trip(r.udev@, rest);
}

/// Head of the reply to a devlist request: how many devices follow.
#[derive(Debug, Clone, Copy, PartialEq, Eq, Structural)]
pub struct OpDevlistReply {
    pub ndev: u32,
}

impl OpDevlistReply {
    pub fn encode(&self) -> (r: Vec<u8>)
        ensures
            r@ == be32(self.ndev),
    {
        let mut out: Vec<u8> = Vec::with_capacity(OP_DEVLIST_REPLY_LEN);
        push_be32(&mut out, self.ndev);
        out
    }

    /// Reads a devlist reply head from the start of `b`; the device
    /// descriptors after it are left alone.
    pub fn decode(b: &[u8]) -> (r: Result<OpDevlistReply, Error>)
        ensures
            b@.len() < OP_DEVLIST_REPLY_LEN ==> r == Err::<OpDevlistReply, Error>(
                Error::Truncated,
            ),
            b@.len() >= OP_DEVLIST_REPLY_LEN ==> r == Ok::<OpDevlistReply, Error>(
                OpDevlistReply { ndev: dec32(b@, 0) },
            ),
    {
        if b.len() < OP_DEVLIST_REPLY_LEN {
            Err(Error::Truncated)
        } else {
            Ok(OpDevlistReply { ndev: read_be32(b, 0) })
        }
    }
}

/// Decoding the bytes of a devlist reply head, whatever follows them, gives
/// the head back.
pub proof fn lemma_devlist_reply_round_trip(r: OpDevlistReply, rest: Seq<u8>)
    ensures
        (OpDevlistReply { ndev: dec32(be32(r.ndev) + rest, 0) }) == r,
{
    let s = be32(r.ndev) + rest;
    assert(s.subrange(0, 4) =~= be32(r.ndev));
    lemma_be32_round_trip(r.ndev, s, 0);
}

/// What a reply header means for the exchange that expects `code`: go on,
/// or stop with an error.
pub open spec fn reply_outcome(h: OpCommon, code: u16) -> Result<(), Error> {
    match validate_spec(h, code) {
        Err(e) => Err(e),
        Ok(Status::Success) => Ok(()),
        Ok(Status::Unexpected) => Err(Error::UnexpectedReply),
        Ok(s) => Err(Error::RemoteStatus(s)),
    }
}

/// Validates a reply header against `code` and asks for a success: a
/// version mismatch is passed on, an unexpected code or status becomes
/// `UnexpectedReply`, any other failure the remote reports becomes
/// `RemoteStatus`.
pub fn expect_success(h: &OpCommon, code: u16) -> (r: Result<(), Error>)
    ensures
        r == reply_outcome(*h, code),
{
    match h.validate(code) {
        Err(e) => Err(e),
        Ok(Status::Success) => Ok(()),
        Ok(Status::Unexpected) => Err(Error::UnexpectedReply),
        Ok(s) => Err(Error::RemoteStatus(s)),
    }
}

/// What a received reply header means for the exchange that expects `code`.
pub open spec fn reply_header_outcome(s: Seq<u8>, code: u16) -> Result<(), Error> {
    if s.len() < OP_COMMON_LEN {
        Err(Error::Truncated)
    } else {
        match dec_common(s) {
            Some(h) => reply_outcome(h, code),
            None => Err(Error::UnknownStatus(dec32(s, 4))),
        }
    }
}

/// Decodes the reply header at the start of `b` and checks it with
/// `expect_success`.
pub fn check_reply_header(b: &[u8], code: u16) -> (r: Result<(), Error>)
    ensures
        r == reply_header_outcome(b@, code),
{
    match OpCommon::decode(b) {
        Ok(h) => expect_success(&h, code),
        Err(e) => Err(e),
    }
}

/// Index of the first zero byte of `s` from `i` on; the length of `s` if
/// there is none.
pub open spec fn text_end(s: Seq<u8>, i: int) -> int
    decreases s.len() - i,
{
    if i >= s.len() {
        s.len() as int
    } else if s[i] == 0 {
        i
    } else {
        text_end(s, i + 1)
    }
}

/// The bytes of a zero-padded buffer before its padding.
pub open spec fn unpadded(s: Seq<u8>) -> Seq<u8> {
    s.subrange(0, text_end(s, 0))
}

/// Copies the bytes of `b` that come before its first zero byte.
pub fn unpad(b: &[u8]) -> (r: Vec<u8>)
    ensures
        r@ == unpadded(b@),
{
    let len = b.len();
    let mut i: usize = 0;
    while i < len && b[i] != 0
        invariant
            len == b@.len(),
            0 <= i <= len,
            text_end(b@, 0) == text_end(b@, i as int),
        decreases len - i,
    {
        i += 1;
    }
    read_bytes(b, 0, i)
}

/// Whether `a` and `b` hold the same bytes.
pub fn same_bytes(a: &[u8], b: &[u8]) -> (r: bool)
    ensures
        r == (a@ == b@),
{
    if a.len() != b.len() {
        return false;
    }
    let mut i: usize = 0;
    while i < a.len()
        invariant
            a@.len() == b@.len(),
            0 <= i <= a@.len(),
            forall|k: int| 0 <= k < i ==> a@[k] == b@[k],
        decreases a@.len() - i,
    {
        if a[i] != b[i] {
            return false;
        }
        i += 1;
    }
    assert(a@ =~= b@);
    true
}

} // verus!
