//! The import handshake: what is sent, and how each reply is judged before
//! a device is handed to the driver.

use vstd::prelude::*;

use crate::net::{
    check_reply_header, dec_device, device_wf, enc_common, padded_bus_id, reply_header_outcome,
    same_bytes, unpad, unpadded, Error, OpCommon, OpImportReply, OpImportRequest, Status,
    SYSFS_BUS_ID_SIZE, USB_DEVICE_LEN, VERSION,
};
use crate::protocol::{OP_REP_IMPORT, OP_REQ_IMPORT};
use crate::codec::push_bytes;

verus! {

/// The header that opens an import request.
pub open spec fn import_header() -> OpCommon {
    OpCommon { version: VERSION, code: OP_REQ_IMPORT, status: Status::Success }
}

/// The bytes of a whole import request for `bus_id`: the header, then the
/// zero-padded bus id. A bus id that does not fit its buffer is refused
/// here, before anything is sent.
pub fn import_request_bytes(bus_id: &[u8]) -> (r: Result<Vec<u8>, Error>)
    ensures
        r is Ok <==> bus_id@.len() < SYSFS_BUS_ID_SIZE,
        r matches Ok(bytes) ==> bytes@ == enc_common(import_header()) + padded_bus_id(bus_id@),
        r is Err ==> r == Err::<Vec<u8>, Error>(Error::BusIdTooLong(bus_id@.len() as usize)),
{
    let request = match OpImportRequest::new(bus_id) {
        Ok(q) => q,
        Err(e) => return Err(e),
    };
    let header = OpCommon { version: VERSION, code: OP_REQ_IMPORT, status: Status::Success };
    let mut bytes = header.encode();
    push_bytes(&mut bytes, request.bus_id.as_slice());
    Ok(bytes)
}

/// Judges the reply header of an import: `Ok` only for the current
/// version, the import reply code and a success status.
pub fn check_import_header(b: &[u8]) -> (r: Result<(), Error>)
    ensures
        r == reply_header_outcome(b@, OP_REP_IMPORT),
{
    check_reply_header(b, OP_REP_IMPORT)
}

/// Reads the body of an import reply and accepts it only if the device it
/// names carries the bus id that was asked for, padding aside. Only a
/// device accepted here may be handed to the driver.
pub fn accept_import_reply(requested: &[u8], b: &[u8]) -> (r: Result<OpImportReply, Error>)
    ensures
        b@.len() < USB_DEVICE_LEN ==> r == Err::<OpImportReply, Error>(Error::Truncated),
        b@.len() >= USB_DEVICE_LEN && unpadded(dec_device(b@, 0).bus_id) == requested@ ==> (
        r matches Ok(q) && q.udev@ == dec_device(b@, 0) && device_wf(q.udev@)),
        b@.len() >= USB_DEVICE_LEN && unpadded(dec_device(b@, 0).bus_id) != requested@ ==> (
        r matches Err(Error::BusIdMismatch(got)) && got@ == unpadded(dec_device(b@, 0).bus_id)),
{
    let reply = match OpImportReply::decode(b) {
        Ok(q) => q,
        Err(e) => return Err(e),
    };
    let got = unpad(reply.udev.bus_id.as_slice());
    if same_bytes(got.as_slice(), requested) {
        Ok(reply)
    } else {
        Err(Error::BusIdMismatch(got))
    }
}

} // verus!
