//! The devlist exchange: the request, and the reading of the list of
//! devices a remote host exports.

use vstd::prelude::*;

use crate::codec::{dec32, read_be32};
use crate::net::{
    check_reply_header, dec_device, enc_common, read_device, reply_header_outcome, Error,
    OpCommon, Status, UsbDevice, UsbDeviceModel, OP_DEVLIST_REPLY_LEN, USB_DEVICE_LEN,
    USB_INTERFACE_LEN, VERSION,
};
use crate::protocol::{OP_REP_DEVLIST, OP_REQ_DEVLIST};

verus! {

/// The header of a devlist request.
pub open spec fn devlist_header() -> OpCommon {
    OpCommon { version: VERSION, code: OP_REQ_DEVLIST, status: Status::Success }
}

/// The bytes of a devlist request.
pub fn devlist_request_bytes() -> (r: Vec<u8>)
    ensures
        r@ == enc_common(devlist_header()),
{
    let header = OpCommon { version: VERSION, code: OP_REQ_DEVLIST, status: Status::Success };
    header.encode()
}

/// Judges the reply header of a devlist: `Ok` only for the current version,
/// the devlist reply code and a success status.
pub fn check_devlist_header(b: &[u8]) -> (r: Result<(), Error>)
    ensures
        r == reply_header_outcome(b@, OP_REP_DEVLIST),
{
    check_reply_header(b, OP_REP_DEVLIST)
}

/// Where the entry that starts at `s[off]` ends: a device descriptor, then
/// one interface record for each of its interfaces.
pub open spec fn entry_end(s: Seq<u8>, off: int) -> int {
    off + USB_DEVICE_LEN + USB_INTERFACE_LEN * s[off + USB_DEVICE_LEN - 1]
}

/// The `n` devices whose entries start at `s[off]`, and where the last one
/// ends; `None` if the bytes end first.
pub open spec fn entries(s: Seq<u8>, off: int, n: nat) -> Option<(Seq<UsbDeviceModel>, int)>
    decreases n,
{
    if n == 0 {
        Some((Seq::empty(), off))
    } else if off + USB_DEVICE_LEN > s.len() || entry_end(s, off) > s.len() {
        None
    } else {
        match entries(s, entry_end(s, off), (n - 1) as nat) {
            Some((ds, end)) => Some((seq![dec_device(s, off)] + ds, end)),
            None => None,
        }
    }
}

/// The devices that a devlist reply body announces, and how many bytes of
/// `s` it takes; `None` if the bytes end first.
pub open spec fn devlist(s: Seq<u8>) -> Option<(Seq<UsbDeviceModel>, int)> {
    if s.len() < OP_DEVLIST_REPLY_LEN {
        None
    } else {
        entries(s, OP_DEVLIST_REPLY_LEN as int, dec32(s, 0) as nat)
    }
}

/// The models of a list of devices.
pub open spec fn models(v: Seq<UsbDevice>) -> Seq<UsbDeviceModel> {
    v.map_values(|d: UsbDevice| d@)
}

/// `found` put in front of what a later part of the list gives.
pub open spec fn after(found: Seq<UsbDeviceModel>, rest: Option<(Seq<UsbDeviceModel>, int)>) -> Option<
    (Seq<UsbDeviceModel>, int),
> {
    match rest {
        Some((ds, end)) => Some((found + ds, end)),
        None => None,
    }
}

/// Reads the body of a devlist reply, the part after its header: the
/// number of devices, then each device with its interface records, which
/// are skipped. Returns the devices and the number of bytes read; bytes
/// after the last entry are left alone.
pub fn parse_devlist(b: &[u8]) -> (r: Result<(Vec<UsbDevice>, usize), Error>)
    ensures
        devlist(b@) is None <==> r is Err,
        r is Err ==> r == Err::<(Vec<UsbDevice>, usize), Error>(Error::Truncated),
        r matches Ok((devs, used)) ==> devlist(b@) == Some((models(devs@), used as int)),
{
    let len = b.len();
    if len < OP_DEVLIST_REPLY_LEN {
        return Err(Error::Truncated);
    }
    let ndev = read_be32(b, 0);
    let mut devs: Vec<UsbDevice> = Vec::new();
    let mut off: usize = OP_DEVLIST_REPLY_LEN;
    let mut k: u32 = 0;
    while k < ndev
        invariant
            len == b@.len(),
            ndev == dec32(b@, 0),
            k <= ndev,
            off <= len,
            devlist(b@) == after(models(devs@), entries(b@, off as int, (ndev - k) as nat)),
        decreases ndev - k,
    {
        if len - off < USB_DEVICE_LEN {
            return Err(Error::Truncated);
        }
        let nintf = b[off + USB_DEVICE_LEN - 1] as usize;
        if len - off - USB_DEVICE_LEN < USB_INTERFACE_LEN * nintf {
            return Err(Error::Truncated);
        }
        let d = read_device(b, off);
        let ghost before = devs@;
        devs.push(d);
        proof {
            let rest = entries(b@, entry_end(b@, off as int), (ndev - k - 1) as nat);
            assert(models(devs@) =~= models(before) + seq![d@]);
            match rest {
                Some((ds, end)) => {
                    assert(models(before) + (seq![d@] + ds) =~= models(devs@) + ds);
                },
                None => {},
            }
        }
        off = off + USB_DEVICE_LEN + USB_INTERFACE_LEN * nintf;
        k += 1;
    }
    assert(models(devs@) + Seq::<UsbDeviceModel>::empty() =~= models(devs@));
    Ok((devs, off))
}

} // verus!
