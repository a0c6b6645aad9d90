//! The static device-path descriptor that advertises the handle as the
//! well-known initrd source.
//!
//! The descriptor is a vendor-type media device-path node carrying the
//! well-known initrd vendor identifier, followed by the canonical
//! end-of-device-path terminator.  Its 24 bytes are part of the external
//! contract: the kernel selects the handle by matching them exactly.

use vstd::prelude::*;

verus! {

/// The exact 24 bytes of the device-path descriptor: a media-type vendor
/// node (type 0x04, subtype 0x03, length 20) holding the well-known
/// vendor identifier, then the end-of-path terminator (type 0x7f,
/// subtype 0xff, length 4).
pub open spec fn descriptor_bytes() -> Seq<u8> {
    seq![
        0x04u8, 0x03, 0x14, 0x00,
        0x27, 0xe4, 0x68, 0x55, 0xfc, 0x68, 0x3d, 0x4f,
        0xac, 0x74, 0xca, 0x55, 0x52, 0x31, 0xcc, 0x68,
        0x7f, 0xff, 0x04, 0x00,
    ]
}

/// Builds the device-path descriptor that is registered on the handle.
pub fn descriptor() -> (r: Vec<u8>)
    ensures
        r@ == descriptor_bytes(),
        r@.len() == 24,
{
    let mut v: Vec<u8> = Vec::new();
    v.push(0x04);
    v.push(0x03);
    v.push(0x14);
    v.push(0x00);
    v.push(0x27);
    v.push(0xe4);
    v.push(0x68);
    v.push(0x55);
    v.push(0xfc);
    v.push(0x68);
    v.push(0x3d);
    v.push(0x4f);
    v.push(0xac);
    v.push(0x74);
    v.push(0xca);
    v.push(0x55);
    v.push(0x52);
    v.push(0x31);
    v.push(0xcc);
    v.push(0x68);
    v.push(0x7f);
    v.push(0xff);
    v.push(0x04);
    v.push(0x00);
    proof {
        assert(v@ =~= descriptor_bytes());
    }
    v
}

} // verus!
