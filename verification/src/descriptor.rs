//! Vendor class-specific descriptor payloads and endpoint parameters.
//!
//! The host driver recognizes the device only when these bytes appear
//! verbatim in the configuration descriptor, so they are load-bearing and
//! reproduced bit for bit. Registering the interfaces and endpoints with the
//! USB stack happens outside the library; it passes the endpoint indices in
//! and sends these payloads as descriptors of type `XINPUT_DESC_TYPE`.

use vstd::prelude::*;
use vstd::slice::slice_to_vec;

verus! {

/// Vendor-specific interface class.
pub const CLASS_VENDOR: u8 = 0xFF;

/// Interface subclass the host driver looks for.
pub const SUBCLASS_XINPUT: u8 = 0x5D;

/// Protocol of the primary (controller data) function.
pub const PROTOCOL_WIRELESS: u8 = 0x81;

/// Protocol of the secondary (headset polling) function.
pub const PROTOCOL_WIRELESS_UNKNOWN: u8 = 0x82;

/// Descriptor type of the vendor class-specific block.
pub const XINPUT_DESC_TYPE: u8 = 0x22;

/// Max packet size of every interrupt endpoint, in bytes.
pub const EP_MAX_PACKET: u16 = 32;

/// Poll interval of the primary interrupt-IN endpoint.
pub const EP_IN_POLL_PRIMARY: u8 = 1;

/// Poll interval of the primary interrupt-OUT endpoint.
pub const EP_OUT_POLL_PRIMARY: u8 = 8;

/// Poll interval of the secondary interrupt-IN endpoint.
pub const EP_IN_POLL_SECONDARY: u8 = 2;

/// Poll interval of the secondary interrupt-OUT endpoint.
pub const EP_OUT_POLL_SECONDARY: u8 = 4;

/// Payload of the primary function's class descriptor: two endpoint
/// information triples (IN advertised capacity 0x1D, used 0x17; OUT capacity
/// 0x0C, used 0x0C) with the fixed marker bytes around them.
pub open spec fn wireless_descriptor_bytes(ep_in_index: u8, ep_out_index: u8) -> Seq<u8> {
    seq![
        0x00u8,
        0x01,
        0x13,
        0x80 | ep_in_index,
        0x1D,
        0x00,
        0x17,
        0x01,
        0x02,
        0x08,
        0x13,
        ep_out_index,
        0x0C,
        0x00,
        0x0C,
        0x01,
        0x02,
        0x08,
    ]
}

/// Payload of the secondary function's shorter class descriptor.
pub open spec fn headset_descriptor_bytes(ep_in_index: u8, ep_out_index: u8) -> Seq<u8> {
    seq![0x00u8, 0x01, 0x01, 0x80 | ep_in_index, 0x00, 0x40, 0x01, ep_out_index, 0x20, 0x00]
}

/// Builds the primary class descriptor payload for the endpoint pair.
pub fn wireless_descriptor(ep_in_index: u8, ep_out_index: u8) -> (r: Vec<u8>)
    ensures
        r@ == wireless_descriptor_bytes(ep_in_index, ep_out_index),
{
    let arr: [u8; 18] = [
        0x00,
        0x01,
        0x13,
        0x80 | ep_in_index,
        0x1D,
        0x00,
        0x17,
        0x01,
        0x02,
        0x08,
        0x13,
        ep_out_index,
        0x0C,
        0x00,
        0x0C,
        0x01,
        0x02,
        0x08,
    ];
    let r = slice_to_vec(arr.as_slice());
    proof {
        assert(r@ =~= wireless_descriptor_bytes(ep_in_index, ep_out_index));
    }
    r
}

/// Builds the secondary class descriptor payload for the endpoint pair.
pub fn headset_descriptor(ep_in_index: u8, ep_out_index: u8) -> (r: Vec<u8>)
    ensures
        r@ == headset_descriptor_bytes(ep_in_index, ep_out_index),
{
    let arr: [u8; 10] = [
        0x00,
        0x01,
        0x01,
        0x80 | ep_in_index,
        0x00,
        0x40,
        0x01,
        ep_out_index,
        0x20,
        0x00,
    ];
    let r = slice_to_vec(arr.as_slice());
    proof {
        assert(r@ =~= headset_descriptor_bytes(ep_in_index, ep_out_index));
    }
    r
}

} // verus!
