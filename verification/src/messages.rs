//! Device-to-host interrupt-IN message formats.
//!
//! Four messages exist: the 2-byte connection status, the fixed 29-byte
//! controller-info packet of the handshake, the 29-byte gamepad-data frame
//! that embeds the 12-byte wire frame at bytes 6..=17, and the 29-byte idle
//! keep-alive. Their bytes are part of the wire contract with the host
//! driver and must be reproduced exactly.

use vstd::prelude::*;
use vstd::slice::slice_to_vec;

use crate::codec::ControllerData;

verus! {

/// Status frame: `[0x08, 0x80]` for connected, `[0x08, 0x08]` for
/// disconnected.
pub open spec fn connection_status_bytes(available: bool) -> Seq<u8> {
    if available {
        seq![0x08u8, 0x80u8]
    } else {
        seq![0x08u8, 0x08u8]
    }
}

/// The fixed controller-info packet the host needs before it accepts
/// gamepad data.
pub open spec fn controller_info_bytes() -> Seq<u8> {
    seq![
        0x00u8, 0x0F, 0x00, 0xF0, 0xF0, 0xCC, 0xFF, 0xFF, 0xFF, 0xFF, 0x58, 0x91, 0xB3, 0xF0,
        0x00, 0x09, 0x13, 0xA3, 0x20, 0x1D, 0x30, 0x03, 0x40, 0x01, 0x50, 0x01, 0xFF, 0xFF, 0xFF,
    ]
}

/// The gamepad-data frame: type bytes, length byte 0x13, then the 12-byte
/// wire frame, then padding.
pub open spec fn gamepad_data_bytes(frame: Seq<u8>) -> Seq<u8> {
    seq![0x00u8, 0x01, 0x00, 0xF0, 0x00, 0x13] + frame + seq![
        0x00u8, 0x00, 0x00, 0x00, 0x00, 0x00, 0x00, 0x00, 0x00, 0x00, 0x00,
    ]
}

/// The idle keep-alive frame: all zero except the marker at byte 3.
pub open spec fn idle_bytes() -> Seq<u8> {
    Seq::new(29, |i: int| if i == 3 { 0xF0u8 } else { 0x00u8 })
}

/// One message bound for the interrupt-IN endpoint.
#[derive(Debug, PartialEq, Eq)]
pub enum InMessage {
    /// Connection status; the flag says whether a controller is available.
    ConnectionStatus(bool),
    /// The fixed handshake packet.
    ControllerInfo,
    /// A fresh gamepad frame.
    GamepadData(ControllerData),
    /// The keep-alive sent when input stays quiet.
    Idle,
}

impl InMessage {
    /// The exact bytes this message puts on the wire.
    pub open spec fn bytes_spec(&self) -> Seq<u8> {
        match *self {
            InMessage::ConnectionStatus(available) => connection_status_bytes(available),
            InMessage::ControllerInfo => controller_info_bytes(),
            InMessage::GamepadData(frame) => gamepad_data_bytes(frame@),
            InMessage::Idle => idle_bytes(),
        }
    }

    /// Renders the message for the endpoint, byte for byte.
    pub fn to_bytes(&self) -> (r: Vec<u8>)
        ensures
            r@ == self.bytes_spec(),
    {
        match self {
            InMessage::ConnectionStatus(available) => {
                let arr: [u8; 2] = [0x08, if *available { 0x80 } else { 0x08 }];
                let r = slice_to_vec(arr.as_slice());
                proof {
                    assert(r@ =~= self.bytes_spec());
                }
                r
            },
            InMessage::ControllerInfo => {
                let arr: [u8; 29] = [
                    0x00, 0x0F, 0x00, 0xF0, 0xF0, 0xCC, 0xFF, 0xFF, 0xFF, 0xFF, 0x58, 0x91, 0xB3,
                    0xF0, 0x00, 0x09, 0x13, 0xA3, 0x20, 0x1D, 0x30, 0x03, 0x40, 0x01, 0x50, 0x01,
                    0xFF, 0xFF, 0xFF,
                ];
                let r = slice_to_vec(arr.as_slice());
                proof {
                    assert(r@ =~= self.bytes_spec());
                }
                r
            },
            InMessage::GamepadData(frame) => {
                let b = &frame.0;
                let arr: [u8; 29] = [
                    0x00, 0x01, 0x00, 0xF0, 0x00, 0x13, b[0], b[1], b[2], b[3], b[4], b[5], b[6],
                    b[7], b[8], b[9], b[10], b[11], 0x00, 0x00, 0x00, 0x00, 0x00, 0x00, 0x00,
                    0x00, 0x00, 0x00, 0x00,
                ];
                let r = slice_to_vec(arr.as_slice());
                proof {
                    assert(r@ =~= self.bytes_spec());
                }
                r
            },
            InMessage::Idle => {
                let mut arr: [u8; 29] = [0; 29];
                arr[3] = 0xF0;
                let r = slice_to_vec(arr.as_slice());
                proof {
                    assert(r@ =~= self.bytes_spec());
                }
                r
            },
        }
    }
}

} // verus!
