//! Classification of raw host-to-device interrupt-OUT payloads.
//!
//! Only payloads of exactly 12 bytes are pattern-matched, by literal byte
//! prefix; the four prefixes are mutually exclusive, and everything else is
//! left unrecognized.

use vstd::prelude::*;
use vstd::slice::slice_to_vec;

verus! {

/// Semantic command carried by one interrupt-OUT transfer.
#[derive(Debug, PartialEq, Eq)]
pub enum OutData {
    /// The host asks whether a controller is connected.
    ConnectionStatus,
    /// The host acknowledges a handshake step.
    Ack,
    /// The host sets the LED ring pattern.
    Led(u8),
    /// The host requests vibration: strong motor, then weak motor.
    Rumble(u8, u8),
    /// Anything that matches no known pattern, kept verbatim.
    Unknown(Vec<u8>),
}

/// Prefix `[0x08, 0x00, 0x0F, 0xC0]`: connection status query.
pub open spec fn matches_connection_status(raw: Seq<u8>) -> bool {
    raw.len() == 12 && raw[0] == 0x08 && raw[1] == 0x00 && raw[2] == 0x0F && raw[3] == 0xC0
}

/// Prefix `[0x00, 0x00, 0x00, 0x40]`: handshake acknowledgment.
pub open spec fn matches_ack(raw: Seq<u8>) -> bool {
    raw.len() == 12 && raw[0] == 0x00 && raw[1] == 0x00 && raw[2] == 0x00 && raw[3] == 0x40
}

/// Prefix `[0x00, 0x00, 0x08, L]` with the 0x40 marker set in `L`: LED data.
pub open spec fn matches_led(raw: Seq<u8>) -> bool {
    raw.len() == 12 && raw[0] == 0x00 && raw[1] == 0x00 && raw[2] == 0x08 && raw[3] & 0x40 == 0x40
}

/// Prefix `[0x00, 0x01, 0x0F, 0xC0, 0x00]`: rumble intensities follow.
pub open spec fn matches_rumble(raw: Seq<u8>) -> bool {
    raw.len() == 12 && raw[0] == 0x00 && raw[1] == 0x01 && raw[2] == 0x0F && raw[3] == 0xC0
        && raw[4] == 0x00
}

/// True when the payload matches one of the four known command patterns.
pub open spec fn matches_known(raw: Seq<u8>) -> bool {
    matches_connection_status(raw) || matches_ack(raw) || matches_led(raw) || matches_rumble(raw)
}

impl OutData {
    /// Classifies a raw OUT payload. Total: every input yields exactly one
    /// command, and anything that is not exactly 12 bytes or matches no
    /// pattern comes back unrecognized with the raw bytes kept.
    pub fn from_raw(out_data: &[u8]) -> (r: OutData)
        ensures
            (r is ConnectionStatus) <==> matches_connection_status(out_data@),
            (r is Ack) <==> matches_ack(out_data@),
            (r is Led) <==> matches_led(out_data@),
            r matches OutData::Led(led) ==> led == out_data@[3] & 0x0F,
            (r is Rumble) <==> matches_rumble(out_data@),
            r matches OutData::Rumble(strong, weak) ==> strong == out_data@[5] && weak
                == out_data@[6],
            (r is Unknown) <==> !matches_known(out_data@),
            r matches OutData::Unknown(raw) ==> raw@ == out_data@,
    {
        if out_data.len() != 12 {
            return OutData::Unknown(slice_to_vec(out_data));
        }
        let b0 = out_data[0];
        let b1 = out_data[1];
        let b2 = out_data[2];
        let b3 = out_data[3];
        if b0 == 0x08 && b1 == 0x00 && b2 == 0x0F && b3 == 0xC0 {
            OutData::ConnectionStatus
        } else if b0 == 0x00 && b1 == 0x00 && b2 == 0x00 && b3 == 0x40 {
            OutData::Ack
        } else if b0 == 0x00 && b1 == 0x00 && b2 == 0x08 && b3 & 0x40 == 0x40 {
            OutData::Led(b3 & 0x0F)
        } else if b0 == 0x00 && b1 == 0x01 && b2 == 0x0F && b3 == 0xC0 && out_data[4] == 0x00 {
            OutData::Rumble(out_data[5], out_data[6])
        } else {
            OutData::Unknown(slice_to_vec(out_data))
        }
    }
}

} // verus!
