//! The vendor control request that reports the receiver's serial number.
//!
//! The host driver issues one vendor-class control-IN request (request 1,
//! value 1, index 0) and expects a fixed 7-byte serial number back; its first
//! four bytes must match the serial bytes inside the controller-info packet.
//! The decision of whether and what to answer lives here; putting the answer
//! on the control pipe is the USB stack's job.

use vstd::prelude::*;
use vstd::slice::slice_to_vec;

verus! {

/// Answers the serial-number control request with its fixed 7 bytes.
pub struct SerialNumberHandler(pub [u8; 7]);

impl SerialNumberHandler {
    /// True for exactly the requests this handler answers: a vendor request
    /// numbered 1 with value 1, index 0 and room for the whole serial.
    pub open spec fn accepts(vendor: bool, request: u8, value: u16, index: u16, length: u16) -> bool {
        vendor && request == 1 && value == 1 && index == 0 && length >= 7
    }

    /// Decides a control-IN request: the serial bytes for the one request
    /// shape this handler owns, nothing for every other request.
    pub fn control_in(&self, vendor: bool, request: u8, value: u16, index: u16, length: u16) -> (r:
        Option<Vec<u8>>)
        ensures
            (r is Some) <==> Self::accepts(vendor, request, value, index, length),
            r matches Some(bytes) ==> bytes@ == self.0@,
    {
        if vendor && request == 1 && value == 1 && index == 0 && length >= 7 {
            Some(slice_to_vec(self.0.as_slice()))
        } else {
            None
        }
    }
}

} // verus!
