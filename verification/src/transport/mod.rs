//! The byte-stream transport layers: SLIP framing, frame extraction, and the
//! H5 link-layer packet format.

use vstd::prelude::*;
use crate::Error;

pub mod slip;
pub mod frame;
pub mod h5;

verus! {

/// A byte-oriented transport that the codec pipeline can sit on.
pub trait Transport {
    fn open() -> Result<(), Error>;
    fn close();
}

/// USB vendor id of the expected dongle.
pub const NORDIC_USB_VID: u16 = 0x1915;
/// USB product id of the expected dongle.
pub const NORDIC_USB_PID: u16 = 0xC00A;

/// Whether an enumerated USB serial port belongs to the expected dongle:
/// the decision behind port filtering, on the plain vendor and product ids.
pub fn is_nordic_dongle(vid: u16, pid: u16) -> (r: bool)
    ensures
        r == (vid == NORDIC_USB_VID && pid == NORDIC_USB_PID),
{
    vid == NORDIC_USB_VID && pid == NORDIC_USB_PID
}

} // verus!
