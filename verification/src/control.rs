//! The request that opens a control transfer.

use vstd::prelude::*;

verus! {

/// The direction of a transfer, seen from the host.
#[derive(Clone, Copy, Debug, PartialEq, Eq, Structural)]
pub enum Direction {
    /// From the host to the device (OUT).
    HostToDevice,
    /// From the device to the host (IN).
    DeviceToHost,
}

/// Who defined the request.
#[derive(Clone, Copy, Debug, PartialEq, Eq, Structural)]
pub enum RequestType {
    /// Defined by the USB standard.
    Standard,
    /// Defined by a device class.
    Class,
    /// Defined by the vendor.
    Vendor,
}

/// What the request is addressed to.
#[derive(Clone, Copy, Debug, PartialEq, Eq, Structural)]
pub enum Recipient {
    /// The device as a whole.
    Device,
    /// One interface; the low byte of `index` is its number.
    Interface,
    /// One endpoint; the low byte of `index` is its address.
    Endpoint,
}

/// A decoded SETUP packet. It is built once per SETUP event and never changes.
#[derive(Clone, Copy, Debug, PartialEq, Eq, Structural)]
pub struct Request {
    /// Direction of the data stage.
    pub direction: Direction,
    /// Who defined the request.
    pub request_type: RequestType,
    /// What the request is addressed to.
    pub recipient: Recipient,
    /// The request code.
    pub request: u8,
    /// First parameter.
    pub value: u16,
    /// Second parameter.
    pub index: u16,
    /// Number of bytes that the host expects in the data stage.
    pub length: u16,
}

} // verus!
