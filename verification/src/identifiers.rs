//! Identifiers of interfaces, endpoints and strings.
//!
//! They are handed out by the code that assembles a device. Here they are
//! opaque keys: a class compares them against the ones it was given and
//! nothing in this crate creates or interprets them.

use vstd::prelude::*;

verus! {

/// The number of an interface within the device's configuration.
#[derive(Clone, Copy, Debug, PartialEq, Eq, Structural)]
pub struct InterfaceNumber(pub u8);

/// The address of an endpoint.
#[derive(Clone, Copy, Debug, PartialEq, Eq, Structural)]
pub struct EndpointAddress(pub u8);

/// The index of a string descriptor.
#[derive(Clone, Copy, Debug, PartialEq, Eq, Structural)]
pub struct StringIndex(pub u8);

} // verus!
