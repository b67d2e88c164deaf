//! A plain-value picture of what a USB bus reports about its devices.
//!
//! The tree mirrors the descriptor hierarchy: a bus lists devices, a device
//! lists configurations, a configuration lists interfaces, an interface lists
//! one descriptor per alternate setting, and each of those lists endpoints.
//! A descriptor that could not be read is recorded as `None` and is simply
//! passed over by every scan.

use vstd::prelude::*;

verus! {

/// USB class code of printer peripherals.
pub const PRINTER_CLASS: u8 = 7;

/// Transfer direction of an endpoint, seen from the host.
#[derive(Clone, Copy, Debug, PartialEq, Eq, Structural)]
pub enum Direction {
    /// Device to host.
    In,
    /// Host to device.
    Out,
}

/// One endpoint of an alternate setting.
#[derive(Clone, Copy, Debug, PartialEq, Eq, Structural)]
pub struct EndpointDescriptor {
    pub address: u8,
    pub direction: Direction,
}

/// One alternate setting of an interface.
#[derive(Clone, Debug, PartialEq, Eq)]
pub struct InterfaceDescriptor {
    pub class_code: u8,
    pub interface_number: u8,
    pub setting_number: u8,
    pub endpoints: Vec<EndpointDescriptor>,
}

/// An interface: its alternate settings, in the order the device lists them.
#[derive(Clone, Debug, PartialEq, Eq)]
pub struct Interface {
    pub descriptors: Vec<InterfaceDescriptor>,
}

/// One configuration of a device.
#[derive(Clone, Debug, PartialEq, Eq)]
pub struct ConfigDescriptor {
    pub number: u8,
    pub interfaces: Vec<Interface>,
}

/// A device whose top-level descriptor could be read. `configs` has one
/// entry per configuration index; `None` marks a configuration whose
/// descriptor could not be read.
#[derive(Clone, Debug, PartialEq, Eq)]
pub struct Device {
    pub vendor_id: u16,
    pub product_id: u16,
    pub configs: Vec<Option<ConfigDescriptor>>,
}

/// `(c, i, s)` names an alternate setting of `dev`: configuration index `c`
/// is readable, and has an interface `i` with an alternate setting `s`.
pub open spec fn has_setting(dev: Device, c: int, i: int, s: int) -> bool {
    &&& 0 <= c < dev.configs@.len()
    &&& dev.configs@[c] is Some
    &&& 0 <= i < dev.configs@[c]->0.interfaces@.len()
    &&& 0 <= s < dev.configs@[c]->0.interfaces@[i].descriptors@.len()
}

/// The alternate setting at `(c, i, s)`.
pub open spec fn setting_at(dev: Device, c: int, i: int, s: int) -> InterfaceDescriptor
    recommends
        has_setting(dev, c, i, s),
{
    dev.configs@[c]->0.interfaces@[i].descriptors@[s]
}

/// `(c, i, s, e)` names an endpoint of `dev`.
pub open spec fn has_endpoint(dev: Device, c: int, i: int, s: int, e: int) -> bool {
    &&& has_setting(dev, c, i, s)
    &&& 0 <= e < setting_at(dev, c, i, s).endpoints@.len()
}

/// The endpoint at `(c, i, s, e)`.
pub open spec fn endpoint_at(dev: Device, c: int, i: int, s: int, e: int) -> EndpointDescriptor
    recommends
        has_endpoint(dev, c, i, s, e),
{
    setting_at(dev, c, i, s).endpoints@[e]
}

/// Scan order: configurations first, then interfaces, then alternate
/// settings, then endpoints. `(c1, i1, s1, e1)` is visited strictly before
/// `(c2, i2, s2, e2)`.
pub open spec fn scanned_before(
    c1: int,
    i1: int,
    s1: int,
    e1: int,
    c2: int,
    i2: int,
    s2: int,
    e2: int,
) -> bool {
    ||| c1 < c2
    ||| (c1 == c2 && i1 < i2)
    ||| (c1 == c2 && i1 == i2 && s1 < s2)
    ||| (c1 == c2 && i1 == i2 && s1 == s2 && e1 < e2)
}

} // verus!
