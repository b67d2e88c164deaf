//! Finding the printer on a bus and the endpoint to write to.
//!
//! Selection runs in two passes. The first picks the first device, in bus
//! order, that shows a printer-class interface in any readable
//! configuration. The second walks that device again and picks its first
//! host-to-device endpoint in scan order, remembering the configuration,
//! interface and alternate setting it was found under.

use vstd::prelude::*;
use crate::descriptor::{
    endpoint_at, has_endpoint, has_setting, scanned_before, setting_at, Device, Direction,
    PRINTER_CLASS,
};

verus! {

/// Where a writable endpoint lives on a device: everything needed to
/// configure the device for it and to address it.
#[derive(Clone, Copy, Debug, PartialEq, Eq, Structural)]
pub struct Endpoint {
    /// Value of the configuration to activate.
    pub config: u8,
    /// Number of the interface to claim.
    pub iface: u8,
    /// Alternate setting to select on that interface.
    pub setting: u8,
    /// Address of the endpoint itself.
    pub address: u8,
}

/// The endpoint at `(c, i, s, e)` exists and leads from host to device.
pub open spec fn out_at(dev: Device, c: int, i: int, s: int, e: int) -> bool {
    &&& has_endpoint(dev, c, i, s, e)
    &&& endpoint_at(dev, c, i, s, e).direction == Direction::Out
}

/// `(c, i, s, e)` is a host-to-device endpoint and no other one is scanned
/// before it.
pub open spec fn first_out_at(dev: Device, c: int, i: int, s: int, e: int) -> bool {
    &&& out_at(dev, c, i, s, e)
    &&& forall|c2: int, i2: int, s2: int, e2: int| #[trigger]
        out_at(dev, c2, i2, s2, e2) ==> !scanned_before(c2, i2, s2, e2, c, i, s, e)
}

/// The locator captured for the endpoint at `(c, i, s, e)`.
pub open spec fn locator_at(dev: Device, c: int, i: int, s: int, e: int) -> Endpoint
    recommends
        has_endpoint(dev, c, i, s, e),
{
    Endpoint {
        config: dev.configs@[c]->0.number,
        iface: setting_at(dev, c, i, s).interface_number,
        setting: setting_at(dev, c, i, s).setting_number,
        address: endpoint_at(dev, c, i, s, e).address,
    }
}

/// `found` is what endpoint selection owes for `dev`: the locator of the
/// first host-to-device endpoint together with the device's identity, or
/// nothing exactly when the device has no such endpoint.
pub open spec fn selects_write_endpoint(dev: Device, found: Option<(Endpoint, u16, u16)>) -> bool {
    match found {
        Some((endpoint, vendor_id, product_id)) => {
            &&& vendor_id == dev.vendor_id
            &&& product_id == dev.product_id
            &&& exists|c: int, i: int, s: int, e: int| #[trigger]
                first_out_at(dev, c, i, s, e) && endpoint == locator_at(dev, c, i, s, e)
        },
        None => forall|c: int, i: int, s: int, e: int| !#[trigger] out_at(dev, c, i, s, e),
    }
}

/// The alternate setting at `(c, i, s)` exists and is of the printer class.
pub open spec fn printer_at(dev: Device, c: int, i: int, s: int) -> bool {
    &&& has_setting(dev, c, i, s)
    &&& setting_at(dev, c, i, s).class_code == PRINTER_CLASS
}

/// Some alternate setting of some readable configuration of `dev` is of the
/// printer class.
pub open spec fn is_printer(dev: Device) -> bool {
    exists|c: int, i: int, s: int| #[trigger] printer_at(dev, c, i, s)
}

/// The bus entry is a readable device that is a printer.
pub open spec fn entry_is_printer(entry: Option<Device>) -> bool {
    entry is Some && is_printer(entry->0)
}

/// Entry `d` of the bus is a printer and no entry before it is.
pub open spec fn first_printer_at(bus: Seq<Option<Device>>, d: int) -> bool {
    &&& 0 <= d < bus.len()
    &&& entry_is_printer(bus[d])
    &&& forall|k: int| 0 <= k < d ==> !entry_is_printer(#[trigger] bus[k])
}

/// No entry of the bus is a printer.
pub open spec fn no_printer(bus: Seq<Option<Device>>) -> bool {
    forall|k: int| 0 <= k < bus.len() ==> !entry_is_printer(#[trigger] bus[k])
}

/// `found` is what discovery owes for `bus`: endpoint selection applied to
/// the first printer, or nothing when the bus has no printer.
pub open spec fn discovers(bus: Seq<Option<Device>>, found: Option<(Endpoint, u16, u16)>) -> bool {
    ||| (no_printer(bus) && found is None)
    ||| exists|d: int| #[trigger]
        first_printer_at(bus, d) && selects_write_endpoint(bus[d]->0, found)
}

/// Picks the first host-to-device endpoint of `device` in scan order and
/// reports its locator with the device's vendor and product identifier.
/// Unreadable configurations are passed over.
pub fn find_write_endpoint(device: &Device) -> (found: Option<(Endpoint, u16, u16)>)
    ensures
        selects_write_endpoint(*device, found),
{
    let mut n: usize = 0;
    while n < device.configs.len()
        invariant
            n <= device.configs@.len(),
            forall|c: int, i: int, s: int, e: int|
                c < n ==> !#[trigger] out_at(*device, c, i, s, e),
        decreases device.configs@.len() - n,
    {
        match &device.configs[n] {
            Some(config_desc) => {
                let mut i: usize = 0;
                while i < config_desc.interfaces.len()
                    invariant
                        n < device.configs@.len(),
                        device.configs@[n as int] == Some(*config_desc),
                        i <= config_desc.interfaces@.len(),
                        forall|c: int, i2: int, s: int, e: int|
                            c < n ==> !#[trigger] out_at(*device, c, i2, s, e),
                        forall|i2: int, s: int, e: int|
                            i2 < i ==> !#[trigger] out_at(*device, n as int, i2, s, e),
                    decreases config_desc.interfaces@.len() - i,
                {
                    let interface = &config_desc.interfaces[i];
                    let mut s: usize = 0;
                    while s < interface.descriptors.len()
                        invariant
                            n < device.configs@.len(),
                            device.configs@[n as int] == Some(*config_desc),
                            i < config_desc.interfaces@.len(),
                            config_desc.interfaces@[i as int] == *interface,
                            s <= interface.descriptors@.len(),
                            forall|c: int, i2: int, s2: int, e: int|
                                c < n ==> !#[trigger] out_at(*device, c, i2, s2, e),
                            forall|i2: int, s2: int, e: int|
                                i2 < i ==> !#[trigger] out_at(*device, n as int, i2, s2, e),
                            forall|s2: int, e: int|
                                s2 < s ==> !#[trigger] out_at(*device, n as int, i as int, s2, e),
                        decreases interface.descriptors@.len() - s,
                    {
                        let interface_desc = &interface.descriptors[s];
                        let mut e: usize = 0;
                        while e < interface_desc.endpoints.len()
                            invariant
                                n < device.configs@.len(),
                                device.configs@[n as int] == Some(*config_desc),
                                i < config_desc.interfaces@.len(),
                                config_desc.interfaces@[i as int] == *interface,
                                s < interface.descriptors@.len(),
                                interface.descriptors@[s as int] == *interface_desc,
                                e <= interface_desc.endpoints@.len(),
                                forall|c: int, i2: int, s2: int, e2: int|
                                    c < n ==> !#[trigger] out_at(*device, c, i2, s2, e2),
                                forall|i2: int, s2: int, e2: int|
                                    i2 < i ==> !#[trigger] out_at(*device, n as int, i2, s2, e2),
                                forall|s2: int, e2: int|
                                    s2 < s ==> !#[trigger] out_at(
                                        *device,
                                        n as int,
                                        i as int,
                                        s2,
                                        e2,
                                    ),
                                forall|e2: int|
                                    e2 < e ==> !#[trigger] out_at(
                                        *device,
                                        n as int,
                                        i as int,
                                        s as int,
                                        e2,
                                    ),
                            decreases interface_desc.endpoints@.len() - e,
                        {
                            let endpoint_desc = &interface_desc.endpoints[e];
                            if endpoint_desc.direction == Direction::Out {
                                let endpoint = Endpoint {
                                    config: config_desc.number,
                                    iface: interface_desc.interface_number,
                                    setting: interface_desc.setting_number,
                                    address: endpoint_desc.address,
                                };
                                proof {
                                    assert(first_out_at(
                                        *device,
                                        n as int,
                                        i as int,
                                        s as int,
                                        e as int,
                                    ));
                                    assert(endpoint == locator_at(
                                        *device,
                                        n as int,
                                        i as int,
                                        s as int,
                                        e as int,
                                    ));
                                }
                                return Some((endpoint, device.vendor_id, device.product_id));
                            }
                            e += 1;
                        }
                        s += 1;
                    }
                    i += 1;
                }
            },
            None => {},
        }
        n += 1;
    }
    None
}

/// Picks the first device of the bus, in bus order, that shows a
/// printer-class interface in any readable configuration, and reports it
/// with its position on the bus. Unreadable devices and configurations are
/// passed over.
pub fn find_print_device(bus: &[Option<Device>]) -> (found: Option<(usize, &Device)>)
    ensures
        match found {
            Some((d, device)) => first_printer_at(bus@, d as int) && bus@[d as int] == Some(
                *device,
            ),
            None => no_printer(bus@),
        },
{
    let mut d: usize = 0;
    while d < bus.len()
        invariant
            d <= bus@.len(),
            forall|k: int| 0 <= k < d ==> !entry_is_printer(#[trigger] bus@[k]),
        decreases bus@.len() - d,
    {
        match &bus[d] {
            Some(device) => {
                let mut n: usize = 0;
                while n < device.configs.len()
                    invariant
                        d < bus@.len(),
                        bus@[d as int] == Some(*device),
                        n <= device.configs@.len(),
                        forall|k: int| 0 <= k < d ==> !entry_is_printer(#[trigger] bus@[k]),
                        forall|c: int, i: int, s: int|
                            c < n ==> !#[trigger] printer_at(*device, c, i, s),
                    decreases device.configs@.len() - n,
                {
                    match &device.configs[n] {
                        Some(config_desc) => {
                            let mut i: usize = 0;
                            while i < config_desc.interfaces.len()
                                invariant
                                    d < bus@.len(),
                                    bus@[d as int] == Some(*device),
                                    n < device.configs@.len(),
                                    device.configs@[n as int] == Some(*config_desc),
                                    i <= config_desc.interfaces@.len(),
                                    forall|k: int|
                                        0 <= k < d ==> !entry_is_printer(#[trigger] bus@[k]),
                                    forall|c: int, i2: int, s: int|
                                        c < n ==> !#[trigger] printer_at(*device, c, i2, s),
                                    forall|i2: int, s: int|
                                        i2 < i ==> !#[trigger] printer_at(
                                            *device,
                                            n as int,
                                            i2,
                                            s,
                                        ),
                                decreases config_desc.interfaces@.len() - i,
                            {
                                let interface = &config_desc.interfaces[i];
                                let mut s: usize = 0;
                                while s < interface.descriptors.len()
                                    invariant
                                        d < bus@.len(),
                                        bus@[d as int] == Some(*device),
                                        n < device.configs@.len(),
                                        device.configs@[n as int] == Some(*config_desc),
                                        i < config_desc.interfaces@.len(),
                                        config_desc.interfaces@[i as int] == *interface,
                                        s <= interface.descriptors@.len(),
                                        forall|k: int|
                                            0 <= k < d ==> !entry_is_printer(#[trigger] bus@[k]),
                                        forall|c: int, i2: int, s2: int|
                                            c < n ==> !#[trigger] printer_at(*device, c, i2, s2),
                                        forall|i2: int, s2: int|
                                            i2 < i ==> !#[trigger] printer_at(
                                                *device,
                                                n as int,
                                                i2,
                                                s2,
                                            ),
                                        forall|s2: int|
                                            s2 < s ==> !#[trigger] printer_at(
                                                *device,
                                                n as int,
                                                i as int,
                                                s2,
                                            ),
                                    decreases interface.descriptors@.len() - s,
                                {
                                    let interface_desc = &interface.descriptors[s];
                                    if interface_desc.class_code == PRINTER_CLASS {
                                        proof {
                                            assert(printer_at(
                                                *device,
                                                n as int,
                                                i as int,
                                                s as int,
                                            ));
                                        }
                                        return Some((d, device));
                                    }
                                    s += 1;
                                }
                                i += 1;
                            }
                        },
                        None => {},
                    }
                    n += 1;
                }
                assert(!is_printer(*device));
            },
            None => {},
        }
        d += 1;
    }
    None
}

/// Discovery: the write endpoint of the first printer on the bus, with that
/// printer's vendor and product identifier. Nothing is found when the bus
/// has no printer, or when its first printer has no host-to-device endpoint.
pub fn find_print_endpoint(bus: &[Option<Device>]) -> (found: Option<(Endpoint, u16, u16)>)
    ensures
        discovers(bus@, found),
{
    match find_print_device(bus) {
        Some((d, device)) => {
            let found = find_write_endpoint(device);
            assert(first_printer_at(bus@, d as int) && selects_write_endpoint(
                bus@[d as int]->0,
                found,
            ));
            found
        },
        None => None,
    }
}

/// Two positions of a device that are both its first host-to-device endpoint
/// are the same position.
pub proof fn first_out_is_unique(
    dev: Device,
    c1: int,
    i1: int,
    s1: int,
    e1: int,
    c2: int,
    i2: int,
    s2: int,
    e2: int,
)
    requires
        first_out_at(dev, c1, i1, s1, e1),
        first_out_at(dev, c2, i2, s2, e2),
    ensures
        c1 == c2,
        i1 == i2,
        s1 == s2,
        e1 == e2,
{
    assert(out_at(dev, c1, i1, s1, e1));
    assert(out_at(dev, c2, i2, s2, e2));
    assert(!scanned_before(c1, i1, s1, e1, c2, i2, s2, e2));
    assert(!scanned_before(c2, i2, s2, e2, c1, i1, s1, e1));
}

/// Endpoint selection is a function of the device: whatever is selected for
/// a fixed descriptor tree is the locator of its first host-to-device
/// endpoint in configuration, interface, alternate setting, endpoint order,
/// so two selections on the same tree agree.
pub proof fn write_endpoint_selection_is_deterministic(
    dev: Device,
    a: Option<(Endpoint, u16, u16)>,
    b: Option<(Endpoint, u16, u16)>,
)
    requires
        selects_write_endpoint(dev, a),
        selects_write_endpoint(dev, b),
    ensures
        a == b,
{
    match (a, b) {
        (Some((ea, _, _)), Some((eb, _, _))) => {
            let (c1, i1, s1, e1) = choose|c: int, i: int, s: int, e: int| #[trigger]
                first_out_at(dev, c, i, s, e) && ea == locator_at(dev, c, i, s, e);
            let (c2, i2, s2, e2) = choose|c: int, i: int, s: int, e: int| #[trigger]
                first_out_at(dev, c, i, s, e) && eb == locator_at(dev, c, i, s, e);
            first_out_is_unique(dev, c1, i1, s1, e1, c2, i2, s2, e2);
        },
        (Some((ea, _, _)), None) => {
            let (c1, i1, s1, e1) = choose|c: int, i: int, s: int, e: int| #[trigger]
                first_out_at(dev, c, i, s, e) && ea == locator_at(dev, c, i, s, e);
            assert(out_at(dev, c1, i1, s1, e1));
        },
        (None, Some((eb, _, _))) => {
            let (c2, i2, s2, e2) = choose|c: int, i: int, s: int, e: int| #[trigger]
                first_out_at(dev, c, i, s, e) && eb == locator_at(dev, c, i, s, e);
            assert(out_at(dev, c2, i2, s2, e2));
        },
        (None, None) => {},
    }
}

/// An endpoint is selected exactly when the device has a host-to-device
/// endpoint at all.
pub proof fn write_endpoint_found_iff_present(dev: Device, found: Option<(Endpoint, u16, u16)>)
    requires
        selects_write_endpoint(dev, found),
    ensures
        found is Some <==> exists|c: int, i: int, s: int, e: int| #[trigger]
            out_at(dev, c, i, s, e),
{
    if let Some((endpoint, _, _)) = found {
        let (c, i, s, e) = choose|c: int, i: int, s: int, e: int| #[trigger]
            first_out_at(dev, c, i, s, e) && endpoint == locator_at(dev, c, i, s, e);
        assert(out_at(dev, c, i, s, e));
    }
}

/// At most one entry of a bus is its first printer.
pub proof fn first_printer_is_unique(bus: Seq<Option<Device>>, d1: int, d2: int)
    requires
        first_printer_at(bus, d1),
        first_printer_at(bus, d2),
    ensures
        d1 == d2,
{
    if d1 < d2 {
        assert(!entry_is_printer(bus[d1]));
    }
    if d2 < d1 {
        assert(!entry_is_printer(bus[d2]));
    }
}

/// For a fixed bus, in a fixed order, discovery has one possible result.
pub proof fn discovery_is_deterministic(
    bus: Seq<Option<Device>>,
    a: Option<(Endpoint, u16, u16)>,
    b: Option<(Endpoint, u16, u16)>,
)
    requires
        discovers(bus, a),
        discovers(bus, b),
    ensures
        a == b,
{
    if no_printer(bus) {
        no_printer_discovers_nothing(bus, a);
        no_printer_discovers_nothing(bus, b);
    } else {
        let d1 = choose|d: int| #[trigger]
            first_printer_at(bus, d) && selects_write_endpoint(bus[d]->0, a);
        let d2 = choose|d: int| #[trigger]
            first_printer_at(bus, d) && selects_write_endpoint(bus[d]->0, b);
        first_printer_is_unique(bus, d1, d2);
        write_endpoint_selection_is_deterministic(bus[d1]->0, a, b);
    }
}

/// On a bus where no device shows a printer-class interface, discovery
/// finds nothing.
pub proof fn no_printer_discovers_nothing(
    bus: Seq<Option<Device>>,
    found: Option<(Endpoint, u16, u16)>,
)
    requires
        no_printer(bus),
        discovers(bus, found),
    ensures
        found is None,
{
    if found is Some {
        let d = choose|d: int| #[trigger]
            first_printer_at(bus, d) && selects_write_endpoint(bus[d]->0, found);
        assert(entry_is_printer(bus[d]));
    }
}

} // verus!
