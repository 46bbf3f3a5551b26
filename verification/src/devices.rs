//! Device selection: the Mass-Storage interface signature, endpoint
//! direction classification, and filtering of an enumerated device list by
//! name, bus and port.  The enumeration itself happens outside the crate;
//! it hands in the plain identity of each device found.

use vstd::prelude::*;

verus! {

/// Interface class code of a Mass Storage Class interface.
pub const MASS_STORAGE_CLASS_ID: u8 = 0x8;

/// Interface subclass code for the SCSI transparent command set.
pub const MASS_STORAGE_SUBCLASS_ID: u8 = 0x6;

/// Interface protocol code for Bulk-Only Transport.
pub const MASS_STORAGE_PROTOCOL_ID: u8 = 0x50;

/// Whether an interface's class triple identifies a Mass-Storage BOT
/// interface (class 0x08, subclass 0x06, protocol 0x50).
pub fn is_mass_storage_interface(class_code: u8, sub_class_code: u8, protocol_code: u8) -> (r:
    bool)
    ensures
        r == (class_code == 0x8 && sub_class_code == 0x6 && protocol_code == 0x50),
{
    class_code == MASS_STORAGE_CLASS_ID && sub_class_code == MASS_STORAGE_SUBCLASS_ID
        && protocol_code == MASS_STORAGE_PROTOCOL_ID
}

/// Whether an endpoint address marks a device-to-host (IN) endpoint: bit 7
/// of the address is set.  Such an endpoint is the one the host reads from;
/// the other is the one it writes to.
pub fn endpoint_is_device_to_host(address: u8) -> (r: bool)
    ensures
        r == (address >= 0x80),
{
    address >= 0x80
}

/// The plain identity of one enumerated device: its product name and where
/// it sits on the bus.
#[derive(Debug)]
pub struct DeviceInfo {
    /// Product name the device identifies itself with (empty if unknown).
    pub name: String,
    /// Number of the bus the device is connected to.
    pub bus: u8,
    /// Port number on that bus.
    pub port: u8,
}

/// Whether a device passes the given filters: each filter that is present
/// must match exactly.
pub open spec fn spec_device_matches(
    d: DeviceInfo,
    name: Option<String>,
    bus: Option<u8>,
    port: Option<u8>,
) -> bool {
    &&& (name matches Some(n) ==> d.name@ == n@)
    &&& (bus matches Some(b) ==> d.bus == b)
    &&& (port matches Some(p) ==> d.port == p)
}

/// Whether a device passes the given filters.
pub fn device_matches(d: &DeviceInfo, name: &Option<String>, bus: &Option<u8>, port: &Option<u8>)
    -> (r: bool)
    ensures
        r == spec_device_matches(*d, *name, *bus, *port),
{
    let name_ok = match name {
        Some(n) => d.name == *n,
        None => true,
    };
    let bus_ok = match bus {
        Some(b) => d.bus == *b,
        None => true,
    };
    let port_ok = match port {
        Some(p) => d.port == *p,
        None => true,
    };
    name_ok && bus_ok && port_ok
}

/// The subsequence of devices that pass the given filters, in their
/// original order.
pub open spec fn spec_filter_devices(
    s: Seq<DeviceInfo>,
    name: Option<String>,
    bus: Option<u8>,
    port: Option<u8>,
) -> Seq<DeviceInfo>
    decreases s.len(),
{
    if s.len() == 0 {
        Seq::empty()
    } else {
        let rest = spec_filter_devices(s.drop_first(), name, bus, port);
        if spec_device_matches(s[0], name, bus, port) {
            seq![s[0]] + rest
        } else {
            rest
        }
    }
}

/// Keeps exactly the devices that pass the given filters, in their original
/// order.
pub fn filter_devices(
    list: &mut Vec<DeviceInfo>,
    name: Option<String>,
    bus: Option<u8>,
    port: Option<u8>,
)
    ensures
        final(list)@ == spec_filter_devices(old(list)@, name, bus, port),
{
    let ghost orig = list@;
    let mut kept: Vec<DeviceInfo> = Vec::new();
    proof {
        assert(kept@ + spec_filter_devices(list@, name, bus, port) =~= spec_filter_devices(
            orig,
            name,
            bus,
            port,
        ));
    }
    while list.len() > 0
        invariant
            spec_filter_devices(orig, name, bus, port) == kept@ + spec_filter_devices(
                list@,
                name,
                bus,
                port,
            ),
        decreases list@.len(),
    {
        let ghost pre = list@;
        let ghost k0 = kept@;
        let d = list.remove(0);
        let ghost dd = d;
        let keep = device_matches(&d, &name, &bus, &port);
        if keep {
            kept.push(d);
        }
        proof {
            let rest = spec_filter_devices(list@, name, bus, port);
            assert(pre.drop_first() =~= list@);
            assert(pre[0] == dd);
            assert(spec_filter_devices(pre, name, bus, port) == (if spec_device_matches(
                dd,
                name,
                bus,
                port,
            ) {
                seq![dd] + rest
            } else {
                rest
            }));
            if keep {
                assert(kept@ == k0.push(dd));
                assert(k0.push(dd) + rest =~= k0 + (seq![dd] + rest));
            }
        }
    }
    proof {
        assert(spec_filter_devices(list@, name, bus, port) =~= Seq::<DeviceInfo>::empty());
        assert(kept@ + Seq::<DeviceInfo>::empty() =~= kept@);
    }
    *list = kept;
}

} // verus!
