//! Addressing of the virtual interface.

use vstd::prelude::*;

verus! {

/// Our end of the point-to-point link.
pub const OUR_IP: [u8; 4] = [10, 0, 0, 0];

/// The peer's end of the point-to-point link.
pub const THEIR_IP: [u8; 4] = [10, 0, 0, 1];

/// How the virtual interface is set up: IPv4 addresses as their four octets.
#[derive(Debug, Clone, Copy, PartialEq, Eq)]
pub struct InterfaceConfig {
    pub address: [u8; 4],
    pub destination: [u8; 4],
    pub netmask: [u8; 4],
    pub up: bool,
}

/// The default addressing: our end, the peer's end, a netmask that leaves only the
/// last bit to the host, and the interface brought up.
pub open spec fn default_interface_spec() -> InterfaceConfig {
    InterfaceConfig {
        address: [10u8, 0u8, 0u8, 0u8],
        destination: [10u8, 0u8, 0u8, 1u8],
        netmask: [255u8, 255u8, 255u8, 254u8],
        up: true,
    }
}

/// The interface configuration used when the caller gives none.
pub fn default_interface_config() -> (r: InterfaceConfig)
    ensures
        r == default_interface_spec(),
{
    let host_mask: u8 = u8::MAX << 1u8;
    assert(u8::MAX << 1u8 == 254u8) by (bit_vector);
    let r = InterfaceConfig { address: OUR_IP, destination: THEIR_IP, netmask: [255, 255, 255, host_mask], up: true };
    assert(r.address@ =~= default_interface_spec().address@);
    assert(r.destination@ =~= default_interface_spec().destination@);
    assert(r.netmask@ =~= default_interface_spec().netmask@);
    r
}

} // verus!
