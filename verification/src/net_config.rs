//! Static network configuration consumed once at startup: one IPv4 address
//! with its prefix length, a gateway, no DNS — and the little-endian seed
//! word the stack is initialized with.

use vstd::prelude::*;

verus! {

/// Static IPv4 configuration of the device.
pub struct StaticIpv4Config {
    /// The device's address, as octets.
    pub address: [u8; 4],
    /// Subnet prefix length; at most 32.
    pub prefix_len: u8,
    /// The gateway's address, when one is configured.
    pub gateway: Option<[u8; 4]>,
}

impl StaticIpv4Config {
    /// A prefix length never exceeds the 32 bits of an IPv4 address.
    pub open spec fn wf(&self) -> bool {
        self.prefix_len <= 32
    }

    /// Builds a configuration; the prefix length must fit an IPv4 address.
    pub fn new(address: [u8; 4], prefix_len: u8, gateway: Option<[u8; 4]>) -> (r: Self)
        requires
            prefix_len <= 32,
        ensures
            r.wf(),
            r.address == address,
            r.prefix_len == prefix_len,
            r.gateway == gateway,
    {
        StaticIpv4Config { address, prefix_len, gateway }
    }
}

/// The value of eight little-endian bytes: the first byte is the least
/// significant.
pub open spec fn le_u64(s: Seq<u8>) -> int {
    s[0] + s[1] * 0x100 + s[2] * 0x1_0000 + s[3] * 0x100_0000 + s[4] * 0x1_0000_0000 + s[5]
        * 0x100_0000_0000 + s[6] * 0x1_0000_0000_0000 + s[7] * 0x100_0000_0000_0000
}

/// Reads a `u64` from eight little-endian bytes, as the network stack's seed
/// word is read from its build-time constant.
pub fn u64_from_le_bytes(b: &[u8; 8]) -> (r: u64)
    ensures
        r == le_u64(b@),
{
    (b[0] as u64) + (b[1] as u64) * 0x100 + (b[2] as u64) * 0x1_0000 + (b[3] as u64) * 0x100_0000
        + (b[4] as u64) * 0x1_0000_0000 + (b[5] as u64) * 0x100_0000_0000 + (b[6] as u64)
        * 0x1_0000_0000_0000 + (b[7] as u64) * 0x100_0000_0000_0000
}

} // verus!
