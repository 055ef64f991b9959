//! Device capabilities exchanged during negotiation.
use vstd::prelude::*;

verus! {

/// Position of the `CHUNK_CAP` bit in the capability flags.
pub const CHUNK_CAP_BIT: u32 = 17;

/// The capability flags word.
#[derive(Debug, Clone, Copy, PartialEq, Eq, Structural)]
pub struct CapabilityFlags(pub u32);

impl CapabilityFlags {
    /// Whether the device supports chunked transfers (bit 17).
    pub fn chunk_cap(&self) -> (r: u8)
        ensures
            r == (self.0 / 131072) % 2,
    {
        ((self.0 / 131072) % 2) as u8
    }

    /// Sets the chunking capability bit to the lowest bit of `value`.
    pub fn set_chunk_cap(&mut self, value: u8)
        ensures
            final(self).0 / 131072 % 2 == value % 2,
            final(self).0 % 131072 == old(self).0 % 131072,
            final(self).0 / 262144 == old(self).0 / 262144,
    {
        let low = self.0 % 131072;
        let high = self.0 / 262144;
        self.0 = high * 262144 + ((value % 2) as u32) * 131072 + low;
    }
}

/// The capabilities of a device.
#[derive(Debug, Clone, Copy, PartialEq, Eq, Structural)]
pub struct DeviceCapabilities {
    pub ct_exponent: u8,
    pub flags: CapabilityFlags,
    pub data_transfer_size: u32,
    pub max_spdm_msg_size: u32,
}

/// Capabilities with every field zero.
pub open spec fn zero_capabilities() -> DeviceCapabilities {
    DeviceCapabilities {
        ct_exponent: 0,
        flags: CapabilityFlags(0),
        data_transfer_size: 0,
        max_spdm_msg_size: 0,
    }
}

impl Default for DeviceCapabilities {
    fn default() -> (r: DeviceCapabilities)
        ensures
            r == zero_capabilities(),
    {
        DeviceCapabilities {
            ct_exponent: 0,
            flags: CapabilityFlags(0),
            data_transfer_size: 0,
            max_spdm_msg_size: 0,
        }
    }
}

} // verus!
