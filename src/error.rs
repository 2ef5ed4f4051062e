//! Errors of the CPUID builder and the boot-information writer.

use vstd::prelude::*;

verus! {

#[derive(Clone, Copy, Debug, PartialEq, Eq, Structural)]
pub enum Error {
    /// Could not find any SGX EPC section
    NoSgxEpcSection,
    /// Missing SGX CPU feature
    MissingSgxFeature,
    /// Missing SGX_LC CPU feature
    MissingSgxLaunchControlFeature,
    /// The source CPUID table asks for more than the destination offers
    CpuidCheckCompatibility,
    /// The RSDP address lies beyond the end of guest RAM
    RsdpPastRamEnd,
    /// The memory map table does not fit in guest RAM
    MemmapTablePastRamEnd,
    /// The PVH start-info block does not fit in guest RAM
    StartInfoPastRamEnd,
    /// No room in the lowest RAM region for the initramfs
    InitramfsAddress,
}

} // verus!
