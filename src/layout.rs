//! Fixed guest-physical addresses of the x86_64 memory layout.
//!
//! Low RAM holds the boot structures; high RAM starts at 1 MiB and stops at
//! the 32-bit reserved area (3 GiB to 4 GiB), which holds the 32-bit device
//! window and the PCI MMCONFIG space; RAM resumes at 4 GiB.

use vstd::prelude::*;

verus! {

/// Location of the EBDA address, where ACPICA expects to find it.
pub const EBDA_POINTER: u64 = 0x40e;
/// The PVH start-info block.
pub const PVH_INFO_START: u64 = 0x6000;
/// The PVH module list.
pub const MODLIST_START: u64 = 0x6040;
/// The PVH memory map.
pub const MEMMAP_START: u64 = 0x7000;
/// The extended BIOS data area; usable low RAM ends here.
pub const EBDA_START: u64 = 0xa0000;
/// The ACPI RSDP table.
pub const RSDP_POINTER: u64 = EBDA_START;
/// The SMBIOS tables.
pub const SMBIOS_START: u64 = 0xf0000;
/// Start of high RAM (1 MiB).
pub const HIGH_RAM_START: u64 = 0x10_0000;
/// Start of the 32-bit reserved area (3 GiB).
pub const MEM_32BIT_RESERVED_START: u64 = 0xc000_0000;
/// Size of the 32-bit reserved area (1 GiB).
pub const MEM_32BIT_RESERVED_SIZE: u64 = 0x4000_0000;
/// The 32-bit device window opens the reserved area.
pub const MEM_32BIT_DEVICES_START: u64 = MEM_32BIT_RESERVED_START;
/// Size of the 32-bit device window (640 MiB).
pub const MEM_32BIT_DEVICES_SIZE: u64 = 0x2800_0000;
/// PCI MMCONFIG space, right after the device window.
pub const PCI_MMCONFIG_START: u64 = 0xe800_0000;
/// Size of the PCI MMCONFIG space (256 MiB).
pub const PCI_MMCONFIG_SIZE: u64 = 0x1000_0000;
/// Where RAM above the 32-bit reserved area starts (4 GiB).
pub const RAM_64BIT_START: u64 = 0x1_0000_0000;

} // verus!
