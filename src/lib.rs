//! x86_64 CPUID table construction and PVH boot-information layout for a
//! virtual machine monitor.

pub mod common;
pub mod compat;
pub mod cpuid;
pub mod error;
pub mod layout;
pub mod memory;
pub mod pvh;
pub mod sgx;
pub mod topology;
pub mod vcpu;

pub use cpuid::{CpuIdEntry, CpuidPatch, CpuidReg, CPUID_FLAG_VALID_INDEX};
pub use compat::{CpuidCompatibleCheck, CpuidFeatureEntry};
pub use error::Error;
pub use sgx::{SgxEpcRegion, SgxEpcSection};
pub use common::{generate_common_cpuid, get_host_cpu_phys_bits, CpuidLeaf, HostCpuid, TdxCapabilities};
pub use vcpu::{vcpu_cpuid, vcpu_setup_steps, EntryPoint, VcpuSetupStep};
pub use memory::{arch_memory_regions, initramfs_load_addr, GuestRam, RegionType};
pub use pvh::{add_memmap_entry, configure_pvh, InitramfsConfig, MemmapTableEntry, ModlistEntry, PvhBootInfo, StartInfo};
