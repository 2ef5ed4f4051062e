//! The PVH boot information: the start-info block, the module list and the
//! memory map that the guest reads at boot, and their byte encoding.

use crate::error::Error;
use crate::layout::{
    EBDA_START, HIGH_RAM_START, SMBIOS_START, MEMMAP_START, MEM_32BIT_RESERVED_START, MODLIST_START, PCI_MMCONFIG_SIZE,
    PCI_MMCONFIG_START, PVH_INFO_START, RAM_64BIT_START,
};
use crate::memory::{last_addr_of, ram_covers, GuestRam};
use crate::sgx::SgxEpcRegion;
use vstd::prelude::*;

verus! {

/// Memory map type of usable RAM.
pub const E820_RAM: u32 = 1;
/// Memory map type of reserved memory.
pub const E820_RESERVED: u32 = 2;
/// Magic value of the PVH start-info block.
pub const XEN_HVM_START_MAGIC_VALUE: u32 = 0x336ec578;
/// Bytes of an encoded start-info block.
pub const START_INFO_SIZE: u64 = 56;
/// Bytes of an encoded memory map entry.
pub const MEMMAP_ENTRY_SIZE: u64 = 24;
/// Bytes of an encoded module list entry.
pub const MODLIST_ENTRY_SIZE: u64 = 32;

/// The PVH `hvm_start_info` block.
#[derive(Clone, Copy, Debug, Default, PartialEq, Eq, Structural)]
pub struct StartInfo {
    pub magic: u32,
    pub version: u32,
    pub flags: u32,
    pub nr_modules: u32,
    pub modlist_paddr: u64,
    pub cmdline_paddr: u64,
    pub rsdp_paddr: u64,
    pub memmap_paddr: u64,
    pub memmap_entries: u32,
    pub reserved: u32,
}

/// One PVH `hvm_memmap_table_entry`.
#[derive(Clone, Copy, Debug, Default, PartialEq, Eq, Structural)]
pub struct MemmapTableEntry {
    pub addr: u64,
    pub size: u64,
    pub type_: u32,
    pub reserved: u32,
}

/// One PVH `hvm_modlist_entry`.
#[derive(Clone, Copy, Debug, Default, PartialEq, Eq, Structural)]
pub struct ModlistEntry {
    pub paddr: u64,
    pub size: u64,
    pub cmdline_paddr: u64,
    pub reserved: u64,
}

/// An initramfs already loaded into guest memory.
#[derive(Clone, Copy, Debug, PartialEq, Eq, Structural)]
pub struct InitramfsConfig {
    pub address: u64,
    pub size: usize,
}

/// The boot information of one guest, before it is written.
#[derive(Clone, Debug)]
pub struct PvhBootInfo {
    pub start_info: StartInfo,
    pub modlist: Option<ModlistEntry>,
    pub memmap: Vec<MemmapTableEntry>,
}

pub open spec fn u32_le(v: u32) -> Seq<u8> {
    seq![(v & 0xff) as u8, ((v >> 8u32) & 0xff) as u8, ((v >> 16u32) & 0xff) as u8, ((v >> 24u32) & 0xff) as u8]
}

pub open spec fn u64_le(v: u64) -> Seq<u8> {
    u32_le((v & 0xffff_ffff) as u32) + u32_le((v >> 32u64) as u32)
}

impl StartInfo {
    /// The little-endian layout of the block, fields in declaration order.
    pub open spec fn bytes_spec(self) -> Seq<u8> {
        u32_le(self.magic) + u32_le(self.version) + u32_le(self.flags) + u32_le(self.nr_modules) + u64_le(
            self.modlist_paddr,
        ) + u64_le(self.cmdline_paddr) + u64_le(self.rsdp_paddr) + u64_le(self.memmap_paddr) + u32_le(
            self.memmap_entries,
        ) + u32_le(self.reserved)
    }

    pub fn to_bytes(&self) -> (r: Vec<u8>)
        ensures
            r@ == self.bytes_spec(),
            r@.len() == START_INFO_SIZE,
    {
        let mut b: Vec<u8> = Vec::new();
        push_u32_le(&mut b, self.magic);
        push_u32_le(&mut b, self.version);
        push_u32_le(&mut b, self.flags);
        push_u32_le(&mut b, self.nr_modules);
        push_u64_le(&mut b, self.modlist_paddr);
        push_u64_le(&mut b, self.cmdline_paddr);
        push_u64_le(&mut b, self.rsdp_paddr);
        push_u64_le(&mut b, self.memmap_paddr);
        push_u32_le(&mut b, self.memmap_entries);
        push_u32_le(&mut b, self.reserved);
        assert(b@ =~= self.bytes_spec());
        b
    }
}

impl MemmapTableEntry {
    pub open spec fn bytes_spec(self) -> Seq<u8> {
        u64_le(self.addr) + u64_le(self.size) + u32_le(self.type_) + u32_le(self.reserved)
    }

    pub fn to_bytes(&self) -> (r: Vec<u8>)
        ensures
            r@ == self.bytes_spec(),
            r@.len() == MEMMAP_ENTRY_SIZE,
    {
        let mut b: Vec<u8> = Vec::new();
        push_u64_le(&mut b, self.addr);
        push_u64_le(&mut b, self.size);
        push_u32_le(&mut b, self.type_);
        push_u32_le(&mut b, self.reserved);
        assert(b@ =~= self.bytes_spec());
        b
    }
}

impl ModlistEntry {
    pub open spec fn bytes_spec(self) -> Seq<u8> {
        u64_le(self.paddr) + u64_le(self.size) + u64_le(self.cmdline_paddr) + u64_le(self.reserved)
    }

    pub fn to_bytes(&self) -> (r: Vec<u8>)
        ensures
            r@ == self.bytes_spec(),
            r@.len() == MODLIST_ENTRY_SIZE,
    {
        let mut b: Vec<u8> = Vec::new();
        push_u64_le(&mut b, self.paddr);
        push_u64_le(&mut b, self.size);
        push_u64_le(&mut b, self.cmdline_paddr);
        push_u64_le(&mut b, self.reserved);
        assert(b@ =~= self.bytes_spec());
        b
    }
}

fn push_u32_le(b: &mut Vec<u8>, v: u32)
    ensures
        final(b)@ == old(b)@ + u32_le(v),
{
    b.push(#[verifier::truncate] ((v & 0xff) as u8));
    b.push(#[verifier::truncate] (((v >> 8) & 0xff) as u8));
    b.push(#[verifier::truncate] (((v >> 16) & 0xff) as u8));
    b.push(#[verifier::truncate] (((v >> 24) & 0xff) as u8));
    assert(final(b)@ =~= old(b)@ + u32_le(v));
}

fn push_u64_le(b: &mut Vec<u8>, v: u64)
    ensures
        final(b)@ == old(b)@ + u64_le(v),
{
    push_u32_le(b, #[verifier::truncate] ((v & 0xffff_ffff) as u32));
    push_u32_le(b, #[verifier::truncate] ((v >> 32) as u32));
    assert(final(b)@ =~= old(b)@ + u64_le(v));
}

/// The real-mode segment of the EBDA, which the BIOS data area points at.
pub const EBDA_SEGMENT: u16 = 0xa000;

/// Where the MP table goes: after `smbios_size` bytes of SMBIOS tables, on
/// a 16-byte boundary, leaving at least one byte free.
pub fn mptable_start(smbios_size: u64) -> (r: u64)
    requires
        smbios_size <= u64::MAX - SMBIOS_START - 16,
    ensures
        r == ((SMBIOS_START + smbios_size + 16) as u64 & !0xfu64),
        r % 16 == 0,
        SMBIOS_START + smbios_size < r <= SMBIOS_START + smbios_size + 16,
{
    let offset = SMBIOS_START + smbios_size;
    let r = (offset + 16) & !0xf;
    let x = (offset + 16) as u64;
    assert((x & !0xfu64) % 16 == 0 && x - 16 < (x & !0xfu64) <= x) by (bit_vector)
        requires
            x >= 16,
    ;
    r
}

pub open spec fn memmap_entry(addr: u64, size: u64, mem_type: u32) -> MemmapTableEntry {
    MemmapTableEntry { addr, size, type_: mem_type, reserved: 0 }
}

/// Appends one memory map entry.
pub fn add_memmap_entry(memmap: &mut Vec<MemmapTableEntry>, addr: u64, size: u64, mem_type: u32)
    ensures
        final(memmap)@ == old(memmap)@.push(memmap_entry(addr, size, mem_type)),
{
    // Add the table entry to the vector
    memmap.push(MemmapTableEntry { addr, size, type_: mem_type, reserved: 0 });
}

/// The memory map of a guest whose RAM ends at `last_addr`: low RAM up to
/// the EBDA; high RAM up to the end of RAM, or up to the 32-bit reserved
/// area and again from 4 GiB where RAM reaches past it; the PCI MMCONFIG
/// space; and the SGX EPC area, where there is one.
pub open spec fn memmap_table(last_addr: u64, sgx_epc: Option<(u64, u64)>) -> Seq<MemmapTableEntry> {
    let low = seq![memmap_entry(0, EBDA_START, E820_RAM)];
    let high = if last_addr < MEM_32BIT_RESERVED_START {
        seq![memmap_entry(HIGH_RAM_START, (last_addr - HIGH_RAM_START + 1) as u64, E820_RAM)]
    } else {
        seq![memmap_entry(HIGH_RAM_START, (MEM_32BIT_RESERVED_START - HIGH_RAM_START) as u64, E820_RAM)] + if last_addr
            > RAM_64BIT_START {
            seq![memmap_entry(RAM_64BIT_START, (last_addr - RAM_64BIT_START + 1) as u64, E820_RAM)]
        } else {
            Seq::empty()
        }
    };
    let pci = seq![memmap_entry(PCI_MMCONFIG_START, PCI_MMCONFIG_SIZE, E820_RESERVED)];
    let sgx = match sgx_epc {
        Some(r) => seq![memmap_entry(r.0, r.1, E820_RESERVED)],
        None => Seq::empty(),
    };
    low + high + pci + sgx
}

pub open spec fn sgx_extent(r: Option<SgxEpcRegion>) -> Option<(u64, u64)> {
    match r {
        Some(region) => Some((region.start_spec(), region.size_spec())),
        None => None,
    }
}

/// The start-info block for a memory map of `entries` entries.
pub open spec fn start_info_spec(
    cmdline_addr: u64,
    initramfs: Option<InitramfsConfig>,
    rsdp_addr: Option<u64>,
    entries: nat,
) -> StartInfo {
    StartInfo {
        magic: XEN_HVM_START_MAGIC_VALUE,
        version: 1,
        flags: 0,
        nr_modules: if initramfs is Some {
            1
        } else {
            0
        },
        modlist_paddr: if initramfs is Some {
            MODLIST_START
        } else {
            0
        },
        cmdline_paddr: cmdline_addr,
        rsdp_paddr: match rsdp_addr {
            Some(a) => a,
            None => 0,
        },
        memmap_paddr: MEMMAP_START,
        memmap_entries: entries as u32,
        reserved: 0,
    }
}

pub open spec fn modlist_spec(initramfs: Option<InitramfsConfig>) -> Option<ModlistEntry> {
    match initramfs {
        Some(c) => Some(ModlistEntry { paddr: c.address, size: c.size as u64, cmdline_paddr: 0, reserved: 0 }),
        None => None,
    }
}

/// The number of entries of `memmap_table(last_addr, ..)`: it depends on
/// where RAM ends and on whether there is an SGX EPC area, not on sizes.
pub open spec fn memmap_entry_count(last_addr: u64, has_sgx: bool) -> nat {
    (if last_addr >= MEM_32BIT_RESERVED_START && last_addr > RAM_64BIT_START {
        4nat
    } else {
        3nat
    }) + (if has_sgx {
        1nat
    } else {
        0nat
    })
}

/// The error that the boot information of this guest meets, if any: an RSDP
/// past the end of RAM, then a memory map of `entries` entries that does
/// not lie wholly in RAM, then a start-info block that does not.
pub open spec fn pvh_error(ram: Seq<(u64, u64)>, rsdp_addr: Option<u64>, entries: nat) -> Option<Error> {
    if rsdp_addr matches Some(a) && a > last_addr_of(ram) {
        Some(Error::RsdpPastRamEnd)
    } else if !ram_covers(ram, MEMMAP_START as int, MEMMAP_ENTRY_SIZE * entries) {
        Some(Error::MemmapTablePastRamEnd)
    } else if !ram_covers(ram, PVH_INFO_START as int, START_INFO_SIZE as int) {
        Some(Error::StartInfoPastRamEnd)
    } else {
        None
    }
}

/// The checks of the boot information against guest RAM, before anything
/// is built or written: `Ok` where the RSDP lies in RAM and the memory map
/// (with an SGX entry where `has_sgx`) and the start-info block fit.
pub fn check_pvh_fits(guest_mem: &GuestRam, rsdp_addr: Option<u64>, has_sgx: bool) -> (r: Result<(), Error>)
    requires
        guest_mem.wf(),
    ensures
        r == (match pvh_error(
            guest_mem@,
            rsdp_addr,
            memmap_entry_count(last_addr_of(guest_mem@) as u64, has_sgx),
        ) {
            Some(e) => Err(e),
            None => Ok(()),
        }),
{
    let mem_end = guest_mem.last_addr();
    // Check that the RAM is not smaller than the RSDP start address
    if let Some(rsdp_addr) = rsdp_addr {
        if rsdp_addr > mem_end {
            return Err(Error::RsdpPastRamEnd);
        }
    }
    let mut entries: u64 = 3;
    if mem_end >= MEM_32BIT_RESERVED_START && mem_end > RAM_64BIT_START {
        entries = 4;
    }
    if has_sgx {
        entries = entries + 1;
    }
    // The whole memory map must fit before any of it is written.
    if !guest_mem.range_in_ram(MEMMAP_START, MEMMAP_ENTRY_SIZE * entries) {
        return Err(Error::MemmapTablePastRamEnd);
    }
    // The start-info block lives at PVH_INFO_START, which %rbx points at
    // when the guest starts, as the PVH ABI requires.
    if !guest_mem.range_in_ram(PVH_INFO_START, START_INFO_SIZE) {
        return Err(Error::StartInfoPastRamEnd);
    }
    Ok(())
}

/// Builds the boot information of a guest: the start-info block that points
/// at the command line, the memory map and, when given, the RSDP and the
/// module list of the initramfs. Every check against guest RAM
/// (`check_pvh_fits`) comes first: on an error there is nothing to write,
/// and only an `Ok` value yields bytes to write (`guest_writes`). RAM that
/// ends below high RAM (1 MiB) yet passes every check has no memory map.
pub fn configure_pvh(
    guest_mem: &GuestRam,
    cmdline_addr: u64,
    initramfs: &Option<InitramfsConfig>,
    rsdp_addr: Option<u64>,
    sgx_epc_region: Option<SgxEpcRegion>,
) -> (r: Result<PvhBootInfo, Error>)
    requires
        guest_mem.wf(),
        pvh_error(
            guest_mem@,
            rsdp_addr,
            memmap_entry_count(last_addr_of(guest_mem@) as u64, sgx_epc_region is Some),
        ) is None ==> last_addr_of(guest_mem@) + 1 >= HIGH_RAM_START,
    ensures
        ({
            let memmap = memmap_table(last_addr_of(guest_mem@) as u64, sgx_extent(sgx_epc_region));
            match r {
                Ok(info) => {
                    &&& pvh_error(guest_mem@, rsdp_addr, memmap.len()) is None
                    &&& info.memmap@ == memmap
                    &&& info.start_info == start_info_spec(cmdline_addr, *initramfs, rsdp_addr, memmap.len())
                    &&& info.modlist == modlist_spec(*initramfs)
                },
                Err(e) => pvh_error(guest_mem@, rsdp_addr, memmap.len()) == Some(e),
            }
        }),
{
    if let Err(e) = check_pvh_fits(guest_mem, rsdp_addr, sgx_epc_region.is_some()) {
        return Err(e);
    }
    let mem_end = guest_mem.last_addr();

    let mut start_info = StartInfo {
        magic: XEN_HVM_START_MAGIC_VALUE,
        version: 1,  // pvh has version 1
        flags: 0,
        nr_modules: 0,
        modlist_paddr: 0,
        cmdline_paddr: cmdline_addr,
        rsdp_paddr: 0,
        memmap_paddr: MEMMAP_START,
        memmap_entries: 0,
        reserved: 0,
    };

    if let Some(rsdp_addr) = rsdp_addr {
        start_info.rsdp_paddr = rsdp_addr;
    }

    let mut modlist: Option<ModlistEntry> = None;
    if let Some(initramfs_config) = initramfs {
        // The initramfs has been loaded already: describe it in the module list.
        modlist = Some(
            ModlistEntry {
                paddr: initramfs_config.address,
                size: initramfs_config.size as u64,
                cmdline_paddr: 0,
                reserved: 0,
            },
        );
        start_info.nr_modules = 1;
        start_info.modlist_paddr = MODLIST_START;
    }

    // Create the memory map entries.
    let mut memmap: Vec<MemmapTableEntry> = Vec::new();
    add_memmap_entry(&mut memmap, 0, EBDA_START, E820_RAM);

    if mem_end < MEM_32BIT_RESERVED_START {
        add_memmap_entry(&mut memmap, HIGH_RAM_START, mem_end + 1 - HIGH_RAM_START, E820_RAM);
    } else {
        add_memmap_entry(&mut memmap, HIGH_RAM_START, MEM_32BIT_RESERVED_START - HIGH_RAM_START, E820_RAM);
        if mem_end > RAM_64BIT_START {
            add_memmap_entry(&mut memmap, RAM_64BIT_START, mem_end - RAM_64BIT_START + 1, E820_RAM);
        }
    }

    add_memmap_entry(&mut memmap, PCI_MMCONFIG_START, PCI_MMCONFIG_SIZE, E820_RESERVED);

    if let Some(sgx_epc_region) = sgx_epc_region {
        add_memmap_entry(&mut memmap, sgx_epc_region.start(), sgx_epc_region.size(), E820_RESERVED);
    }
    assert(memmap@ =~= memmap_table(mem_end, sgx_extent(sgx_epc_region)));

    let entries = memmap.len();
    start_info.memmap_entries = entries as u32;

    Ok(PvhBootInfo { start_info, modlist, memmap })
}

/// The guest writes of `info`, in order: its module-list entry at
/// MODLIST_START, the memory map entries one after another from
/// MEMMAP_START, then the start-info block at PVH_INFO_START.
pub open spec fn boot_writes(info: PvhBootInfo) -> Seq<(u64, Seq<u8>)> {
    let modlist = match info.modlist {
        Some(m) => seq![(MODLIST_START, m.bytes_spec())],
        None => Seq::empty(),
    };
    let memmap = Seq::new(
        info.memmap@.len(),
        |i: int| ((MEMMAP_START + MEMMAP_ENTRY_SIZE * i) as u64, info.memmap@[i].bytes_spec()),
    );
    modlist + memmap + seq![(PVH_INFO_START, info.start_info.bytes_spec())]
}

impl PvhBootInfo {
    /// The bytes to write into guest memory and where, in the order to write them.
    pub fn guest_writes(&self) -> (r: Vec<(u64, Vec<u8>)>)
        requires
            self.memmap@.len() <= 0x1_0000_0000,
        ensures
            r@.map_values(|w: (u64, Vec<u8>)| (w.0, w.1@)) == boot_writes(*self),
    {
        let ghost target = boot_writes(*self);
        let mut writes: Vec<(u64, Vec<u8>)> = Vec::new();
        if let Some(m) = &self.modlist {
            writes.push((MODLIST_START, m.to_bytes()));
        }
        let ghost head = writes@.map_values(|w: (u64, Vec<u8>)| (w.0, w.1@));
        assert(head =~= match self.modlist {
            Some(m) => seq![(MODLIST_START, m.bytes_spec())],
            None => Seq::empty(),
        });
        assert(head + Seq::new(
            0,
            |j: int| ((MEMMAP_START + MEMMAP_ENTRY_SIZE * j) as u64, self.memmap@[j].bytes_spec()),
        ) =~= head);
        let n = self.memmap.len();
        let mut i: usize = 0;
        let mut addr: u64 = MEMMAP_START;
        while i < n
            invariant
                n == self.memmap@.len(),
                n <= 0x1_0000_0000,
                i <= n,
                addr == MEMMAP_START + MEMMAP_ENTRY_SIZE * i,
                writes@.map_values(|w: (u64, Vec<u8>)| (w.0, w.1@)) == head + Seq::new(
                    i as nat,
                    |j: int| ((MEMMAP_START + MEMMAP_ENTRY_SIZE * j) as u64, self.memmap@[j].bytes_spec()),
                ),
            decreases n - i,
        {
            let bytes = self.memmap[i].to_bytes();
            let ghost before = writes@;
            writes.push((addr, bytes));
            assert(writes@.map_values(|w: (u64, Vec<u8>)| (w.0, w.1@)) =~= before.map_values(
                |w: (u64, Vec<u8>)| (w.0, w.1@),
            ).push((addr, bytes@)));
            assert(head + Seq::new(
                (i + 1) as nat,
                |j: int| ((MEMMAP_START + MEMMAP_ENTRY_SIZE * j) as u64, self.memmap@[j].bytes_spec()),
            ) =~= (head + Seq::new(
                i as nat,
                |j: int| ((MEMMAP_START + MEMMAP_ENTRY_SIZE * j) as u64, self.memmap@[j].bytes_spec()),
            )).push((addr, bytes@)));
            addr = addr + MEMMAP_ENTRY_SIZE;
            i += 1;
        }
        let ghost before = writes@;
        let info_bytes = self.start_info.to_bytes();
        writes.push((PVH_INFO_START, info_bytes));
        assert(writes@.map_values(|w: (u64, Vec<u8>)| (w.0, w.1@)) =~= before.map_values(
            |w: (u64, Vec<u8>)| (w.0, w.1@),
        ).push((PVH_INFO_START, info_bytes@)));
        assert(writes@.map_values(|w: (u64, Vec<u8>)| (w.0, w.1@)) =~= target);
        writes
    }
}

} // verus!
