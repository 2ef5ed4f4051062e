use arch::layout::{
    EBDA_START, HIGH_RAM_START, MEMMAP_START, MEM_32BIT_RESERVED_START, MODLIST_START, PCI_MMCONFIG_SIZE,
    PCI_MMCONFIG_START, PVH_INFO_START, RAM_64BIT_START, RSDP_POINTER,
};
use arch::pvh::{check_pvh_fits, E820_RAM, E820_RESERVED, XEN_HVM_START_MAGIC_VALUE};
use arch::{
    add_memmap_entry, arch_memory_regions, configure_pvh, initramfs_load_addr, Error, GuestRam, InitramfsConfig,
    MemmapTableEntry, ModlistEntry, RegionType, SgxEpcRegion, StartInfo,
};

fn ram_of(mem_size: u64) -> GuestRam {
    let ram_regions: Vec<(u64, u64)> = arch_memory_regions(mem_size)
        .iter()
        .filter(|r| r.2 == RegionType::Ram)
        .map(|r| (r.0, r.1))
        .collect();
    GuestRam::from_ranges(ram_regions).unwrap()
}

#[test]
fn regions_lt_4gb() {
    let regions = arch_memory_regions(1 << 29);
    assert_eq!(3, regions.len());
    assert_eq!(0, regions[0].0);
    assert_eq!(1u64 << 29, regions[0].1);
}

#[test]
fn regions_gt_4gb() {
    let regions = arch_memory_regions((1 << 32) + 0x8000);
    assert_eq!(4, regions.len());
    assert_eq!(0, regions[0].0);
    assert_eq!(1 << 32, regions[1].0);
}

#[test]
fn regions_at_gap_start_stay_below() {
    let regions = arch_memory_regions(MEM_32BIT_RESERVED_START);
    assert_eq!(
        regions,
        vec![
            (0, MEM_32BIT_RESERVED_START, RegionType::Ram),
            (0xc000_0000, 0x2800_0000, RegionType::SubRegion),
            (0xe800_0000, 0x1800_0000, RegionType::Reserved),
        ]
    );
}

#[test]
fn regions_split_sizes_add_up() {
    let size = (1u64 << 32) + 0x8000;
    let regions = arch_memory_regions(size);
    assert_eq!(regions[0], (0, 0xc000_0000, RegionType::Ram));
    assert_eq!(regions[1], (RAM_64BIT_START, size - 0xc000_0000, RegionType::Ram));
    assert_eq!(regions[0].1 + regions[1].1, size);
    assert_eq!(regions[2].2, RegionType::SubRegion);
    assert_eq!(regions[3].2, RegionType::Reserved);
}

#[test]
fn regions_of_zero_size() {
    let regions = arch_memory_regions(0);
    assert_eq!(regions.len(), 3);
    assert_eq!(regions[0], (0, 0, RegionType::Ram));
}

#[test]
fn test_system_configuration() {
    let gm = GuestRam::from_ranges(vec![(0, 0x10000)]).unwrap();
    let config_err = configure_pvh(&gm, 0, &None, Some(RSDP_POINTER), None);
    assert!(config_err.is_err());

    // Now assigning some memory that falls before the 32bit memory hole.
    let gm = ram_of(128 << 20);
    configure_pvh(&gm, 0, &None, None, None).unwrap();

    // Now assigning some memory that is equal to the start of the 32bit memory hole.
    let gm = ram_of(3328 << 20);
    configure_pvh(&gm, 0, &None, None, None).unwrap();
    configure_pvh(&gm, 0, &None, None, None).unwrap();

    // Now assigning some memory that falls after the 32bit memory hole.
    let gm = ram_of(3330 << 20);
    configure_pvh(&gm, 0, &None, None, None).unwrap();
    configure_pvh(&gm, 0, &None, None, None).unwrap();
}

#[test]
fn test_add_memmap_entry() {
    let mut memmap: Vec<MemmapTableEntry> = Vec::new();

    let expected_memmap = vec![
        MemmapTableEntry { addr: 0x0, size: 0x1000, type_: E820_RAM, ..Default::default() },
        MemmapTableEntry { addr: 0x10000, size: 0xa000, type_: E820_RESERVED, ..Default::default() },
    ];

    add_memmap_entry(&mut memmap, 0, 0x1000, E820_RAM);
    add_memmap_entry(&mut memmap, 0x10000, 0xa000, E820_RESERVED);

    assert_eq!(format!("{:?}", memmap), format!("{:?}", expected_memmap));
}

#[test]
fn rsdp_past_ram_end() {
    let gm = GuestRam::from_ranges(vec![(0, 0x10000)]).unwrap();
    assert_eq!(configure_pvh(&gm, 0, &None, Some(RSDP_POINTER), None).unwrap_err(), Error::RsdpPastRamEnd);
}

#[test]
fn memmap_past_ram_end_writes_nothing() {
    // RAM ends before the memory map does.
    let gm = GuestRam::from_ranges(vec![(0, 0x7000), (HIGH_RAM_START, 0x10_0000)]).unwrap();
    assert_eq!(configure_pvh(&gm, 0x2_0000, &None, None, None).unwrap_err(), Error::MemmapTablePastRamEnd);
}

#[test]
fn start_info_past_ram_end() {
    // The memory map fits, the start-info block does not.
    let gm = GuestRam::from_ranges(vec![(0, 0x5000), (0x7000, 0x1000), (HIGH_RAM_START, 0x10_0000)]).unwrap();
    assert_eq!(configure_pvh(&gm, 0x2_0000, &None, None, None).unwrap_err(), Error::StartInfoPastRamEnd);
}

#[test]
fn pvh_memmap_below_gap() {
    let gm = ram_of(128 << 20);
    let info = configure_pvh(&gm, 0x2_0000, &None, Some(RSDP_POINTER), None).unwrap();
    assert_eq!(
        info.memmap,
        vec![
            MemmapTableEntry { addr: 0, size: EBDA_START, type_: E820_RAM, reserved: 0 },
            MemmapTableEntry { addr: HIGH_RAM_START, size: (128 << 20) - HIGH_RAM_START, type_: E820_RAM, reserved: 0 },
            MemmapTableEntry { addr: PCI_MMCONFIG_START, size: PCI_MMCONFIG_SIZE, type_: E820_RESERVED, reserved: 0 },
        ]
    );
    assert_eq!(
        info.start_info,
        StartInfo {
            magic: XEN_HVM_START_MAGIC_VALUE,
            version: 1,
            flags: 0,
            nr_modules: 0,
            modlist_paddr: 0,
            cmdline_paddr: 0x2_0000,
            rsdp_paddr: RSDP_POINTER,
            memmap_paddr: MEMMAP_START,
            memmap_entries: 3,
            reserved: 0,
        }
    );
    assert_eq!(info.modlist, None);
}

#[test]
fn pvh_memmap_above_4gb_with_initramfs_and_sgx() {
    let size = (1u64 << 32) + 0x10_0000;
    let gm = ram_of(size);
    let initramfs = Some(InitramfsConfig { address: 0x800_0000, size: 0x1000 });
    let mut sgx = SgxEpcRegion::new(0x2_0000_0000, 0x400_0000);
    sgx.insert(String::from("section0"), arch::SgxEpcSection::new(0x2_0000_0000, 0x400_0000));
    let info = configure_pvh(&gm, 0x2_0000, &initramfs, None, Some(sgx)).unwrap();
    assert_eq!(info.memmap.len(), 5);
    assert_eq!(info.memmap[1].size, MEM_32BIT_RESERVED_START - HIGH_RAM_START);
    assert_eq!(info.memmap[2], MemmapTableEntry { addr: RAM_64BIT_START, size: 0x4010_0000, type_: E820_RAM, reserved: 0 });
    assert_eq!(info.memmap[4], MemmapTableEntry { addr: 0x2_0000_0000, size: 0x400_0000, type_: E820_RESERVED, reserved: 0 });
    assert_eq!(info.start_info.nr_modules, 1);
    assert_eq!(info.start_info.modlist_paddr, MODLIST_START);
    assert_eq!(info.start_info.memmap_entries, 5);
    assert_eq!(info.modlist, Some(ModlistEntry { paddr: 0x800_0000, size: 0x1000, cmdline_paddr: 0, reserved: 0 }));

    let writes = info.guest_writes();
    assert_eq!(writes.len(), 1 + 5 + 1);
    assert_eq!(writes[0].0, MODLIST_START);
    assert_eq!(writes[0].1.len(), 32);
    assert_eq!(&writes[0].1[0..8], &[0, 0, 0, 8, 0, 0, 0, 0]);
    for i in 0..5 {
        assert_eq!(writes[1 + i].0, MEMMAP_START + 24 * i as u64);
        assert_eq!(writes[1 + i].1.len(), 24);
    }
    assert_eq!(&writes[3].1[0..8], &[0, 0, 0, 0, 1, 0, 0, 0]);
    assert_eq!(&writes[3].1[16..20], &[1, 0, 0, 0]);
    assert_eq!(writes[6].0, PVH_INFO_START);
    assert_eq!(writes[6].1.len(), 56);
    assert_eq!(&writes[6].1[0..4], &[0x78, 0xc5, 0x6e, 0x33]);
    assert_eq!(&writes[6].1[4..8], &[1, 0, 0, 0]);
    assert_eq!(&writes[6].1[48..52], &[5, 0, 0, 0]);
}

#[test]
fn start_info_encoding() {
    let s = StartInfo {
        magic: XEN_HVM_START_MAGIC_VALUE,
        version: 1,
        flags: 0,
        nr_modules: 1,
        modlist_paddr: 0x6040,
        cmdline_paddr: 0x1_0002_0000,
        rsdp_paddr: 0xa0000,
        memmap_paddr: 0x7000,
        memmap_entries: 4,
        reserved: 0,
    };
    let b = s.to_bytes();
    let expected: Vec<u8> = vec![
        0x78, 0xc5, 0x6e, 0x33, 1, 0, 0, 0, 0, 0, 0, 0, 1, 0, 0, 0, 0x40, 0x60, 0, 0, 0, 0, 0, 0, 0, 0, 2, 0, 1, 0, 0,
        0, 0, 0, 0x0a, 0, 0, 0, 0, 0, 0, 0x70, 0, 0, 0, 0, 0, 0, 4, 0, 0, 0, 0, 0, 0, 0,
    ];
    assert_eq!(b, expected);
}

#[test]
fn initramfs_address_is_page_aligned_top_of_low_ram() {
    let gm = ram_of(128 << 20);
    assert_eq!(initramfs_load_addr(&gm, 0x1800, 0x1000), Ok((128 << 20) - 0x2000));
    assert_eq!(initramfs_load_addr(&gm, 128 << 20, 0x1000), Ok(0));
    assert_eq!(initramfs_load_addr(&gm, (128 << 20) + 1, 0x1000), Err(Error::InitramfsAddress));
    let no_zero = GuestRam::from_ranges(vec![(0x1000, 0x1000)]).unwrap();
    assert_eq!(initramfs_load_addr(&no_zero, 0x10, 0x1000), Err(Error::InitramfsAddress));
}

#[test]
fn guest_ram_rejects_overlap_and_empty() {
    assert!(GuestRam::from_ranges(vec![]).is_none());
    assert!(GuestRam::from_ranges(vec![(0, 0)]).is_none());
    assert!(GuestRam::from_ranges(vec![(0, 0x2000), (0x1000, 0x1000)]).is_none());
    let gm = GuestRam::from_ranges(vec![(0, 0x1000), (0x1000, 0x1000)]).unwrap();
    assert_eq!(gm.last_addr(), 0x1fff);
    assert!(gm.address_in_range(0x1fff));
    assert!(!gm.address_in_range(0x2000));
    assert_eq!(gm.checked_offset(0x1000, 0xfff), Some(0x1fff));
    assert_eq!(gm.checked_offset(0x1000, 0x1000), None);
}

#[test]
fn mptable_follows_smbios_on_16_byte_boundary() {
    assert_eq!(arch::pvh::mptable_start(0), 0xf0010);
    assert_eq!(arch::pvh::mptable_start(0x1f), 0xf0020);
    assert_eq!(arch::pvh::mptable_start(0x20), 0xf0030);
    assert_eq!(arch::pvh::EBDA_SEGMENT as u64, EBDA_START >> 4);
}

#[test]
fn small_ram_memmap_past_end() {
    // 64 KiB would hold everything; this RAM stops inside the memory map.
    let gm = GuestRam::from_ranges(vec![(0, 0x7010)]).unwrap();
    assert_eq!(configure_pvh(&gm, 0, &None, None, None).unwrap_err(), Error::MemmapTablePastRamEnd);
}

#[test]
fn small_ram_start_info_past_end() {
    let gm = GuestRam::from_ranges(vec![(0, 0x5000), (0x7000, 0x1000)]).unwrap();
    assert_eq!(configure_pvh(&gm, 0, &None, None, None).unwrap_err(), Error::StartInfoPastRamEnd);
}

#[test]
fn small_ram_rsdp_past_end() {
    let gm = GuestRam::from_ranges(vec![(0, 0x10000)]).unwrap();
    assert_eq!(check_pvh_fits(&gm, Some(RSDP_POINTER), false), Err(Error::RsdpPastRamEnd));
    assert_eq!(check_pvh_fits(&gm, None, false), Ok(()));
}

#[test]
fn memmap_must_lie_wholly_in_ram() {
    // A hole inside the table is caught, not only its end.
    let gm = GuestRam::from_ranges(vec![(0, 0x7010), (0x7020, 0x1000), (HIGH_RAM_START, 0x10_0000)]).unwrap();
    assert_eq!(configure_pvh(&gm, 0, &None, None, None).unwrap_err(), Error::MemmapTablePastRamEnd);
    // A table that ends exactly where RAM ends fits: 3 entries of 24 bytes.
    let gm = GuestRam::from_ranges(vec![(0, 0x7048)]).unwrap();
    assert_eq!(check_pvh_fits(&gm, None, false), Ok(()));
    let gm = GuestRam::from_ranges(vec![(0, 0x7047)]).unwrap();
    assert_eq!(check_pvh_fits(&gm, None, false), Err(Error::MemmapTablePastRamEnd));
    // With an SGX area the table has one more entry.
    assert_eq!(
        check_pvh_fits(&GuestRam::from_ranges(vec![(0, 0x7048)]).unwrap(), None, true),
        Err(Error::MemmapTablePastRamEnd)
    );
}

#[test]
fn range_in_ram_spans_adjacent_regions() {
    let gm = GuestRam::from_ranges(vec![(0, 0x1000), (0x1000, 0x1000), (0x3000, 0x1000)]).unwrap();
    assert!(gm.range_in_ram(0xff0, 0x20));
    assert!(gm.range_in_ram(0, 0x2000));
    assert!(!gm.range_in_ram(0, 0x2001));
    assert!(!gm.range_in_ram(0x1ff0, 0x1020));
    assert!(gm.range_in_ram(0x2800, 0));
}
