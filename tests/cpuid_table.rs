use arch::compat::CpuidCompatibleCheck;
use arch::sgx::update_cpuid_sgx;
use arch::topology::update_cpuid_topology;
use arch::{
    generate_common_cpuid, get_host_cpu_phys_bits, vcpu_cpuid, vcpu_setup_steps, CpuIdEntry, CpuidFeatureEntry,
    CpuidLeaf, CpuidPatch, CpuidReg, Error, HostCpuid, SgxEpcSection, TdxCapabilities, VcpuSetupStep,
    CPUID_FLAG_VALID_INDEX,
};

fn entry(function: u32, index: u32, eax: u32, ebx: u32, ecx: u32, edx: u32) -> CpuIdEntry {
    CpuIdEntry { function, index, flags: 0, eax, ebx, ecx, edx }
}

fn leaf(eax: u32, ebx: u32, ecx: u32, edx: u32) -> CpuidLeaf {
    CpuidLeaf { eax, ebx, ecx, edx }
}

fn host() -> HostCpuid {
    HostCpuid {
        max_extended_leaf: 0x8000_0008,
        l2_cache: leaf(0x11, 0x22, 0x33, 0x44),
        brand_string: [leaf(1, 2, 3, 4), leaf(5, 6, 7, 8), leaf(9, 10, 11, 12)],
        sgx_epc_ecx: 0x1234_5671,
    }
}

fn find(t: &[CpuIdEntry], function: u32, index: u32) -> Option<CpuIdEntry> {
    t.iter().find(|e| e.function == function && e.index == index).copied()
}

fn sgx_capable() -> Vec<CpuIdEntry> {
    vec![entry(7, 0, 0, 1 << 2, 1 << 30, 0), entry(0x12, 0, 1, 0, 0, 0)]
}

#[test]
fn set_cpuid_reg_overwrites_matching_entry() {
    let mut t = vec![entry(0xb, 0, 1, 2, 3, 4), entry(0xb, 1, 5, 6, 7, 8)];
    CpuidPatch::set_cpuid_reg(&mut t, 0xb, Some(1), CpuidReg::EBX, 0xff);
    assert_eq!(t, vec![entry(0xb, 0, 1, 2, 3, 4), entry(0xb, 1, 5, 0xff, 7, 8)]);
}

#[test]
fn set_cpuid_reg_appends_missing_subleaf() {
    let mut t = vec![entry(1, 0, 1, 2, 3, 4)];
    CpuidPatch::set_cpuid_reg(&mut t, 0x1f, Some(2), CpuidReg::ECX, 5 << 8);
    assert_eq!(t.len(), 2);
    assert_eq!(
        t[1],
        CpuIdEntry { function: 0x1f, index: 2, flags: CPUID_FLAG_VALID_INDEX, eax: 0, ebx: 0, ecx: 0x500, edx: 0 }
    );
}

#[test]
fn set_cpuid_reg_broadcast_without_leaf_is_noop() {
    let mut t = vec![entry(1, 0, 1, 2, 3, 4)];
    CpuidPatch::set_cpuid_reg(&mut t, 0xb, None, CpuidReg::EDX, 7);
    assert_eq!(t, vec![entry(1, 0, 1, 2, 3, 4)]);
}

#[test]
fn broadcast_apic_id_reaches_every_subleaf() {
    let t = vec![entry(0xb, 0, 1, 1, 0x100, 0), entry(0xb, 1, 1, 2, 0x200, 0), entry(0x1f, 2, 3, 4, 0x500, 9), entry(1, 0, 0, 0, 0, 0x55)];
    let v = vcpu_cpuid(t, 3);
    for e in &v {
        if e.function == 0xb || e.function == 0x1f {
            assert_eq!(e.edx, 3);
        }
    }
    assert_eq!(v[3], entry(1, 0, 0, 0, 0, 0x55));
    assert_eq!(v.len(), 4);
}

#[test]
fn patches_set_bits_and_keep_existing_ones() {
    let patch = || {
        vec![CpuidPatch {
            function: 1,
            index: 0,
            flags_bit: None,
            eax_bit: Some(0),
            ebx_bit: None,
            ecx_bit: Some(31),
            edx_bit: Some(12),
        }]
    };
    let mut t = vec![entry(1, 0, 0x10, 0x20, 0x1, 0x2), entry(1, 1, 0, 0, 0, 0)];
    CpuidPatch::patch_cpuid(&mut t, patch());
    let once = t.clone();
    assert_eq!(once[0], entry(1, 0, 0x11, 0x20, 0x8000_0001, 0x1002));
    assert_eq!(once[1], entry(1, 1, 0, 0, 0, 0));
    CpuidPatch::patch_cpuid(&mut t, patch());
    assert_eq!(t, once);
}

#[test]
fn feature_enabled_reads_first_matching_entry() {
    let t = vec![entry(7, 0, 0, 1 << 2, 0, 0), entry(7, 0, 0, 0, 0, 0)];
    assert!(CpuidPatch::is_feature_enabled(&t, 7, 0, CpuidReg::EBX, 2));
    assert!(!CpuidPatch::is_feature_enabled(&t, 7, 0, CpuidReg::EBX, 3));
    assert!(!CpuidPatch::is_feature_enabled(&t, 7, 1, CpuidReg::EBX, 2));
}

#[test]
fn feature_entry_list_has_seventeen_rules() {
    let l = CpuidFeatureEntry::checked_feature_entry_list();
    assert_eq!(l.len(), 17);
    assert_eq!(
        l[0],
        CpuidFeatureEntry {
            function: 1,
            index: 0,
            feature_reg: CpuidReg::ECX,
            compatible_check: CpuidCompatibleCheck::BitwiseSubset
        }
    );
    assert_eq!(l[10].compatible_check, CpuidCompatibleCheck::Equal);
    assert_eq!(l[2].compatible_check, CpuidCompatibleCheck::NumNotGreater);
}

#[test]
fn features_read_zero_for_missing_entries() {
    let t = vec![entry(1, 0, 0, 0, 0xaa, 0xbb)];
    let l = CpuidFeatureEntry::checked_feature_entry_list();
    let f = CpuidFeatureEntry::get_features_from_cpuid(&t, &l);
    assert_eq!(f.len(), 17);
    assert_eq!(f[0], 0xaa);
    assert_eq!(f[1], 0xbb);
    assert!(f[2..].iter().all(|v| *v == 0));
}

fn rich_table() -> Vec<CpuIdEntry> {
    vec![
        entry(1, 0, 0, 0, 0xffff_0000, 0x0000_ffff),
        entry(7, 0, 2, 0xf, 0xf0, 0x3),
        entry(7, 1, 0x10, 0, 0, 0),
        entry(0x4000_0000, 0, 0x4000_0001, 0x4b4d_564b, 0x564b_4d56, 0x4d),
        entry(0x4000_0001, 0, 0x7ff, 0, 0, 0),
    ]
}

#[test]
fn table_is_compatible_with_itself() {
    let t = rich_table();
    assert_eq!(CpuidFeatureEntry::check_cpuid_compatibility(&t, &t), Ok(()));
    assert!(CpuidFeatureEntry::incompatible_features(&t, &t).is_empty());
}

#[test]
fn cleared_destination_bit_is_incompatible() {
    let src = rich_table();
    let mut dest = rich_table();
    dest[0].ecx &= !(1 << 20);
    assert_eq!(CpuidFeatureEntry::check_cpuid_compatibility(&src, &dest), Err(Error::CpuidCheckCompatibility));
    let failing = CpuidFeatureEntry::incompatible_features(&src, &dest);
    assert_eq!(
        failing,
        vec![CpuidFeatureEntry {
            function: 1,
            index: 0,
            feature_reg: CpuidReg::ECX,
            compatible_check: CpuidCompatibleCheck::BitwiseSubset
        }]
    );
    // The other direction is fine: the destination offers more.
    assert_eq!(CpuidFeatureEntry::check_cpuid_compatibility(&dest, &src), Ok(()));
}

#[test]
fn every_failing_rule_is_reported() {
    let src = rich_table();
    let mut dest = rich_table();
    dest[1].eax = 1; // fewer sub-leaves of leaf 7
    dest[3].ebx = 0; // another signature
    let failing = CpuidFeatureEntry::incompatible_features(&src, &dest);
    assert_eq!(failing.len(), 2);
    assert_eq!((failing[0].function, failing[0].feature_reg), (7, CpuidReg::EAX));
    assert_eq!((failing[1].function, failing[1].feature_reg), (0x4000_0000, CpuidReg::EBX));
    // Equal rules hold in neither direction.
    assert!(CpuidFeatureEntry::check_cpuid_compatibility(&dest, &src).is_err());
}

#[test]
fn topology_leaves() {
    let mut t: Vec<CpuIdEntry> = Vec::new();
    update_cpuid_topology(&mut t, 2, 4, 2);
    let v = CPUID_FLAG_VALID_INDEX;
    let e = |function, index, eax, ebx, ecx| CpuIdEntry { function, index, flags: v, eax, ebx, ecx, edx: 0 };
    assert_eq!(
        t,
        vec![
            e(0xb, 0, 1, 2, 0x100),
            e(0xb, 1, 4, 16, 0x200),
            e(0x1f, 0, 1, 2, 0x100),
            e(0x1f, 1, 3, 8, 0x200),
            e(0x1f, 2, 4, 16, 0x500),
        ]
    );
}

#[test]
fn topology_single_thread_has_zero_width() {
    let mut t: Vec<CpuIdEntry> = Vec::new();
    update_cpuid_topology(&mut t, 1, 3, 1);
    assert_eq!(t[0].eax, 0);
    assert_eq!(t[1].eax, 2);
    assert_eq!(t[1].ebx, 3);
}

#[test]
fn sgx_subleaves_and_terminator() {
    let mut t = sgx_capable();
    let sections = vec![
        SgxEpcSection::new(0x1_8000_0000, 0x400_0000),
        SgxEpcSection::new(0x2_0000_0000, 0x1_0000_1000),
    ];
    update_cpuid_sgx(&mut t, sections, 0x1234_5671).unwrap();
    assert_eq!(t.len(), 2 + 3);
    let v = CPUID_FLAG_VALID_INDEX;
    assert_eq!(t[2], CpuIdEntry { function: 0x12, index: 2, flags: v, eax: 0x8000_0001, ebx: 1, ecx: 0x400_0001, edx: 0 });
    assert_eq!(t[3], CpuIdEntry { function: 0x12, index: 3, flags: v, eax: 1, ebx: 2, ecx: 0x1001, edx: 1 });
    assert_eq!(t[4], CpuIdEntry { function: 0x12, index: 4, flags: v, eax: 0, ebx: 0, ecx: 0, edx: 0 });
}

#[test]
fn sgx_errors_leave_table_unchanged() {
    let one = || vec![SgxEpcSection::new(0x1_0000_0000, 0x1000)];
    let mut t = sgx_capable();
    assert_eq!(update_cpuid_sgx(&mut t, vec![], 0), Err(Error::NoSgxEpcSection));
    assert_eq!(t, sgx_capable());

    let mut t = vec![entry(7, 0, 0, 0, 1 << 30, 0)];
    assert_eq!(update_cpuid_sgx(&mut t, one(), 0), Err(Error::MissingSgxFeature));
    assert_eq!(t, vec![entry(7, 0, 0, 0, 1 << 30, 0)]);

    let mut t = vec![entry(7, 0, 0, 1 << 2, 0, 0)];
    assert_eq!(update_cpuid_sgx(&mut t, one(), 0), Err(Error::MissingSgxLaunchControlFeature));
    assert_eq!(t.len(), 1);
}

#[test]
fn common_cpuid_without_hyperv() {
    let supported = vec![
        entry(1, 0, 0, 0, 0, 0),
        entry(0x8000_0006, 0, 0, 0, 0, 0),
        entry(0x8000_0008, 0, 0x3030, 0, 0, 0),
        entry(0x4000_0001, 0, 0xffff_ffff, 0, 0, 0),
        entry(0x8000_0003, 0, 0xdead, 0, 0, 0),
    ];
    let t = generate_common_cpuid(supported, None, None, 40, false, &host(), None).unwrap();
    let l1 = find(&t, 1, 0).unwrap();
    assert_eq!(l1.ecx, (1 << 24) | (1 << 31));
    assert_eq!(l1.edx, 1 << 12);
    assert_eq!(find(&t, 0x8000_0006, 0).unwrap(), entry(0x8000_0006, 0, 0x11, 0x22, 0x33, 0x44));
    assert_eq!(find(&t, 0x8000_0008, 0).unwrap().eax, 0x3028);
    assert_eq!(find(&t, 0x4000_0001, 0).unwrap().eax, !(1u32 << 14));
    assert_eq!(find(&t, 0x8000_0002, 0).unwrap(), entry(0x8000_0002, 0, 1, 2, 3, 4));
    assert_eq!(find(&t, 0x8000_0003, 0).unwrap(), entry(0x8000_0003, 0, 5, 6, 7, 8));
    assert_eq!(find(&t, 0x8000_0004, 0).unwrap(), entry(0x8000_0004, 0, 9, 10, 11, 12));
    assert_eq!(t.iter().filter(|e| e.function == 0x8000_0003).count(), 1);
    assert_eq!(t.len(), 7);
}

#[test]
fn common_cpuid_with_hyperv_and_tdx() {
    let supported = vec![
        entry(0x4000_0000, 0, 0x4000_0001, 0x4b4d_564b, 0x564b_4d56, 0x4d),
        entry(0x4000_0001, 0, 0xffff_ffff, 0, 0, 0),
        entry(0xd, 0, 0xffff_ffff, 0, 0, 0xffff_ffff),
        entry(0xd, 1, 0, 0, 0xffff_ffff, 0xffff_ffff),
    ];
    let caps = TdxCapabilities { xfam_fixed0: 0x0000_0000_0006_02e7, xfam_fixed1: 0x3 };
    let t = generate_common_cpuid(supported, Some((1, 1, 1)), None, 46, true, &host(), Some(caps)).unwrap();
    let sig = find(&t, 0x4000_0000, 0).unwrap();
    assert_eq!(sig, entry(0x4000_0000, 0, 0x4000_000a, 0x756e_694c, 0x564b_2078, 0x7648_204d));
    assert_eq!(find(&t, 0x4000_0001, 0).unwrap(), entry(0x4000_0001, 0, 0x3123_7648, 0, 0, 0));
    assert_eq!(find(&t, 0x4000_0003, 0).unwrap(), entry(0x4000_0003, 0, 0x20e, 0, 0, 8));
    assert_eq!(find(&t, 0x4000_0004, 0).unwrap().eax, 0x20);
    assert_eq!(find(&t, 0x4000_000a, 0).unwrap(), entry(0x4000_000a, 0, 0, 0, 0, 0));
    assert_eq!(t.iter().filter(|e| e.function == 0x4000_0000).count(), 1);
    assert_eq!(find(&t, 0xd, 0).unwrap().eax, 0x2e7 & 0x82ff | 0x3);
    assert_eq!(find(&t, 0xd, 0).unwrap().edx, 0);
    assert_eq!(find(&t, 0xd, 1).unwrap().ecx, 0x6_0000 | 0x0000);
    assert_eq!(find(&t, 0xb, 1).unwrap().ebx, 1);
}

#[test]
fn common_cpuid_tdx_clears_kvm_features() {
    let supported = vec![entry(0x4000_0001, 0, 0xffff_ffff, 0, 0, 0)];
    let caps = TdxCapabilities { xfam_fixed0: u64::MAX, xfam_fixed1: 0 };
    let t = generate_common_cpuid(supported, None, None, 46, false, &host(), Some(caps)).unwrap();
    let cleared = (1u32 << 14) | 1 | (1 << 3) | (1 << 24) | (1 << 4) | (1 << 10) | (1 << 5);
    assert_eq!(find(&t, 0x4000_0001, 0).unwrap().eax, !cleared);
}

#[test]
fn common_cpuid_sgx_error_propagates() {
    let supported = vec![entry(7, 0, 0, 0, 0, 0)];
    let r = generate_common_cpuid(supported, None, Some(vec![SgxEpcSection::new(0, 0x1000)]), 46, false, &host(), None);
    assert_eq!(r, Err(Error::MissingSgxFeature));
}

#[test]
fn common_cpuid_sgx_uses_host_epc_properties() {
    let t = generate_common_cpuid(sgx_capable(), None, Some(vec![SgxEpcSection::new(0x1000, 0x2000)]), 46, false, &host(), None)
        .unwrap();
    assert_eq!(find(&t, 0x12, 2).unwrap().ecx, 0x2001);
    assert_eq!(find(&t, 0x12, 3).unwrap().eax, 0);
}

#[test]
fn host_phys_bits() {
    let intel = leaf(0x8000_0008, 0x756e_6547, 0x6c65_746e, 0x4965_6e69);
    assert_eq!(get_host_cpu_phys_bits(intel, leaf(1, 0xffff_ffff, 0, 0), leaf(0x3027, 0, 0, 0)), 39);
    let amd = leaf(0x8000_0021, 0x6874_7541, 0x444d_4163, 0x6974_6e65);
    assert_eq!(get_host_cpu_phys_bits(amd, leaf(1, 5 << 6, 0, 0), leaf(0x3030, 0, 0, 0)), 43);
    assert_eq!(get_host_cpu_phys_bits(amd, leaf(0, 5 << 6, 0, 0), leaf(0x3030, 0, 0, 0)), 48);
    assert_eq!(get_host_cpu_phys_bits(leaf(0x8000_0004, 0, 0, 0), leaf(0, 0, 0, 0), leaf(0, 0, 0, 0)), 36);
}

#[test]
fn vcpu_steps_follow_boot_setup() {
    assert_eq!(
        vcpu_setup_steps(true, Some(0x100_0000)),
        vec![
            VcpuSetupStep::SetCpuid,
            VcpuSetupStep::EnableHypervSynic,
            VcpuSetupStep::SetupMsrs,
            VcpuSetupStep::SetupRegs(0x100_0000),
            VcpuSetupStep::SetupFpu,
            VcpuSetupStep::SetupSregs,
            VcpuSetupStep::SetLint,
        ]
    );
    assert_eq!(
        vcpu_setup_steps(false, None),
        vec![VcpuSetupStep::SetCpuid, VcpuSetupStep::SetupMsrs, VcpuSetupStep::SetLint]
    );
}

#[test]
fn sgx_overwrites_existing_subleaves() {
    let mut t = sgx_capable();
    t.push(entry(0x12, 2, 0xdead, 0xbeef, 0xf00d, 0xcafe));
    t.push(entry(0x12, 3, 7, 7, 7, 7));
    update_cpuid_sgx(&mut t, vec![SgxEpcSection::new(0x1000, 0x2000)], 0).unwrap();
    assert_eq!(t.len(), 4);
    assert_eq!(t[2], entry(0x12, 2, 0x1001, 0, 0x2000, 0));
    assert_eq!(t[3], entry(0x12, 3, 0, 0, 0, 0));
}
