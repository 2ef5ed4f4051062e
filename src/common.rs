//! The CPUID table shared by every vCPU of a guest, and the per-vCPU copy.

use crate::cpuid::{patched_table, CpuIdEntry, CpuidPatch};
use crate::error::Error;
use crate::sgx::{sgx_outcome, sgx_table, update_cpuid_sgx, SgxEpcSection};
use crate::topology::{topology_table, update_cpuid_topology};
use vstd::prelude::*;

verus! {

// CPUID feature bits
/// TSC deadline timer, ECX of leaf 0x1.
pub const TSC_DEADLINE_TIMER_ECX_BIT: u8 = 24;
/// Running under a hypervisor, ECX of leaf 0x1.
pub const HYPERVISOR_ECX_BIT: u8 = 31;
/// Memory type range registers, EDX of leaf 0x1.
pub const MTRR_EDX_BIT: u8 = 12;

// KVM feature bits, EAX of leaf 0x4000_0001
pub const KVM_FEATURE_ASYNC_PF_INT_BIT: u32 = 14;
pub const KVM_FEATURE_CLOCKSOURCE_BIT: u32 = 0;
pub const KVM_FEATURE_CLOCKSOURCE2_BIT: u32 = 3;
pub const KVM_FEATURE_CLOCKSOURCE_STABLE_BIT: u32 = 24;
pub const KVM_FEATURE_ASYNC_PF_BIT: u32 = 4;
pub const KVM_FEATURE_ASYNC_PF_VMEXIT_BIT: u32 = 10;
pub const KVM_FEATURE_STEAL_TIME_BIT: u32 = 5;

/// The four registers that one CPUID query on the host returned.
#[derive(Clone, Copy, Debug, PartialEq, Eq, Structural)]
pub struct CpuidLeaf {
    pub eax: u32,
    pub ebx: u32,
    pub ecx: u32,
    pub edx: u32,
}

/// What the table builder reads from the host processor itself.
#[derive(Clone, Copy, Debug)]
pub struct HostCpuid {
    /// EAX of leaf 0x8000_0000: the highest extended leaf.
    pub max_extended_leaf: u32,
    /// Leaf 0x8000_0006: the L2 cache description.
    pub l2_cache: CpuidLeaf,
    /// Leaves 0x8000_0002 to 0x8000_0004: the processor brand string.
    pub brand_string: [CpuidLeaf; 3],
    /// ECX of leaf 0x12 sub-leaf 2: the EPC properties.
    pub sgx_epc_ecx: u32,
}

/// The XFAM bits that a TDX module requires cleared and set.
#[derive(Clone, Copy, Debug, PartialEq, Eq, Structural)]
pub struct TdxCapabilities {
    pub xfam_fixed0: u64,
    pub xfam_fixed1: u64,
}

/// Shape of the guest's processors: threads per core, cores per die, dies per package.
pub open spec fn topology_valid(t: (u8, u8, u8)) -> bool {
    &&& t.0 >= 1
    &&& t.1 >= 1
    &&& t.2 >= 1
    &&& t.2 * t.1 * t.0 <= u8::MAX
}

pub open spec fn patch(function: u32, index: u32, ecx_bit: Option<u8>, edx_bit: Option<u8>) -> CpuidPatch {
    CpuidPatch { function, index, flags_bit: None, eax_bit: None, ebx_bit: None, ecx_bit, edx_bit }
}

/// The bits that every guest sees set in leaf 0x1.
pub open spec fn common_patches() -> Seq<CpuidPatch> {
    seq![
        patch(1, 0, Some(TSC_DEADLINE_TIMER_ECX_BIT), None),
        patch(1, 0, Some(HYPERVISOR_ECX_BIT), None),
        patch(1, 0, None, Some(MTRR_EDX_BIT)),
    ]
}

/// XCR0-managed state components, against the supervisor (XSS) ones.
pub const XCR0_MASK: u64 = 0x82ff;

/// Leaf 0xd under TDX: the user (sub-leaf 0) and supervisor (sub-leaf 1)
/// state masks cut to what the fixed-0 mask allows and grown by the fixed-1 mask.
pub open spec fn tdx_xsave_entry(e: CpuIdEntry, caps: TdxCapabilities) -> CpuIdEntry {
    let xss_mask: u64 = !XCR0_MASK;
    if e.index == 0 {
        CpuIdEntry {
            eax: (e.eax & ((caps.xfam_fixed0 as u32) & (XCR0_MASK as u32))) | ((caps.xfam_fixed1 as u32) & (
            XCR0_MASK as u32)),
            edx: (e.edx & (((caps.xfam_fixed0 & XCR0_MASK) >> 32u64) as u32)) | (((caps.xfam_fixed1
                & XCR0_MASK) >> 32u64) as u32),
            ..e
        }
    } else if e.index == 1 {
        CpuIdEntry {
            ecx: (e.ecx & ((caps.xfam_fixed0 as u32) & (xss_mask as u32))) | ((caps.xfam_fixed1 as u32) & (
            xss_mask as u32)),
            edx: (e.edx & (((caps.xfam_fixed0 & xss_mask) >> 32u64) as u32)) | (((caps.xfam_fixed1
                & xss_mask) >> 32u64) as u32),
            ..e
        }
    } else {
        e
    }
}

/// KVM feature bits that a TDX guest cannot use.
pub open spec fn tdx_unsupported_kvm_features() -> u32 {
    (1u32 << KVM_FEATURE_CLOCKSOURCE_BIT) | (1u32 << KVM_FEATURE_CLOCKSOURCE2_BIT) | (1u32
        << KVM_FEATURE_CLOCKSOURCE_STABLE_BIT) | (1u32 << KVM_FEATURE_ASYNC_PF_BIT) | (1u32
        << KVM_FEATURE_ASYNC_PF_VMEXIT_BIT) | (1u32 << KVM_FEATURE_STEAL_TIME_BIT)
}

/// One entry after the adjustments that depend on its leaf alone.
pub open spec fn adjusted_entry(
    e: CpuIdEntry,
    phys_bits: u8,
    host: HostCpuid,
    tdx: Option<TdxCapabilities>,
) -> CpuIdEntry {
    if e.function == 0xd {
        match tdx {
            Some(caps) => tdx_xsave_entry(e, caps),
            None => e,
        }
    } else if e.function == 0x8000_0006 {
        if e.eax == 0 && e.ebx == 0 && e.ecx == 0 && e.edx == 0 && host.max_extended_leaf >= 0x8000_0006 {
            CpuIdEntry {
                eax: host.l2_cache.eax,
                ebx: host.l2_cache.ebx,
                ecx: host.l2_cache.ecx,
                edx: host.l2_cache.edx,
                ..e
            }
        } else {
            e
        }
    } else if e.function == 0x8000_0008 {
        CpuIdEntry { eax: (e.eax & 0xffff_ff00) | (phys_bits as u32 & 0xff), ..e }
    } else if e.function == 0x4000_0001 {
        let eax = e.eax & !(1u32 << KVM_FEATURE_ASYNC_PF_INT_BIT);
        CpuIdEntry {
            eax: if tdx is Some {
                eax & !tdx_unsupported_kvm_features()
            } else {
                eax
            },
            ..e
        }
    } else {
        e
    }
}

/// `t` without the entries of leaf `function`.
pub open spec fn remove_leaf(t: Seq<CpuIdEntry>, function: u32) -> Seq<CpuIdEntry>
    decreases t.len(),
{
    if t.len() == 0 {
        t
    } else {
        let prev = remove_leaf(t.drop_last(), function);
        if t.last().function == function {
            prev
        } else {
            prev.push(t.last())
        }
    }
}

/// An entry of sub-leaf 0, with no flag, holding the given registers.
pub open spec fn leaf_entry(function: u32, eax: u32, ebx: u32, ecx: u32, edx: u32) -> CpuIdEntry {
    CpuIdEntry { function, index: 0, flags: 0, eax, ebx, ecx, edx }
}

pub open spec fn host_leaf_entry(function: u32, l: CpuidLeaf) -> CpuIdEntry {
    leaf_entry(function, l.eax, l.ebx, l.ecx, l.edx)
}

/// `t` with its brand-string leaves replaced by the host's.
pub open spec fn brand_table(t: Seq<CpuIdEntry>, host: HostCpuid) -> Seq<CpuIdEntry> {
    let t1 = remove_leaf(t, 0x8000_0002).push(host_leaf_entry(0x8000_0002, host.brand_string[0]));
    let t2 = remove_leaf(t1, 0x8000_0003).push(host_leaf_entry(0x8000_0003, host.brand_string[1]));
    remove_leaf(t2, 0x8000_0004).push(host_leaf_entry(0x8000_0004, host.brand_string[2]))
}

/// The Hyper-V interface leaves, 0x4000_0000 to 0x4000_000a.
pub open spec fn hyperv_leaves() -> Seq<CpuIdEntry> {
    seq![
        leaf_entry(0x4000_0000, 0x4000_000a, 0x756e_694c, 0x564b_2078, 0x7648_204d),
        leaf_entry(0x4000_0001, 0x3123_7648, 0, 0, 0),
        leaf_entry(0x4000_0002, 0x3839, 0xa_0000, 0, 0),
        leaf_entry(
            0x4000_0003,
            (1u32 << 1u32) | (1u32 << 2u32) | (1u32 << 3u32) | (1u32 << 9u32),
            0,
            0,
            1u32 << 3u32,
        ),
        leaf_entry(0x4000_0004, 1u32 << 5u32, 0, 0, 0),
    ] + Seq::new(6, |k: int| leaf_entry((0x4000_0005 + k) as u32, 0, 0, 0, 0))
}

/// `t` with the KVM signature and feature leaves replaced by the Hyper-V ones.
pub open spec fn hyperv_table(t: Seq<CpuIdEntry>) -> Seq<CpuIdEntry> {
    remove_leaf(remove_leaf(t, 0x4000_0000), 0x4000_0001) + hyperv_leaves()
}

/// The table after the steps that follow the SGX leaves.
pub open spec fn finished_table(
    t: Seq<CpuIdEntry>,
    phys_bits: u8,
    kvm_hyperv: bool,
    host: HostCpuid,
    tdx: Option<TdxCapabilities>,
) -> Seq<CpuIdEntry> {
    let adjusted = t.map_values(|e: CpuIdEntry| adjusted_entry(e, phys_bits, host, tdx));
    let branded = brand_table(adjusted, host);
    if kvm_hyperv {
        hyperv_table(branded)
    } else {
        branded
    }
}

/// The table after the patches and, when a shape is given, the topology leaves.
pub open spec fn base_table(supported: Seq<CpuIdEntry>, topology: Option<(u8, u8, u8)>) -> Seq<CpuIdEntry> {
    let patched = patched_table(supported, common_patches());
    match topology {
        Some(t) => topology_table(patched, t.0, t.1, t.2),
        None => patched,
    }
}

/// What `generate_common_cpuid` returns.
pub open spec fn common_cpuid(
    supported: Seq<CpuIdEntry>,
    topology: Option<(u8, u8, u8)>,
    sgx_epc_sections: Option<Seq<SgxEpcSection>>,
    phys_bits: u8,
    kvm_hyperv: bool,
    host: HostCpuid,
    tdx: Option<TdxCapabilities>,
) -> Result<Seq<CpuIdEntry>, Error> {
    let base = base_table(supported, topology);
    match sgx_epc_sections {
        Some(secs) => match sgx_outcome(base, secs) {
            Ok(_) => Ok(finished_table(sgx_table(base, secs, host.sgx_epc_ecx), phys_bits, kvm_hyperv, host, tdx)),
            Err(e) => Err(e),
        },
        None => Ok(finished_table(base, phys_bits, kvm_hyperv, host, tdx)),
    }
}

/// The host's physical address width as leaves 0x8000_0000, 0x8000_001f and
/// 0x8000_0008 give it: the width of leaf 0x8000_0008 less the bits that AMD
/// memory encryption (SME) reserves, when the host is an AMD processor with
/// SME enabled; 36 where leaf 0x8000_0008 is missing.
pub open spec fn host_phys_bits(ext: CpuidLeaf, sme: CpuidLeaf, addr_sizes: CpuidLeaf) -> u8 {
    if ext.eax >= 0x8000_0008 {
        ((addr_sizes.eax & 0xff) - sme_reduced_bits(ext, sme)) as u8
    } else {
        36
    }
}

/// The bits that SME reserves, where it is on: bits 11:6 of EBX of leaf 0x8000_001f.
pub open spec fn sme_reduced_bits(ext: CpuidLeaf, sme: CpuidLeaf) -> u32 {
    if ext.eax >= 0x8000_001f && ext.ebx == 0x6874_7541 && ext.ecx == 0x444d_4163 && ext.edx == 0x6974_6e65
        && sme.eax & 0x1 != 0 {
        (sme.ebx >> 6u32) & 0x3f
    } else {
        0
    }
}

/// The physical address bits that AMD SME reserves on this host, from its
/// leaves 0x8000_0000 (`ext`) and 0x8000_001f (`sme`); zero where SME is off.
pub fn sme_reserved_bits(ext: CpuidLeaf, sme: CpuidLeaf) -> (r: u32)
    ensures
        r == sme_reduced_bits(ext, sme),
{
    // Detect and handle AMD SME (Secure Memory Encryption) properly.
    // Some physical address bits may become reserved when the feature is enabled.
    // See AMD64 Architecture Programmer's Manual Volume 2, Section 7.10.1
    if ext.eax >= 0x8000_001f
        && ext.ebx == 0x6874_7541  // Vendor ID: AuthenticAMD
        && ext.ecx == 0x444d_4163 && ext.edx == 0x6974_6e65 && sme.eax & 0x1 != 0 {
        (sme.ebx >> 6) & 0x3f
    } else {
        0
    }
}

/// The host's physical address width from its leaves 0x8000_0000 (`ext`),
/// 0x8000_001f (`sme`) and 0x8000_0008 (`addr_sizes`).
pub fn get_host_cpu_phys_bits(ext: CpuidLeaf, sme: CpuidLeaf, addr_sizes: CpuidLeaf) -> (r: u8)
    requires
        ext.eax >= 0x8000_0008 ==> addr_sizes.eax & 0xff >= sme_reduced_bits(ext, sme),
    ensures
        r == host_phys_bits(ext, sme, addr_sizes),
{
    let reduced = sme_reserved_bits(ext, sme);

    if ext.eax >= 0x8000_0008 {
        let eax = addr_sizes.eax;
        let low = eax & 0xff;
        assert(low <= 0xff) by (bit_vector)
            requires
                low == eax & 0xff,
        ;
        (low - reduced) as u8
    } else {
        36
    }
}

fn adjust_entry(e: CpuIdEntry, phys_bits: u8, host: &HostCpuid, tdx: &Option<TdxCapabilities>) -> (r: CpuIdEntry)
    ensures
        r == adjusted_entry(e, phys_bits, *host, *tdx),
{
    let mut entry = e;
    match entry.function {
        0xd => {
            if let Some(caps) = tdx {
                let xcr0_mask: u64 = XCR0_MASK;
                let xss_mask: u64 = !xcr0_mask;
                let fixed0_low: u32 = #[verifier::truncate] (caps.xfam_fixed0 as u32);
                let fixed1_low: u32 = #[verifier::truncate] (caps.xfam_fixed1 as u32);
                if entry.index == 0 {
                    entry.eax &= fixed0_low & (xcr0_mask as u32);
                    entry.eax |= fixed1_low & (xcr0_mask as u32);
                    entry.edx &= #[verifier::truncate] (((caps.xfam_fixed0 & xcr0_mask) >> 32) as u32);
                    entry.edx |= #[verifier::truncate] (((caps.xfam_fixed1 & xcr0_mask) >> 32) as u32);
                } else if entry.index == 1 {
                    let xss_low: u32 = #[verifier::truncate] (xss_mask as u32);
                    entry.ecx &= fixed0_low & xss_low;
                    entry.ecx |= fixed1_low & xss_low;
                    entry.edx &= #[verifier::truncate] (((caps.xfam_fixed0 & xss_mask) >> 32) as u32);
                    entry.edx |= #[verifier::truncate] (((caps.xfam_fixed1 & xss_mask) >> 32) as u32);
                }
            }
        },
        // Copy host L2 cache details if not populated by KVM
        0x8000_0006 => {
            if entry.eax == 0 && entry.ebx == 0 && entry.ecx == 0 && entry.edx == 0 {
                if host.max_extended_leaf >= 0x8000_0006 {
                    entry.eax = host.l2_cache.eax;
                    entry.ebx = host.l2_cache.ebx;
                    entry.ecx = host.l2_cache.ecx;
                    entry.edx = host.l2_cache.edx;
                }
            }
        },
        // Set CPU physical bits
        0x8000_0008 => {
            entry.eax = (entry.eax & 0xffff_ff00) | (phys_bits as u32 & 0xff);
        },
        // Disable KVM_FEATURE_ASYNC_PF_INT: the asynchronous page fault
        // misbehaves when delivered as an interrupt.
        0x4000_0001 => {
            entry.eax &= !(1u32 << KVM_FEATURE_ASYNC_PF_INT_BIT);
            // These features are not supported by TDX
            if tdx.is_some() {
                entry.eax &= !((1u32 << KVM_FEATURE_CLOCKSOURCE_BIT) | (1u32 << KVM_FEATURE_CLOCKSOURCE2_BIT) | (1u32
                    << KVM_FEATURE_CLOCKSOURCE_STABLE_BIT) | (1u32 << KVM_FEATURE_ASYNC_PF_BIT) | (1u32
                    << KVM_FEATURE_ASYNC_PF_VMEXIT_BIT) | (1u32 << KVM_FEATURE_STEAL_TIME_BIT));
            }
        },
        _ => {},
    }
    entry
}

/// Removes every entry of leaf `function`, keeping the others in order.
pub fn remove_cpuid_leaf(cpuid: &mut Vec<CpuIdEntry>, function: u32)
    ensures
        final(cpuid)@ == remove_leaf(old(cpuid)@, function),
{
    let ghost t = cpuid@;
    let n = cpuid.len();
    let mut kept: Vec<CpuIdEntry> = Vec::new();
    let mut i: usize = 0;
    assert(t.subrange(0, 0) =~= Seq::<CpuIdEntry>::empty());
    while i < n
        invariant
            cpuid@ == t,
            n == t.len(),
            i <= n,
            kept@ == remove_leaf(t.subrange(0, i as int), function),
        decreases n - i,
    {
        let e = cpuid[i];
        assert(t.subrange(0, i + 1).drop_last() =~= t.subrange(0, i as int));
        if e.function != function {
            kept.push(e);
        }
        i += 1;
    }
    assert(t.subrange(0, n as int) =~= t);
    *cpuid = kept;
}

fn push_leaf(cpuid: &mut Vec<CpuIdEntry>, function: u32, eax: u32, ebx: u32, ecx: u32, edx: u32)
    ensures
        final(cpuid)@ == old(cpuid)@.push(leaf_entry(function, eax, ebx, ecx, edx)),
{
    cpuid.push(CpuIdEntry { function, index: 0, flags: 0, eax, ebx, ecx, edx });
}

/// Builds the CPUID table shared by every vCPU from the table that the
/// hypervisor supports: the leaf 0x1 patches, the topology leaves, the SGX
/// leaves, the per-leaf adjustments, the host's brand string and, when asked
/// for, the Hyper-V interface leaves, in that order. `tdx` holds the TDX
/// module's capabilities when the guest is a TDX guest. Fails only as
/// `update_cpuid_sgx` does.
pub fn generate_common_cpuid(
    supported: Vec<CpuIdEntry>,
    topology: Option<(u8, u8, u8)>,
    sgx_epc_sections: Option<Vec<SgxEpcSection>>,
    phys_bits: u8,
    kvm_hyperv: bool,
    host: &HostCpuid,
    tdx: Option<TdxCapabilities>,
) -> (r: Result<Vec<CpuIdEntry>, Error>)
    requires
        topology matches Some(t) ==> topology_valid(t),
    ensures
        match r {
            Ok(v) => common_cpuid(
                supported@,
                topology,
                match sgx_epc_sections {
                    Some(s) => Some(s@),
                    None => None,
                },
                phys_bits,
                kvm_hyperv,
                *host,
                tdx,
            ) == Ok::<Seq<CpuIdEntry>, Error>(v@),
            Err(e) => common_cpuid(
                supported@,
                topology,
                match sgx_epc_sections {
                    Some(s) => Some(s@),
                    None => None,
                },
                phys_bits,
                kvm_hyperv,
                *host,
                tdx,
            ) == Err::<Seq<CpuIdEntry>, Error>(e),
        },
{
    let mut cpuid_patches: Vec<CpuidPatch> = Vec::new();
    // Patch tsc deadline timer bit
    cpuid_patches.push(CpuidPatch {
        function: 1,
        index: 0,
        flags_bit: None,
        eax_bit: None,
        ebx_bit: None,
        ecx_bit: Some(TSC_DEADLINE_TIMER_ECX_BIT),
        edx_bit: None,
    });
    // Patch hypervisor bit
    cpuid_patches.push(CpuidPatch {
        function: 1,
        index: 0,
        flags_bit: None,
        eax_bit: None,
        ebx_bit: None,
        ecx_bit: Some(HYPERVISOR_ECX_BIT),
        edx_bit: None,
    });
    // Enable MTRR feature
    cpuid_patches.push(CpuidPatch {
        function: 1,
        index: 0,
        flags_bit: None,
        eax_bit: None,
        ebx_bit: None,
        ecx_bit: None,
        edx_bit: Some(MTRR_EDX_BIT),
    });
    assert(cpuid_patches@ =~= common_patches());

    let mut cpuid = supported;
    CpuidPatch::patch_cpuid(cpuid.as_mut_slice(), cpuid_patches);

    if let Some(t) = topology {
        update_cpuid_topology(&mut cpuid, t.0, t.1, t.2);
    }
    let ghost base = cpuid@;

    if let Some(sgx_epc_sections) = sgx_epc_sections {
        match update_cpuid_sgx(&mut cpuid, sgx_epc_sections, host.sgx_epc_ecx) {
            Ok(()) => {},
            Err(e) => {
                return Err(e);
            },
        }
    }
    let ghost before_adjust = cpuid@;

    // Update some existing CPUID
    let n = cpuid.len();
    let mut i: usize = 0;
    while i < n
        invariant
            n == before_adjust.len(),
            cpuid@.len() == n,
            i <= n,
            forall|j: int|
                0 <= j < i ==> #[trigger] cpuid@[j] == adjusted_entry(before_adjust[j], phys_bits, *host, tdx),
            forall|j: int| i <= j < n ==> #[trigger] cpuid@[j] == before_adjust[j],
        decreases n - i,
    {
        let e = cpuid[i];
        let adjusted = adjust_entry(e, phys_bits, host, &tdx);
        cpuid[i] = adjusted;
        i += 1;
    }
    assert(cpuid@ =~= before_adjust.map_values(|e: CpuIdEntry| adjusted_entry(e, phys_bits, *host, tdx)));

    // Copy CPU identification string
    let mut k: usize = 0;
    while k < 3
        invariant
            k <= 3,
            cpuid@ == (if k == 0 {
                before_adjust.map_values(|e: CpuIdEntry| adjusted_entry(e, phys_bits, *host, tdx))
            } else {
                let a = before_adjust.map_values(|e: CpuIdEntry| adjusted_entry(e, phys_bits, *host, tdx));
                let t1 = remove_leaf(a, 0x8000_0002).push(host_leaf_entry(0x8000_0002, host.brand_string[0]));
                let t2 = remove_leaf(t1, 0x8000_0003).push(host_leaf_entry(0x8000_0003, host.brand_string[1]));
                if k == 1 {
                    t1
                } else if k == 2 {
                    t2
                } else {
                    brand_table(a, *host)
                }
            }),
        decreases 3 - k,
    {
        let function: u32 = 0x8000_0002 + k as u32;
        remove_cpuid_leaf(&mut cpuid, function);
        let leaf = host.brand_string[k];
        push_leaf(&mut cpuid, function, leaf.eax, leaf.ebx, leaf.ecx, leaf.edx);
        k += 1;
    }

    if kvm_hyperv {
        let ghost branded = cpuid@;
        // Remove conflicting entries
        remove_cpuid_leaf(&mut cpuid, 0x4000_0000);
        remove_cpuid_leaf(&mut cpuid, 0x4000_0001);
        let ghost cleared = cpuid@;
        // See "Hypervisor Top Level Functional Specification" for details
        // Compliance with "Hv#1" requires leaves up to 0x4000_000a
        push_leaf(&mut cpuid, 0x4000_0000, 0x4000_000a, 0x756e_694c, 0x564b_2078, 0x7648_204d);
        push_leaf(&mut cpuid, 0x4000_0001, 0x3123_7648, 0, 0, 0);
        push_leaf(&mut cpuid, 0x4000_0002, 0x3839, 0xa_0000, 0, 0);
        push_leaf(
            &mut cpuid,
            0x4000_0003,
            (1u32 << 1u32) | (1u32 << 2u32) | (1u32 << 3u32) | (1u32 << 9u32),
            0,
            0,
            1u32 << 3u32,
        );
        push_leaf(&mut cpuid, 0x4000_0004, 1u32 << 5u32, 0, 0, 0);
        let mut function: u32 = 0x4000_0005;
        while function <= 0x4000_000a
            invariant
                0x4000_0005 <= function <= 0x4000_000b,
                cpuid@ == cleared + hyperv_leaves().subrange(0, function - 0x4000_0000),
            decreases 0x4000_000b - function,
        {
            push_leaf(&mut cpuid, function, 0, 0, 0, 0);
            assert(cleared + hyperv_leaves().subrange(0, function + 1 - 0x4000_0000) =~= (cleared
                + hyperv_leaves().subrange(0, function - 0x4000_0000)).push(
                leaf_entry(function, 0, 0, 0, 0),
            ));
            function += 1;
        }
        assert(hyperv_leaves().subrange(0, 11) =~= hyperv_leaves());
    }
    Ok(cpuid)
}

} // verus!
