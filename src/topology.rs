//! The extended-topology leaves (0xb and 0x1f).

use crate::cpuid::{set_reg_spec, CpuIdEntry, CpuidPatch, CpuidReg};
use vstd::prelude::*;
use vstd::std_specs::bits::{axiom_u8_leading_zeros, u8_leading_zeros};

verus! {

/// The number of x2APIC ID bits that `count` items of one level take:
/// the bit length of `count - 1`, which is zero for a single item.
pub open spec fn level_width(count: u8) -> u32 {
    (8 - u8_leading_zeros((count - 1) as u8)) as u32
}

/// The width is the base-2 logarithm of `count`, rounded up: `count` items
/// fit in `level_width(count)` bits, and not in one bit fewer.
pub proof fn lemma_level_width_is_ceil_log2(count: u8)
    requires
        count >= 1,
    ensures
        level_width(count) <= 8,
        (count as u32) <= (1u32 << level_width(count)),
        level_width(count) > 0 ==> (1u32 << (level_width(count) - 1) as u32) < count as u32,
{
    let i = (count - 1) as u8;
    axiom_u8_leading_zeros(i);
    let lz = u8_leading_zeros(i);
    let w = (8 - lz) as u8;
    let c = count;
    assert(i >> w == 0 && (w > 0 ==> (i >> ((w - 1) as u8)) & 1u8 != 0u8));
    assert((c as u32) <= (1u32 << (w as u32)) && (w > 0 ==> (1u32 << ((w - 1) as u32)) < c as u32)) by (bit_vector)
        requires
            c >= 1,
            i == c - 1,
            w <= 8,
            i >> w == 0,
            w > 0 ==> (i >> ((w - 1) as u8)) & 1u8 != 0u8,
    ;
}

/// `t` with EAX, EBX and ECX of one sub-leaf written, in that order.
pub open spec fn set_subleaf(
    t: Seq<CpuIdEntry>,
    function: u32,
    index: u32,
    eax: u32,
    ebx: u32,
    ecx: u32,
) -> Seq<CpuIdEntry> {
    let t1 = set_reg_spec(t, function, Some(index), CpuidReg::EAX, eax);
    let t2 = set_reg_spec(t1, function, Some(index), CpuidReg::EBX, ebx);
    set_reg_spec(t2, function, Some(index), CpuidReg::ECX, ecx)
}

/// The table with the topology leaves written for the given shape: sub-leaf
/// 0 (threads) and 1 of leaf 0xb, and sub-leaves 0 (threads), 1 (cores) and
/// 2 (dies) of leaf 0x1f. EAX holds the x2APIC ID shift, EBX the logical
/// processor count, ECX the level type.
pub open spec fn topology_table(
    t: Seq<CpuIdEntry>,
    threads_per_core: u8,
    cores_per_die: u8,
    dies_per_package: u8,
) -> Seq<CpuIdEntry> {
    let thread_width = level_width(threads_per_core);
    let core_width = (level_width(cores_per_die) + thread_width) as u32;
    let die_width = (level_width(dies_per_package) + core_width) as u32;
    let threads = threads_per_core as u32;
    let cores = (cores_per_die * threads_per_core) as u32;
    let all = (dies_per_package * cores_per_die * threads_per_core) as u32;
    let t1 = set_subleaf(t, 0xb, 0, thread_width, threads, 1u32 << 8u32);
    let t2 = set_subleaf(t1, 0xb, 1, die_width, all, 2u32 << 8u32);
    let t3 = set_subleaf(t2, 0x1f, 0, thread_width, threads, 1u32 << 8u32);
    let t4 = set_subleaf(t3, 0x1f, 1, core_width, cores, 2u32 << 8u32);
    set_subleaf(t4, 0x1f, 2, die_width, all, 5u32 << 8u32)
}

fn set_subleaf_regs(cpuid: &mut Vec<CpuIdEntry>, function: u32, index: u32, eax: u32, ebx: u32, ecx: u32)
    ensures
        final(cpuid)@ == set_subleaf(old(cpuid)@, function, index, eax, ebx, ecx),
{
    CpuidPatch::set_cpuid_reg(cpuid, function, Some(index), CpuidReg::EAX, eax);
    CpuidPatch::set_cpuid_reg(cpuid, function, Some(index), CpuidReg::EBX, ebx);
    CpuidPatch::set_cpuid_reg(cpuid, function, Some(index), CpuidReg::ECX, ecx);
}

/// Bit length of `count - 1`.
fn width_of(count: u8) -> (r: u32)
    requires
        count >= 1,
    ensures
        r == level_width(count),
        r <= 8,
{
    proof {
        axiom_u8_leading_zeros((count - 1) as u8);
    }
    8 - (count - 1).leading_zeros()
}

/// Writes the topology leaves for the given shape.
pub fn update_cpuid_topology(
    cpuid: &mut Vec<CpuIdEntry>,
    threads_per_core: u8,
    cores_per_die: u8,
    dies_per_package: u8,
)
    requires
        threads_per_core >= 1,
        cores_per_die >= 1,
        dies_per_package >= 1,
        dies_per_package * cores_per_die * threads_per_core <= u8::MAX,
    ensures
        final(cpuid)@ == topology_table(old(cpuid)@, threads_per_core, cores_per_die, dies_per_package),
{
    proof {
        assert(cores_per_die * threads_per_core <= dies_per_package * cores_per_die * threads_per_core
            && dies_per_package * cores_per_die <= dies_per_package * cores_per_die * threads_per_core)
            by (nonlinear_arith)
            requires
                dies_per_package >= 1,
                cores_per_die >= 1,
                threads_per_core >= 1,
        ;
    }
    let thread_width = width_of(threads_per_core);
    let core_width = width_of(cores_per_die) + thread_width;
    let die_width = width_of(dies_per_package) + core_width;
    let threads = threads_per_core as u32;
    let cores = (cores_per_die * threads_per_core) as u32;
    let all = (dies_per_package * cores_per_die * threads_per_core) as u32;

    // CPU Topology leaf 0xb
    set_subleaf_regs(cpuid, 0xb, 0, thread_width, threads, 1 << 8);
    set_subleaf_regs(cpuid, 0xb, 1, die_width, all, 2 << 8);

    // CPU Topology leaf 0x1f
    set_subleaf_regs(cpuid, 0x1f, 0, thread_width, threads, 1 << 8);
    set_subleaf_regs(cpuid, 0x1f, 1, core_width, cores, 2 << 8);
    set_subleaf_regs(cpuid, 0x1f, 2, die_width, all, 5 << 8);
}

} // verus!
