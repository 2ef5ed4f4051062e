//! The per-vCPU part of the CPUID table and the order of vCPU setup.

use crate::cpuid::{reg_value, set_reg_spec, CpuIdEntry, CpuidPatch, CpuidReg};
use vstd::prelude::*;

verus! {

/// Where the guest starts executing, when the VMM loaded a kernel.
#[derive(Clone, Copy, Debug, PartialEq, Eq, Structural)]
pub struct EntryPoint {
    /// Address in guest memory where the guest must start execution
    pub entry_addr: Option<u64>,
}

/// One step of bringing up a vCPU, in the order `vcpu_setup_steps` gives.
#[derive(Clone, Copy, Debug, PartialEq, Eq, Structural)]
pub enum VcpuSetupStep {
    /// Commit the vCPU's CPUID table.
    SetCpuid,
    /// Enable the Hyper-V synthetic interrupt controller.
    EnableHypervSynic,
    /// Set up the model-specific registers.
    SetupMsrs,
    /// Set the general-purpose registers to start at this address.
    SetupRegs(u64),
    /// Set up the floating-point unit.
    SetupFpu,
    /// Set up the segment and control registers.
    SetupSregs,
    /// Configure the local interrupt lines.
    SetLint,
}

/// `t` with `id` in EDX of every sub-leaf of both topology leaves.
pub open spec fn vcpu_cpuid_spec(t: Seq<CpuIdEntry>, id: u8) -> Seq<CpuIdEntry> {
    set_reg_spec(set_reg_spec(t, 0xb, None, CpuidReg::EDX, id as u32), 0x1f, None, CpuidReg::EDX, id as u32)
}

pub open spec fn vcpu_setup_steps_spec(kvm_hyperv: bool, entry_addr: Option<u64>) -> Seq<VcpuSetupStep> {
    let head = seq![VcpuSetupStep::SetCpuid];
    let hyperv = if kvm_hyperv {
        seq![VcpuSetupStep::EnableHypervSynic]
    } else {
        Seq::empty()
    };
    let boot = match entry_addr {
        Some(a) => seq![VcpuSetupStep::SetupRegs(a), VcpuSetupStep::SetupFpu, VcpuSetupStep::SetupSregs],
        None => Seq::empty(),
    };
    head + hyperv + seq![VcpuSetupStep::SetupMsrs] + boot + seq![VcpuSetupStep::SetLint]
}

/// The CPUID table of one vCPU: the common table with the vCPU's id as the
/// x2APIC ID of every sub-leaf of leaves 0xb and 0x1f.
pub fn vcpu_cpuid(cpuid: Vec<CpuIdEntry>, id: u8) -> (r: Vec<CpuIdEntry>)
    ensures
        r@ == vcpu_cpuid_spec(cpuid@, id),
{
    let mut cpuid = cpuid;
    CpuidPatch::set_cpuid_reg(&mut cpuid, 0xb, None, CpuidReg::EDX, id as u32);
    CpuidPatch::set_cpuid_reg(&mut cpuid, 0x1f, None, CpuidReg::EDX, id as u32);
    cpuid
}

/// The steps that bring up a vCPU, in order: the CPUID table, the Hyper-V
/// synthetic interrupt controller when asked for, the MSRs, the registers,
/// FPU and segments when there is an entry address, and the local
/// interrupt lines.
pub fn vcpu_setup_steps(kvm_hyperv: bool, entry_addr: Option<u64>) -> (r: Vec<VcpuSetupStep>)
    ensures
        r@ == vcpu_setup_steps_spec(kvm_hyperv, entry_addr),
{
    let mut steps: Vec<VcpuSetupStep> = Vec::new();
    steps.push(VcpuSetupStep::SetCpuid);
    if kvm_hyperv {
        steps.push(VcpuSetupStep::EnableHypervSynic);
    }
    steps.push(VcpuSetupStep::SetupMsrs);
    if let Some(addr) = entry_addr {
        steps.push(VcpuSetupStep::SetupRegs(addr));
        steps.push(VcpuSetupStep::SetupFpu);
        steps.push(VcpuSetupStep::SetupSregs);
    }
    steps.push(VcpuSetupStep::SetLint);
    assert(steps@ =~= vcpu_setup_steps_spec(kvm_hyperv, entry_addr));
    steps
}

/// A broadcast write (no sub-leaf) leaves `value` in `reg` of every entry of
/// the leaf, changes no entry of another leaf, and adds no entry.
pub proof fn lemma_broadcast_sets_every_subleaf(t: Seq<CpuIdEntry>, function: u32, reg: CpuidReg, value: u32)
    ensures
        set_reg_spec(t, function, None, reg, value).len() == t.len(),
        forall|i: int|
            0 <= i < t.len() && t[i].function == function ==> reg_value(
                #[trigger] set_reg_spec(t, function, None, reg, value)[i],
                reg,
            ) == value,
        forall|i: int|
            0 <= i < t.len() && t[i].function != function ==> #[trigger] set_reg_spec(
                t,
                function,
                None,
                reg,
                value,
            )[i] == t[i],
{
}

/// Each vCPU's table reads back its own id in EDX of every sub-leaf of
/// leaves 0xb and 0x1f, and differs from the common table nowhere else.
pub proof fn lemma_vcpu_cpuid_apic_id(t: Seq<CpuIdEntry>, id: u8)
    ensures
        vcpu_cpuid_spec(t, id).len() == t.len(),
        forall|i: int|
            0 <= i < t.len() && (t[i].function == 0xb || t[i].function == 0x1f) ==> (
            #[trigger] vcpu_cpuid_spec(t, id)[i]).edx == id as u32,
        forall|i: int|
            0 <= i < t.len() && t[i].function != 0xb && t[i].function != 0x1f ==> #[trigger] vcpu_cpuid_spec(
                t,
                id,
            )[i] == t[i],
{
    lemma_broadcast_sets_every_subleaf(t, 0xb, CpuidReg::EDX, id as u32);
    let t1 = set_reg_spec(t, 0xb, None, CpuidReg::EDX, id as u32);
    lemma_broadcast_sets_every_subleaf(t1, 0x1f, CpuidReg::EDX, id as u32);
    assert forall|i: int|
        0 <= i < t.len() && (t[i].function == 0xb || t[i].function == 0x1f) implies (
        #[trigger] vcpu_cpuid_spec(t, id)[i]).edx == id as u32 by {
        assert(t1[i].function == t[i].function);
    }
}

} // verus!
