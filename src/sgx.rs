//! SGX enclave page cache (EPC) sections and their CPUID sub-leaves.

use crate::cpuid::{
    any_selected, bit_set, new_entry, register_of, selects, set_reg_spec, with_reg, CpuIdEntry, CpuidPatch,
    CpuidReg, CPUID_FLAG_VALID_INDEX,
};
use crate::error::Error;
use std::collections::BTreeMap;
use vstd::prelude::*;

verus! {

/// One EPC section: a guest-physical start address and a size.
#[derive(Clone, Copy, Debug, PartialEq, Eq, Structural)]
pub struct SgxEpcSection {
    start: u64,
    size: u64,
}

impl SgxEpcSection {
    pub closed spec fn start_spec(&self) -> u64 {
        self.start
    }

    pub closed spec fn size_spec(&self) -> u64 {
        self.size
    }

    pub fn new(start: u64, size: u64) -> (r: Self)
        ensures
            r.start_spec() == start,
            r.size_spec() == size,
    {
        SgxEpcSection { start, size }
    }

    pub fn start(&self) -> (r: u64)
        ensures
            r == self.start_spec(),
    {
        self.start
    }

    pub fn size(&self) -> (r: u64)
        ensures
            r == self.size_spec(),
    {
        self.size
    }
}

/// The whole EPC area: its aggregate start and size, and its sections by name.
#[derive(Clone)]
pub struct SgxEpcRegion {
    start: u64,
    size: u64,
    epc_sections: BTreeMap<String, SgxEpcSection>,
}

impl SgxEpcRegion {
    pub closed spec fn start_spec(&self) -> u64 {
        self.start
    }

    pub closed spec fn size_spec(&self) -> u64 {
        self.size
    }

    pub closed spec fn sections_spec(&self) -> Map<String, SgxEpcSection> {
        self.epc_sections@
    }

    pub fn new(start: u64, size: u64) -> (r: Self)
        ensures
            r.start_spec() == start,
            r.size_spec() == size,
            r.sections_spec() == Map::<String, SgxEpcSection>::empty(),
    {
        SgxEpcRegion { start, size, epc_sections: BTreeMap::new() }
    }

    pub fn start(&self) -> (r: u64)
        ensures
            r == self.start_spec(),
    {
        self.start
    }

    pub fn size(&self) -> (r: u64)
        ensures
            r == self.size_spec(),
    {
        self.size
    }

    pub fn epc_sections(&self) -> (r: &BTreeMap<String, SgxEpcSection>)
        ensures
            r@ == self.sections_spec(),
    {
        &self.epc_sections
    }

    /// Adds or replaces the section named `id`.
    pub fn insert(&mut self, id: String, epc_section: SgxEpcSection)
        ensures
            final(self).start_spec() == old(self).start_spec(),
            final(self).size_spec() == old(self).size_spec(),
            vstd::laws_cmp::obeys_cmp::<String>() ==> final(self).sections_spec() == old(
                self,
            ).sections_spec().insert(id, epc_section),
    {
        self.epc_sections.insert(id, epc_section);
    }
}

/// CPUID leaf of the SGX capabilities and EPC sub-leaves.
pub const SGX_LEAF: u32 = 0x12;

/// EAX of the EPC sub-leaf: bits 31:12 of the base address, and bit 0 marking a valid section.
pub open spec fn epc_eax(s: SgxEpcSection) -> u32 {
    ((s.start_spec() & 0xffff_f000) as u32 | 0x1) as u32
}

/// EBX of the EPC sub-leaf: bits 51:32 of the base address.
pub open spec fn epc_ebx(s: SgxEpcSection) -> u32 {
    (s.start_spec() >> 32) as u32
}

/// ECX of the EPC sub-leaf: bits 31:12 of the size, with the host's EPC property bits.
pub open spec fn epc_ecx(s: SgxEpcSection, host_ecx: u32) -> u32 {
    ((s.size_spec() & 0xffff_f000) as u32 | (host_ecx & 0xf)) as u32
}

/// EDX of the EPC sub-leaf: bits 51:32 of the size.
pub open spec fn epc_edx(s: SgxEpcSection) -> u32 {
    (s.size_spec() >> 32) as u32
}

/// `t` with the four registers of one sub-leaf written, in order EAX to EDX.
pub open spec fn set_subleaf4(
    t: Seq<CpuIdEntry>,
    function: u32,
    index: u32,
    eax: u32,
    ebx: u32,
    ecx: u32,
    edx: u32,
) -> Seq<CpuIdEntry> {
    let t1 = set_reg_spec(t, function, Some(index), CpuidReg::EAX, eax);
    let t2 = set_reg_spec(t1, function, Some(index), CpuidReg::EBX, ebx);
    let t3 = set_reg_spec(t2, function, Some(index), CpuidReg::ECX, ecx);
    set_reg_spec(t3, function, Some(index), CpuidReg::EDX, edx)
}

/// Sub-leaf of the `k`-th section: sub-leaves 0 and 1 describe SGX itself.
pub open spec fn epc_subleaf(k: int) -> u32 {
    ((k + 2) % 0x1_0000_0000) as u32
}

/// The sub-leaf of the `k`-th section, wrapping as a 32-bit index does.
fn subleaf_index(k: usize) -> (r: u32)
    ensures
        r == epc_subleaf(k as int),
{
    let k64 = k as u64;
    let low: u32 = #[verifier::truncate] (k64 as u32);
    assert(low == k64 % 0x1_0000_0000) by (bit_vector)
        requires
            low == #[verifier::truncate] (k64 as u32),
    ;
    low.wrapping_add(2)
}

/// `t` with one EPC sub-leaf written for each section, in order.
pub open spec fn epc_sections_table(t: Seq<CpuIdEntry>, secs: Seq<SgxEpcSection>, host_ecx: u32) -> Seq<
    CpuIdEntry,
>
    decreases secs.len(),
{
    if secs.len() == 0 {
        t
    } else {
        let s = secs.last();
        set_subleaf4(
            epc_sections_table(t, secs.drop_last(), host_ecx),
            SGX_LEAF,
            epc_subleaf(secs.len() - 1),
            epc_eax(s),
            epc_ebx(s),
            epc_ecx(s, host_ecx),
            epc_edx(s),
        )
    }
}

/// The EPC sub-leaves followed by the all-zero sub-leaf that ends their list.
pub open spec fn sgx_table(t: Seq<CpuIdEntry>, secs: Seq<SgxEpcSection>, host_ecx: u32) -> Seq<CpuIdEntry> {
    set_subleaf4(epc_sections_table(t, secs, host_ecx), SGX_LEAF, epc_subleaf(secs.len() as int), 0, 0, 0, 0)
}

/// What `update_cpuid_sgx` returns on a table and a list of sections.
pub open spec fn sgx_outcome(t: Seq<CpuIdEntry>, secs: Seq<SgxEpcSection>) -> Result<(), Error> {
    if secs.len() == 0 {
        Err(Error::NoSgxEpcSection)
    } else if !bit_set(register_of(t, 0x7, 0, CpuidReg::EBX), 2) {
        Err(Error::MissingSgxFeature)
    } else if !bit_set(register_of(t, 0x7, 0, CpuidReg::ECX), 30) {
        Err(Error::MissingSgxLaunchControlFeature)
    } else {
        Ok(())
    }
}

/// The entry that describes the `k`-th section.
pub open spec fn epc_entry(s: SgxEpcSection, k: int, host_ecx: u32) -> CpuIdEntry {
    CpuIdEntry {
        function: SGX_LEAF,
        index: epc_subleaf(k),
        flags: CPUID_FLAG_VALID_INDEX,
        eax: epc_eax(s),
        ebx: epc_ebx(s),
        ecx: epc_ecx(s, host_ecx),
        edx: epc_edx(s),
    }
}

/// The all-zero entry that ends the list after `n` sections.
pub open spec fn epc_terminator(n: int) -> CpuIdEntry {
    CpuIdEntry { function: SGX_LEAF, index: epc_subleaf(n), flags: CPUID_FLAG_VALID_INDEX, eax: 0, ebx: 0, ecx: 0, edx: 0 }
}

/// Writing a sub-leaf that the table lacks appends one entry holding the four values.
proof fn lemma_set_fresh_subleaf(
    s: Seq<CpuIdEntry>,
    function: u32,
    index: u32,
    eax: u32,
    ebx: u32,
    ecx: u32,
    edx: u32,
)
    requires
        !any_selected(s, function, Some(index)),
    ensures
        set_subleaf4(s, function, index, eax, ebx, ecx, edx) == s.push(
            CpuIdEntry { function, index, flags: CPUID_FLAG_VALID_INDEX, eax, ebx, ecx, edx },
        ),
{
    let ix = Some(index);
    let e0 = CpuIdEntry { function, index, flags: CPUID_FLAG_VALID_INDEX, eax: 0, ebx: 0, ecx: 0, edx: 0 };
    let e1 = CpuIdEntry { eax, ..e0 };
    let e2 = CpuIdEntry { ebx, ..e1 };
    let e3 = CpuIdEntry { ecx, ..e2 };
    let e4 = CpuIdEntry { edx, ..e3 };
    let t1 = set_reg_spec(s, function, ix, CpuidReg::EAX, eax);
    assert(t1 == s.push(e1));
    assert(selects(t1[s.len() as int], function, ix));
    let t2 = set_reg_spec(t1, function, ix, CpuidReg::EBX, ebx);
    assert(t2 =~= s.push(e2));
    assert(selects(t2[s.len() as int], function, ix));
    let t3 = set_reg_spec(t2, function, ix, CpuidReg::ECX, ecx);
    assert(t3 =~= s.push(e3));
    assert(selects(t3[s.len() as int], function, ix));
    let t4 = set_reg_spec(t3, function, ix, CpuidReg::EDX, edx);
    assert(t4 =~= s.push(e4));
}

pub open spec fn no_epc_subleaves(t: Seq<CpuIdEntry>) -> bool {
    forall|i: int| 0 <= i < t.len() ==> !((#[trigger] t[i]).function == SGX_LEAF && t[i].index >= 2)
}

proof fn lemma_epc_sections_appended(t: Seq<CpuIdEntry>, secs: Seq<SgxEpcSection>, host_ecx: u32)
    requires
        no_epc_subleaves(t),
        secs.len() + 2 < 0x1_0000_0000,
    ensures
        epc_sections_table(t, secs, host_ecx) == t + Seq::new(
            secs.len(),
            |k: int| epc_entry(secs[k], k, host_ecx),
        ),
    decreases secs.len(),
{
    if secs.len() == 0 {
        assert(t + Seq::new(0, |k: int| epc_entry(secs[k], k, host_ecx)) =~= t);
    } else {
        let n = secs.len() - 1;
        let prev_secs = secs.drop_last();
        lemma_epc_sections_appended(t, prev_secs, host_ecx);
        let prev = t + Seq::new(prev_secs.len(), |k: int| epc_entry(prev_secs[k], k, host_ecx));
        let ix = epc_subleaf(n);
        assert(ix == n + 2);
        assert forall|i: int| 0 <= i < prev.len() implies !selects(#[trigger] prev[i], SGX_LEAF, Some(ix)) by {
            if i >= t.len() {
                let k = i - t.len();
                assert(prev[i] == epc_entry(prev_secs[k], k, host_ecx));
                assert(epc_subleaf(k) == k + 2);
            }
        }
        let s = secs.last();
        lemma_set_fresh_subleaf(prev, SGX_LEAF, ix, epc_eax(s), epc_ebx(s), epc_ecx(s, host_ecx), epc_edx(s));
        assert(prev.push(epc_entry(s, n, host_ecx)) =~= t + Seq::new(
            secs.len(),
            |k: int| epc_entry(secs[k], k, host_ecx),
        ));
    }
}

/// On a table without EPC sub-leaves, SGX synthesis over `n` sections
/// appends exactly `n` entries, at sub-leaves 2 to `n + 1`, each holding its
/// section, and then one all-zero entry at sub-leaf `n + 2`.
pub proof fn lemma_sgx_subleaves(t: Seq<CpuIdEntry>, secs: Seq<SgxEpcSection>, host_ecx: u32)
    requires
        no_epc_subleaves(t),
        secs.len() + 2 < 0x1_0000_0000,
    ensures
        sgx_table(t, secs, host_ecx) == t + Seq::new(secs.len(), |k: int| epc_entry(secs[k], k, host_ecx)).push(
            epc_terminator(secs.len() as int),
        ),
        forall|k: int| 0 <= k < secs.len() ==> (#[trigger] epc_entry(secs[k], k, host_ecx)).index == k + 2,
        epc_terminator(secs.len() as int).index == secs.len() + 2,
{
    lemma_epc_sections_appended(t, secs, host_ecx);
    let prev = t + Seq::new(secs.len(), |k: int| epc_entry(secs[k], k, host_ecx));
    let ix = epc_subleaf(secs.len() as int);
    assert forall|i: int| 0 <= i < prev.len() implies !selects(#[trigger] prev[i], SGX_LEAF, Some(ix)) by {
        if i >= t.len() {
            let k = i - t.len();
            assert(prev[i] == epc_entry(secs[k], k, host_ecx));
            assert(epc_subleaf(k) == k + 2);
        }
    }
    lemma_set_fresh_subleaf(prev, SGX_LEAF, ix, 0, 0, 0, 0);
    assert forall|k: int| 0 <= k < secs.len() implies (#[trigger] epc_entry(secs[k], k, host_ecx)).index == k + 2 by {
        assert(epc_subleaf(k) == k + 2);
    }
}

proof fn lemma_set_reg_facts(s: Seq<CpuIdEntry>, function: u32, index: u32, reg: CpuidReg, value: u32)
    ensures
        ({
            let r = set_reg_spec(s, function, Some(index), reg, value);
            &&& any_selected(s, function, Some(index)) ==> r.len() == s.len()
            &&& !any_selected(s, function, Some(index)) ==> r.len() == s.len() + 1 && r[s.len() as int]
                == new_entry(function, index, reg, value)
            &&& forall|i: int|
                0 <= i < s.len() ==> #[trigger] r[i] == (if selects(s[i], function, Some(index)) {
                    with_reg(s[i], reg, value)
                } else {
                    s[i]
                })
            &&& any_selected(r, function, Some(index))
        }),
{
    let r = set_reg_spec(s, function, Some(index), reg, value);
    if any_selected(s, function, Some(index)) {
        let i = choose|i: int| 0 <= i < s.len() && selects(#[trigger] s[i], function, Some(index));
        assert(selects(r[i], function, Some(index)));
    } else {
        assert(selects(r[s.len() as int], function, Some(index)));
    }
}

/// What writing one whole sub-leaf does, whatever the table held: entries of
/// other sub-leaves keep their place and value, any added entry is of this
/// sub-leaf, there is an entry of it, and every entry of it holds the four values.
proof fn lemma_set_subleaf4_facts(
    s: Seq<CpuIdEntry>,
    function: u32,
    index: u32,
    eax: u32,
    ebx: u32,
    ecx: u32,
    edx: u32,
)
    ensures
        ({
            let r = set_subleaf4(s, function, index, eax, ebx, ecx, edx);
            &&& r.len() >= s.len()
            &&& forall|i: int|
                0 <= i < s.len() && !selects(s[i], function, Some(index)) ==> #[trigger] r[i] == s[i]
            &&& forall|i: int| s.len() <= i < r.len() ==> selects(#[trigger] r[i], function, Some(index))
            &&& any_selected(r, function, Some(index))
            &&& forall|i: int|
                0 <= i < r.len() && selects(#[trigger] r[i], function, Some(index)) ==> r[i].eax == eax
                    && r[i].ebx == ebx && r[i].ecx == ecx && r[i].edx == edx
        }),
{
    let ix = Some(index);
    let r1 = set_reg_spec(s, function, ix, CpuidReg::EAX, eax);
    let r2 = set_reg_spec(r1, function, ix, CpuidReg::EBX, ebx);
    let r3 = set_reg_spec(r2, function, ix, CpuidReg::ECX, ecx);
    let r4 = set_reg_spec(r3, function, ix, CpuidReg::EDX, edx);
    lemma_set_reg_facts(s, function, index, CpuidReg::EAX, eax);
    lemma_set_reg_facts(r1, function, index, CpuidReg::EBX, ebx);
    lemma_set_reg_facts(r2, function, index, CpuidReg::ECX, ecx);
    lemma_set_reg_facts(r3, function, index, CpuidReg::EDX, edx);
    assert(r4.len() == r1.len());
    assert forall|i: int| s.len() <= i < r4.len() implies selects(#[trigger] r4[i], function, ix) by {
        assert(i == s.len());
        assert(r1[i] == new_entry(function, index, CpuidReg::EAX, eax));
        assert(selects(r2[i], function, ix));
        assert(selects(r3[i], function, ix));
    }
    assert forall|i: int| 0 <= i < r4.len() && selects(#[trigger] r4[i], function, ix) implies r4[i].eax == eax
        && r4[i].ebx == ebx && r4[i].ecx == ecx && r4[i].edx == edx by {
        assert(selects(r3[i], function, ix));
        assert(selects(r2[i], function, ix));
        assert(selects(r1[i], function, ix));
    }
}

/// Whether the table holds an entry of leaf 0x12 for sub-leaf `index`.
pub open spec fn has_sgx_subleaf(t: Seq<CpuIdEntry>, index: u32) -> bool {
    exists|i: int| 0 <= i < t.len() && selects(#[trigger] t[i], SGX_LEAF, Some(index))
}

/// Whether every entry of leaf 0x12 for sub-leaf `index` holds the four values.
pub open spec fn sgx_subleaf_holds(t: Seq<CpuIdEntry>, index: u32, eax: u32, ebx: u32, ecx: u32, edx: u32) -> bool {
    forall|i: int|
        0 <= i < t.len() && selects(#[trigger] t[i], SGX_LEAF, Some(index)) ==> t[i].eax == eax && t[i].ebx == ebx
            && t[i].ecx == ecx && t[i].edx == edx
}

proof fn lemma_epc_sections_written(t: Seq<CpuIdEntry>, secs: Seq<SgxEpcSection>, host_ecx: u32)
    requires
        secs.len() + 2 < 0x1_0000_0000,
    ensures
        forall|k: int|
            0 <= k < secs.len() ==> has_sgx_subleaf(epc_sections_table(t, secs, host_ecx), #[trigger] epc_subleaf(k))
                && sgx_subleaf_holds(
                epc_sections_table(t, secs, host_ecx),
                epc_subleaf(k),
                epc_eax(secs[k]),
                epc_ebx(secs[k]),
                epc_ecx(secs[k], host_ecx),
                epc_edx(secs[k]),
            ),
    decreases secs.len(),
{
    if secs.len() > 0 {
        let n = secs.len() - 1;
        let prev_secs = secs.drop_last();
        lemma_epc_sections_written(t, prev_secs, host_ecx);
        let prev = epc_sections_table(t, prev_secs, host_ecx);
        let s = secs.last();
        let ix = epc_subleaf(n);
        let r = epc_sections_table(t, secs, host_ecx);
        lemma_set_subleaf4_facts(prev, SGX_LEAF, ix, epc_eax(s), epc_ebx(s), epc_ecx(s, host_ecx), epc_edx(s));
        assert forall|k: int| 0 <= k < secs.len() implies has_sgx_subleaf(r, #[trigger] epc_subleaf(k))
            && sgx_subleaf_holds(
            r,
            epc_subleaf(k),
            epc_eax(secs[k]),
            epc_ebx(secs[k]),
            epc_ecx(secs[k], host_ecx),
            epc_edx(secs[k]),
        ) by {
            if k < n {
                assert(prev_secs[k] == secs[k]);
                assert(epc_subleaf(k) == k + 2);
                assert(ix == n + 2);
                assert(has_sgx_subleaf(prev, epc_subleaf(k)));
                let w = choose|i: int| 0 <= i < prev.len() && selects(#[trigger] prev[i], SGX_LEAF, Some(epc_subleaf(k)));
                assert(r[w] == prev[w]);
                assert(selects(r[w], SGX_LEAF, Some(epc_subleaf(k))));
                assert forall|i: int| 0 <= i < r.len() && selects(#[trigger] r[i], SGX_LEAF, Some(epc_subleaf(k))) implies r[i].eax
                    == epc_eax(secs[k]) && r[i].ebx == epc_ebx(secs[k]) && r[i].ecx == epc_ecx(secs[k], host_ecx)
                    && r[i].edx == epc_edx(secs[k]) by {
                    if i >= prev.len() {
                        assert(selects(r[i], SGX_LEAF, Some(ix)));
                    } else {
                        assert(!selects(prev[i], SGX_LEAF, Some(ix)));
                        assert(r[i] == prev[i]);
                    }
                }
            }
        }
    }
}

/// SGX synthesis, on any table and for `n` sections, leaves for each
/// section `k` an entry at sub-leaf `k + 2`, and every entry there holds
/// that section; and it leaves an entry at sub-leaf `n + 2`, every entry
/// there being all zero. Sub-leaf indices are 32-bit, so this needs
/// `n + 2` to fit.
pub proof fn lemma_sgx_subleaves_written(t: Seq<CpuIdEntry>, secs: Seq<SgxEpcSection>, host_ecx: u32)
    requires
        secs.len() + 2 < 0x1_0000_0000,
    ensures
        forall|k: int| 0 <= k <= secs.len() ==> #[trigger] epc_subleaf(k) == k + 2,
        forall|k: int|
            0 <= k < secs.len() ==> has_sgx_subleaf(sgx_table(t, secs, host_ecx), #[trigger] epc_subleaf(k))
                && sgx_subleaf_holds(
                sgx_table(t, secs, host_ecx),
                epc_subleaf(k),
                epc_eax(secs[k]),
                epc_ebx(secs[k]),
                epc_ecx(secs[k], host_ecx),
                epc_edx(secs[k]),
            ),
        has_sgx_subleaf(sgx_table(t, secs, host_ecx), (secs.len() + 2) as u32),
        sgx_subleaf_holds(sgx_table(t, secs, host_ecx), (secs.len() + 2) as u32, 0, 0, 0, 0),
{
    lemma_epc_sections_written(t, secs, host_ecx);
    let prev = epc_sections_table(t, secs, host_ecx);
    let n = secs.len() as int;
    let ix = epc_subleaf(n);
    assert(ix == n + 2);
    let r = sgx_table(t, secs, host_ecx);
    lemma_set_subleaf4_facts(prev, SGX_LEAF, ix, 0, 0, 0, 0);
    assert forall|k: int| 0 <= k <= secs.len() implies #[trigger] epc_subleaf(k) == k + 2 by {}
    assert forall|k: int| 0 <= k < secs.len() implies has_sgx_subleaf(r, #[trigger] epc_subleaf(k)) && sgx_subleaf_holds(
        r,
        epc_subleaf(k),
        epc_eax(secs[k]),
        epc_ebx(secs[k]),
        epc_ecx(secs[k], host_ecx),
        epc_edx(secs[k]),
    ) by {
        assert(epc_subleaf(k) == k + 2);
        assert(has_sgx_subleaf(prev, epc_subleaf(k)));
        let w = choose|i: int| 0 <= i < prev.len() && selects(#[trigger] prev[i], SGX_LEAF, Some(epc_subleaf(k)));
        assert(r[w] == prev[w]);
        assert(selects(r[w], SGX_LEAF, Some(epc_subleaf(k))));
        assert forall|i: int| 0 <= i < r.len() && selects(#[trigger] r[i], SGX_LEAF, Some(epc_subleaf(k))) implies r[i].eax
            == epc_eax(secs[k]) && r[i].ebx == epc_ebx(secs[k]) && r[i].ecx == epc_ecx(secs[k], host_ecx) && r[i].edx
            == epc_edx(secs[k]) by {
            if i >= prev.len() {
                assert(selects(r[i], SGX_LEAF, Some(ix)));
            } else {
                assert(r[i] == prev[i]);
            }
        }
    }
}

fn set_subleaf4_regs(
    cpuid: &mut Vec<CpuIdEntry>,
    function: u32,
    index: u32,
    eax: u32,
    ebx: u32,
    ecx: u32,
    edx: u32,
)
    ensures
        final(cpuid)@ == set_subleaf4(old(cpuid)@, function, index, eax, ebx, ecx, edx),
{
    CpuidPatch::set_cpuid_reg(cpuid, function, Some(index), CpuidReg::EAX, eax);
    CpuidPatch::set_cpuid_reg(cpuid, function, Some(index), CpuidReg::EBX, ebx);
    CpuidPatch::set_cpuid_reg(cpuid, function, Some(index), CpuidReg::ECX, ecx);
    CpuidPatch::set_cpuid_reg(cpuid, function, Some(index), CpuidReg::EDX, edx);
}

/// Writes one EPC sub-leaf per section and a terminating all-zero sub-leaf,
/// after checking that there is a section and that the table offers SGX and
/// SGX launch control. `host_epc_ecx` is ECX of the host's leaf 0x12
/// sub-leaf 2, whose low four bits give the EPC properties. On an error the
/// table is left as it was.
pub fn update_cpuid_sgx(
    cpuid: &mut Vec<CpuIdEntry>,
    epc_sections: Vec<SgxEpcSection>,
    host_epc_ecx: u32,
) -> (r: Result<(), Error>)
    ensures
        r == sgx_outcome(old(cpuid)@, epc_sections@),
        r is Err ==> final(cpuid)@ == old(cpuid)@,
        r is Ok ==> final(cpuid)@ == sgx_table(old(cpuid)@, epc_sections@, host_epc_ecx),
{
    // Something's wrong if there's no EPC section.
    if epc_sections.len() == 0 {
        return Err(Error::NoSgxEpcSection);
    }
    // We can't go further if the hypervisor does not support SGX feature.
    if !CpuidPatch::is_feature_enabled(cpuid.as_slice(), 0x7, 0, CpuidReg::EBX, 2) {
        return Err(Error::MissingSgxFeature);
    }
    // We can't go further if the hypervisor does not support SGX_LC feature.
    if !CpuidPatch::is_feature_enabled(cpuid.as_slice(), 0x7, 0, CpuidReg::ECX, 30) {
        return Err(Error::MissingSgxLaunchControlFeature);
    }

    let ghost t = cpuid@;
    let n = epc_sections.len();
    let mut i: usize = 0;
    assert(epc_sections@.subrange(0, 0) =~= Seq::<SgxEpcSection>::empty());
    while i < n
        invariant
            n == epc_sections@.len(),
            i <= n,
            cpuid@ == epc_sections_table(t, epc_sections@.subrange(0, i as int), host_epc_ecx),
        decreases n - i,
    {
        let epc_section = epc_sections[i];
        let subleaf_idx = subleaf_index(i);
        let start = epc_section.start();
        let size = epc_section.size();
        let eax = (#[verifier::truncate] ((start & 0xffff_f000) as u32)) | 0x1;
        let ebx = #[verifier::truncate] ((start >> 32) as u32);
        let ecx = (#[verifier::truncate] ((size & 0xffff_f000) as u32)) | (host_epc_ecx & 0xf);
        let edx = #[verifier::truncate] ((size >> 32) as u32);
        assert(subleaf_idx == epc_subleaf(i as int));
        assert(eax == epc_eax(epc_section));
        assert(ebx == epc_ebx(epc_section));
        assert(ecx == epc_ecx(epc_section, host_epc_ecx));
        assert(edx == epc_edx(epc_section));
        assert(epc_sections@.subrange(0, i + 1).drop_last() =~= epc_sections@.subrange(0, i as int));
        set_subleaf4_regs(cpuid, SGX_LEAF, subleaf_idx, eax, ebx, ecx, edx);
        i += 1;
    }
    assert(epc_sections@.subrange(0, n as int) =~= epc_sections@);

    // Add one NULL entry to terminate the dynamic list
    let subleaf_idx = subleaf_index(n);
    assert(subleaf_idx == epc_subleaf(n as int));
    set_subleaf4_regs(cpuid, SGX_LEAF, subleaf_idx, 0, 0, 0, 0);
    Ok(())
}

} // verus!
