//! CPUID entries, register selection and the bit-patch primitives.

use vstd::prelude::*;

verus! {

/// Flag of a CPUID entry whose sub-leaf index is meaningful.
pub const CPUID_FLAG_VALID_INDEX: u32 = 1;

/// One CPUID leaf/sub-leaf with its four output registers.
#[derive(Clone, Copy, Debug, Default, PartialEq, Eq, Structural)]
pub struct CpuIdEntry {
    pub function: u32,
    pub index: u32,
    pub flags: u32,
    pub eax: u32,
    pub ebx: u32,
    pub ecx: u32,
    pub edx: u32,
}

#[allow(clippy::upper_case_acronyms)]
#[derive(Copy, Clone, Debug, PartialEq, Eq, Structural)]
pub enum CpuidReg {
    EAX,
    EBX,
    ECX,
    EDX,
}

/// The value of register `reg` in `e`.
pub open spec fn reg_value(e: CpuIdEntry, reg: CpuidReg) -> u32 {
    match reg {
        CpuidReg::EAX => e.eax,
        CpuidReg::EBX => e.ebx,
        CpuidReg::ECX => e.ecx,
        CpuidReg::EDX => e.edx,
    }
}

/// `e` with register `reg` replaced by `value`.
pub open spec fn with_reg(e: CpuIdEntry, reg: CpuidReg, value: u32) -> CpuIdEntry {
    match reg {
        CpuidReg::EAX => CpuIdEntry { eax: value, ..e },
        CpuidReg::EBX => CpuIdEntry { ebx: value, ..e },
        CpuidReg::ECX => CpuIdEntry { ecx: value, ..e },
        CpuidReg::EDX => CpuIdEntry { edx: value, ..e },
    }
}

/// Whether `e` is addressed by `function` and, when given, by the sub-leaf `index`.
pub open spec fn selects(e: CpuIdEntry, function: u32, index: Option<u32>) -> bool {
    e.function == function && match index {
        Some(ix) => e.index == ix,
        None => true,
    }
}

pub open spec fn any_selected(t: Seq<CpuIdEntry>, function: u32, index: Option<u32>) -> bool {
    exists|i: int| 0 <= i < t.len() && selects(#[trigger] t[i], function, index)
}

/// A fresh entry for `function`/`index` with one register set and the others zero.
pub open spec fn new_entry(function: u32, index: u32, reg: CpuidReg, value: u32) -> CpuIdEntry {
    with_reg(
        CpuIdEntry {
            function,
            index,
            flags: CPUID_FLAG_VALID_INDEX,
            eax: 0,
            ebx: 0,
            ecx: 0,
            edx: 0,
        },
        reg,
        value,
    )
}

/// The table after writing `value` into `reg`: every selected entry is
/// overwritten; with none selected, a given sub-leaf is appended and a
/// broadcast (no sub-leaf) changes nothing.
pub open spec fn set_reg_spec(
    t: Seq<CpuIdEntry>,
    function: u32,
    index: Option<u32>,
    reg: CpuidReg,
    value: u32,
) -> Seq<CpuIdEntry> {
    if any_selected(t, function, index) {
        t.map_values(
            |e: CpuIdEntry|
                if selects(e, function, index) {
                    with_reg(e, reg, value)
                } else {
                    e
                },
        )
    } else {
        match index {
            Some(ix) => t.push(new_entry(function, ix, reg, value)),
            None => t,
        }
    }
}

/// The first entry of `t` for `function`/`index`.
pub open spec fn find_entry(t: Seq<CpuIdEntry>, function: u32, index: u32) -> Option<CpuIdEntry>
    decreases t.len(),
{
    if t.len() == 0 {
        None
    } else if t[0].function == function && t[0].index == index {
        Some(t[0])
    } else {
        find_entry(t.drop_first(), function, index)
    }
}

/// The register as the first matching entry holds it; zero where no entry matches.
pub open spec fn register_of(t: Seq<CpuIdEntry>, function: u32, index: u32, reg: CpuidReg) -> u32 {
    match find_entry(t, function, index) {
        Some(e) => reg_value(e, reg),
        None => 0,
    }
}

pub open spec fn bit_set(value: u32, bit: u32) -> bool {
    value & (1u32 << bit) == (1u32 << bit)
}

/// The bit selected by an optional position; no bit where none is given.
pub open spec fn bit_mask(bit: Option<u8>) -> u32 {
    match bit {
        Some(b) => 1u32 << b,
        None => 0,
    }
}

/// One of the five optional bits of a patch: flags, EAX, EBX, ECX, EDX.
pub open spec fn patch_bit(p: CpuidPatch, k: int) -> Option<u8> {
    if k == 0 {
        p.flags_bit
    } else if k == 1 {
        p.eax_bit
    } else if k == 2 {
        p.ebx_bit
    } else if k == 3 {
        p.ecx_bit
    } else {
        p.edx_bit
    }
}

/// `e` with the bits of `p` OR-ed in, where `p` addresses it.
pub open spec fn apply_patch(e: CpuIdEntry, p: CpuidPatch) -> CpuIdEntry {
    if e.function == p.function && e.index == p.index {
        CpuIdEntry {
            function: e.function,
            index: e.index,
            flags: e.flags | bit_mask(p.flags_bit),
            eax: e.eax | bit_mask(p.eax_bit),
            ebx: e.ebx | bit_mask(p.ebx_bit),
            ecx: e.ecx | bit_mask(p.ecx_bit),
            edx: e.edx | bit_mask(p.edx_bit),
        }
    } else {
        e
    }
}

/// `e` after every patch of `ps`, in order.
pub open spec fn patch_entry(e: CpuIdEntry, ps: Seq<CpuidPatch>) -> CpuIdEntry
    decreases ps.len(),
{
    if ps.len() == 0 {
        e
    } else {
        apply_patch(patch_entry(e, ps.drop_last()), ps.last())
    }
}

/// The table with every entry patched by `ps`.
pub open spec fn patched_table(t: Seq<CpuIdEntry>, ps: Seq<CpuidPatch>) -> Seq<CpuIdEntry> {
    t.map_values(|e: CpuIdEntry| patch_entry(e, ps))
}

/// The union of bit `k` of the patches of `ps` that address `function`/`index`.
pub open spec fn patch_mask(function: u32, index: u32, ps: Seq<CpuidPatch>, k: int) -> u32
    decreases ps.len(),
{
    if ps.len() == 0 {
        0
    } else {
        let m = patch_mask(function, index, ps.drop_last(), k);
        let p = ps.last();
        if p.function == function && p.index == index {
            m | bit_mask(patch_bit(p, k))
        } else {
            m
        }
    }
}

pub open spec fn patches_well_formed(ps: Seq<CpuidPatch>) -> bool {
    forall|i: int| 0 <= i < ps.len() ==> (#[trigger] ps[i]).well_formed()
}

/// Patching ORs into each register the union of the matching patches' bits.
pub proof fn lemma_patch_entry_masks(e: CpuIdEntry, ps: Seq<CpuidPatch>)
    ensures
        patch_entry(e, ps) == (CpuIdEntry {
            function: e.function,
            index: e.index,
            flags: e.flags | patch_mask(e.function, e.index, ps, 0),
            eax: e.eax | patch_mask(e.function, e.index, ps, 1),
            ebx: e.ebx | patch_mask(e.function, e.index, ps, 2),
            ecx: e.ecx | patch_mask(e.function, e.index, ps, 3),
            edx: e.edx | patch_mask(e.function, e.index, ps, 4),
        }),
    decreases ps.len(),
{
    if ps.len() == 0 {
        assert(forall|x: u32| x | 0u32 == x) by (bit_vector);
    } else {
        lemma_patch_entry_masks(e, ps.drop_last());
        assert(forall|x: u32, m: u32, b: u32| (x | m) | b == x | (m | b)) by (bit_vector);
    }
}

/// Patching never clears a bit: every bit set in an entry before
/// `patch_cpuid` is still set after it.
pub proof fn lemma_patch_keeps_bits(t: Seq<CpuIdEntry>, ps: Seq<CpuidPatch>)
    ensures
        patched_table(t, ps).len() == t.len(),
        forall|i: int|
            0 <= i < t.len() ==> {
                let p = #[trigger] patched_table(t, ps)[i];
                &&& p.function == t[i].function
                &&& p.index == t[i].index
                &&& p.flags & t[i].flags == t[i].flags
                &&& p.eax & t[i].eax == t[i].eax
                &&& p.ebx & t[i].ebx == t[i].ebx
                &&& p.ecx & t[i].ecx == t[i].ecx
                &&& p.edx & t[i].edx == t[i].edx
            },
{
    assert forall|i: int| 0 <= i < t.len() implies {
        let p = #[trigger] patched_table(t, ps)[i];
        &&& p.function == t[i].function
        &&& p.index == t[i].index
        &&& p.flags & t[i].flags == t[i].flags
        &&& p.eax & t[i].eax == t[i].eax
        &&& p.ebx & t[i].ebx == t[i].ebx
        &&& p.ecx & t[i].ecx == t[i].ecx
        &&& p.edx & t[i].edx == t[i].edx
    } by {
        lemma_patch_entry_masks(t[i], ps);
        assert(forall|x: u32, m: u32| (x | m) & x == x) by (bit_vector);
    }
}

/// Applying the same patches twice gives the table that applying them once gives.
pub proof fn lemma_patch_idempotent(t: Seq<CpuIdEntry>, ps: Seq<CpuidPatch>)
    ensures
        patched_table(patched_table(t, ps), ps) == patched_table(t, ps),
{
    assert forall|i: int| 0 <= i < t.len() implies #[trigger] patched_table(patched_table(t, ps), ps)[i]
        == patched_table(t, ps)[i] by {
        let e = t[i];
        lemma_patch_entry_masks(e, ps);
        lemma_patch_entry_masks(patch_entry(e, ps), ps);
        assert(forall|x: u32, m: u32| (x | m) | m == x | m) by (bit_vector);
    }
    assert(patched_table(patched_table(t, ps), ps) =~= patched_table(t, ps));
}

/// Reads register `reg` of `e`.
pub fn register(e: &CpuIdEntry, reg: CpuidReg) -> (r: u32)
    ensures
        r == reg_value(*e, reg),
{
    match reg {
        CpuidReg::EAX => e.eax,
        CpuidReg::EBX => e.ebx,
        CpuidReg::ECX => e.ecx,
        CpuidReg::EDX => e.edx,
    }
}

/// Writes `value` into register `reg` of `e`.
pub fn set_register(e: &mut CpuIdEntry, reg: CpuidReg, value: u32)
    ensures
        *final(e) == with_reg(*old(e), reg, value),
{
    match reg {
        CpuidReg::EAX => {
            e.eax = value;
        },
        CpuidReg::EBX => {
            e.ebx = value;
        },
        CpuidReg::ECX => {
            e.ecx = value;
        },
        CpuidReg::EDX => {
            e.edx = value;
        },
    }
}

/// Register `reg` of the first entry for `function`/`index`, or zero.
pub fn find_register(cpuid: &[CpuIdEntry], function: u32, index: u32, reg: CpuidReg) -> (r: u32)
    ensures
        r == register_of(cpuid@, function, index, reg),
{
    let n = cpuid.len();
    let mut i: usize = 0;
    assert(cpuid@.subrange(0, n as int) =~= cpuid@);
    while i < n
        invariant
            n == cpuid@.len(),
            i <= n,
            find_entry(cpuid@, function, index) == find_entry(cpuid@.subrange(i as int, n as int), function, index),
        decreases n - i,
    {
        let e = cpuid[i];
        assert(cpuid@.subrange(i as int, n as int).drop_first() =~= cpuid@.subrange(i + 1, n as int));
        if e.function == function && e.index == index {
            return register(&e, reg);
        }
        i += 1;
    }
    0
}

pub struct CpuidPatch {
    pub function: u32,
    pub index: u32,
    pub flags_bit: Option<u8>,
    pub eax_bit: Option<u8>,
    pub ebx_bit: Option<u8>,
    pub ecx_bit: Option<u8>,
    pub edx_bit: Option<u8>,
}

impl CpuidPatch {
    /// Every given bit position addresses a bit of a 32-bit register.
    pub open spec fn well_formed(&self) -> bool {
        &&& self.flags_bit matches Some(b) ==> b < 32
        &&& self.eax_bit matches Some(b) ==> b < 32
        &&& self.ebx_bit matches Some(b) ==> b < 32
        &&& self.ecx_bit matches Some(b) ==> b < 32
        &&& self.edx_bit matches Some(b) ==> b < 32
    }

    /// ORs into each entry the bits of every patch that addresses it.
    pub fn patch_cpuid(cpuid: &mut [CpuIdEntry], patches: Vec<CpuidPatch>)
        requires
            patches_well_formed(patches@),
        ensures
            final(cpuid)@ == patched_table(old(cpuid)@, patches@),
    {
        let ghost t = cpuid@;
        let n = cpuid.len();
        let m = patches.len();
        let mut i: usize = 0;
        while i < n
            invariant
                n == t.len(),
                m == patches@.len(),
                patches_well_formed(patches@),
                cpuid@.len() == n,
                i <= n,
                forall|j: int| 0 <= j < i ==> #[trigger] cpuid@[j] == patch_entry(t[j], patches@),
                forall|j: int| i <= j < n ==> #[trigger] cpuid@[j] == t[j],
            decreases n - i,
        {
            let mut entry = cpuid[i];
            let mut k: usize = 0;
            assert(patches@.subrange(0, 0) =~= Seq::<CpuidPatch>::empty());
            while k < m
                invariant
                    m == patches@.len(),
                    patches_well_formed(patches@),
                    k <= m,
                    i < n,
                    n == t.len(),
                    entry == patch_entry(t[i as int], patches@.subrange(0, k as int)),
                decreases m - k,
            {
                let patch = &patches[k];
                assert(forall|x: u32| x | 0u32 == x) by (bit_vector);
                assert(patches@[k as int].well_formed());
                assert(patches@.subrange(0, k + 1).drop_last() =~= patches@.subrange(0, k as int));
                if entry.function == patch.function && entry.index == patch.index {
                    if let Some(flags_bit) = patch.flags_bit {
                        entry.flags = entry.flags | (1u32 << flags_bit);
                    }
                    if let Some(eax_bit) = patch.eax_bit {
                        entry.eax = entry.eax | (1u32 << eax_bit);
                    }
                    if let Some(ebx_bit) = patch.ebx_bit {
                        entry.ebx = entry.ebx | (1u32 << ebx_bit);
                    }
                    if let Some(ecx_bit) = patch.ecx_bit {
                        entry.ecx = entry.ecx | (1u32 << ecx_bit);
                    }
                    if let Some(edx_bit) = patch.edx_bit {
                        entry.edx = entry.edx | (1u32 << edx_bit);
                    }
                }
                k += 1;
            }
            assert(patches@.subrange(0, m as int) =~= patches@);
            cpuid[i] = entry;
            i += 1;
        }
        assert(cpuid@ =~= patched_table(t, patches@));
    }

    /// Whether bit `feature_bit` of register `reg` is set in the first entry
    /// for `function`/`index`; false where no entry matches.
    pub fn is_feature_enabled(
        cpuid: &[CpuIdEntry],
        function: u32,
        index: u32,
        reg: CpuidReg,
        feature_bit: usize,
    ) -> (r: bool)
        requires
            feature_bit < 32,
        ensures
            r == bit_set(register_of(cpuid@, function, index, reg), feature_bit as u32),
    {
        let mask: u32 = 1u32 << feature_bit;
        let reg_val = find_register(cpuid, function, index, reg);
        (reg_val & mask) == mask
    }
    /// Writes `value` into register `reg` of every entry for `function` and,
    /// when given, sub-leaf `index`; appends a new entry when a sub-leaf is
    /// given and no entry matches.
    pub fn set_cpuid_reg(
        cpuid: &mut Vec<CpuIdEntry>,
        function: u32,
        index: Option<u32>,
        reg: CpuidReg,
        value: u32,
    )
        ensures
            final(cpuid)@ == set_reg_spec(old(cpuid)@, function, index, reg, value),
    {
        let ghost t = cpuid@;
        let mut entry_found = false;
        let n = cpuid.len();
        let mut i: usize = 0;
        while i < n
            invariant
                n == t.len(),
                cpuid@.len() == n,
                i <= n,
                forall|j: int|
                    0 <= j < i ==> #[trigger] cpuid@[j] == (if selects(t[j], function, index) {
                        with_reg(t[j], reg, value)
                    } else {
                        t[j]
                    }),
                forall|j: int| i <= j < n ==> #[trigger] cpuid@[j] == t[j],
                entry_found <==> exists|j: int| 0 <= j < i && selects(#[trigger] t[j], function, index),
            decreases n - i,
        {
            let mut e = cpuid[i];
            let matched = e.function == function && match index {
                Some(ix) => ix == e.index,
                None => true,
            };
            if matched {
                entry_found = true;
                set_register(&mut e, reg, value);
                cpuid.set(i, e);
            }
            i += 1;
        }
        if entry_found {
            assert(cpuid@ =~= set_reg_spec(t, function, index, reg, value));
            return;
        }
        assert(!any_selected(t, function, index));
        assert(cpuid@ =~= t);
        if let Some(index) = index {
            let mut entry = CpuIdEntry {
                function,
                index,
                flags: CPUID_FLAG_VALID_INDEX,
                eax: 0,
                ebx: 0,
                ecx: 0,
                edx: 0,
            };
            set_register(&mut entry, reg, value);
            cpuid.push(entry);
        }
    }
}

} // verus!
