//! Live-migration compatibility of two CPUID tables.

use crate::cpuid::{find_register, register_of, CpuIdEntry, CpuidReg};
use crate::error::Error;
use vstd::prelude::*;

verus! {

/// How a source register value must relate to the destination's.
#[derive(Clone, Copy, Debug, PartialEq, Eq, Structural)]
pub enum CpuidCompatibleCheck {
    /// Every bit set on the source is set on the destination.
    BitwiseSubset,
    /// The values are equal.
    Equal,
    /// The source value is at most the destination value.
    NumNotGreater,
}

/// One register of one leaf that the compatibility check compares.
#[derive(Clone, Copy, Debug, PartialEq, Eq, Structural)]
pub struct CpuidFeatureEntry {
    pub function: u32,
    pub index: u32,
    pub feature_reg: CpuidReg,
    pub compatible_check: CpuidCompatibleCheck,
}

pub open spec fn rule(
    function: u32,
    index: u32,
    feature_reg: CpuidReg,
    compatible_check: CpuidCompatibleCheck,
) -> CpuidFeatureEntry {
    CpuidFeatureEntry { function, index, feature_reg, compatible_check }
}

/// The registers compared for compatibility, in the order they are checked.
pub open spec fn feature_rules() -> Seq<CpuidFeatureEntry> {
    seq![
        rule(1, 0, CpuidReg::ECX, CpuidCompatibleCheck::BitwiseSubset),
        rule(1, 0, CpuidReg::EDX, CpuidCompatibleCheck::BitwiseSubset),
        rule(7, 0, CpuidReg::EAX, CpuidCompatibleCheck::NumNotGreater),
        rule(7, 0, CpuidReg::EBX, CpuidCompatibleCheck::BitwiseSubset),
        rule(7, 0, CpuidReg::ECX, CpuidCompatibleCheck::BitwiseSubset),
        rule(7, 0, CpuidReg::EDX, CpuidCompatibleCheck::BitwiseSubset),
        rule(7, 1, CpuidReg::EAX, CpuidCompatibleCheck::BitwiseSubset),
        rule(0x8000_0001, 0, CpuidReg::ECX, CpuidCompatibleCheck::BitwiseSubset),
        rule(0x8000_0001, 0, CpuidReg::EDX, CpuidCompatibleCheck::BitwiseSubset),
        rule(0x4000_0000, 0, CpuidReg::EAX, CpuidCompatibleCheck::NumNotGreater),
        rule(0x4000_0000, 0, CpuidReg::EBX, CpuidCompatibleCheck::Equal),
        rule(0x4000_0000, 0, CpuidReg::ECX, CpuidCompatibleCheck::Equal),
        rule(0x4000_0000, 0, CpuidReg::EDX, CpuidCompatibleCheck::Equal),
        rule(0x4000_0001, 0, CpuidReg::EAX, CpuidCompatibleCheck::BitwiseSubset),
        rule(0x4000_0001, 0, CpuidReg::EBX, CpuidCompatibleCheck::BitwiseSubset),
        rule(0x4000_0001, 0, CpuidReg::ECX, CpuidCompatibleCheck::BitwiseSubset),
        rule(0x4000_0001, 0, CpuidReg::EDX, CpuidCompatibleCheck::BitwiseSubset),
    ]
}

pub open spec fn check_passes(check: CpuidCompatibleCheck, src: u32, dest: u32) -> bool {
    match check {
        CpuidCompatibleCheck::BitwiseSubset => src & dest == src,
        CpuidCompatibleCheck::Equal => src == dest,
        CpuidCompatibleCheck::NumNotGreater => src <= dest,
    }
}

/// Whether the two tables agree on the register that `r` names; a missing
/// entry reads as zero.
pub open spec fn rule_holds(r: CpuidFeatureEntry, src: Seq<CpuIdEntry>, dest: Seq<CpuIdEntry>) -> bool {
    check_passes(
        r.compatible_check,
        register_of(src, r.function, r.index, r.feature_reg),
        register_of(dest, r.function, r.index, r.feature_reg),
    )
}

/// The rules of `rules` that fail, in order.
pub open spec fn failing_rules(
    rules: Seq<CpuidFeatureEntry>,
    src: Seq<CpuIdEntry>,
    dest: Seq<CpuIdEntry>,
) -> Seq<CpuidFeatureEntry>
    decreases rules.len(),
{
    if rules.len() == 0 {
        Seq::empty()
    } else {
        let prev = failing_rules(rules.drop_last(), src, dest);
        if rule_holds(rules.last(), src, dest) {
            prev
        } else {
            prev.push(rules.last())
        }
    }
}

/// A guest that saw `src` can move to a host that offers `dest`.
pub open spec fn cpuid_compatible(src: Seq<CpuIdEntry>, dest: Seq<CpuIdEntry>) -> bool {
    forall|i: int| 0 <= i < feature_rules().len() ==> rule_holds(#[trigger] feature_rules()[i], src, dest)
}

proof fn lemma_failing_rules(rules: Seq<CpuidFeatureEntry>, src: Seq<CpuIdEntry>, dest: Seq<CpuIdEntry>)
    ensures
        failing_rules(rules, src, dest).len() == 0 <==> forall|i: int|
            0 <= i < rules.len() ==> rule_holds(#[trigger] rules[i], src, dest),
        forall|i: int|
            0 <= i < rules.len() && !rule_holds(#[trigger] rules[i], src, dest) ==> failing_rules(
                rules,
                src,
                dest,
            ).contains(rules[i]),
    decreases rules.len(),
{
    if rules.len() > 0 {
        let prev = rules.drop_last();
        lemma_failing_rules(prev, src, dest);
        assert forall|i: int| 0 <= i < rules.len() && !rule_holds(#[trigger] rules[i], src, dest) implies failing_rules(
            rules,
            src,
            dest,
        ).contains(rules[i]) by {
            if i < rules.len() - 1 {
                assert(prev[i] == rules[i]);
                let f = failing_rules(prev, src, dest);
                let k = choose|k: int| 0 <= k < f.len() && f[k] == prev[i];
                if !rule_holds(rules.last(), src, dest) {
                    assert(f.push(rules.last())[k] == rules[i]);
                }
            } else {
                let f = failing_rules(prev, src, dest);
                assert(f.push(rules.last())[f.len() as int] == rules[i]);
            }
        }
        if failing_rules(rules, src, dest).len() == 0 {
            assert forall|i: int| 0 <= i < rules.len() implies rule_holds(#[trigger] rules[i], src, dest) by {
                if i < rules.len() - 1 {
                    assert(prev[i] == rules[i]);
                }
            }
        }
    }
}

/// A table is always compatible with itself.
pub proof fn lemma_compatible_with_itself(t: Seq<CpuIdEntry>)
    ensures
        cpuid_compatible(t, t),
{
    assert(forall|x: u32| x & x == x) by (bit_vector);
}

/// A bit that the source sets in a register compared as a bitwise subset,
/// and that the destination clears, makes the tables incompatible, and that
/// rule is among the failing ones.
pub proof fn lemma_cleared_bit_incompatible(src: Seq<CpuIdEntry>, dest: Seq<CpuIdEntry>, i: int, bit: u32)
    requires
        0 <= i < feature_rules().len(),
        feature_rules()[i].compatible_check == CpuidCompatibleCheck::BitwiseSubset,
        bit < 32,
        crate::cpuid::bit_set(
            register_of(src, feature_rules()[i].function, feature_rules()[i].index, feature_rules()[i].feature_reg),
            bit,
        ),
        !crate::cpuid::bit_set(
            register_of(dest, feature_rules()[i].function, feature_rules()[i].index, feature_rules()[i].feature_reg),
            bit,
        ),
    ensures
        !cpuid_compatible(src, dest),
        failing_rules(feature_rules(), src, dest).contains(feature_rules()[i]),
{
    let r = feature_rules()[i];
    let s = register_of(src, r.function, r.index, r.feature_reg);
    let d = register_of(dest, r.function, r.index, r.feature_reg);
    assert(forall|s: u32, d: u32, b: u32|
        b < 32 && s & (1u32 << b) == (1u32 << b) && d & (1u32 << b) != (1u32 << b) ==> s & d != s)
        by (bit_vector);
    assert(!rule_holds(r, src, dest));
    lemma_failing_rules(feature_rules(), src, dest);
}

impl CpuidFeatureEntry {
    /// The registers that the compatibility check compares.
    pub fn checked_feature_entry_list() -> (r: Vec<CpuidFeatureEntry>)
        ensures
            r@ == feature_rules(),
    {
        let mut v: Vec<CpuidFeatureEntry> = Vec::new();
        // Leaf 0x1, ECX/EDX, feature bits
        v.push(CpuidFeatureEntry {
            function: 1,
            index: 0,
            feature_reg: CpuidReg::ECX,
            compatible_check: CpuidCompatibleCheck::BitwiseSubset,
        });
        v.push(CpuidFeatureEntry {
            function: 1,
            index: 0,
            feature_reg: CpuidReg::EDX,
            compatible_check: CpuidCompatibleCheck::BitwiseSubset,
        });
        // Leaf 0x7, EAX/EBX/ECX/EDX, extended features
        v.push(CpuidFeatureEntry {
            function: 7,
            index: 0,
            feature_reg: CpuidReg::EAX,
            compatible_check: CpuidCompatibleCheck::NumNotGreater,
        });
        v.push(CpuidFeatureEntry {
            function: 7,
            index: 0,
            feature_reg: CpuidReg::EBX,
            compatible_check: CpuidCompatibleCheck::BitwiseSubset,
        });
        v.push(CpuidFeatureEntry {
            function: 7,
            index: 0,
            feature_reg: CpuidReg::ECX,
            compatible_check: CpuidCompatibleCheck::BitwiseSubset,
        });
        v.push(CpuidFeatureEntry {
            function: 7,
            index: 0,
            feature_reg: CpuidReg::EDX,
            compatible_check: CpuidCompatibleCheck::BitwiseSubset,
        });
        // Leaf 0x7 subleaf 0x1, EAX, extended features
        v.push(CpuidFeatureEntry {
            function: 7,
            index: 1,
            feature_reg: CpuidReg::EAX,
            compatible_check: CpuidCompatibleCheck::BitwiseSubset,
        });
        // Leaf 0x8000_0001, ECX/EDX, CPUID features bits
        v.push(CpuidFeatureEntry {
            function: 0x8000_0001,
            index: 0,
            feature_reg: CpuidReg::ECX,
            compatible_check: CpuidCompatibleCheck::BitwiseSubset,
        });
        v.push(CpuidFeatureEntry {
            function: 0x8000_0001,
            index: 0,
            feature_reg: CpuidReg::EDX,
            compatible_check: CpuidCompatibleCheck::BitwiseSubset,
        });
        // Leaf 0x4000_0000, EAX/EBX/ECX/EDX, KVM CPUID signature
        v.push(CpuidFeatureEntry {
            function: 0x4000_0000,
            index: 0,
            feature_reg: CpuidReg::EAX,
            compatible_check: CpuidCompatibleCheck::NumNotGreater,
        });
        v.push(CpuidFeatureEntry {
            function: 0x4000_0000,
            index: 0,
            feature_reg: CpuidReg::EBX,
            compatible_check: CpuidCompatibleCheck::Equal,
        });
        v.push(CpuidFeatureEntry {
            function: 0x4000_0000,
            index: 0,
            feature_reg: CpuidReg::ECX,
            compatible_check: CpuidCompatibleCheck::Equal,
        });
        v.push(CpuidFeatureEntry {
            function: 0x4000_0000,
            index: 0,
            feature_reg: CpuidReg::EDX,
            compatible_check: CpuidCompatibleCheck::Equal,
        });
        // Leaf 0x4000_0001, EAX/EBX/ECX/EDX, KVM CPUID features
        v.push(CpuidFeatureEntry {
            function: 0x4000_0001,
            index: 0,
            feature_reg: CpuidReg::EAX,
            compatible_check: CpuidCompatibleCheck::BitwiseSubset,
        });
        v.push(CpuidFeatureEntry {
            function: 0x4000_0001,
            index: 0,
            feature_reg: CpuidReg::EBX,
            compatible_check: CpuidCompatibleCheck::BitwiseSubset,
        });
        v.push(CpuidFeatureEntry {
            function: 0x4000_0001,
            index: 0,
            feature_reg: CpuidReg::ECX,
            compatible_check: CpuidCompatibleCheck::BitwiseSubset,
        });
        v.push(CpuidFeatureEntry {
            function: 0x4000_0001,
            index: 0,
            feature_reg: CpuidReg::EDX,
            compatible_check: CpuidCompatibleCheck::BitwiseSubset,
        });
        assert(v@ =~= feature_rules());
        v
    }

    /// For each rule of `feature_entry_list`, the register it names, as the
    /// first matching entry of `cpuid` holds it, or zero.
    pub fn get_features_from_cpuid(
        cpuid: &[CpuIdEntry],
        feature_entry_list: &[CpuidFeatureEntry],
    ) -> (r: Vec<u32>)
        ensures
            r@.len() == feature_entry_list@.len(),
            forall|i: int|
                0 <= i < r@.len() ==> #[trigger] r@[i] == register_of(
                    cpuid@,
                    feature_entry_list@[i].function,
                    feature_entry_list@[i].index,
                    feature_entry_list@[i].feature_reg,
                ),
    {
        let n = feature_entry_list.len();
        let mut features: Vec<u32> = Vec::new();
        let mut i: usize = 0;
        while i < n
            invariant
                n == feature_entry_list@.len(),
                i <= n,
                features@.len() == i,
                forall|j: int|
                    0 <= j < i ==> #[trigger] features@[j] == register_of(
                        cpuid@,
                        feature_entry_list@[j].function,
                        feature_entry_list@[j].index,
                        feature_entry_list@[j].feature_reg,
                    ),
            decreases n - i,
        {
            let fe = &feature_entry_list[i];
            features.push(find_register(cpuid, fe.function, fe.index, fe.feature_reg));
            i += 1;
        }
        features
    }

    /// Every rule whose check fails between `src_vm_cpuid` and `dest_vm_cpuid`, in order.
    pub fn incompatible_features(
        src_vm_cpuid: &[CpuIdEntry],
        dest_vm_cpuid: &[CpuIdEntry],
    ) -> (r: Vec<CpuidFeatureEntry>)
        ensures
            r@ == failing_rules(feature_rules(), src_vm_cpuid@, dest_vm_cpuid@),
    {
        let feature_entry_list = Self::checked_feature_entry_list();
        let src_vm_features = Self::get_features_from_cpuid(src_vm_cpuid, feature_entry_list.as_slice());
        let dest_vm_features = Self::get_features_from_cpuid(dest_vm_cpuid, feature_entry_list.as_slice());
        let ghost rules = feature_rules();
        let n = feature_entry_list.len();
        let mut failing: Vec<CpuidFeatureEntry> = Vec::new();
        let mut i: usize = 0;
        assert(rules.subrange(0, 0) =~= Seq::<CpuidFeatureEntry>::empty());
        while i < n
            invariant
                rules == feature_rules(),
                feature_entry_list@ == rules,
                n == rules.len(),
                src_vm_features@.len() == n,
                dest_vm_features@.len() == n,
                forall|j: int|
                    0 <= j < n ==> #[trigger] src_vm_features@[j] == register_of(
                        src_vm_cpuid@,
                        rules[j].function,
                        rules[j].index,
                        rules[j].feature_reg,
                    ),
                forall|j: int|
                    0 <= j < n ==> #[trigger] dest_vm_features@[j] == register_of(
                        dest_vm_cpuid@,
                        rules[j].function,
                        rules[j].index,
                        rules[j].feature_reg,
                    ),
                i <= n,
                failing@ == failing_rules(rules.subrange(0, i as int), src_vm_cpuid@, dest_vm_cpuid@),
            decreases n - i,
        {
            let entry = feature_entry_list[i];
            let src_vm_feature = src_vm_features[i];
            let dest_vm_feature = dest_vm_features[i];
            let entry_compatible = match entry.compatible_check {
                CpuidCompatibleCheck::BitwiseSubset => {
                    let different_feature_bits = src_vm_feature ^ dest_vm_feature;
                    let src_vm_feature_bits_only = different_feature_bits & src_vm_feature;
                    assert(((src_vm_feature ^ dest_vm_feature) & src_vm_feature == 0)
                        <==> (src_vm_feature & dest_vm_feature == src_vm_feature)) by (bit_vector);
                    src_vm_feature_bits_only == 0
                },
                CpuidCompatibleCheck::Equal => src_vm_feature == dest_vm_feature,
                CpuidCompatibleCheck::NumNotGreater => src_vm_feature <= dest_vm_feature,
            };
            assert(rules.subrange(0, i + 1).drop_last() =~= rules.subrange(0, i as int));
            if !entry_compatible {
                failing.push(entry);
            }
            i += 1;
        }
        assert(rules.subrange(0, n as int) =~= rules);
        failing
    }

    /// `Ok` exactly when every rule holds: the source asks for nothing the
    /// destination does not offer.
    pub fn check_cpuid_compatibility(
        src_vm_cpuid: &[CpuIdEntry],
        dest_vm_cpuid: &[CpuIdEntry],
    ) -> (r: Result<(), Error>)
        ensures
            r == (if cpuid_compatible(src_vm_cpuid@, dest_vm_cpuid@) {
                Ok(())
            } else {
                Err(Error::CpuidCheckCompatibility)
            }),
    {
        let failing = Self::incompatible_features(src_vm_cpuid, dest_vm_cpuid);
        proof {
            lemma_failing_rules(feature_rules(), src_vm_cpuid@, dest_vm_cpuid@);
        }
        if failing.len() == 0 {
            Ok(())
        } else {
            Err(Error::CpuidCheckCompatibility)
        }
    }
}

} // verus!
