//! Synthetic hypervisor-identification CPUID leaves, following the
//! vendor-neutral layout at leaf range 0x40000000.

use vstd::prelude::*;

verus! {

pub const CPUID_LEAF_RANGE_AND_VENDOR_STRING: u32 = 0x40000000;
pub const CPUID_VENDOR_NEUTRAL_INTERFACE_ID: u32 = 0x40000001;
pub const CPUID_HYPERVISOR_SYSTEM_ID: u32 = 0x40000002;
pub const CPUID_HYPERVISOR_FEATURE_ID: u32 = 0x40000003;
pub const CPUID_IMPLEMENTATION_RECOMMENDATIONS: u32 = 0x40000004;
pub const CPUID_IMPLEMENTATION_LIMITS: u32 = 0x40000005;
pub const CPUID_IMPLEMENTATION_HARDWARE_FEATURES: u32 = 0x40000006;
pub const CPUID_CPU_MANAGEMENT_FEATURES: u32 = 0x40000007;
pub const CPUID_SHARED_VIRTUAL_MEMORY_FEATURES: u32 = 0x40000008;
pub const CPUID_NESTED_HYPERVISOR_FEATURE_ID: u32 = 0x40000009;
pub const CPUID_NESTED_VIRTUALIZATION_FEATURES: u32 = 0x4000000A;

/// How many entries the synthetic leaf table spans; leaf indices at or past
/// this count answer all-zero.
pub const MSHV_CPUID_HANDLERS_COUNT: u32 = 4;

// The vendor signature "NoirVisor ZT" as the three little-endian register
// words its twelve bytes form, and the interface signature "Hv#0".
pub const HV_VENDOR_WORD_B: u32 = 0x72696F4E;
pub const HV_VENDOR_WORD_C: u32 = 0x6F736956;
pub const HV_VENDOR_WORD_D: u32 = 0x545A2072;
pub const HV_INTERFACE_WORD: u32 = 0x30237648;

/// Answers the system-identification leaf: the highest synthetic leaf in the
/// first register and the vendor signature bytes spread over the other
/// three.
pub fn nvc_mshv_cpuid_hypervisor_system_id_handler(ia: u32, ic: u32) -> (r: (u32, u32, u32, u32))
    ensures
        r == (0x40000001u32, HV_VENDOR_WORD_B, HV_VENDOR_WORD_C, HV_VENDOR_WORD_D),
{
    let _ = ia;
    let _ = ic;
    (0x40000001, HV_VENDOR_WORD_B, HV_VENDOR_WORD_C, HV_VENDOR_WORD_D)
}

/// Answers the feature-identification leaf: the interface signature in the
/// first register and zero features.
pub fn nvc_mshv_cpuid_hypervisor_feature_id_handler(ia: u32, ic: u32) -> (r: (u32, u32, u32, u32))
    ensures
        r == (HV_INTERFACE_WORD, 0u32, 0u32, 0u32),
{
    let _ = ia;
    let _ = ic;
    (HV_INTERFACE_WORD, 0, 0, 0)
}

/// What the synthetic leaf table answers for a leaf index: the system-id
/// leaf carries the vendor signature, the feature-id leaf the interface
/// signature, and every unregistered or out-of-range index all-zero.
pub open spec fn spec_mshv_cpuid(leaf_func: u32, ia: u32, ic: u32) -> (u32, u32, u32, u32) {
    if leaf_func == 2 {
        (0x40000001u32, HV_VENDOR_WORD_B, HV_VENDOR_WORD_C, HV_VENDOR_WORD_D)
    } else if leaf_func == 3 {
        (HV_INTERFACE_WORD, 0u32, 0u32, 0u32)
    } else {
        (0u32, 0u32, 0u32, 0u32)
    }
}

/// Dispatches a synthetic-range CPUID to its leaf handler; an unregistered
/// index inside the table, like one at or past the handler count, answers
/// all-zero in all four outputs.
pub fn mshv_cpuid_dispatch(leaf_func: u32, ia: u32, ic: u32) -> (r: (u32, u32, u32, u32))
    ensures
        r == spec_mshv_cpuid(leaf_func, ia, ic),
{
    if leaf_func >= MSHV_CPUID_HANDLERS_COUNT {
        (0, 0, 0, 0)
    } else if leaf_func == 2 {
        // The low bits of the system-identity leaf select this entry.
        nvc_mshv_cpuid_hypervisor_system_id_handler(ia, ic)
    } else if leaf_func == 3 {
        // The low bits of the feature-identity leaf select this entry.
        nvc_mshv_cpuid_hypervisor_feature_id_handler(ia, ic)
    } else {
        (0, 0, 0, 0)
    }
}

} // verus!
