//! Core of a bare-metal hypervisor for the AMD-V (SVM) instruction-set
//! extension, modelled over plain values so that its logic can be verified.
//!
//! The crate covers the virtualization-control-block (VMCB) field model and
//! accessors, the per-processor subversion lifecycle, the VM-exit dispatch
//! engine with its handlers, and the nested-page-table (NPT) manager.
//! Hardware primitives (raw page memory, model-specific registers, the world
//! switch) appear as explicit inputs and outputs of the functions that need
//! them, so every decision the core makes is stated in a contract.

use vstd::prelude::*;

pub mod bdk;
pub mod debug;
pub mod exit;
pub mod mshv;
pub mod npt;
pub mod status;
pub mod svm;
pub mod vmcb;

verus! {

/// Which virtualization engine a processor offers.
pub enum VirtualCpuOption {
    Vt,
    Svm,
    Unsupported,
}

/// The processor vendors the identification leaf can name.
#[derive(Clone, Copy, PartialEq, Eq, Structural, Debug)]
pub enum ProcessorManufacturer {
    Intel,
    AMD,
    VIA,
    ZhaoXin,
    Hygon,
    Centaur,
    Cyrix,
    Transmeta,
    NexGen,
    SiS,
    NationalSemiconductor,
    Rise,
    UMC,
    Vortex,
    Unknown,
}

/// The vendor the identification registers name.  The twelve signature
/// bytes arrive as three little-endian words, in the order the hardware
/// fills the second, fourth and third registers; the one ten-byte
/// signature is recognized under any split of its two padding bytes.
pub open spec fn spec_classify_vendor(b: u32, c: u32, d: u32) -> ProcessorManufacturer {
    if b == 0x756E6547 && d == 0x49656E69 && c == 0x6C65746E {
        ProcessorManufacturer::Intel  // "GenuineIntel"
    } else if b == 0x68747541 && d == 0x69746E65 && c == 0x444D4163 {
        ProcessorManufacturer::AMD  // "AuthenticAMD"
    } else if b == 0x69444D41 && d == 0x74656273 && c == 0x21726574 {
        ProcessorManufacturer::AMD  // "AMDisbetter!"
    } else if b == 0x20414956 && d == 0x20414956 && c == 0x20414956 {
        ProcessorManufacturer::VIA  // "VIA VIA VIA "
    } else if (b == 0x61685320 && d == 0x6168676E && c == 0x00002069) || (b == 0x68532000 && d
        == 0x68676E61 && c == 0x00206961) || (b == 0x53200000 && d == 0x676E6168 && c
        == 0x20696168) {
        ProcessorManufacturer::ZhaoXin  // " Shanghai ", null-padded
    } else if b == 0x6F677948 && d == 0x6E65476E && c == 0x656E6975 {
        ProcessorManufacturer::Hygon  // "HygonGenuine"
    } else if b == 0x746E6543 && d == 0x48727561 && c == 0x736C7561 {
        ProcessorManufacturer::Centaur  // "CentaurHauls"
    } else if b == 0x69727943 && d == 0x736E4978 && c == 0x64616574 {
        ProcessorManufacturer::Cyrix  // "CyrixInstead"
    } else if b == 0x756E6547 && d == 0x54656E69 && c == 0x3638784D {
        ProcessorManufacturer::Transmeta  // "GenuineTMx86"
    } else if b == 0x4778654E && d == 0x72446E65 && c == 0x6E657669 {
        ProcessorManufacturer::NexGen  // "NexGenDriven"
    } else if b == 0x20536953 && d == 0x20536953 && c == 0x20536953 {
        ProcessorManufacturer::SiS  // "SiS SiS SiS "
    } else if b == 0x646F6547 && d == 0x79622065 && c == 0x43534E20 {
        ProcessorManufacturer::NationalSemiconductor  // "Geode by NSC"
    } else if b == 0x65736952 && d == 0x65736952 && c == 0x65736952 {
        ProcessorManufacturer::Rise  // "RiseRiseRise"
    } else if b == 0x20434D55 && d == 0x20434D55 && c == 0x20434D55 {
        ProcessorManufacturer::UMC  // "UMC UMC UMC "
    } else if b == 0x74726F56 && d == 0x36387865 && c == 0x436F5320 {
        ProcessorManufacturer::Vortex  // "Vortex86 SoC"
    } else {
        ProcessorManufacturer::Unknown
    }
}

/// The twelve vendor-signature bytes the three identification words spell,
/// in memory order.
pub open spec fn spec_vendor_bytes(b: u32, c: u32, d: u32) -> Seq<u8> {
    seq![
        b as u8,
        (b >> 8) as u8,
        (b >> 16) as u8,
        (b >> 24) as u8,
        d as u8,
        (d >> 8) as u8,
        (d >> 16) as u8,
        (d >> 24) as u8,
        c as u8,
        (c >> 8) as u8,
        (c >> 16) as u8,
        (c >> 24) as u8,
    ]
}

impl ProcessorManufacturer {
    /// Classifies the processor from the identification words the hardware
    /// returned in its second, third and fourth registers, and writes the
    /// twelve signature bytes they spell into `vendor_string`.
    pub fn query(b: u32, c: u32, d: u32, vendor_string: &mut Vec<u8>) -> (r: Self)
        ensures
            r == spec_classify_vendor(b, c, d),
            final(vendor_string)@ == spec_vendor_bytes(b, c, d),
    {
        vendor_string.clear();
        vendor_string.push(b as u8);
        vendor_string.push((b >> 8) as u8);
        vendor_string.push((b >> 16) as u8);
        vendor_string.push((b >> 24) as u8);
        vendor_string.push(d as u8);
        vendor_string.push((d >> 8) as u8);
        vendor_string.push((d >> 16) as u8);
        vendor_string.push((d >> 24) as u8);
        vendor_string.push(c as u8);
        vendor_string.push((c >> 8) as u8);
        vendor_string.push((c >> 16) as u8);
        vendor_string.push((c >> 24) as u8);
        proof {
            assert(final(vendor_string)@ =~= spec_vendor_bytes(b, c, d));
        }
        if b == 0x756E6547 && d == 0x49656E69 && c == 0x6C65746E {
            ProcessorManufacturer::Intel
        } else if b == 0x68747541 && d == 0x69746E65 && c == 0x444D4163 {
            ProcessorManufacturer::AMD
        } else if b == 0x69444D41 && d == 0x74656273 && c == 0x21726574 {
            ProcessorManufacturer::AMD
        } else if b == 0x20414956 && d == 0x20414956 && c == 0x20414956 {
            ProcessorManufacturer::VIA
        } else if (b == 0x61685320 && d == 0x6168676E && c == 0x00002069) || (b == 0x68532000 && d
            == 0x68676E61 && c == 0x00206961) || (b == 0x53200000 && d == 0x676E6168 && c
            == 0x20696168) {
            ProcessorManufacturer::ZhaoXin
        } else if b == 0x6F677948 && d == 0x6E65476E && c == 0x656E6975 {
            ProcessorManufacturer::Hygon
        } else if b == 0x746E6543 && d == 0x48727561 && c == 0x736C7561 {
            ProcessorManufacturer::Centaur
        } else if b == 0x69727943 && d == 0x736E4978 && c == 0x64616574 {
            ProcessorManufacturer::Cyrix
        } else if b == 0x756E6547 && d == 0x54656E69 && c == 0x3638784D {
            ProcessorManufacturer::Transmeta
        } else if b == 0x4778654E && d == 0x72446E65 && c == 0x6E657669 {
            ProcessorManufacturer::NexGen
        } else if b == 0x20536953 && d == 0x20536953 && c == 0x20536953 {
            ProcessorManufacturer::SiS
        } else if b == 0x646F6547 && d == 0x79622065 && c == 0x43534E20 {
            ProcessorManufacturer::NationalSemiconductor
        } else if b == 0x65736952 && d == 0x65736952 && c == 0x65736952 {
            ProcessorManufacturer::Rise
        } else if b == 0x20434D55 && d == 0x20434D55 && c == 0x20434D55 {
            ProcessorManufacturer::UMC
        } else if b == 0x74726F56 && d == 0x36387865 && c == 0x436F5320 {
            ProcessorManufacturer::Vortex
        } else {
            ProcessorManufacturer::Unknown
        }
    }
}

/// What the top-level build step does for a vendor: construct and subvert
/// the SVM backend, report the engine as not yet implemented, or halt on a
/// vendor this core does not recognize.
#[derive(Clone, Copy, PartialEq, Eq, Structural, Debug)]
pub enum HypervisorBackendPlan {
    Svm,
    NotYetImplemented,
    UnknownVendor,
}

/// The backend plan each vendor maps to.
pub open spec fn spec_backend_plan(m: ProcessorManufacturer) -> HypervisorBackendPlan {
    match m {
        ProcessorManufacturer::AMD => HypervisorBackendPlan::Svm,
        ProcessorManufacturer::Hygon => HypervisorBackendPlan::Svm,
        ProcessorManufacturer::Intel => HypervisorBackendPlan::NotYetImplemented,
        ProcessorManufacturer::VIA => HypervisorBackendPlan::NotYetImplemented,
        ProcessorManufacturer::ZhaoXin => HypervisorBackendPlan::NotYetImplemented,
        _ => HypervisorBackendPlan::UnknownVendor,
    }
}

/// Decides which backend the top-level build step takes for a vendor: SVM
/// for the vendors that implement it, not-yet-implemented for the engine
/// this core does not ship, and an unrecognized-vendor verdict that the
/// caller must treat as fatal.
pub fn nvc_select_backend(m: &ProcessorManufacturer) -> (r: HypervisorBackendPlan)
    ensures
        r == spec_backend_plan(*m),
{
    match m {
        ProcessorManufacturer::AMD => HypervisorBackendPlan::Svm,
        ProcessorManufacturer::Hygon => HypervisorBackendPlan::Svm,
        ProcessorManufacturer::Intel => HypervisorBackendPlan::NotYetImplemented,
        ProcessorManufacturer::VIA => HypervisorBackendPlan::NotYetImplemented,
        ProcessorManufacturer::ZhaoXin => HypervisorBackendPlan::NotYetImplemented,
        _ => HypervisorBackendPlan::UnknownVendor,
    }
}

/// The capability bitmask the probe interface reports: the SVM capabilities
/// for the vendors that implement it, and zero for everything else.
pub open spec fn spec_virtualization_supportability(
    b: u32,
    c: u32,
    d: u32,
    probe: crate::svm::CpuFeatureProbe,
) -> u32 {
    match spec_backend_plan(spec_classify_vendor(b, c, d)) {
        HypervisorBackendPlan::Svm => crate::svm::spec_check_support(probe),
        _ => 0,
    }
}

/// Reports the capability bitmask for the processor the identification
/// words and feature probe describe: the SVM capabilities on the vendors
/// that implement it, zero elsewhere.
pub fn noir_get_virtualization_supportability(
    b: u32,
    c: u32,
    d: u32,
    probe: &crate::svm::CpuFeatureProbe,
) -> (r: u32)
    ensures
        r == spec_virtualization_supportability(b, c, d, *probe),
{
    let mut vendor_string: Vec<u8> = Vec::new();
    let manufacturer = ProcessorManufacturer::query(b, c, d, &mut vendor_string);
    match nvc_select_backend(&manufacturer) {
        HypervisorBackendPlan::Svm => {
            <crate::svm::SvmHypervisor as HypervisorCapabilities>::check_support(probe)
        },
        _ => 0,
    }
}

/// Whether virtualization is not administratively disabled, from the
/// supplied control-register value.
pub fn noir_is_virtualization_enabled(vmcr: u64) -> (r: bool)
    ensures
        r == (vmcr & crate::svm::MSR_VMCR_SVMDIS == 0),
{
    <crate::svm::SvmHypervisor as HypervisorCapabilities>::check_enabled(vmcr)
}

/// A hypervisor backend's capability probes.
pub trait HypervisorCapabilities {
    fn check_support(probe: &crate::svm::CpuFeatureProbe) -> u32;

    fn check_enabled(vmcr: u64) -> bool;
}

/// A hypervisor backend's whole-system lifecycle.
pub trait HypervisorEssentials {
    fn subvert_system(
        &mut self,
        cpu_count: u32,
        source: &mut crate::bdk::MemorySource,
    ) -> crate::status::Status;

    fn restore_system(&mut self) -> crate::status::Status;
}

/// A virtual processor that can be brought into its session.
pub trait VirtualCpu {
    fn init(self);
}

} // verus!
