//! The per-processor subversion lifecycle and the system-wide hypervisor:
//! filling a VMCB so the running context resumes as the guest, the per-core
//! model-specific-register programming, and the whole-system subversion that
//! allocates shared permission maps and one virtual processor per core.

use vstd::prelude::*;

use crate::bdk::{MemoryDescriptor, MemorySource, ProcessorState};
use crate::status::{Status, NOIR_INSUFFICIENT_RESOURCES, NOIR_NOT_IMPLEMENTED, NOIR_SUCCESS};
use crate::vmcb::{
    le16_at, le32_at, le64_at, spec_svm_attrib, vmcb_or32, vmwrite32, vmwrite64, vmwrite_segment,
    Vmcb, GUEST_ASID, GUEST_CR0, GUEST_CR2, GUEST_CR3, GUEST_CR4, GUEST_CSTAR, GUEST_CS_SELECTOR,
    GUEST_DR6, GUEST_DR7, GUEST_DS_SELECTOR, GUEST_EFER, GUEST_ES_SELECTOR, GUEST_FS_SELECTOR,
    GUEST_GDTR_SELECTOR, GUEST_GS_SELECTOR, GUEST_IDTR_SELECTOR, GUEST_KERNEL_GS_BASE,
    GUEST_LDTR_SELECTOR, GUEST_LSTAR, GUEST_PAT, GUEST_RFLAGS, GUEST_RIP, GUEST_RSP, GUEST_SFMASK,
    GUEST_SS_SELECTOR, GUEST_STAR, GUEST_SYSENTER_CS, GUEST_SYSENTER_EIP, GUEST_SYSENTER_ESP,
    GUEST_TR_SELECTOR, INTERCEPT_VECTOR1, INTERCEPT_VECTOR1_CPUID, INTERCEPT_VECTOR1_INVLPGA,
    INTERCEPT_VECTOR1_IO, INTERCEPT_VECTOR1_MSR, INTERCEPT_VECTOR1_SHUTDOWN, INTERCEPT_VECTOR2,
    INTERCEPT_VECTOR2_CLGI, INTERCEPT_VECTOR2_SKINIT, INTERCEPT_VECTOR2_STGI,
    INTERCEPT_VECTOR2_VMLOAD, INTERCEPT_VECTOR2_VMMCALL, INTERCEPT_VECTOR2_VMRUN,
    INTERCEPT_VECTOR2_VMSAVE, IOPM_PHYSICAL_ADDRESS, MSRPM_PHYSICAL_ADDRESS,
};

verus! {

// Model-specific registers and feature bits the subversion path programs.
pub const MSR_EFER: u32 = 0xC0000080;
pub const MSR_EFER_SVME: u64 = 0x1000;
pub const MSR_VMCR: u32 = 0xC0010114;
pub const MSR_VMCR_DPD: u64 = 0x1;
pub const MSR_VMCR_R_INIT: u64 = 0x2;
pub const MSR_VMCR_DISA20M: u64 = 0x4;
pub const MSR_VMCR_LOCK: u64 = 0x8;
pub const MSR_VMCR_SVMDIS: u64 = 0x10;
pub const MSR_HSAVE_PA: u32 = 0xC0010117;

// CPUID leaves and feature bits the capability probe reads.
pub const CPUID_STD_PROCESSOR_FEATURE: u32 = 0x1;
pub const CPUID_STD_EXTENDED_TOPOLOGY_INFORMATION: u32 = 0xB;
pub const CPUID_EXT_PROCESSOR_FEATURE: u32 = 0x80000001;
pub const CPUID_EXT_SECURE_VIRTUAL_MACHINE_FEATURE: u32 = 0x8000000A;
pub const CPUID_UNDER_HYPERVISOR: u32 = 0x80000000;
pub const CPUID_SVM: u32 = 0x4;
pub const CPUID_SVM_NPT: u32 = 0x1;

/// Each core's private hypervisor stack spans four pages.
pub const HYPERVISOR_STACK_SIZE: u64 = 0x4000;

/// The fixed-layout record at the top of each core's private stack, read by
/// the assembly trampoline that performs the world switch.
#[derive(Clone, Copy, PartialEq, Eq, Structural, Debug)]
pub struct SvmStackTop {
    pub guest_vmcb_pa: u64,
    pub host_vmcb_pa: u64,
    pub proc_id: u32,
    pub reserved: u32,
}

/// The values the per-core subversion routine asks the platform to program
/// into model-specific registers before the world switch.
#[derive(Clone, Copy, PartialEq, Eq, Structural, Debug)]
pub struct SubversionProgram {
    pub efer: u64,
    pub vmcr: u64,
    pub hsave_pa: u64,
}

/// One logical processor's virtualization session: its VMCB, host-save and
/// host-VMCB allocations, its private stack with the stack-top record, and
/// the identifiers cached for later signal emulation.
pub struct SvmVcpu {
    pub vmcb: Vmcb,
    pub hsave: MemoryDescriptor,
    pub hvmcb: MemoryDescriptor,
    pub hv_stack: MemoryDescriptor,
    pub stack_top: SvmStackTop,
    pub vcpu_id: u32,
    pub apic_id: u8,
    pub x2apic_id: u32,
    pub cpuid_fms: u32,
}

/// The intercept bits the subversion path sets in the first control vector:
/// CPUID, INVLPGA, I/O, MSR access and shutdown.
pub const SUBVERT_VECTOR1_BITS: u32 = 0x9C040000;

/// The intercept bits the subversion path sets in the second control vector:
/// every SVM-control instruction, since a guest virtualizing on its own is
/// unsupported.
pub const SUBVERT_VECTOR2_BITS: u32 = 0x7F;

/// The state a VMCB is left in by [`SvmVcpu::subvert_i`]: intercept vectors
/// extended by the subversion bits, the captured processor state mirrored
/// into the guest fields, a minimal RFLAGS with interrupts masked, the stack
/// pointer and entry point supplied by the caller, the shared permission
/// maps wired in, and address-space identifier 1.
pub open spec fn guest_vmcb_configured(
    oldb: Seq<u8>,
    newb: Seq<u8>,
    state: ProcessorState,
    gsp: u64,
    guest_start: u64,
    iopm_phys: u64,
    msrpm_phys: u64,
) -> bool {
    &&& le32_at(newb, INTERCEPT_VECTOR1 as int) == le32_at(oldb, INTERCEPT_VECTOR1 as int)
        | SUBVERT_VECTOR1_BITS
    &&& le32_at(newb, INTERCEPT_VECTOR2 as int) == le32_at(oldb, INTERCEPT_VECTOR2 as int)
        | SUBVERT_VECTOR2_BITS
    &&& seg_at(newb, GUEST_CS_SELECTOR as int) == packed_seg(state.cs)
    &&& seg_at(newb, GUEST_DS_SELECTOR as int) == packed_seg(state.ds)
    &&& seg_at(newb, GUEST_ES_SELECTOR as int) == packed_seg(state.es)
    &&& seg_at(newb, GUEST_FS_SELECTOR as int) == packed_seg(state.fs)
    &&& seg_at(newb, GUEST_GS_SELECTOR as int) == packed_seg(state.gs)
    &&& seg_at(newb, GUEST_SS_SELECTOR as int) == packed_seg(state.ss)
    &&& seg_at(newb, GUEST_TR_SELECTOR as int) == packed_seg(state.tr)
    &&& seg_at(newb, GUEST_LDTR_SELECTOR as int) == packed_seg(state.ldtr)
    &&& seg_at(newb, GUEST_IDTR_SELECTOR as int) == packed_seg(state.idtr)
    &&& seg_at(newb, GUEST_GDTR_SELECTOR as int) == packed_seg(state.gdtr)
    &&& le64_at(newb, GUEST_CR0 as int) == state.cr0
    &&& le64_at(newb, GUEST_CR2 as int) == state.cr2
    &&& le64_at(newb, GUEST_CR3 as int) == state.cr3
    &&& le64_at(newb, GUEST_CR4 as int) == state.cr4
    &&& le64_at(newb, GUEST_DR6 as int) == state.dr6
    &&& le64_at(newb, GUEST_DR7 as int) == state.dr7
    &&& le64_at(newb, GUEST_RFLAGS as int) == 2u64
    &&& le64_at(newb, GUEST_RSP as int) == gsp
    &&& le64_at(newb, GUEST_RIP as int) == guest_start
    &&& le64_at(newb, GUEST_PAT as int) == state.pat
    &&& le64_at(newb, GUEST_EFER as int) == state.efer
    &&& le64_at(newb, GUEST_STAR as int) == state.star
    &&& le64_at(newb, GUEST_LSTAR as int) == state.lstar
    &&& le64_at(newb, GUEST_CSTAR as int) == state.cstar
    &&& le64_at(newb, GUEST_SFMASK as int) == state.sfmask
    &&& le64_at(newb, GUEST_KERNEL_GS_BASE as int) == state.gsswap
    &&& le64_at(newb, GUEST_SYSENTER_CS as int) == state.sysenter_cs
    &&& le64_at(newb, GUEST_SYSENTER_ESP as int) == state.sysenter_esp
    &&& le64_at(newb, GUEST_SYSENTER_EIP as int) == state.sysenter_eip
    &&& le64_at(newb, IOPM_PHYSICAL_ADDRESS as int) == iopm_phys
    &&& le64_at(newb, MSRPM_PHYSICAL_ADDRESS as int) == msrpm_phys
    &&& le32_at(newb, GUEST_ASID as int) == 1u32
}

/// The four fields of a segment register as they stand in the control block,
/// the attribute word in packed form.
pub open spec fn seg_at(s: Seq<u8>, off: int) -> (u16, u16, u32, u64) {
    (le16_at(s, off), le16_at(s, off + 2), le32_at(s, off + 4), le64_at(s, off + 8))
}

/// A segment register as [`vmwrite_segment`] stores it.
pub open spec fn packed_seg(sr: crate::bdk::SegmentRegister) -> (u16, u16, u32, u64) {
    (sr.selector, spec_svm_attrib(sr.attrib), sr.limit, sr.base)
}

impl SvmVcpu {
    /// The control block region spans its page.
    pub open spec fn wf(self) -> bool {
        self.vmcb.wf()
    }

    /// A virtual processor before any allocation is attached to it.
    pub fn new() -> (r: Self)
        ensures
            r.wf(),
            r.vmcb.md.is_null(),
            r.hsave.is_null(),
            r.hvmcb.is_null(),
            r.hv_stack.is_null(),
            r.vcpu_id == 0,
    {
        SvmVcpu {
            vmcb: Vmcb::new(MemoryDescriptor::null()),
            hsave: MemoryDescriptor::null(),
            hvmcb: MemoryDescriptor::null(),
            hv_stack: MemoryDescriptor::null(),
            stack_top: SvmStackTop { guest_vmcb_pa: 0, host_vmcb_pa: 0, proc_id: 0, reserved: 0 },
            vcpu_id: 0,
            apic_id: 0,
            x2apic_id: 0,
            cpuid_fms: 0,
        }
    }

    /// Configures this processor's VMCB so the calling context resumes as
    /// the guest: sets the subversion intercepts, mirrors the captured
    /// segment, control, debug and model-specific-register state, masks
    /// interrupts in the guest flags, points the guest stack at the supplied
    /// resume pointer and the guest entry at the trampoline, wires in the
    /// shared permission maps and address-space identifier 1, and caches the
    /// APIC identifiers read from the supplied CPUID words.  Returns the
    /// control block's physical address, which the trampoline places in the
    /// first register for the world switch.  The platform's hidden-state
    /// save and load around this fill are hardware operations performed by
    /// the caller.
    #[verifier::rlimit(100)]
    #[verifier::spinoff_prover]
    pub fn subvert_i(
        &mut self,
        state: &ProcessorState,
        gsp: u64,
        guest_start: u64,
        iopm_phys: u64,
        msrpm_phys: u64,
        leaf1_ebx: u32,
        topology_edx: u32,
    ) -> (r: u64)
        requires
            old(self).wf(),
        ensures
            final(self).wf(),
            guest_vmcb_configured(
                old(self).vmcb.bytes@,
                final(self).vmcb.bytes@,
                *state,
                gsp,
                guest_start,
                iopm_phys,
                msrpm_phys,
            ),
            final(self).vmcb.md == old(self).vmcb.md,
            final(self).apic_id == (leaf1_ebx & 0xFF) as u8,
            final(self).x2apic_id == topology_edx,
            final(self).hsave == old(self).hsave,
            final(self).hvmcb == old(self).hvmcb,
            final(self).hv_stack == old(self).hv_stack,
            final(self).stack_top == old(self).stack_top,
            final(self).vcpu_id == old(self).vcpu_id,
            final(self).cpuid_fms == old(self).cpuid_fms,
            r == old(self).vmcb.md.phys,
    {
        // Control area: intercept CPUID, INVLPGA, I/O, MSR access, shutdown,
        // and every SVM-control instruction.
        vmcb_or32(&mut self.vmcb, INTERCEPT_VECTOR1, INTERCEPT_VECTOR1_CPUID);
        vmcb_or32(&mut self.vmcb, INTERCEPT_VECTOR1, INTERCEPT_VECTOR1_INVLPGA);
        vmcb_or32(&mut self.vmcb, INTERCEPT_VECTOR1, INTERCEPT_VECTOR1_IO);
        vmcb_or32(&mut self.vmcb, INTERCEPT_VECTOR1, INTERCEPT_VECTOR1_MSR);
        vmcb_or32(&mut self.vmcb, INTERCEPT_VECTOR1, INTERCEPT_VECTOR1_SHUTDOWN);
        vmcb_or32(&mut self.vmcb, INTERCEPT_VECTOR2, INTERCEPT_VECTOR2_VMRUN);
        vmcb_or32(&mut self.vmcb, INTERCEPT_VECTOR2, INTERCEPT_VECTOR2_VMMCALL);
        vmcb_or32(&mut self.vmcb, INTERCEPT_VECTOR2, INTERCEPT_VECTOR2_VMLOAD);
        vmcb_or32(&mut self.vmcb, INTERCEPT_VECTOR2, INTERCEPT_VECTOR2_VMSAVE);
        vmcb_or32(&mut self.vmcb, INTERCEPT_VECTOR2, INTERCEPT_VECTOR2_STGI);
        vmcb_or32(&mut self.vmcb, INTERCEPT_VECTOR2, INTERCEPT_VECTOR2_CLGI);
        vmcb_or32(&mut self.vmcb, INTERCEPT_VECTOR2, INTERCEPT_VECTOR2_SKINIT);
        proof {
            lemma_subvert_intercept_bits(
                le32_at(old(self).vmcb.bytes@, INTERCEPT_VECTOR1 as int),
                le32_at(old(self).vmcb.bytes@, INTERCEPT_VECTOR2 as int),
            );
        }
        // APIC identifiers, from the supplied processor-feature and
        // extended-topology CPUID words.
        self.apic_id = (leaf1_ebx & 0xFF) as u8;
        self.x2apic_id = topology_edx;
        // Segment state, packed into the hardware attribute encoding.
        vmwrite_segment(&mut self.vmcb, GUEST_CS_SELECTOR, state.cs);
        vmwrite_segment(&mut self.vmcb, GUEST_DS_SELECTOR, state.ds);
        vmwrite_segment(&mut self.vmcb, GUEST_ES_SELECTOR, state.es);
        vmwrite_segment(&mut self.vmcb, GUEST_FS_SELECTOR, state.fs);
        vmwrite_segment(&mut self.vmcb, GUEST_GS_SELECTOR, state.gs);
        vmwrite_segment(&mut self.vmcb, GUEST_SS_SELECTOR, state.ss);
        vmwrite_segment(&mut self.vmcb, GUEST_TR_SELECTOR, state.tr);
        vmwrite_segment(&mut self.vmcb, GUEST_LDTR_SELECTOR, state.ldtr);
        vmwrite_segment(&mut self.vmcb, GUEST_IDTR_SELECTOR, state.idtr);
        vmwrite_segment(&mut self.vmcb, GUEST_GDTR_SELECTOR, state.gdtr);
        // Control registers.
        vmwrite64(&mut self.vmcb, GUEST_CR0, state.cr0);
        vmwrite64(&mut self.vmcb, GUEST_CR2, state.cr2);
        vmwrite64(&mut self.vmcb, GUEST_CR3, state.cr3);
        vmwrite64(&mut self.vmcb, GUEST_CR4, state.cr4);
        // Debug registers.
        vmwrite64(&mut self.vmcb, GUEST_DR6, state.dr6);
        vmwrite64(&mut self.vmcb, GUEST_DR7, state.dr7);
        // Flags, stack and entry point: a minimal RFLAGS with interrupts
        // masked, the supplied resume stack, the guest-entry trampoline.
        vmwrite64(&mut self.vmcb, GUEST_RFLAGS, 2u64);
        vmwrite64(&mut self.vmcb, GUEST_RSP, gsp);
        vmwrite64(&mut self.vmcb, GUEST_RIP, guest_start);
        // Model-specific registers.
        vmwrite64(&mut self.vmcb, GUEST_PAT, state.pat);
        vmwrite64(&mut self.vmcb, GUEST_EFER, state.efer);
        vmwrite64(&mut self.vmcb, GUEST_STAR, state.star);
        vmwrite64(&mut self.vmcb, GUEST_LSTAR, state.lstar);
        vmwrite64(&mut self.vmcb, GUEST_CSTAR, state.cstar);
        vmwrite64(&mut self.vmcb, GUEST_SFMASK, state.sfmask);
        vmwrite64(&mut self.vmcb, GUEST_KERNEL_GS_BASE, state.gsswap);
        vmwrite64(&mut self.vmcb, GUEST_SYSENTER_CS, state.sysenter_cs);
        vmwrite64(&mut self.vmcb, GUEST_SYSENTER_ESP, state.sysenter_esp);
        vmwrite64(&mut self.vmcb, GUEST_SYSENTER_EIP, state.sysenter_eip);
        // Shared permission maps and the address-space identifier.
        vmwrite64(&mut self.vmcb, IOPM_PHYSICAL_ADDRESS, iopm_phys);
        vmwrite64(&mut self.vmcb, MSRPM_PHYSICAL_ADDRESS, msrpm_phys);
        vmwrite32(&mut self.vmcb, GUEST_ASID, 1u32);
        // The world-switch convention places the control block's physical
        // address in the first register.
        self.vmcb.md.phys
    }

    /// The per-core entry routine up to the world switch: computes the
    /// extended-feature-enable value with the virtualization bit set, the
    /// control value that redirects INIT signals into an interceptable
    /// exception while leaving the A20-mask control alone, and the host-save
    /// address, caches the family-model-stepping word for later INIT-signal
    /// emulation, and fills the stack-top record the trampoline reads.  The
    /// platform writes the returned register program and invokes the
    /// trampoline; control returns only through a VM exit.
    pub fn subvert(&mut self, efer: u64, vmcr: u64, leaf1_eax: u32) -> (r: SubversionProgram)
        ensures
            r.efer == efer | MSR_EFER_SVME,
            r.vmcr == vmcr | (MSR_VMCR_R_INIT & !MSR_VMCR_DISA20M),
            r.vmcr == vmcr | MSR_VMCR_R_INIT,
            r.hsave_pa == old(self).hsave.phys,
            final(self).cpuid_fms == leaf1_eax,
            final(self).stack_top == (SvmStackTop {
                guest_vmcb_pa: old(self).vmcb.md.phys,
                host_vmcb_pa: old(self).hvmcb.phys,
                proc_id: old(self).vcpu_id,
                reserved: 0u32,
            }),
            final(self).vmcb == old(self).vmcb,
            final(self).hsave == old(self).hsave,
            final(self).hvmcb == old(self).hvmcb,
            final(self).hv_stack == old(self).hv_stack,
            final(self).vcpu_id == old(self).vcpu_id,
            final(self).apic_id == old(self).apic_id,
            final(self).x2apic_id == old(self).x2apic_id,
    {
        let new_efer = efer | MSR_EFER_SVME;
        let new_vmcr = vmcr | (MSR_VMCR_R_INIT & !MSR_VMCR_DISA20M);
        proof {
            assert(MSR_VMCR_R_INIT & !MSR_VMCR_DISA20M == MSR_VMCR_R_INIT) by (bit_vector);
        }
        self.cpuid_fms = leaf1_eax;
        self.stack_top = SvmStackTop {
            guest_vmcb_pa: self.vmcb.md.phys,
            host_vmcb_pa: self.hvmcb.phys,
            proc_id: self.vcpu_id,
            reserved: 0,
        };
        SubversionProgram { efer: new_efer, vmcr: new_vmcr, hsave_pa: self.hsave.phys }
    }
}

/// Or-ing the subversion intercept bits in one at a time reaches the same
/// vectors as one combined mask.
pub proof fn lemma_subvert_intercept_bits(v1: u32, v2: u32)
    by (bit_vector)
    ensures
        v1 | 0x00040000 | 0x04000000 | 0x08000000 | 0x10000000 | 0x80000000 == v1 | 0x9C040000,
        v2 | 0x1 | 0x2 | 0x4 | 0x8 | 0x10 | 0x20 | 0x40 == v2 | 0x7F,
{
}


/// The CPUID words the capability probe reads: the extended-feature third
/// register, and the second and fourth registers of the secure-virtual-
/// machine feature leaf.
#[derive(Clone, Copy, PartialEq, Eq, Structural, Debug)]
pub struct CpuFeatureProbe {
    pub ext_feature_ecx: u32,
    pub svm_feature_ebx: u32,
    pub svm_feature_edx: u32,
}

/// The capability bitmask the probe reports: bit 0 when the SVM feature is
/// present with at least one address-space identifier, bit 1 additionally
/// when nested paging is supported.
pub open spec fn spec_check_support(probe: CpuFeatureProbe) -> u32 {
    if probe.ext_feature_ecx & CPUID_SVM == CPUID_SVM && probe.svm_feature_ebx > 0 {
        if probe.svm_feature_edx & CPUID_SVM_NPT == CPUID_SVM_NPT {
            3
        } else {
            1
        }
    } else {
        0
    }
}

/// The system-wide hypervisor: one virtual processor per detected core,
/// indexed by processor id, and the shared permission bitmaps every control
/// block references.
pub struct SvmHypervisor {
    pub vcpu_count: u32,
    pub vcpus: Vec<SvmVcpu>,
    pub msrpm: MemoryDescriptor,
    pub iopm: MemoryDescriptor,
}

impl SvmHypervisor {
    /// The state the broadcast step demands: the shared maps allocated and
    /// one fully allocated virtual processor per core, at the index equal to
    /// its processor id.
    pub open spec fn ready_for_broadcast(self, cpu_count: u32) -> bool {
        &&& !self.msrpm.is_null()
        &&& !self.iopm.is_null()
        &&& self.vcpu_count == cpu_count
        &&& self.vcpus@.len() == cpu_count
        &&& forall|i: int|
            0 <= i < self.vcpus@.len() ==> (#[trigger] self.vcpus@[i]).vcpu_id == i
        &&& forall|i: int| 0 <= i < self.vcpus@.len() ==> (#[trigger] self.vcpus@[i]).wf()
        &&& forall|i: int|
            0 <= i < self.vcpus@.len() ==> !(#[trigger] self.vcpus@[i]).vmcb.md.is_null()
                && !self.vcpus@[i].hsave.is_null() && !self.vcpus@[i].hvmcb.is_null()
                && !self.vcpus@[i].hv_stack.is_null()
    }

    pub fn new() -> (r: Self)
        ensures
            r.vcpu_count == 0,
            r.vcpus@.len() == 0,
            r.msrpm.is_null(),
            r.iopm.is_null(),
    {
        SvmHypervisor {
            vcpu_count: 0,
            vcpus: Vec::new(),
            msrpm: MemoryDescriptor::null(),
            iopm: MemoryDescriptor::null(),
        }
    }

    /// Releases nothing yet: session teardown is a documented gap, so the
    /// failure path only reports and returns.
    pub fn cleanup(&mut self)
        ensures
            *final(self) == *old(self),
    {
    }

    /// Looks the calling core's virtual processor up by processor id and
    /// runs its subversion routine.  A processor id outside the populated
    /// table would be a broken initialization-order invariant, which the
    /// caller must rule out.
    pub fn subvert_processor_thunk(
        &mut self,
        processor_id: u32,
        efer: u64,
        vmcr: u64,
        leaf1_eax: u32,
    ) -> (r: SubversionProgram)
        requires
            processor_id < old(self).vcpus@.len(),
        ensures
            r.efer == efer | MSR_EFER_SVME,
            r.vmcr == vmcr | MSR_VMCR_R_INIT,
            r.hsave_pa == old(self).vcpus@[processor_id as int].hsave.phys,
            final(self).vcpus@.len() == old(self).vcpus@.len(),
            forall|i: int|
                0 <= i < old(self).vcpus@.len() && i != processor_id ==> final(self).vcpus@[i]
                    == old(self).vcpus@[i],
            final(self).vcpus@[processor_id as int].stack_top == (SvmStackTop {
                guest_vmcb_pa: old(self).vcpus@[processor_id as int].vmcb.md.phys,
                host_vmcb_pa: old(self).vcpus@[processor_id as int].hvmcb.phys,
                proc_id: old(self).vcpus@[processor_id as int].vcpu_id,
                reserved: 0u32,
            }),
            final(self).vcpus@[processor_id as int].cpuid_fms == leaf1_eax,
            final(self).vcpus@[processor_id as int].vmcb == old(self).vcpus@[processor_id as int].vmcb,
            final(self).vcpu_count == old(self).vcpu_count,
            final(self).msrpm == old(self).msrpm,
            final(self).iopm == old(self).iopm,
    {
        let vp = &mut self.vcpus[processor_id as usize];
        vp.subvert(efer, vmcr, leaf1_eax)
    }
}

/// A hypervisor value on which no subversion has begun: nothing allocated
/// and no virtual processor built.
pub open spec fn spec_hv_fresh(hv: SvmHypervisor) -> bool {
    hv.vcpus@.len() == 0 && hv.msrpm.is_null() && hv.iopm.is_null()
}

impl crate::HypervisorCapabilities for SvmHypervisor {
    /// Reports the capability bitmask computed from the supplied CPUID
    /// feature words.
    fn check_support(probe: &CpuFeatureProbe) -> (r: u32)
        ensures
            r == spec_check_support(*probe),
    {
        if probe.ext_feature_ecx & CPUID_SVM == CPUID_SVM {
            // At least one address-space identifier must be available.
            if probe.svm_feature_ebx > 0 {
                let mut ret: u32 = 1;
                if probe.svm_feature_edx & CPUID_SVM_NPT == CPUID_SVM_NPT {
                    ret = ret | 2;
                }
                proof {
                    assert(1u32 | 2 == 3) by (bit_vector);
                }
                return ret;
            }
        }
        0
    }

    /// Whether the virtualization extension is not administratively
    /// disabled in the supplied control-register value.
    fn check_enabled(vmcr: u64) -> (r: bool)
        ensures
            r == (vmcr & MSR_VMCR_SVMDIS == 0),
    {
        (vmcr & MSR_VMCR_SVMDIS) == 0
    }
}

impl crate::HypervisorEssentials for SvmHypervisor {
    /// Allocates the shared permission maps and one virtual processor per
    /// detected core, appending each to the table at its processor id.  Any
    /// allocation failure abandons the call with an insufficient-resources
    /// status and no broadcast-ready state; nothing is retried.  On success
    /// the caller drives the per-core broadcast.
    fn subvert_system(&mut self, cpu_count: u32, source: &mut MemorySource) -> (r: Status)
        ensures
            old(source).wf() ==> final(source).wf(),
            r.0 == NOIR_SUCCESS || r.0 == NOIR_INSUFFICIENT_RESOURCES,
    // A failed subversion unwinds: no partially initialized hypervisor
    // remains for the caller to retry against.  The caller staged the
    // pages, so it frees what was consumed.
            r.0 == NOIR_INSUFFICIENT_RESOURCES ==> *final(self) == *old(self),
            spec_hv_fresh(*old(self)) ==> (r.0 == NOIR_SUCCESS <==> old(source).pages@.len() >= 2
                + 4 * (cpu_count as int)),
            spec_hv_fresh(*old(self)) && r.0 == NOIR_SUCCESS ==> {
                &&& final(self).vcpu_count == cpu_count
                &&& final(self).vcpus@.len() == cpu_count
                &&& final(self).msrpm == old(source).pages@[0]
                &&& final(self).iopm == old(source).pages@[1]
                &&& final(source).pages@ == old(source).pages@.skip(2 + 4 * (cpu_count as int))
                &&& forall|i: int|
                    0 <= i < cpu_count ==> (#[trigger] final(self).vcpus@[i]).hsave == old(
                        source,
                    ).pages@[2 + 4 * i] && final(self).vcpus@[i].vmcb.md == old(source).pages@[3 + 4
                        * i] && final(self).vcpus@[i].hvmcb == old(source).pages@[4 + 4 * i]
                        && final(self).vcpus@[i].hv_stack == old(source).pages@[5 + 4 * i]
                &&& forall|i: int|
                    0 <= i < cpu_count ==> (#[trigger] final(self).vcpus@[i]).vcpu_id == i
                        && final(self).vcpus@[i].wf()
            },
            spec_hv_fresh(*old(self)) && r.0 == NOIR_SUCCESS && old(source).wf() ==> {
                &&& final(self).ready_for_broadcast(cpu_count)
                &&& forall|i: int, j: int|
                    0 <= i < j < cpu_count ==> (#[trigger] final(self).vcpus@[i]).vmcb.md.phys != (
                    #[trigger] final(self).vcpus@[j]).vmcb.md.phys
                &&& forall|i: int|
                    0 <= i < cpu_count ==> (#[trigger] final(self).vcpus@[i]).vmcb.md.phys != 0
            },
            spec_hv_fresh(*old(self)) && r.0 == NOIR_INSUFFICIENT_RESOURCES ==> !final(self).ready_for_broadcast(cpu_count),
    {
        // Everything is built aside and committed only once whole, so a
        // failed allocation leaves this hypervisor exactly as it was.
        let msrpm = match source.allocate(crate::bdk::PAGE_SIZE * 2) {
            Some(md) => md,
            None => {
                self.cleanup();
                return Status(NOIR_INSUFFICIENT_RESOURCES);
            },
        };
        let iopm = match source.allocate(crate::bdk::PAGE_SIZE * 3) {
            Some(md) => md,
            None => {
                self.cleanup();
                return Status(NOIR_INSUFFICIENT_RESOURCES);
            },
        };
        let mut new_vcpus: Vec<SvmVcpu> = Vec::new();
        let mut i: u32 = 0;
        while i < cpu_count
            invariant
                i <= cpu_count,
                *self == *old(self),
                old(source).wf() ==> source.wf(),
                old(source).pages@.len() >= 2 + 4 * (i as int),
                msrpm == old(source).pages@[0],
                iopm == old(source).pages@[1],
                source.pages@ == old(source).pages@.skip(2 + 4 * (i as int)),
                new_vcpus@.len() == i,
                forall|j: int|
                    0 <= j < i ==> (#[trigger] new_vcpus@[j]).hsave == old(source).pages@[2 + 4 * j]
                        && new_vcpus@[j].vmcb.md == old(source).pages@[3 + 4 * j]
                        && new_vcpus@[j].hvmcb == old(source).pages@[4 + 4 * j]
                        && new_vcpus@[j].hv_stack == old(source).pages@[5 + 4 * j],
                forall|j: int|
                    0 <= j < i ==> (#[trigger] new_vcpus@[j]).vcpu_id == j && new_vcpus@[j].wf(),
            decreases cpu_count - i,
        {
            let mut vcpu = SvmVcpu::new();
            let hsave = source.allocate(crate::bdk::PAGE_SIZE);
            let vmcb = source.allocate(crate::bdk::PAGE_SIZE);
            let hvmcb = source.allocate(crate::bdk::PAGE_SIZE);
            let stack = source.allocate(HYPERVISOR_STACK_SIZE);
            match hsave {
                Some(md) => {
                    vcpu.hsave = md;
                },
                None => {
                    self.cleanup();
                    return Status(NOIR_INSUFFICIENT_RESOURCES);
                },
            }
            match vmcb {
                Some(md) => {
                    vcpu.vmcb = Vmcb::new(md);
                },
                None => {
                    self.cleanup();
                    return Status(NOIR_INSUFFICIENT_RESOURCES);
                },
            }
            match hvmcb {
                Some(md) => {
                    vcpu.hvmcb = md;
                },
                None => {
                    self.cleanup();
                    return Status(NOIR_INSUFFICIENT_RESOURCES);
                },
            }
            match stack {
                Some(md) => {
                    vcpu.hv_stack = md;
                },
                None => {
                    self.cleanup();
                    return Status(NOIR_INSUFFICIENT_RESOURCES);
                },
            }
            vcpu.vcpu_id = i;
            new_vcpus.push(vcpu);
            i += 1;
        }
        self.msrpm = msrpm;
        self.iopm = iopm;
        self.vcpu_count = cpu_count;
        let ghost built = new_vcpus@;
        self.vcpus.append(&mut new_vcpus);
        proof {
            if spec_hv_fresh(*old(self)) {
                assert(self.vcpus@ =~= built);
                if old(source).wf() {
                    assert forall|a: int, b: int|
                        0 <= a < b < cpu_count implies (#[trigger] self.vcpus@[a]).vmcb.md.phys
                        != (#[trigger] self.vcpus@[b]).vmcb.md.phys by {
                        assert(old(source).pages@[3 + 4 * a].phys != old(source).pages@[3 + 4
                            * b].phys);
                    }
                    assert forall|a: int|
                        0 <= a < cpu_count implies (#[trigger] self.vcpus@[a]).vmcb.md.phys
                        != 0 by {
                        assert(!old(source).pages@[3 + 4 * a].is_null());
                        assert(old(source).pages@[3 + 4 * a].wf());
                    }
                }
            }
        }
        Status(NOIR_SUCCESS)
    }

    /// System restoration is not implemented yet: the call reports the gap
    /// and changes nothing.
    fn restore_system(&mut self) -> (r: Status)
        ensures
            r.0 == NOIR_NOT_IMPLEMENTED,
            *final(self) == *old(self),
    {
        Status(NOIR_NOT_IMPLEMENTED)
    }
}

} // verus!
