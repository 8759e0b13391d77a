use noirvisor::bdk::{
    page_1gb_base, page_1gb_count, page_2mb_base, page_entry_index, page_offset,
    phys_page_2mb_base, phys_page_4kb_base, GprState, MemoryDescriptor, MemorySource,
    ProcessorState, SegmentRegister,
};

use noirvisor::debug::{DebuggerBackend, FormatBuffer, QemuDebugConDebugger, UnknownDebugger};
use noirvisor::status::{
    Facility, Severity, Status, NOIR_INSUFFICIENT_RESOURCES, NOIR_NOT_IMPLEMENTED, NOIR_SUCCESS,
};
use noirvisor::svm::{
    CpuFeatureProbe, SvmHypervisor, SvmVcpu, CPUID_SVM, CPUID_SVM_NPT, MSR_EFER_SVME,
    MSR_VMCR_R_INIT, MSR_VMCR_SVMDIS,
};
use noirvisor::vmcb::{
    vmread16, vmread32, vmread64, GUEST_ASID, GUEST_CR0, GUEST_CS_SELECTOR, GUEST_RFLAGS,
    GUEST_RIP, GUEST_RSP, INTERCEPT_VECTOR1, INTERCEPT_VECTOR2, IOPM_PHYSICAL_ADDRESS,
    MSRPM_PHYSICAL_ADDRESS,
};
use noirvisor::{
    noir_get_virtualization_supportability, noir_is_virtualization_enabled, nvc_select_backend,
    HypervisorBackendPlan, HypervisorCapabilities, HypervisorEssentials, ProcessorManufacturer,
};

fn source_with(n: usize) -> MemorySource {
    let mut source = MemorySource::new();
    for i in 0..n {
        let virt = 0x1000_0000 + (i as u64) * 0x1000;
        let phys = 0x2000_0000 + (i as u64) * 0x1000;
        source.stage(MemoryDescriptor::new(virt, phys));
    }
    source
}

fn svm_probe() -> CpuFeatureProbe {
    CpuFeatureProbe { ext_feature_ecx: CPUID_SVM, svm_feature_ebx: 8, svm_feature_edx: CPUID_SVM_NPT }
}

#[test]
fn two_core_subversion_succeeds() {
    let mut hv = SvmHypervisor::new();
    let mut source = source_with(10);
    let status = hv.subvert_system(2, &mut source);
    assert_eq!(status.0, NOIR_SUCCESS);
    assert_eq!(hv.vcpus.len(), 2);
    assert_eq!(hv.vcpus[0].vcpu_id, 0);
    assert_eq!(hv.vcpus[1].vcpu_id, 1);
    assert_ne!(hv.vcpus[0].vmcb.md.phys, 0);
    assert_ne!(hv.vcpus[1].vmcb.md.phys, 0);
    assert_ne!(hv.vcpus[0].vmcb.md.phys, hv.vcpus[1].vmcb.md.phys);
    assert!(source.pages.is_empty());
}

#[test]
fn subversion_cleans_up_on_partial_failure() {
    // Eight cores, but the allocator dies on the third core's VMCB: the
    // shared maps and two full cores take ten pages, the third core's
    // host-save area the eleventh.
    let mut hv = SvmHypervisor::new();
    let mut source = source_with(11);
    let status = hv.subvert_system(8, &mut source);
    assert_eq!(status.0, NOIR_INSUFFICIENT_RESOURCES);
    // The call unwound: no partial hypervisor remains, so the broadcast
    // precondition cannot hold and no trampoline runs.
    assert_eq!(hv.vcpus.len(), 0);
    assert_eq!(hv.msrpm, MemoryDescriptor::null());
    assert_eq!(hv.iopm, MemoryDescriptor::null());
}

#[test]
fn subversion_fails_without_shared_maps() {
    let mut hv = SvmHypervisor::new();
    let mut source = source_with(1);
    let status = hv.subvert_system(1, &mut source);
    assert_eq!(status.0, NOIR_INSUFFICIENT_RESOURCES);
    assert!(hv.iopm.virt == 0 && hv.iopm.phys == 0);
}

#[test]
fn restore_system_reports_the_gap() {
    let mut hv = SvmHypervisor::new();
    assert_eq!(hv.restore_system().0, NOIR_NOT_IMPLEMENTED);
}

#[test]
fn subvert_i_fills_the_control_block() {
    let mut vcpu = SvmVcpu::new();
    vcpu.vmcb = noirvisor::vmcb::Vmcb::new(MemoryDescriptor::new(0x7000, 0x8000));
    let mut state = ProcessorState {
        cs: SegmentRegister::new(0x8, 0xA09B, 0xFFFFF, 0),
        ds: SegmentRegister::default(),
        es: SegmentRegister::default(),
        fs: SegmentRegister::default(),
        gs: SegmentRegister::default(),
        ss: SegmentRegister::default(),
        tr: SegmentRegister::default(),
        gdtr: SegmentRegister::default(),
        idtr: SegmentRegister::default(),
        ldtr: SegmentRegister::default(),
        cr0: 0x80050033,
        cr2: 0,
        cr3: 0x1AB000,
        cr4: 0x370678,
        cr8: 0,
        dr0: 0,
        dr1: 0,
        dr2: 0,
        dr3: 0,
        dr6: 0xFFFF0FF0,
        dr7: 0x400,
        sysenter_cs: 0,
        sysenter_esp: 0,
        sysenter_eip: 0,
        debug_ctrl: 0,
        pat: 0x7040600070406,
        efer: 0xD01,
        star: 0x23001000000000,
        lstar: 0xFFFF800000001000,
        cstar: 0,
        sfmask: 0x47700,
        fsbase: 0,
        gsbase: 0,
        gsswap: 0xFFFF888000000000,
    };
    state.ds.attrib = 0x0093;
    let pa = vcpu.subvert_i(&state, 0xFFFFC90000004000, 0xFFFFF80000100000, 0x11000, 0x12000,
        0x0100_0800, 7);
    assert_eq!(pa, 0x8000);
    // The world-switch context the caller asked for.
    assert_eq!(vmread64(&vcpu.vmcb, GUEST_RSP), 0xFFFFC90000004000);
    assert_eq!(vmread64(&vcpu.vmcb, GUEST_RIP), 0xFFFFF80000100000);
    assert_eq!(vmread64(&vcpu.vmcb, GUEST_RFLAGS), 2);
    assert_eq!(vmread64(&vcpu.vmcb, GUEST_CR0), 0x80050033);
    assert_eq!(vmread64(&vcpu.vmcb, IOPM_PHYSICAL_ADDRESS), 0x11000);
    assert_eq!(vmread64(&vcpu.vmcb, MSRPM_PHYSICAL_ADDRESS), 0x12000);
    assert_eq!(vmread32(&vcpu.vmcb, GUEST_ASID), 1);
    // The intercept vectors carry the subversion bits.
    assert_eq!(vmread32(&vcpu.vmcb, INTERCEPT_VECTOR1), 0x9C040000);
    assert_eq!(vmread32(&vcpu.vmcb, INTERCEPT_VECTOR2), 0x7F);
    // Segments are stored with packed attributes.
    assert_eq!(vmread16(&vcpu.vmcb, GUEST_CS_SELECTOR), 0x8);
    assert_eq!(vmread16(&vcpu.vmcb, GUEST_CS_SELECTOR + 2), 0x0A9B);
    // The low byte of the topology word is the cached APIC id.
    assert_eq!(vcpu.apic_id, 0x00);
    assert_eq!(vcpu.x2apic_id, 7);
}

#[test]
fn subvert_programs_the_registers() {
    let mut vcpu = SvmVcpu::new();
    vcpu.vmcb = noirvisor::vmcb::Vmcb::new(MemoryDescriptor::new(0x7000, 0x8000));
    vcpu.hsave = MemoryDescriptor::new(0x5000, 0x6000);
    vcpu.hvmcb = MemoryDescriptor::new(0x3000, 0x4000);
    vcpu.vcpu_id = 5;
    let program = vcpu.subvert(0xD01, 0x8, 0x00A20F10);
    assert_eq!(program.efer, 0xD01 | MSR_EFER_SVME);
    assert_eq!(program.vmcr, 0x8 | MSR_VMCR_R_INIT);
    assert_eq!(program.hsave_pa, 0x6000);
    assert_eq!(vcpu.cpuid_fms, 0x00A20F10);
    assert_eq!(vcpu.stack_top.guest_vmcb_pa, 0x8000);
    assert_eq!(vcpu.stack_top.host_vmcb_pa, 0x4000);
    assert_eq!(vcpu.stack_top.proc_id, 5);
}

#[test]
fn thunk_subverts_the_selected_processor() {
    let mut hv = SvmHypervisor::new();
    let mut source = source_with(10);
    assert_eq!(hv.subvert_system(2, &mut source).0, NOIR_SUCCESS);
    let program = hv.subvert_processor_thunk(1, 0xD01, 0, 0x00870F10);
    assert_eq!(program.efer, 0xD01 | MSR_EFER_SVME);
    assert_eq!(program.hsave_pa, hv.vcpus[1].hsave.phys);
    assert_eq!(hv.vcpus[1].stack_top.proc_id, 1);
    assert_eq!(hv.vcpus[1].cpuid_fms, 0x00870F10);
    assert_eq!(hv.vcpus[0].cpuid_fms, 0);
}

#[test]
fn capability_probe_reports_the_bitmask() {
    assert_eq!(SvmHypervisor::check_support(&svm_probe()), 3);
    let no_npt = CpuFeatureProbe { ext_feature_ecx: CPUID_SVM, svm_feature_ebx: 1, svm_feature_edx: 0 };
    assert_eq!(SvmHypervisor::check_support(&no_npt), 1);
    let no_asid = CpuFeatureProbe { ext_feature_ecx: CPUID_SVM, svm_feature_ebx: 0, svm_feature_edx: 1 };
    assert_eq!(SvmHypervisor::check_support(&no_asid), 0);
    let no_svm = CpuFeatureProbe { ext_feature_ecx: 0, svm_feature_ebx: 8, svm_feature_edx: 1 };
    assert_eq!(SvmHypervisor::check_support(&no_svm), 0);
    assert!(SvmHypervisor::check_enabled(0));
    assert!(!SvmHypervisor::check_enabled(MSR_VMCR_SVMDIS));
    assert!(noir_is_virtualization_enabled(0x8));
}

#[test]
fn vendor_classification() {
    let mut vendor = Vec::new();
    let m = ProcessorManufacturer::query(0x68747541, 0x444D4163, 0x69746E65, &mut vendor);
    assert_eq!(m, ProcessorManufacturer::AMD);
    assert_eq!(vendor, b"AuthenticAMD");
    let m = ProcessorManufacturer::query(0x756E6547, 0x6C65746E, 0x49656E69, &mut vendor);
    assert_eq!(m, ProcessorManufacturer::Intel);
    assert_eq!(vendor, b"GenuineIntel");
    let m = ProcessorManufacturer::query(0x6F677948, 0x656E6975, 0x6E65476E, &mut vendor);
    assert_eq!(m, ProcessorManufacturer::Hygon);
    let m = ProcessorManufacturer::query(1, 2, 3, &mut vendor);
    assert_eq!(m, ProcessorManufacturer::Unknown);
}

#[test]
fn backend_selection_follows_the_vendor() {
    assert_eq!(nvc_select_backend(&ProcessorManufacturer::AMD), HypervisorBackendPlan::Svm);
    assert_eq!(nvc_select_backend(&ProcessorManufacturer::Hygon), HypervisorBackendPlan::Svm);
    assert_eq!(
        nvc_select_backend(&ProcessorManufacturer::Intel),
        HypervisorBackendPlan::NotYetImplemented
    );
    assert_eq!(
        nvc_select_backend(&ProcessorManufacturer::ZhaoXin),
        HypervisorBackendPlan::NotYetImplemented
    );
    assert_eq!(
        nvc_select_backend(&ProcessorManufacturer::Cyrix),
        HypervisorBackendPlan::UnknownVendor
    );
    // The exported probe combines classification and capability check.
    assert_eq!(
        noir_get_virtualization_supportability(0x68747541, 0x444D4163, 0x69746E65, &svm_probe()),
        3
    );
    assert_eq!(
        noir_get_virtualization_supportability(0x756E6547, 0x6C65746E, 0x49656E69, &svm_probe()),
        0
    );
}

#[test]
fn status_codes_carry_severity_and_facility() {
    let st = Status::new(Severity::Error, Facility::Xpf, 1);
    assert_eq!(st.0, NOIR_INSUFFICIENT_RESOURCES);
    assert!(matches!(Status::get_severity(st), Severity::Error));
    assert!(matches!(Status::get_facility(st), Facility::Xpf));
    let st = Status::new(Severity::Success, Facility::Xpf, 0);
    assert_eq!(st.0, NOIR_SUCCESS);
    assert!(matches!(Status::get_severity(st), Severity::Success));
    let st = Status::new(Severity::Error, Facility::AMD, 2);
    assert_eq!(st.0, 0xC2000002);
    assert!(matches!(Status::get_facility(st), Facility::AMD));
}

#[test]
fn status_text_is_a_closed_lookup() {
    assert_eq!(Status(NOIR_SUCCESS).describe(), "Operation is successfully completed");
    assert_eq!(Status(NOIR_INSUFFICIENT_RESOURCES).describe(), "Resource is insufficient");
    assert_eq!(Status(NOIR_NOT_IMPLEMENTED).describe(), "This operation is not implemented");
    assert_eq!(Status(0x12345678).describe(), "Unknown Status");
}

#[test]
fn gpr_snapshot_indexes_by_register_number() {
    let mut gpr = GprState::new();
    gpr.write(0, 0x11);
    gpr.write(4, 0x55);
    gpr.write(15, 0xFF);
    gpr.write(16, 0xDEAD);
    assert_eq!(gpr.rax, 0x11);
    assert_eq!(gpr.rsp, 0x55);
    assert_eq!(gpr.r15, 0xFF);
    assert_eq!(gpr.read(0), Some(0x11));
    assert_eq!(gpr.read(4), Some(0x55));
    assert_eq!(gpr.read(15), Some(0xFF));
    assert_eq!(gpr.read(16), None);
}

#[test]
fn page_arithmetic() {
    assert_eq!(page_offset(0x12345), 0x345);
    assert_eq!(page_1gb_base(0x7FFF_FFFF), 0x4000_0000);
    assert_eq!(page_2mb_base(0x43F_FFFF), 0x420_0000);
    assert_eq!(page_1gb_count(0x8000_0000), 2);
    assert_eq!(page_entry_index(0x205), 5);
    assert_eq!(phys_page_4kb_base(0x8000000000000FFF), 0);
    assert_eq!(phys_page_2mb_base(0x123456789ABC), 0x123456600000);
}

#[test]
fn format_buffer_appends_and_refuses_overflow() {
    let mut fb = FormatBuffer::new();
    assert_eq!(fb.used, 0);
    assert!(fb.write_str("hello ").is_ok());
    assert!(fb.write_str("world").is_ok());
    assert_eq!(fb.used, 11);
    assert_eq!(&fb.buffer[..11], b"hello world");
    let big = "x".repeat(502);
    assert!(fb.write_str(&big).is_err());
    assert_eq!(fb.used, 11);
    let exact = "y".repeat(501);
    assert!(fb.write_str(&exact).is_ok());
    assert_eq!(fb.used, 512);
    assert!(fb.write_str("z").is_err());
}

#[test]
fn debugger_backends() {
    let q = QemuDebugConDebugger::new(0x402);
    assert_eq!(q.port_base, 0x402);
    let u = UnknownDebugger;
    let mut buf = vec![0u8; 4];
    assert!(!u.read(&mut buf, 4));
    assert!(!u.write(&buf, 4));
}
