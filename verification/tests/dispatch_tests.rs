use noirvisor::bdk::{GprState, MemoryDescriptor};
use noirvisor::exit::{
    dispatch_handler, filter_host_cpuid, nvc_svm_exit_handler, SvmExitAction, SvmExitHandler,
    INTERCEPTED_CPUID, INTERCEPTED_SHUTDOWN, INVALID_GUEST_STATE, NESTED_PAGE_FAULT,
};
use noirvisor::mshv::{
    mshv_cpuid_dispatch, nvc_mshv_cpuid_hypervisor_feature_id_handler,
    nvc_mshv_cpuid_hypervisor_system_id_handler, MSHV_CPUID_HANDLERS_COUNT,
};
use noirvisor::svm::{SvmStackTop, SvmVcpu};
use noirvisor::vmcb::{vmwrite32, vmwrite64, EXIT_CODE, EXIT_INFO1, EXIT_INFO2, GUEST_RAX, NEXT_RIP};

#[test]
fn dispatch_registered_codes() {
    assert_eq!(dispatch_handler(INTERCEPTED_CPUID), SvmExitHandler::Cpuid);
    assert_eq!(dispatch_handler(INTERCEPTED_SHUTDOWN), SvmExitHandler::Shutdown);
    assert_eq!(dispatch_handler(0x80), SvmExitHandler::Vmrun);
    assert_eq!(dispatch_handler(0x81), SvmExitHandler::Vmmcall);
    assert_eq!(dispatch_handler(0x82), SvmExitHandler::Vmload);
    assert_eq!(dispatch_handler(0x83), SvmExitHandler::Vmsave);
    assert_eq!(dispatch_handler(0x84), SvmExitHandler::Stgi);
    assert_eq!(dispatch_handler(0x85), SvmExitHandler::Clgi);
    assert_eq!(dispatch_handler(0x86), SvmExitHandler::Skinit);
    assert_eq!(dispatch_handler(NESTED_PAGE_FAULT), SvmExitHandler::NestedPageFault);
    assert_eq!(dispatch_handler(INVALID_GUEST_STATE), SvmExitHandler::Invalid);
}

#[test]
fn dispatch_is_total_and_defaults_to_unknown() {
    // Every representable code resolves; unregistered ones to the default.
    assert_eq!(dispatch_handler(0), SvmExitHandler::Unknown);
    assert_eq!(dispatch_handler(0x71), SvmExitHandler::Unknown);
    assert_eq!(dispatch_handler(0x87), SvmExitHandler::Unknown);
    assert_eq!(dispatch_handler(0xA4), SvmExitHandler::Unknown);
    assert_eq!(dispatch_handler(0xA5), SvmExitHandler::Unknown);
    assert_eq!(dispatch_handler(0x3FF), SvmExitHandler::Unknown);
    assert_eq!(dispatch_handler(0x401), SvmExitHandler::Unknown);
    assert_eq!(dispatch_handler(0x7FF), SvmExitHandler::Unknown);
    assert_eq!(dispatch_handler(0x800), SvmExitHandler::Unknown);
    assert_eq!(dispatch_handler(0x123456789), SvmExitHandler::Unknown);
    assert_eq!(dispatch_handler(i64::MAX), SvmExitHandler::Unknown);
    assert_eq!(dispatch_handler(-2), SvmExitHandler::Unknown);
    assert_eq!(dispatch_handler(-3), SvmExitHandler::Unknown);
    assert_eq!(dispatch_handler(-4), SvmExitHandler::Unknown);
    assert_eq!(dispatch_handler(i64::MIN), SvmExitHandler::Unknown);
    for code in -1024i64..1024 {
        let h = dispatch_handler(code);
        let registered = code == 0x72
            || code == 0x7F
            || (0x80..=0x86).contains(&code)
            || code == 0x400
            || code == -1;
        assert_eq!(h == SvmExitHandler::Unknown, !registered);
    }
}

#[test]
fn cpuid_filter_masks_exactly_the_virtualization_bits() {
    // The standard feature leaf gains exactly the hypervisor-present bit.
    let (a, b, c, d) = filter_host_cpuid(1, 0x11111111, 0x22222222, 0x33333333, 0x44444444);
    assert_eq!(a, 0x11111111);
    assert_eq!(b, 0x22222222);
    assert_eq!(c, 0x33333333 | 0x80000000);
    assert_eq!(d, 0x44444444);
    // The extended feature leaf loses exactly the SVM-availability bit, in
    // the same word the capability probe reads.
    let (a, b, c, d) =
        filter_host_cpuid(0x80000001, 0x11111111, 0x22222222, 0xFFFFFFFF, 0x44444444);
    assert_eq!(a, 0x11111111);
    assert_eq!(b, 0x22222222);
    assert_eq!(c, 0xFFFFFFFF & !0x4);
    assert_eq!(d, 0x44444444);
    // The SVM feature leaf is concealed entirely.
    assert_eq!(filter_host_cpuid(0x8000000A, 1, 2, 3, 4), (0, 0, 0, 0));
    // Any other leaf passes through byte-for-byte.
    assert_eq!(
        filter_host_cpuid(0x7, 0xAAAAAAAA, 0xBBBBBBBB, 0xCCCCCCCC, 0xDDDDDDDD),
        (0xAAAAAAAA, 0xBBBBBBBB, 0xCCCCCCCC, 0xDDDDDDDD)
    );
}

#[test]
fn synthetic_system_id_spells_the_vendor_signature() {
    let (a, b, c, d) = nvc_mshv_cpuid_hypervisor_system_id_handler(0x40000002, 0);
    assert_eq!(a, 0x40000001);
    let mut bytes = Vec::new();
    bytes.extend_from_slice(&b.to_le_bytes());
    bytes.extend_from_slice(&c.to_le_bytes());
    bytes.extend_from_slice(&d.to_le_bytes());
    assert_eq!(bytes, b"NoirVisor ZT");
}

#[test]
fn synthetic_feature_id_spells_the_interface_signature() {
    let (a, b, c, d) = nvc_mshv_cpuid_hypervisor_feature_id_handler(0x40000003, 0);
    assert_eq!(a.to_le_bytes(), *b"Hv#0");
    assert_eq!((b, c, d), (0, 0, 0));
}

#[test]
fn synthetic_leaf_out_of_range_answers_zero() {
    assert_eq!(mshv_cpuid_dispatch(MSHV_CPUID_HANDLERS_COUNT, 0x40000004, 0), (0, 0, 0, 0));
    assert_eq!(mshv_cpuid_dispatch(0x3FFFFFFF, 0x7FFFFFFF, 0), (0, 0, 0, 0));
    // Unregistered entries inside the table answer zero too.
    assert_eq!(mshv_cpuid_dispatch(0, 0x40000000, 0), (0, 0, 0, 0));
    assert_eq!(mshv_cpuid_dispatch(1, 0x40000001, 0), (0, 0, 0, 0));
    // The registered entries answer their signatures.
    assert_eq!(mshv_cpuid_dispatch(2, 0x40000002, 0).0, 0x40000001);
    assert_eq!(mshv_cpuid_dispatch(3, 0x40000003, 0).0, u32::from_le_bytes(*b"Hv#0"));
}

fn vcpu_with_vmcb() -> SvmVcpu {
    let mut vcpu = SvmVcpu::new();
    vcpu.vmcb = noirvisor::vmcb::Vmcb::new(MemoryDescriptor::new(0x7000, 0x8000));
    vcpu.stack_top = SvmStackTop {
        guest_vmcb_pa: 0x8000,
        host_vmcb_pa: 0x9000,
        proc_id: 0,
        reserved: 0,
    };
    vcpu
}

fn zero_gprs() -> GprState {
    GprState::new()
}

#[test]
fn exit_handler_emulates_cpuid() {
    let mut vcpu = vcpu_with_vmcb();
    vmwrite32(&mut vcpu.vmcb, EXIT_CODE, 0x72);
    vmwrite64(&mut vcpu.vmcb, GUEST_RAX, 0x80000001);
    vmwrite64(&mut vcpu.vmcb, NEXT_RIP, 0x1234);
    let mut gpr = zero_gprs();
    gpr.rcx = 0x5555555500000000;
    let action = nvc_svm_exit_handler(&mut gpr, &mut vcpu, (0xA, 0xB, 0xFFFF, 0xD));
    assert_eq!(action, SvmExitAction::Resume);
    // The SVM bit is cleared; the upper register halves survive.
    assert_eq!(gpr.rbx, 0xB);
    assert_eq!(gpr.rcx, 0x5555555500000000 | (0xFFFF & !0x4));
    assert_eq!(gpr.rdx, 0xD);
    // The guest moves past the instruction and the world-switch register
    // carries the control block's physical address again.
    assert_eq!(noirvisor::vmcb::vmread64(&vcpu.vmcb, noirvisor::vmcb::GUEST_RIP), 0x1234);
    assert_eq!(gpr.rax, 0x8000);
}

#[test]
fn exit_handler_reports_fatal_intercepts() {
    let mut vcpu = vcpu_with_vmcb();
    vmwrite32(&mut vcpu.vmcb, EXIT_CODE, 0x7F);
    let mut gpr = zero_gprs();
    assert_eq!(nvc_svm_exit_handler(&mut gpr, &mut vcpu, (0, 0, 0, 0)), SvmExitAction::Shutdown);

    vmwrite32(&mut vcpu.vmcb, EXIT_CODE, 0x80);
    vmwrite64(&mut vcpu.vmcb, GUEST_RAX, 0xABCD);
    let action = nvc_svm_exit_handler(&mut gpr, &mut vcpu, (0, 0, 0, 0));
    assert_eq!(action, SvmExitAction::NestedVirt(0x80, 0xABCD));

    vmwrite32(&mut vcpu.vmcb, EXIT_CODE, 0x81);
    vmwrite64(&mut vcpu.vmcb, GUEST_RAX, 0x42);
    assert_eq!(
        nvc_svm_exit_handler(&mut gpr, &mut vcpu, (0, 0, 0, 0)),
        SvmExitAction::Hypercall(0x42)
    );

    vmwrite32(&mut vcpu.vmcb, EXIT_CODE, 0x400);
    vmwrite64(&mut vcpu.vmcb, EXIT_INFO1, 0x5);
    vmwrite64(&mut vcpu.vmcb, EXIT_INFO2, 0xDEAD000);
    assert_eq!(
        nvc_svm_exit_handler(&mut gpr, &mut vcpu, (0, 0, 0, 0)),
        SvmExitAction::NestedPageFault(0xDEAD000, 0x5)
    );

    // The exit code is read at 32-bit width: all-ones means invalid state.
    vmwrite32(&mut vcpu.vmcb, EXIT_CODE, 0xFFFFFFFF);
    assert_eq!(
        nvc_svm_exit_handler(&mut gpr, &mut vcpu, (0, 0, 0, 0)),
        SvmExitAction::InvalidState(-1)
    );
}

#[test]
fn exit_handler_resumes_on_unknown_exit() {
    let mut vcpu = vcpu_with_vmcb();
    vmwrite32(&mut vcpu.vmcb, EXIT_CODE, 0x77);
    let mut gpr = zero_gprs();
    assert_eq!(
        nvc_svm_exit_handler(&mut gpr, &mut vcpu, (0, 0, 0, 0)),
        SvmExitAction::UnknownExit(0x77)
    );
    assert_eq!(gpr.rax, 0x8000);
}

#[test]
fn exit_handler_serves_synthetic_cpuid() {
    let mut vcpu = vcpu_with_vmcb();
    vmwrite32(&mut vcpu.vmcb, EXIT_CODE, 0x72);
    vmwrite64(&mut vcpu.vmcb, GUEST_RAX, 0x40000002);
    let mut gpr = zero_gprs();
    // The host values are ignored on the synthetic range.
    let _ = nvc_svm_exit_handler(&mut gpr, &mut vcpu, (0x1, 0x2, 0x3, 0x4));
    let mut bytes = Vec::new();
    bytes.extend_from_slice(&(gpr.rbx as u32).to_le_bytes());
    bytes.extend_from_slice(&(gpr.rcx as u32).to_le_bytes());
    bytes.extend_from_slice(&(gpr.rdx as u32).to_le_bytes());
    assert_eq!(bytes, b"NoirVisor ZT");
}
