use noirvisor::bdk::SegmentRegister;
use noirvisor::bdk::MemoryDescriptor;
use noirvisor::vmcb::{
    advance_rip, inject_event, svm_attrib, svm_attrib_inverse, vmcb_and32, vmcb_bt32, vmcb_or32,
    vmcb_xor32, vmcopy64, vmread16, vmread32, vmread64, vmread8, vmread_segment, vmwrite16,
    vmwrite32, vmwrite64, vmwrite8, vmwrite_segment, AvicControl, EventInjection, EventType,
    InterruptControl, LbrVirtualization, NptControl, Vmcb, EVENT_INJECTION, GUEST_CS_SELECTOR,
    GUEST_RFLAGS, GUEST_RIP, NEXT_RIP, RFLAGS_TF_BIT,
};

fn fresh_vmcb() -> Vmcb {
    Vmcb::new(MemoryDescriptor::new(0x1000, 0x2000))
}

#[test]
fn attrib_pack_examples() {
    // The low byte survives, the high nibble folds down by four bits.
    assert_eq!(svm_attrib(0xFFFF), 0x0FFF);
    assert_eq!(svm_attrib(0x00FF), 0x00FF);
    assert_eq!(svm_attrib(0xA05B), 0x0A5B);
    assert_eq!(svm_attrib(0x0F00), 0x0000);
    assert_eq!(svm_attrib_inverse(0x0FFF), 0xF0FF);
    assert_eq!(svm_attrib_inverse(0x0A5B), 0xA05B);
    assert_eq!(svm_attrib_inverse(0x00FF), 0x00FF);
}

#[test]
fn attrib_round_trip_all_values() {
    // Packing then unpacking keeps exactly the bits the encoding preserves.
    for x in 0..=0xFFFFu32 {
        let x = x as u16;
        assert_eq!(svm_attrib_inverse(svm_attrib(x)), x & 0xF0FF);
    }
    // On packed values the other direction is the identity.
    for p in 0..=0x0FFFu16 {
        assert_eq!(svm_attrib(svm_attrib_inverse(p)), p);
    }
}

#[test]
fn vmcb_read_write_round_trip() {
    let mut vmcb = fresh_vmcb();
    vmwrite8(&mut vmcb, 0x10, 0xAB);
    assert_eq!(vmread8(&vmcb, 0x10), 0xAB);
    vmwrite16(&mut vmcb, 0x20, 0xBEEF);
    assert_eq!(vmread16(&vmcb, 0x20), 0xBEEF);
    vmwrite32(&mut vmcb, 0x30, 0xDEADBEEF);
    assert_eq!(vmread32(&vmcb, 0x30), 0xDEADBEEF);
    vmwrite64(&mut vmcb, 0x40, 0x0123456789ABCDEF);
    assert_eq!(vmread64(&vmcb, 0x40), 0x0123456789ABCDEF);
    // Little-endian byte order is the wire format.
    assert_eq!(vmread8(&vmcb, 0x40), 0xEF);
    assert_eq!(vmread8(&vmcb, 0x47), 0x01);
    // A neighbouring field is untouched.
    assert_eq!(vmread64(&vmcb, 0x48), 0);
}

#[test]
fn vmcb_bitwise_ops() {
    let mut vmcb = fresh_vmcb();
    vmwrite32(&mut vmcb, 0x50, 0x0F0F0000);
    vmcb_or32(&mut vmcb, 0x50, 0x000000FF);
    assert_eq!(vmread32(&vmcb, 0x50), 0x0F0F00FF);
    vmcb_and32(&mut vmcb, 0x50, 0xFF0000FF);
    assert_eq!(vmread32(&vmcb, 0x50), 0x0F0000FF);
    vmcb_xor32(&mut vmcb, 0x50, 0x000000F0);
    assert_eq!(vmread32(&vmcb, 0x50), 0x0F00000F);
    let mut other = fresh_vmcb();
    vmcopy64(&mut other, &vmcb, 0x50);
    assert_eq!(vmread64(&other, 0x50), vmread64(&vmcb, 0x50));
}

#[test]
fn vmcb_bit_test() {
    let mut vmcb = fresh_vmcb();
    vmwrite32(&mut vmcb, 0x60, 1 << 8);
    assert!(vmcb_bt32(&vmcb, 0x60, 8));
    assert!(!vmcb_bt32(&vmcb, 0x60, 9));
    // A position past 31 addresses the following dwords.
    vmwrite32(&mut vmcb, 0x64, 1 << 3);
    assert!(vmcb_bt32(&vmcb, 0x60, 35));
}

#[test]
fn segment_write_packs_attributes() {
    let mut vmcb = fresh_vmcb();
    let seg = SegmentRegister::new(0x10, 0xA09B, 0xFFFFF, 0xFFFF800000000000);
    vmwrite_segment(&mut vmcb, GUEST_CS_SELECTOR, seg);
    // The stored attribute word is the packed form.
    assert_eq!(vmread16(&vmcb, GUEST_CS_SELECTOR + 2), 0x0A9B);
    let back = vmread_segment(&vmcb, GUEST_CS_SELECTOR);
    assert_eq!(back.selector, 0x10);
    assert_eq!(back.attrib, 0xA09B);
    assert_eq!(back.limit, 0xFFFFF);
    assert_eq!(back.base, 0xFFFF800000000000);
}

#[test]
fn event_injection_word_layout() {
    let evt = EventInjection::new(14, EventType::HardwareException, true, true, 0x2);
    assert_eq!(evt.0, (14u64) | (3 << 8) | (1 << 11) | (1 << 31) | (0x2u64 << 32));
    assert_eq!(evt.get_vector(), 14);
    assert_eq!(evt.get_event_type(), 3);
    assert!(evt.get_error_code_valid());
    assert!(evt.get_valid());
    assert_eq!(evt.get_error_code(), 0x2);
    let no_ec = EventInjection::new(1, EventType::HardwareException, false, true, 0);
    assert_eq!(no_ec.0, 0x80000301);
}

#[test]
fn inject_event_writes_the_field() {
    let mut vmcb = fresh_vmcb();
    inject_event(&mut vmcb, 13, EventType::HardwareException, Some(0), true);
    assert_eq!(vmread64(&vmcb, EVENT_INJECTION), (13u64) | (3 << 8) | (1 << 11) | (1 << 31));
    inject_event(&mut vmcb, 2, EventType::NonMaskableInterrupt, None, true);
    assert_eq!(vmread64(&vmcb, EVENT_INJECTION), (2u64) | (2 << 8) | (1 << 31));
}

#[test]
fn advance_rip_moves_to_next_instruction() {
    let mut vmcb = fresh_vmcb();
    vmwrite64(&mut vmcb, NEXT_RIP, 0x401002);
    vmwrite64(&mut vmcb, GUEST_RIP, 0x401000);
    advance_rip(&mut vmcb);
    assert_eq!(vmread64(&vmcb, GUEST_RIP), 0x401002);
    // No single-stepping: nothing is injected.
    assert_eq!(vmread64(&vmcb, EVENT_INJECTION), 0);
}

#[test]
fn advance_rip_injects_debug_trap_when_tracing() {
    let mut vmcb = fresh_vmcb();
    vmwrite64(&mut vmcb, NEXT_RIP, 0x401002);
    vmwrite64(&mut vmcb, GUEST_RFLAGS, 1 << RFLAGS_TF_BIT);
    advance_rip(&mut vmcb);
    assert_eq!(vmread64(&vmcb, GUEST_RIP), 0x401002);
    assert_eq!(vmread64(&vmcb, EVENT_INJECTION), 0x80000301);
}

#[test]
fn control_bitfield_accessors() {
    let mut avic = AvicControl::default();
    avic.set_v_irq(true);
    avic.set_v_tpr(0x5A);
    avic.set_v_intr_vector(0x21);
    assert!(avic.get_v_irq());
    assert_eq!(avic.get_v_tpr(), 0x5A);
    assert_eq!(avic.get_v_intr_vector(), 0x21);
    avic.set_v_irq(false);
    assert!(!avic.get_v_irq());

    let mut ic = InterruptControl::new();
    assert_eq!(ic.0, 0);
    ic.set_shadow(true);
    ic.set_guest_rflags_if(true);
    assert_eq!(ic.0, 0x3);

    let mut npt = NptControl::default();
    npt.set_enable(true);
    assert_eq!(npt.0, 1);
    assert!(npt.get_enable());
    assert!(!npt.get_sev_enable());

    let mut lbr = LbrVirtualization::default();
    lbr.set_vmls_enable(true);
    assert_eq!(lbr.0, 2);
}
