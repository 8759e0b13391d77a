//! The VMCB field model and accessors: a structured binary region of one
//! 4 KiB page, read and written at hardware-defined byte offsets, together
//! with the packed bitfield words the control area holds.
//!
//! Every offset below is fixed by the hardware architecture: it is a wire
//! format, not an internal layout choice.

use vstd::prelude::*;
use vstd::pervasive::VecAdditionalExecFns;

use crate::bdk::{MemoryDescriptor, SegmentRegister};

verus! {

/// Size in bytes of the control block region.
pub const VMCB_SIZE: usize = 0x1000;

// Control-area offsets.
pub const INTERCEPT_READ_CR: usize = 0x0;
pub const INTERCEPT_WRITE_CR: usize = 0x2;
pub const INTERCEPT_ACCESS_CR: usize = 0x0;
pub const INTERCEPT_READ_DR: usize = 0x4;
pub const INTERCEPT_WRITE_DR: usize = 0x6;
pub const INTERCEPT_ACCESS_DR: usize = 0x4;
pub const INTERCEPT_EXCEPTIONS: usize = 0x8;
pub const INTERCEPT_VECTOR1: usize = 0xC;
pub const INTERCEPT_VECTOR2: usize = 0x10;
pub const INTERCEPT_WRITE_CR_POST: usize = 0x12;
pub const INTERCEPT_VECTOR3: usize = 0x14;
pub const PAUSE_FILTER_THRESHOLD: usize = 0x3C;
pub const PAUSE_FILTER_COUNT: usize = 0x3E;
pub const IOPM_PHYSICAL_ADDRESS: usize = 0x40;
pub const MSRPM_PHYSICAL_ADDRESS: usize = 0x48;
pub const TSC_OFFSET: usize = 0x50;
pub const GUEST_ASID: usize = 0x58;
pub const TLB_CONTROL: usize = 0x5C;
pub const AVIC_CONTROL: usize = 0x60;
pub const AVIC_VIRQ_VECTOR: usize = 0x64;
pub const GUEST_INTERRUPT: usize = 0x68;
pub const EXIT_CODE: usize = 0x70;
pub const EXIT_INFO1: usize = 0x78;
pub const EXIT_INFO2: usize = 0x80;
pub const EXIT_INTERRUPT_INFO: usize = 0x88;
pub const NPT_CONTROL: usize = 0x90;
pub const AVIC_APIC_BAR: usize = 0x98;
pub const GHCB_PHYSICAL_ADDRESS: usize = 0xA0;
pub const EVENT_INJECTION: usize = 0xA8;
pub const EVENT_ERROR_CODE: usize = 0xAC;
pub const NPT_CR3: usize = 0xB0;
pub const LBR_VIRTUALIZATION_CONTROL: usize = 0xB8;
pub const VMCB_CLEAN_BITS: usize = 0xC0;
pub const NEXT_RIP: usize = 0xC8;
pub const NUMBER_OF_BYTES_FETCHED: usize = 0xD0;
pub const GUEST_INSTRUCTION_BYTES: usize = 0xD1;
pub const AVIC_BACKING_PAGE_POINTER: usize = 0xE0;
pub const AVIC_LOGICAL_TABLE_POINTER: usize = 0xF0;
pub const AVIC_PHYSICAL_TABLE_POINTER: usize = 0xF8;
pub const VMSA_POINTER: usize = 0x108;
pub const VMGEXIT_RAX: usize = 0x110;
pub const VMGEXIT_CPL: usize = 0x118;

// These offsets are meaningful only with Microsoft enlightenments enabled.
pub const ENLIGHTENMENTS_CONTROL: usize = 0x3E0;
pub const VP_ID: usize = 0x3E4;
pub const VM_ID: usize = 0x3E8;
pub const PARTITION_ASSIST_PAGE: usize = 0x3F0;

// State-save-area offsets (without SEV-ES).
pub const GUEST_ES_SELECTOR: usize = 0x400;
pub const GUEST_ES_ATTRIB: usize = 0x402;
pub const GUEST_ES_LIMIT: usize = 0x404;
pub const GUEST_ES_BASE: usize = 0x408;
pub const GUEST_CS_SELECTOR: usize = 0x410;
pub const GUEST_CS_ATTRIB: usize = 0x412;
pub const GUEST_CS_LIMIT: usize = 0x414;
pub const GUEST_CS_BASE: usize = 0x418;
pub const GUEST_SS_SELECTOR: usize = 0x420;
pub const GUEST_SS_ATTRIB: usize = 0x422;
pub const GUEST_SS_LIMIT: usize = 0x424;
pub const GUEST_SS_BASE: usize = 0x428;
pub const GUEST_DS_SELECTOR: usize = 0x430;
pub const GUEST_DS_ATTRIB: usize = 0x432;
pub const GUEST_DS_LIMIT: usize = 0x434;
pub const GUEST_DS_BASE: usize = 0x438;
pub const GUEST_FS_SELECTOR: usize = 0x440;
pub const GUEST_FS_ATTRIB: usize = 0x442;
pub const GUEST_FS_LIMIT: usize = 0x444;
pub const GUEST_FS_BASE: usize = 0x448;
pub const GUEST_GS_SELECTOR: usize = 0x450;
pub const GUEST_GS_ATTRIB: usize = 0x452;
pub const GUEST_GS_LIMIT: usize = 0x454;
pub const GUEST_GS_BASE: usize = 0x458;
pub const GUEST_GDTR_SELECTOR: usize = 0x460;
pub const GUEST_GDTR_ATTRIB: usize = 0x462;
pub const GUEST_GDTR_LIMIT: usize = 0x464;
pub const GUEST_GDTR_BASE: usize = 0x468;
pub const GUEST_LDTR_SELECTOR: usize = 0x470;
pub const GUEST_LDTR_ATTRIB: usize = 0x472;
pub const GUEST_LDTR_LIMIT: usize = 0x474;
pub const GUEST_LDTR_BASE: usize = 0x478;
pub const GUEST_IDTR_SELECTOR: usize = 0x480;
pub const GUEST_IDTR_ATTRIB: usize = 0x482;
pub const GUEST_IDTR_LIMIT: usize = 0x484;
pub const GUEST_IDTR_BASE: usize = 0x488;
pub const GUEST_TR_SELECTOR: usize = 0x490;
pub const GUEST_TR_ATTRIB: usize = 0x492;
pub const GUEST_TR_LIMIT: usize = 0x494;
pub const GUEST_TR_BASE: usize = 0x498;
pub const GUEST_CPL: usize = 0x4CB;
pub const GUEST_EFER: usize = 0x4D0;
pub const GUEST_CR4: usize = 0x548;
pub const GUEST_CR3: usize = 0x550;
pub const GUEST_CR0: usize = 0x558;
pub const GUEST_DR7: usize = 0x560;
pub const GUEST_DR6: usize = 0x568;
pub const GUEST_RFLAGS: usize = 0x570;
pub const GUEST_RIP: usize = 0x578;
pub const GUEST_RSP: usize = 0x5D8;
pub const GUEST_S_CET: usize = 0x5E0;
pub const GUEST_SSP: usize = 0x5E8;
pub const GUEST_ISST: usize = 0x5F0;
pub const GUEST_RAX: usize = 0x5F8;
pub const GUEST_STAR: usize = 0x600;
pub const GUEST_LSTAR: usize = 0x608;
pub const GUEST_CSTAR: usize = 0x610;
pub const GUEST_SFMASK: usize = 0x618;
pub const GUEST_KERNEL_GS_BASE: usize = 0x620;
pub const GUEST_SYSENTER_CS: usize = 0x628;
pub const GUEST_SYSENTER_ESP: usize = 0x630;
pub const GUEST_SYSENTER_EIP: usize = 0x638;
pub const GUEST_CR2: usize = 0x640;
pub const GUEST_PAT: usize = 0x668;
pub const GUEST_DEBUG_CTRL: usize = 0x670;
pub const GUEST_LAST_BRANCH_FROM: usize = 0x678;
pub const GUEST_LAST_BRANCH_TO: usize = 0x680;
pub const GUEST_LAST_EXCEPTION_FROM: usize = 0x688;
pub const GUEST_LAST_EXCEPTION_TO: usize = 0x690;
pub const GUEST_DEBUG_EXTENED_CONFIG: usize = 0x698;
pub const GUEST_SPEC_CTRL: usize = 0x6E0;
pub const GUEST_LBR_STACK_FROM: usize = 0xA70;
pub const GUEST_LBR_STACK_TO: usize = 0xAF0;
pub const GUEST_LBR_SELECT: usize = 0xB70;
pub const GUEST_IBS_FETCH_CTRL: usize = 0xB78;
pub const GUEST_IBS_FETCH_LINEAR_ADDRESS: usize = 0xB80;
pub const GUEST_IBS_OP_CTRL: usize = 0xB88;
pub const GUEST_IBS_OP_RIP: usize = 0xB90;
pub const GUEST_IBS_OP_DATA1: usize = 0xB98;
pub const GUEST_IBS_OP_DATA2: usize = 0xBA0;
pub const GUEST_IBS_OP_DATA3: usize = 0xBA8;
pub const GUEST_IBS_DC_LINEAR_ADDRESS: usize = 0xBB0;
pub const GUEST_BP_IBSTGT_RIP: usize = 0xBB8;
pub const GUEST_IC_IBS_EXTD_CTRL: usize = 0xBC0;

// Intercept bits of control-area vector 1.
pub const INTERCEPT_VECTOR1_INTR: u32 = 0x00000001;
pub const INTERCEPT_VECTOR1_NMI: u32 = 0x00000002;
pub const INTERCEPT_VECTOR1_SMI: u32 = 0x00000004;
pub const INTERCEPT_VECTOR1_INIT: u32 = 0x00000008;
pub const INTERCEPT_VECTOR1_VINT: u32 = 0x00000010;
pub const INTERCEPT_VECTOR1_CR0_TSMP: u32 = 0x00000020;
pub const INTERCEPT_VECTOR1_SIDT: u32 = 0x00000040;
pub const INTERCEPT_VECTOR1_SGDT: u32 = 0x00000080;
pub const INTERCEPT_VECTOR1_SLDT: u32 = 0x00000100;
pub const INTERCEPT_VECTOR1_STR: u32 = 0x00000200;
pub const INTERCEPT_VECTOR1_LIDT: u32 = 0x00000400;
pub const INTERCEPT_VECTOR1_LGDT: u32 = 0x00000800;
pub const INTERCEPT_VECTOR1_LLDT: u32 = 0x00001000;
pub const INTERCEPT_VECTOR1_LTR: u32 = 0x00002000;
pub const INTERCEPT_VECTOR1_RDTSC: u32 = 0x00004000;
pub const INTERCEPT_VECTOR1_RDPMC: u32 = 0x00008000;
pub const INTERCEPT_VECTOR1_PUSHF: u32 = 0x00010000;
pub const INTERCEPT_VECTOR1_POPF: u32 = 0x00020000;
pub const INTERCEPT_VECTOR1_CPUID: u32 = 0x00040000;
pub const INTERCEPT_VECTOR1_RSM: u32 = 0x00080000;
pub const INTERCEPT_VECTOR1_IRET: u32 = 0x00100000;
pub const INTERCEPT_VECTOR1_INT: u32 = 0x00200000;
pub const INTERCEPT_VECTOR1_INVD: u32 = 0x00400000;
pub const INTERCEPT_VECTOR1_PAUSE: u32 = 0x00800000;
pub const INTERCEPT_VECTOR1_HLT: u32 = 0x01000000;
pub const INTERCEPT_VECTOR1_INVLPG: u32 = 0x02000000;
pub const INTERCEPT_VECTOR1_INVLPGA: u32 = 0x04000000;
pub const INTERCEPT_VECTOR1_IO: u32 = 0x08000000;
pub const INTERCEPT_VECTOR1_MSR: u32 = 0x10000000;
pub const INTERCEPT_VECTOR1_TS: u32 = 0x20000000;
pub const INTERCEPT_VECTOR1_FF: u32 = 0x40000000;
pub const INTERCEPT_VECTOR1_SHUTDOWN: u32 = 0x80000000;

// Intercept bits of control-area vector 2.
pub const INTERCEPT_VECTOR2_VMRUN: u32 = 0x00000001;
pub const INTERCEPT_VECTOR2_VMMCALL: u32 = 0x00000002;
pub const INTERCEPT_VECTOR2_VMLOAD: u32 = 0x00000004;
pub const INTERCEPT_VECTOR2_VMSAVE: u32 = 0x00000008;
pub const INTERCEPT_VECTOR2_STGI: u32 = 0x00000010;
pub const INTERCEPT_VECTOR2_CLGI: u32 = 0x00000020;
pub const INTERCEPT_VECTOR2_SKINIT: u32 = 0x00000040;
pub const INTERCEPT_VECTOR2_RDTSCP: u32 = 0x00000080;
pub const INTERCEPT_VECTOR2_ICEBP: u32 = 0x00000100;
pub const INTERCEPT_VECTOR2_WBINVD: u32 = 0x00000200;
pub const INTERCEPT_VECTOR2_MONITOR: u32 = 0x00000400;
pub const INTERCEPT_VECTOR2_MWAIT: u32 = 0x00000800;
pub const INTERCEPT_VECTOR2_MWAIT_C: u32 = 0x00001000;
pub const INTERCEPT_VECTOR2_XSETBV: u32 = 0x00002000;
pub const INTERCEPT_VECTOR2_RDPRU: u32 = 0x00004000;
pub const INTERCEPT_VECTOR2_EFER_PW: u32 = 0x00008000;

// Intercept bits of control-area vector 3.
pub const INTERCEPT_VECTOR3_INVLPGB: u32 = 0x00000001;
pub const INTERCEPT_VECTOR3_ILLEGAL_INVLPGB: u32 = 0x00000002;
pub const INTERCEPT_VECTOR3_INVPCID: u32 = 0x00000004;
pub const INTERCEPT_VECTOR3_MCOMMIT: u32 = 0x00000008;
pub const INTERCEPT_VECTOR3_TLBSYNC: u32 = 0x00000010;

// TLB-control commands.
pub const TLB_CONTROL_DO_NOTHING: u8 = 0;
pub const TLB_CONTROL_FLUSH_ENTIRE_TLB: u8 = 1;
pub const TLB_CONTROL_FLUSH_GUEST_TLB: u8 = 3;
pub const TLB_CONTROL_FLUSH_GUEST_NON_GLOBAL_TLB: u8 = 7;

/// The hardware's packed form of segment attributes: the low byte kept, the
/// high nibble folded down by four bits, truncated to twelve bits.
pub open spec fn spec_svm_attrib(attrib: u16) -> u16 {
    ((attrib & 0xFF) | ((attrib & 0xF000) >> 4)) & 0xFFF
}

/// The unpacked form of a packed attribute word: the folded nibble restored
/// to its architectural position.
pub open spec fn spec_svm_attrib_inverse(attrib: u16) -> u16 {
    ((attrib & 0xF00) << 4) | (attrib & 0xFF)
}

/// Packs an unpacked attribute word into the VMCB's two-nibble encoding.
pub fn svm_attrib(attrib: u16) -> (r: u16)
    ensures
        r == spec_svm_attrib(attrib),
{
    ((attrib & 0xFF) | ((attrib & 0xF000) >> 4)) & 0xFFF
}

/// Unpacks a VMCB attribute word into its architectural form.
pub fn svm_attrib_inverse(attrib: u16) -> (r: u16)
    ensures
        r == spec_svm_attrib_inverse(attrib),
{
    ((attrib & 0xF00) << 4) | (attrib & 0xFF)
}

/// Packing then unpacking a segment attribute preserves exactly the bits the
/// hardware encoding keeps: the low byte and the high nibble.
pub proof fn lemma_svm_attrib_round_trip(attrib: u16)
    ensures
        spec_svm_attrib_inverse(spec_svm_attrib(attrib)) == attrib & 0xF0FF,
{
    assert(spec_svm_attrib_inverse(spec_svm_attrib(attrib)) == attrib & 0xF0FF)
        by (bit_vector);
}

/// On words already in packed form, unpacking then packing is the identity.
pub proof fn lemma_svm_attrib_pack_of_unpack(attrib: u16)
    requires
        attrib & 0xF000 == 0,
    ensures
        spec_svm_attrib(spec_svm_attrib_inverse(attrib)) == attrib,
{
    assert(attrib & 0xF000 == 0 ==> spec_svm_attrib(spec_svm_attrib_inverse(attrib)) == attrib)
        by (bit_vector);
}

/// The 16-bit little-endian word held at byte offset `off` of `s`.
pub open spec fn le16_at(s: Seq<u8>, off: int) -> u16 {
    (s[off] as u16) | ((s[off + 1] as u16) << 8)
}

/// The 32-bit little-endian word held at byte offset `off` of `s`.
pub open spec fn le32_at(s: Seq<u8>, off: int) -> u32 {
    (s[off] as u32) | ((s[off + 1] as u32) << 8) | ((s[off + 2] as u32) << 16) | ((s[
        off + 3] as u32) << 24)
}

/// The 64-bit little-endian word held at byte offset `off` of `s`.
pub open spec fn le64_at(s: Seq<u8>, off: int) -> u64 {
    (s[off] as u64) | ((s[off + 1] as u64) << 8) | ((s[off + 2] as u64) << 16) | ((s[
        off + 3] as u64) << 24) | ((s[off + 4] as u64) << 32) | ((s[off + 5] as u64) << 40) | ((s[
        off + 6] as u64) << 48) | ((s[off + 7] as u64) << 56)
}

/// One virtual-machine control block: the 4 KiB byte region the hardware
/// reads and writes, together with the allocation it lives in.
pub struct Vmcb {
    pub bytes: Vec<u8>,
    pub md: MemoryDescriptor,
}

impl Vmcb {
    /// The region always spans exactly one page.
    pub open spec fn wf(self) -> bool {
        self.bytes@.len() == VMCB_SIZE
    }

    /// A fresh, zero-filled control block backed by the given allocation.
    pub fn new(md: MemoryDescriptor) -> (r: Self)
        ensures
            r.wf(),
            r.md == md,
            forall|j: int| 0 <= j < VMCB_SIZE ==> r.bytes@[j] == 0u8,
    {
        let bytes: Vec<u8> = vec![0u8; VMCB_SIZE];
        Vmcb { bytes, md }
    }
}

/// Reads the byte at `offset`.
pub fn vmread8(vmcb: &Vmcb, offset: usize) -> (r: u8)
    requires
        vmcb.wf(),
        offset + 1 <= VMCB_SIZE,
    ensures
        r == vmcb.bytes@[offset as int],
{
    vmcb.bytes[offset]
}

/// Reads the 16-bit little-endian word at `offset`.
pub fn vmread16(vmcb: &Vmcb, offset: usize) -> (r: u16)
    requires
        vmcb.wf(),
        offset + 2 <= VMCB_SIZE,
    ensures
        r == le16_at(vmcb.bytes@, offset as int),
{
    (vmcb.bytes[offset] as u16) | ((vmcb.bytes[offset + 1] as u16) << 8)
}

/// Reads the 32-bit little-endian word at `offset`.
pub fn vmread32(vmcb: &Vmcb, offset: usize) -> (r: u32)
    requires
        vmcb.wf(),
        offset + 4 <= VMCB_SIZE,
    ensures
        r == le32_at(vmcb.bytes@, offset as int),
{
    (vmcb.bytes[offset] as u32) | ((vmcb.bytes[offset + 1] as u32) << 8) | ((vmcb.bytes[offset
        + 2] as u32) << 16) | ((vmcb.bytes[offset + 3] as u32) << 24)
}

/// Reads the 64-bit little-endian word at `offset`.
pub fn vmread64(vmcb: &Vmcb, offset: usize) -> (r: u64)
    requires
        vmcb.wf(),
        offset + 8 <= VMCB_SIZE,
    ensures
        r == le64_at(vmcb.bytes@, offset as int),
{
    (vmcb.bytes[offset] as u64) | ((vmcb.bytes[offset + 1] as u64) << 8) | ((vmcb.bytes[offset
        + 2] as u64) << 16) | ((vmcb.bytes[offset + 3] as u64) << 24) | ((vmcb.bytes[offset
        + 4] as u64) << 32) | ((vmcb.bytes[offset + 5] as u64) << 40) | ((vmcb.bytes[offset
        + 6] as u64) << 48) | ((vmcb.bytes[offset + 7] as u64) << 56)
}

/// Writes the byte at `offset`, leaving every other byte unchanged.
pub fn vmwrite8(vmcb: &mut Vmcb, offset: usize, value: u8)
    requires
        old(vmcb).wf(),
        offset + 1 <= VMCB_SIZE,
    ensures
        final(vmcb).wf(),
        final(vmcb).md == old(vmcb).md,
        final(vmcb).bytes@[offset as int] == value,
        forall|j: int|
            0 <= j < VMCB_SIZE && j != offset ==> final(vmcb).bytes@[j] == old(vmcb).bytes@[j],
{
    vmcb.bytes.set(offset, value);
}

/// Writes the 16-bit little-endian word at `offset`, leaving every byte
/// outside it unchanged.
pub fn vmwrite16(vmcb: &mut Vmcb, offset: usize, value: u16)
    requires
        old(vmcb).wf(),
        offset + 2 <= VMCB_SIZE,
    ensures
        final(vmcb).wf(),
        final(vmcb).md == old(vmcb).md,
        le16_at(final(vmcb).bytes@, offset as int) == value,
        forall|j: int|
            0 <= j < VMCB_SIZE && !(offset <= j < offset + 2) ==> final(vmcb).bytes@[j] == old(vmcb).bytes@[j],
{
    vmcb.bytes.set(offset, value as u8);
    vmcb.bytes.set(offset + 1, (value >> 8) as u8);
    proof {
        let v = value;
        assert((v as u8 as u16) | (((v >> 8) as u8 as u16) << 8) == v) by (bit_vector);
    }
}

/// Writes the 32-bit little-endian word at `offset`, leaving every byte
/// outside it unchanged.
pub fn vmwrite32(vmcb: &mut Vmcb, offset: usize, value: u32)
    requires
        old(vmcb).wf(),
        offset + 4 <= VMCB_SIZE,
    ensures
        final(vmcb).wf(),
        final(vmcb).md == old(vmcb).md,
        le32_at(final(vmcb).bytes@, offset as int) == value,
        forall|j: int|
            0 <= j < VMCB_SIZE && !(offset <= j < offset + 4) ==> final(vmcb).bytes@[j] == old(vmcb).bytes@[j],
{
    vmcb.bytes.set(offset, value as u8);
    vmcb.bytes.set(offset + 1, (value >> 8) as u8);
    vmcb.bytes.set(offset + 2, (value >> 16) as u8);
    vmcb.bytes.set(offset + 3, (value >> 24) as u8);
    proof {
        let v = value;
        assert((v as u8 as u32) | (((v >> 8) as u8 as u32) << 8) | (((v >> 16) as u8 as u32) << 16)
            | (((v >> 24) as u8 as u32) << 24) == v) by (bit_vector);
    }
}

/// Writes the 64-bit little-endian word at `offset`, leaving every byte
/// outside it unchanged.
pub fn vmwrite64(vmcb: &mut Vmcb, offset: usize, value: u64)
    requires
        old(vmcb).wf(),
        offset + 8 <= VMCB_SIZE,
    ensures
        final(vmcb).wf(),
        final(vmcb).md == old(vmcb).md,
        le64_at(final(vmcb).bytes@, offset as int) == value,
        forall|j: int|
            0 <= j < VMCB_SIZE && !(offset <= j < offset + 8) ==> final(vmcb).bytes@[j] == old(vmcb).bytes@[j],
{
    vmcb.bytes.set(offset, value as u8);
    vmcb.bytes.set(offset + 1, (value >> 8) as u8);
    vmcb.bytes.set(offset + 2, (value >> 16) as u8);
    vmcb.bytes.set(offset + 3, (value >> 24) as u8);
    vmcb.bytes.set(offset + 4, (value >> 32) as u8);
    vmcb.bytes.set(offset + 5, (value >> 40) as u8);
    vmcb.bytes.set(offset + 6, (value >> 48) as u8);
    vmcb.bytes.set(offset + 7, (value >> 56) as u8);
    proof {
        let v = value;
        assert((v as u8 as u64) | (((v >> 8) as u8 as u64) << 8) | (((v >> 16) as u8 as u64) << 16)
            | (((v >> 24) as u8 as u64) << 24) | (((v >> 32) as u8 as u64) << 32) | (((v
            >> 40) as u8 as u64) << 40) | (((v >> 48) as u8 as u64) << 48) | (((v
            >> 56) as u8 as u64) << 56) == v) by (bit_vector);
    }
}

/// Copies the 64-bit word at `offset` from `src` into `dest`.
pub fn vmcopy64(dest: &mut Vmcb, src: &Vmcb, offset: usize)
    requires
        old(dest).wf(),
        src.wf(),
        offset + 8 <= VMCB_SIZE,
    ensures
        final(dest).wf(),
        final(dest).md == old(dest).md,
        le64_at(final(dest).bytes@, offset as int) == le64_at(src.bytes@, offset as int),
        forall|j: int|
            0 <= j < VMCB_SIZE && !(offset <= j < offset + 8) ==> final(dest).bytes@[j] == old(dest).bytes@[j],
{
    let v = vmread64(src, offset);
    vmwrite64(dest, offset, v);
}

/// Bitwise-ands the 32-bit word at `offset` with `value` in place.
pub fn vmcb_and32(vmcb: &mut Vmcb, offset: usize, value: u32)
    requires
        old(vmcb).wf(),
        offset + 4 <= VMCB_SIZE,
    ensures
        final(vmcb).wf(),
        final(vmcb).md == old(vmcb).md,
        le32_at(final(vmcb).bytes@, offset as int) == le32_at(old(vmcb).bytes@, offset as int)
            & value,
        forall|j: int|
            0 <= j < VMCB_SIZE && !(offset <= j < offset + 4) ==> final(vmcb).bytes@[j] == old(vmcb).bytes@[j],
{
    let v = vmread32(vmcb, offset);
    vmwrite32(vmcb, offset, v & value);
}

/// Bitwise-ors the 32-bit word at `offset` with `value` in place.
pub fn vmcb_or32(vmcb: &mut Vmcb, offset: usize, value: u32)
    requires
        old(vmcb).wf(),
        offset + 4 <= VMCB_SIZE,
    ensures
        final(vmcb).wf(),
        final(vmcb).md == old(vmcb).md,
        le32_at(final(vmcb).bytes@, offset as int) == le32_at(old(vmcb).bytes@, offset as int)
            | value,
        forall|j: int|
            0 <= j < VMCB_SIZE && !(offset <= j < offset + 4) ==> final(vmcb).bytes@[j] == old(vmcb).bytes@[j],
{
    let v = vmread32(vmcb, offset);
    vmwrite32(vmcb, offset, v | value);
}

/// Bitwise-xors the 32-bit word at `offset` with `value` in place.
pub fn vmcb_xor32(vmcb: &mut Vmcb, offset: usize, value: u32)
    requires
        old(vmcb).wf(),
        offset + 4 <= VMCB_SIZE,
    ensures
        final(vmcb).wf(),
        final(vmcb).md == old(vmcb).md,
        le32_at(final(vmcb).bytes@, offset as int) == le32_at(old(vmcb).bytes@, offset as int)
            ^ value,
        forall|j: int|
            0 <= j < VMCB_SIZE && !(offset <= j < offset + 4) ==> final(vmcb).bytes@[j] == old(vmcb).bytes@[j],
{
    let v = vmread32(vmcb, offset);
    vmwrite32(vmcb, offset, v ^ value);
}

/// Tests one bit at 32-bit granularity: bit `pos % 32` of the dword that is
/// `pos / 32` dwords past `offset`, exactly as the hardware bit-test
/// instruction addresses memory.
pub fn vmcb_bt32(vmcb: &Vmcb, offset: usize, pos: u32) -> (r: bool)
    requires
        vmcb.wf(),
        offset + 4 * ((pos / 32) as usize) + 4 <= VMCB_SIZE,
    ensures
        r == ((le32_at(vmcb.bytes@, offset + 4 * ((pos / 32) as int)) >> (pos % 32)) & 1 == 1),
{
    let dword = vmread32(vmcb, offset + 4 * ((pos / 32) as usize));
    (dword >> (pos % 32)) & 1 == 1
}

/// Reads the segment register stored at `offset`, unpacking the packed
/// attribute word.
pub fn vmread_segment(vmcb: &Vmcb, offset: usize) -> (r: SegmentRegister)
    requires
        vmcb.wf(),
        offset + 16 <= VMCB_SIZE,
    ensures
        r.selector == le16_at(vmcb.bytes@, offset as int),
        r.attrib == spec_svm_attrib_inverse(le16_at(vmcb.bytes@, offset + 2)),
        r.limit == le32_at(vmcb.bytes@, offset + 4),
        r.base == le64_at(vmcb.bytes@, offset + 8),
{
    SegmentRegister {
        selector: vmread16(vmcb, offset),
        attrib: svm_attrib_inverse(vmread16(vmcb, offset + 2)),
        limit: vmread32(vmcb, offset + 4),
        base: vmread64(vmcb, offset + 8),
    }
}

/// Writes the segment register at `offset`, packing the attribute word into
/// the hardware's two-nibble encoding.
pub fn vmwrite_segment(vmcb: &mut Vmcb, offset: usize, value: SegmentRegister)
    requires
        old(vmcb).wf(),
        offset + 16 <= VMCB_SIZE,
    ensures
        final(vmcb).wf(),
        final(vmcb).md == old(vmcb).md,
        le16_at(final(vmcb).bytes@, offset as int) == value.selector,
        le16_at(final(vmcb).bytes@, offset + 2) == spec_svm_attrib(value.attrib),
        le32_at(final(vmcb).bytes@, offset + 4) == value.limit,
        le64_at(final(vmcb).bytes@, offset + 8) == value.base,
        forall|j: int|
            0 <= j < VMCB_SIZE && !(offset <= j < offset + 16) ==> final(vmcb).bytes@[j] == old(vmcb).bytes@[j],
{
    vmwrite16(vmcb, offset, value.selector);
    vmwrite16(vmcb, offset + 2, svm_attrib(value.attrib));
    vmwrite32(vmcb, offset + 4, value.limit);
    vmwrite64(vmcb, offset + 8, value.base);
}

// Exception and interrupt vector numbers.
pub const DIVIDE_ERROR_FAULT: u8 = 0;
pub const DEBUG_FAULT_OR_TRAP: u8 = 1;
pub const NMI_INTERRUPT: u8 = 2;
pub const BREAKPOINT_TRAP: u8 = 3;
pub const OVERFLOW_TRAP: u8 = 4;
pub const EXCEED_BOUND_RANGE_FAULT: u8 = 5;
pub const INVALID_OPCODE_FAULT: u8 = 6;
pub const NO_MATH_COPROCESSOR_FAULT: u8 = 7;
pub const DOUBLE_FAULT_ABORT: u8 = 8;
pub const SEGMENT_OVERRUN_FAULT: u8 = 9;
pub const INVALID_TSS_FAULT: u8 = 10;
pub const SEGMENT_ABSENT_FAULT: u8 = 11;
pub const STACK_FAULT: u8 = 12;
pub const GENERAL_PROTECTION_FAULT: u8 = 13;
pub const PAGE_FAULT: u8 = 14;
pub const X87_FP_EXCEPTION_FAULT: u8 = 16;
pub const ALIGNMENT_CHECK_FAULT: u8 = 17;
pub const MACHINE_CHECK_ABORT: u8 = 18;
pub const SIMD_FP_EXCEPTION_FAULT: u8 = 19;
pub const CONTROL_PROTECTION_FAULT: u8 = 21;

// Bit positions within the RFLAGS register.
pub const RFLAGS_CF_BIT: u32 = 0;
pub const RFLAGS_PF_BIT: u32 = 2;
pub const RFLAGS_AF_BIT: u32 = 4;
pub const RFLAGS_ZF_BIT: u32 = 6;
pub const RFLAGS_SF_BIT: u32 = 7;
pub const RFLAGS_TF_BIT: u32 = 8;
pub const RFLAGS_IF_BIT: u32 = 9;
pub const RFLAGS_DF_BIT: u32 = 10;
pub const RFLAGS_OF_BIT: u32 = 11;
pub const RFLAGS_NT_BIT: u32 = 14;
pub const RFLAGS_RF_BIT: u32 = 16;
pub const RFLAGS_VM_BIT: u32 = 17;
pub const RFLAGS_AC_BIT: u32 = 18;
pub const RFLAGS_VIF_BIT: u32 = 19;
pub const RFLAGS_VIP_BIT: u32 = 20;
pub const RFLAGS_ID_BIT: u32 = 21;

/// The kind of event an injection word describes, as the hardware numbers
/// them.
#[derive(Clone, Copy, PartialEq, Eq, Structural, Debug)]
pub enum EventType {
    ExternalInterrupt,
    NonMaskableInterrupt,
    HardwareException,
    SoftwareInterrupt,
}

/// The hardware's numeric encoding of an [`EventType`].
pub open spec fn spec_event_type_value(t: EventType) -> u64 {
    match t {
        EventType::ExternalInterrupt => 0,
        EventType::NonMaskableInterrupt => 2,
        EventType::HardwareException => 3,
        EventType::SoftwareInterrupt => 4,
    }
}

/// The hardware's numeric encoding of an [`EventType`].
pub fn event_type_value(t: EventType) -> (r: u64)
    ensures
        r == spec_event_type_value(t),
{
    match t {
        EventType::ExternalInterrupt => 0,
        EventType::NonMaskableInterrupt => 2,
        EventType::HardwareException => 3,
        EventType::SoftwareInterrupt => 4,
    }
}

/// The event-injection word built from its components: vector in the low
/// byte, type in bits 8..11, the error-code-valid and valid flags, and the
/// error code in the high half.
pub open spec fn spec_event_injection_word(
    vector: u8,
    event_type: EventType,
    has_error_code: bool,
    valid: bool,
    error_code: u32,
) -> u64 {
    (vector as u64) | (spec_event_type_value(event_type) << EVENT_INJECTION_TYPE_BIT_START) | (
    if has_error_code {
        1u64 << EVENT_INJECTION_ERROR_CODE_VALID_BIT
    } else {
        0u64
    }) | (if valid {
        1u64 << EVENT_INJECTION_VALID_BIT
    } else {
        0u64
    }) | ((error_code as u64) << EVENT_INJECTION_ERROR_CODE_BIT_START)
}

/// What [`inject_event`] leaves in the event-injection field for a given
/// optional error code.
pub open spec fn spec_injected_event(
    vector: u8,
    event_type: EventType,
    error_code: Option<u32>,
    valid: bool,
) -> u64 {
    match error_code {
        Some(ec) => spec_event_injection_word(vector, event_type, true, valid, ec),
        None => spec_event_injection_word(vector, event_type, false, valid, 0),
    }
}

/// Writes an event-injection request into the control area, so that the
/// hardware delivers the event to the guest on the next entry.
pub fn inject_event(
    vmcb: &mut Vmcb,
    vector: u8,
    event_type: EventType,
    error_code: Option<u32>,
    valid: bool,
)
    requires
        old(vmcb).wf(),
    ensures
        final(vmcb).wf(),
        final(vmcb).md == old(vmcb).md,
        le64_at(final(vmcb).bytes@, EVENT_INJECTION as int) == spec_injected_event(
            vector,
            event_type,
            error_code,
            valid,
        ),
        forall|j: int|
            0 <= j < VMCB_SIZE && !(EVENT_INJECTION <= j < EVENT_INJECTION + 8) ==> final(vmcb).bytes@[j] == old(vmcb).bytes@[j],
{
    let evt = match error_code {
        Some(ec) => EventInjection::new(vector, event_type, true, valid, ec),
        None => EventInjection::new(vector, event_type, false, valid, 0),
    };
    vmwrite64(vmcb, EVENT_INJECTION, evt.0);
}

/// The injection word of the debug trap [`advance_rip`] raises while the
/// guest single-steps.
pub proof fn lemma_debug_trap_injection_word()
    ensures
        spec_injected_event(DEBUG_FAULT_OR_TRAP, EventType::HardwareException, None, true)
            == 0x80000301u64,
{
    assert(spec_injected_event(DEBUG_FAULT_OR_TRAP, EventType::HardwareException, None, true)
        == (1u8 as u64) | (3u64 << 8) | 0u64 | (1u64 << 31) | ((0u32 as u64) << 32));
    assert((1u8 as u64) | (3u64 << 8) | 0u64 | (1u64 << 31) | ((0u32 as u64) << 32)
        == 0x80000301u64) by (bit_vector);
}

/// Moves the guest onward past an emulated instruction: the next-instruction
/// pointer the hardware reported becomes the guest instruction pointer, and,
/// when the guest is single-step tracing, a debug trap is injected so the
/// emulated instruction is not silently skipped in an attached debugger.
pub fn advance_rip(vmcb: &mut Vmcb)
    requires
        old(vmcb).wf(),
    ensures
        final(vmcb).wf(),
        final(vmcb).md == old(vmcb).md,
        le64_at(final(vmcb).bytes@, GUEST_RIP as int) == le64_at(
            old(vmcb).bytes@,
            NEXT_RIP as int,
        ),
        (le32_at(old(vmcb).bytes@, GUEST_RFLAGS as int) >> RFLAGS_TF_BIT) & 1 == 1 ==> le64_at(
            final(vmcb).bytes@,
            EVENT_INJECTION as int,
        ) == spec_injected_event(DEBUG_FAULT_OR_TRAP, EventType::HardwareException, None, true),
        forall|j: int|
            0 <= j < VMCB_SIZE && !(GUEST_RIP <= j < GUEST_RIP + 8) && !(EVENT_INJECTION <= j
                < EVENT_INJECTION + 8) ==> final(vmcb).bytes@[j] == old(vmcb).bytes@[j],
        (le32_at(old(vmcb).bytes@, GUEST_RFLAGS as int) >> RFLAGS_TF_BIT) & 1 != 1 ==> forall|
            j: int,
        |
            0 <= j < VMCB_SIZE && !(GUEST_RIP <= j < GUEST_RIP + 8) ==> final(vmcb).bytes@[j]
                == old(vmcb).bytes@[j],
{
    let next = vmread64(vmcb, NEXT_RIP);
    vmwrite64(vmcb, GUEST_RIP, next);
    if vmcb_bt32(vmcb, GUEST_RFLAGS, RFLAGS_TF_BIT) {
        // A single-stepping guest expects its debugger to stop after the
        // instruction the host just emulated.
        inject_event(vmcb, DEBUG_FAULT_OR_TRAP, EventType::HardwareException, None, true);
    }
}

// Bit layout of the AVIC-control word at offset 0x60.
pub const AVIC_CONTROL_V_TPR_BIT_START: u64 = 0;
pub const AVIC_CONTROL_V_TPR_MASK: u64 = 0xFF;
pub const AVIC_CONTROL_V_IRQ: u64 = 1 << 8;
pub const AVIC_CONTROL_V_GIF: u64 = 1 << 9;
pub const AVIC_CONTROL_V_NMI: u64 = 1 << 11;
pub const AVIC_CONTROL_V_NMI_MASK: u64 = 1 << 12;
pub const AVIC_CONTROL_V_INTR_PRIO_BIT_START: u64 = 16;
pub const AVIC_CONTROL_V_INTR_PRIO_MASK: u64 = 0xF;
pub const AVIC_CONTROL_V_IGN_TPR: u64 = 1 << 20;
pub const AVIC_CONTROL_V_INTR_MASKING: u64 = 1 << 24;
pub const AVIC_CONTROL_V_GIF_ENABLE: u64 = 1 << 25;
pub const AVIC_CONTROL_V_NMI_ENABLE: u64 = 1 << 26;
pub const AVIC_CONTROL_X2AVIC_ENABLE: u64 = 1 << 30;
pub const AVIC_CONTROL_AVIC_ENABLE: u64 = 1 << 31;
pub const AVIC_CONTROL_V_INTR_VECTOR_BIT_START: u64 = 32;
pub const AVIC_CONTROL_V_INTR_VECTOR_MASK: u64 = 0xFF;

/// The packed AVIC-control word held at offset 0x60 of the control area.
pub struct AvicControl(pub u64);

impl Default for AvicControl {
    fn default() -> (r: Self)
        ensures
            r.0 == 0,
    {
        AvicControl(0)
    }
}

impl AvicControl {
    pub fn get_v_tpr(&self) -> (r: u8)
        ensures
            r == ((self.0 >> AVIC_CONTROL_V_TPR_BIT_START) & 0xFF) as u8,
    {
        ((self.0 >> AVIC_CONTROL_V_TPR_BIT_START) & 0xFF) as u8
    }

    pub fn set_v_tpr(&mut self, val: u8)
        ensures
            final(self).0 == (old(self).0 & !(0xFFu64 << AVIC_CONTROL_V_TPR_BIT_START)) | (((val as u64)
                & 0xFF) << AVIC_CONTROL_V_TPR_BIT_START),
    {
        self.0 = (self.0 & !(0xFFu64 << AVIC_CONTROL_V_TPR_BIT_START)) | (((val as u64) & 0xFF) << AVIC_CONTROL_V_TPR_BIT_START);
    }

    pub fn get_v_irq(&self) -> (r: bool)
        ensures
            r == (self.0 & AVIC_CONTROL_V_IRQ == AVIC_CONTROL_V_IRQ),
    {
        (self.0 & AVIC_CONTROL_V_IRQ) == AVIC_CONTROL_V_IRQ
    }

    pub fn set_v_irq(&mut self, val: bool)
        ensures
            val ==> final(self).0 == old(self).0 | AVIC_CONTROL_V_IRQ,
            !val ==> final(self).0 == old(self).0 & !AVIC_CONTROL_V_IRQ,
    {
        if val {
            self.0 = self.0 | AVIC_CONTROL_V_IRQ;
        } else {
            self.0 = self.0 & !AVIC_CONTROL_V_IRQ;
        }
    }

    pub fn get_v_gif(&self) -> (r: bool)
        ensures
            r == (self.0 & AVIC_CONTROL_V_GIF == AVIC_CONTROL_V_GIF),
    {
        (self.0 & AVIC_CONTROL_V_GIF) == AVIC_CONTROL_V_GIF
    }

    pub fn set_v_gif(&mut self, val: bool)
        ensures
            val ==> final(self).0 == old(self).0 | AVIC_CONTROL_V_GIF,
            !val ==> final(self).0 == old(self).0 & !AVIC_CONTROL_V_GIF,
    {
        if val {
            self.0 = self.0 | AVIC_CONTROL_V_GIF;
        } else {
            self.0 = self.0 & !AVIC_CONTROL_V_GIF;
        }
    }

    pub fn get_v_nmi(&self) -> (r: bool)
        ensures
            r == (self.0 & AVIC_CONTROL_V_NMI == AVIC_CONTROL_V_NMI),
    {
        (self.0 & AVIC_CONTROL_V_NMI) == AVIC_CONTROL_V_NMI
    }

    pub fn set_v_nmi(&mut self, val: bool)
        ensures
            val ==> final(self).0 == old(self).0 | AVIC_CONTROL_V_NMI,
            !val ==> final(self).0 == old(self).0 & !AVIC_CONTROL_V_NMI,
    {
        if val {
            self.0 = self.0 | AVIC_CONTROL_V_NMI;
        } else {
            self.0 = self.0 & !AVIC_CONTROL_V_NMI;
        }
    }

    pub fn get_v_nmi_mask(&self) -> (r: bool)
        ensures
            r == (self.0 & AVIC_CONTROL_V_NMI_MASK == AVIC_CONTROL_V_NMI_MASK),
    {
        (self.0 & AVIC_CONTROL_V_NMI_MASK) == AVIC_CONTROL_V_NMI_MASK
    }

    pub fn set_v_nmi_mask(&mut self, val: bool)
        ensures
            val ==> final(self).0 == old(self).0 | AVIC_CONTROL_V_NMI_MASK,
            !val ==> final(self).0 == old(self).0 & !AVIC_CONTROL_V_NMI_MASK,
    {
        if val {
            self.0 = self.0 | AVIC_CONTROL_V_NMI_MASK;
        } else {
            self.0 = self.0 & !AVIC_CONTROL_V_NMI_MASK;
        }
    }

    pub fn get_v_intr_prio(&self) -> (r: u8)
        ensures
            r == ((self.0 >> AVIC_CONTROL_V_INTR_PRIO_BIT_START) & 0xF) as u8,
    {
        ((self.0 >> AVIC_CONTROL_V_INTR_PRIO_BIT_START) & 0xF) as u8
    }

    pub fn set_v_intr_prio(&mut self, val: u8)
        ensures
            final(self).0 == (old(self).0 & !(0xFu64 << AVIC_CONTROL_V_INTR_PRIO_BIT_START)) | (((val as u64)
                & 0xF) << AVIC_CONTROL_V_INTR_PRIO_BIT_START),
    {
        self.0 = (self.0 & !(0xFu64 << AVIC_CONTROL_V_INTR_PRIO_BIT_START)) | (((val as u64) & 0xF) << AVIC_CONTROL_V_INTR_PRIO_BIT_START);
    }

    pub fn get_v_ign_tpr(&self) -> (r: bool)
        ensures
            r == (self.0 & AVIC_CONTROL_V_IGN_TPR == AVIC_CONTROL_V_IGN_TPR),
    {
        (self.0 & AVIC_CONTROL_V_IGN_TPR) == AVIC_CONTROL_V_IGN_TPR
    }

    pub fn set_v_ign_tpr(&mut self, val: bool)
        ensures
            val ==> final(self).0 == old(self).0 | AVIC_CONTROL_V_IGN_TPR,
            !val ==> final(self).0 == old(self).0 & !AVIC_CONTROL_V_IGN_TPR,
    {
        if val {
            self.0 = self.0 | AVIC_CONTROL_V_IGN_TPR;
        } else {
            self.0 = self.0 & !AVIC_CONTROL_V_IGN_TPR;
        }
    }

    pub fn get_v_intr_masking(&self) -> (r: bool)
        ensures
            r == (self.0 & AVIC_CONTROL_V_INTR_MASKING == AVIC_CONTROL_V_INTR_MASKING),
    {
        (self.0 & AVIC_CONTROL_V_INTR_MASKING) == AVIC_CONTROL_V_INTR_MASKING
    }

    pub fn set_v_intr_masking(&mut self, val: bool)
        ensures
            val ==> final(self).0 == old(self).0 | AVIC_CONTROL_V_INTR_MASKING,
            !val ==> final(self).0 == old(self).0 & !AVIC_CONTROL_V_INTR_MASKING,
    {
        if val {
            self.0 = self.0 | AVIC_CONTROL_V_INTR_MASKING;
        } else {
            self.0 = self.0 & !AVIC_CONTROL_V_INTR_MASKING;
        }
    }

    pub fn get_v_gif_enable(&self) -> (r: bool)
        ensures
            r == (self.0 & AVIC_CONTROL_V_GIF_ENABLE == AVIC_CONTROL_V_GIF_ENABLE),
    {
        (self.0 & AVIC_CONTROL_V_GIF_ENABLE) == AVIC_CONTROL_V_GIF_ENABLE
    }

    pub fn set_v_gif_enable(&mut self, val: bool)
        ensures
            val ==> final(self).0 == old(self).0 | AVIC_CONTROL_V_GIF_ENABLE,
            !val ==> final(self).0 == old(self).0 & !AVIC_CONTROL_V_GIF_ENABLE,
    {
        if val {
            self.0 = self.0 | AVIC_CONTROL_V_GIF_ENABLE;
        } else {
            self.0 = self.0 & !AVIC_CONTROL_V_GIF_ENABLE;
        }
    }

    pub fn get_v_nmi_enable(&self) -> (r: bool)
        ensures
            r == (self.0 & AVIC_CONTROL_V_NMI_ENABLE == AVIC_CONTROL_V_NMI_ENABLE),
    {
        (self.0 & AVIC_CONTROL_V_NMI_ENABLE) == AVIC_CONTROL_V_NMI_ENABLE
    }

    pub fn set_v_nmi_enable(&mut self, val: bool)
        ensures
            val ==> final(self).0 == old(self).0 | AVIC_CONTROL_V_NMI_ENABLE,
            !val ==> final(self).0 == old(self).0 & !AVIC_CONTROL_V_NMI_ENABLE,
    {
        if val {
            self.0 = self.0 | AVIC_CONTROL_V_NMI_ENABLE;
        } else {
            self.0 = self.0 & !AVIC_CONTROL_V_NMI_ENABLE;
        }
    }

    pub fn get_x2avic_enable(&self) -> (r: bool)
        ensures
            r == (self.0 & AVIC_CONTROL_X2AVIC_ENABLE == AVIC_CONTROL_X2AVIC_ENABLE),
    {
        (self.0 & AVIC_CONTROL_X2AVIC_ENABLE) == AVIC_CONTROL_X2AVIC_ENABLE
    }

    pub fn set_x2avic_enable(&mut self, val: bool)
        ensures
            val ==> final(self).0 == old(self).0 | AVIC_CONTROL_X2AVIC_ENABLE,
            !val ==> final(self).0 == old(self).0 & !AVIC_CONTROL_X2AVIC_ENABLE,
    {
        if val {
            self.0 = self.0 | AVIC_CONTROL_X2AVIC_ENABLE;
        } else {
            self.0 = self.0 & !AVIC_CONTROL_X2AVIC_ENABLE;
        }
    }

    pub fn get_avic_enable(&self) -> (r: bool)
        ensures
            r == (self.0 & AVIC_CONTROL_AVIC_ENABLE == AVIC_CONTROL_AVIC_ENABLE),
    {
        (self.0 & AVIC_CONTROL_AVIC_ENABLE) == AVIC_CONTROL_AVIC_ENABLE
    }

    pub fn set_avic_enable(&mut self, val: bool)
        ensures
            val ==> final(self).0 == old(self).0 | AVIC_CONTROL_AVIC_ENABLE,
            !val ==> final(self).0 == old(self).0 & !AVIC_CONTROL_AVIC_ENABLE,
    {
        if val {
            self.0 = self.0 | AVIC_CONTROL_AVIC_ENABLE;
        } else {
            self.0 = self.0 & !AVIC_CONTROL_AVIC_ENABLE;
        }
    }

    pub fn get_v_intr_vector(&self) -> (r: u8)
        ensures
            r == ((self.0 >> AVIC_CONTROL_V_INTR_VECTOR_BIT_START) & 0xFF) as u8,
    {
        ((self.0 >> AVIC_CONTROL_V_INTR_VECTOR_BIT_START) & 0xFF) as u8
    }

    pub fn set_v_intr_vector(&mut self, val: u8)
        ensures
            final(self).0 == (old(self).0 & !(0xFFu64 << AVIC_CONTROL_V_INTR_VECTOR_BIT_START)) | (((val as u64)
                & 0xFF) << AVIC_CONTROL_V_INTR_VECTOR_BIT_START),
    {
        self.0 = (self.0 & !(0xFFu64 << AVIC_CONTROL_V_INTR_VECTOR_BIT_START)) | (((val as u64) & 0xFF) << AVIC_CONTROL_V_INTR_VECTOR_BIT_START);
    }
}

// Bit layout of the interrupt-shadow word at offset 0x68.
pub const INTERRUPT_CONTROL_SHADOW: u64 = 1 << 0;
pub const INTERRUPT_CONTROL_GUEST_RFLAGS_IF: u64 = 1 << 1;

/// The packed interrupt-shadow word held at offset 0x68 of the control area.
pub struct InterruptControl(pub u64);

impl Default for InterruptControl {
    fn default() -> (r: Self)
        ensures
            r.0 == 0,
    {
        InterruptControl(0)
    }
}

impl InterruptControl {
    pub fn new() -> (r: Self)
        ensures
            r.0 == 0,
    {
        InterruptControl(0)
    }

    pub fn get_shadow(&self) -> (r: bool)
        ensures
            r == (self.0 & INTERRUPT_CONTROL_SHADOW == INTERRUPT_CONTROL_SHADOW),
    {
        (self.0 & INTERRUPT_CONTROL_SHADOW) == INTERRUPT_CONTROL_SHADOW
    }

    pub fn set_shadow(&mut self, val: bool)
        ensures
            val ==> final(self).0 == old(self).0 | INTERRUPT_CONTROL_SHADOW,
            !val ==> final(self).0 == old(self).0 & !INTERRUPT_CONTROL_SHADOW,
    {
        if val {
            self.0 = self.0 | INTERRUPT_CONTROL_SHADOW;
        } else {
            self.0 = self.0 & !INTERRUPT_CONTROL_SHADOW;
        }
    }

    pub fn get_guest_rflags_if(&self) -> (r: bool)
        ensures
            r == (self.0 & INTERRUPT_CONTROL_GUEST_RFLAGS_IF == INTERRUPT_CONTROL_GUEST_RFLAGS_IF),
    {
        (self.0 & INTERRUPT_CONTROL_GUEST_RFLAGS_IF) == INTERRUPT_CONTROL_GUEST_RFLAGS_IF
    }

    pub fn set_guest_rflags_if(&mut self, val: bool)
        ensures
            val ==> final(self).0 == old(self).0 | INTERRUPT_CONTROL_GUEST_RFLAGS_IF,
            !val ==> final(self).0 == old(self).0 & !INTERRUPT_CONTROL_GUEST_RFLAGS_IF,
    {
        if val {
            self.0 = self.0 | INTERRUPT_CONTROL_GUEST_RFLAGS_IF;
        } else {
            self.0 = self.0 & !INTERRUPT_CONTROL_GUEST_RFLAGS_IF;
        }
    }
}

// Bit layout of the nested-paging control word at offset 0x90.
pub const NPT_CONTROL_ENABLE: u64 = 1 << 0;
pub const NPT_CONTROL_SEV_ENABLE: u64 = 1 << 1;
pub const NPT_CONTROL_SEV_ES_ENABLE: u64 = 1 << 2;
pub const NPT_CONTROL_GMET_ENABLE: u64 = 1 << 3;
pub const NPT_CONTROL_SSS_CHECK_ENABLE: u64 = 1 << 4;
pub const NPT_CONTROL_VTE_ENABLE: u64 = 1 << 5;
pub const NPT_CONTROL_RO_GPT_ENABLE: u64 = 1 << 6;
pub const NPT_CONTROL_INVLPGB_ENABLE: u64 = 1 << 7;

/// The packed nested-paging control word held at offset 0x90 of the control
/// area.
pub struct NptControl(pub u64);

impl Default for NptControl {
    fn default() -> (r: Self)
        ensures
            r.0 == 0,
    {
        NptControl(0)
    }
}

impl NptControl {
    pub fn get_enable(&self) -> (r: bool)
        ensures
            r == (self.0 & NPT_CONTROL_ENABLE == NPT_CONTROL_ENABLE),
    {
        (self.0 & NPT_CONTROL_ENABLE) == NPT_CONTROL_ENABLE
    }

    pub fn set_enable(&mut self, val: bool)
        ensures
            val ==> final(self).0 == old(self).0 | NPT_CONTROL_ENABLE,
            !val ==> final(self).0 == old(self).0 & !NPT_CONTROL_ENABLE,
    {
        if val {
            self.0 = self.0 | NPT_CONTROL_ENABLE;
        } else {
            self.0 = self.0 & !NPT_CONTROL_ENABLE;
        }
    }

    pub fn get_sev_enable(&self) -> (r: bool)
        ensures
            r == (self.0 & NPT_CONTROL_SEV_ENABLE == NPT_CONTROL_SEV_ENABLE),
    {
        (self.0 & NPT_CONTROL_SEV_ENABLE) == NPT_CONTROL_SEV_ENABLE
    }

    pub fn set_sev_enable(&mut self, val: bool)
        ensures
            val ==> final(self).0 == old(self).0 | NPT_CONTROL_SEV_ENABLE,
            !val ==> final(self).0 == old(self).0 & !NPT_CONTROL_SEV_ENABLE,
    {
        if val {
            self.0 = self.0 | NPT_CONTROL_SEV_ENABLE;
        } else {
            self.0 = self.0 & !NPT_CONTROL_SEV_ENABLE;
        }
    }

    pub fn get_sev_es_enable(&self) -> (r: bool)
        ensures
            r == (self.0 & NPT_CONTROL_SEV_ES_ENABLE == NPT_CONTROL_SEV_ES_ENABLE),
    {
        (self.0 & NPT_CONTROL_SEV_ES_ENABLE) == NPT_CONTROL_SEV_ES_ENABLE
    }

    pub fn set_sev_es_enable(&mut self, val: bool)
        ensures
            val ==> final(self).0 == old(self).0 | NPT_CONTROL_SEV_ES_ENABLE,
            !val ==> final(self).0 == old(self).0 & !NPT_CONTROL_SEV_ES_ENABLE,
    {
        if val {
            self.0 = self.0 | NPT_CONTROL_SEV_ES_ENABLE;
        } else {
            self.0 = self.0 & !NPT_CONTROL_SEV_ES_ENABLE;
        }
    }

    pub fn get_gmet_enable(&self) -> (r: bool)
        ensures
            r == (self.0 & NPT_CONTROL_GMET_ENABLE == NPT_CONTROL_GMET_ENABLE),
    {
        (self.0 & NPT_CONTROL_GMET_ENABLE) == NPT_CONTROL_GMET_ENABLE
    }

    pub fn set_gmet_enable(&mut self, val: bool)
        ensures
            val ==> final(self).0 == old(self).0 | NPT_CONTROL_GMET_ENABLE,
            !val ==> final(self).0 == old(self).0 & !NPT_CONTROL_GMET_ENABLE,
    {
        if val {
            self.0 = self.0 | NPT_CONTROL_GMET_ENABLE;
        } else {
            self.0 = self.0 & !NPT_CONTROL_GMET_ENABLE;
        }
    }

    pub fn get_sss_check_enable(&self) -> (r: bool)
        ensures
            r == (self.0 & NPT_CONTROL_SSS_CHECK_ENABLE == NPT_CONTROL_SSS_CHECK_ENABLE),
    {
        (self.0 & NPT_CONTROL_SSS_CHECK_ENABLE) == NPT_CONTROL_SSS_CHECK_ENABLE
    }

    pub fn set_sss_check_enable(&mut self, val: bool)
        ensures
            val ==> final(self).0 == old(self).0 | NPT_CONTROL_SSS_CHECK_ENABLE,
            !val ==> final(self).0 == old(self).0 & !NPT_CONTROL_SSS_CHECK_ENABLE,
    {
        if val {
            self.0 = self.0 | NPT_CONTROL_SSS_CHECK_ENABLE;
        } else {
            self.0 = self.0 & !NPT_CONTROL_SSS_CHECK_ENABLE;
        }
    }

    pub fn get_vte_enable(&self) -> (r: bool)
        ensures
            r == (self.0 & NPT_CONTROL_VTE_ENABLE == NPT_CONTROL_VTE_ENABLE),
    {
        (self.0 & NPT_CONTROL_VTE_ENABLE) == NPT_CONTROL_VTE_ENABLE
    }

    pub fn set_vte_enable(&mut self, val: bool)
        ensures
            val ==> final(self).0 == old(self).0 | NPT_CONTROL_VTE_ENABLE,
            !val ==> final(self).0 == old(self).0 & !NPT_CONTROL_VTE_ENABLE,
    {
        if val {
            self.0 = self.0 | NPT_CONTROL_VTE_ENABLE;
        } else {
            self.0 = self.0 & !NPT_CONTROL_VTE_ENABLE;
        }
    }

    pub fn get_ro_gpt_enable(&self) -> (r: bool)
        ensures
            r == (self.0 & NPT_CONTROL_RO_GPT_ENABLE == NPT_CONTROL_RO_GPT_ENABLE),
    {
        (self.0 & NPT_CONTROL_RO_GPT_ENABLE) == NPT_CONTROL_RO_GPT_ENABLE
    }

    pub fn set_ro_gpt_enable(&mut self, val: bool)
        ensures
            val ==> final(self).0 == old(self).0 | NPT_CONTROL_RO_GPT_ENABLE,
            !val ==> final(self).0 == old(self).0 & !NPT_CONTROL_RO_GPT_ENABLE,
    {
        if val {
            self.0 = self.0 | NPT_CONTROL_RO_GPT_ENABLE;
        } else {
            self.0 = self.0 & !NPT_CONTROL_RO_GPT_ENABLE;
        }
    }

    pub fn get_invlpgb_enable(&self) -> (r: bool)
        ensures
            r == (self.0 & NPT_CONTROL_INVLPGB_ENABLE == NPT_CONTROL_INVLPGB_ENABLE),
    {
        (self.0 & NPT_CONTROL_INVLPGB_ENABLE) == NPT_CONTROL_INVLPGB_ENABLE
    }

    pub fn set_invlpgb_enable(&mut self, val: bool)
        ensures
            val ==> final(self).0 == old(self).0 | NPT_CONTROL_INVLPGB_ENABLE,
            !val ==> final(self).0 == old(self).0 & !NPT_CONTROL_INVLPGB_ENABLE,
    {
        if val {
            self.0 = self.0 | NPT_CONTROL_INVLPGB_ENABLE;
        } else {
            self.0 = self.0 & !NPT_CONTROL_INVLPGB_ENABLE;
        }
    }
}

// Bit layout of the event-injection word at offset 0xA8.
pub const EVENT_INJECTION_VECTOR_BIT_START: u64 = 0;
pub const EVENT_INJECTION_VECTOR_MASK: u64 = 0xFF;
pub const EVENT_INJECTION_TYPE_BIT_START: u64 = 8;
pub const EVENT_INJECTION_TYPE_MASK: u64 = 0x7;
pub const EVENT_INJECTION_ERROR_CODE_VALID_BIT: u64 = 11;
pub const EVENT_INJECTION_ERROR_CODE_VALID: u64 = 1 << 11;
pub const EVENT_INJECTION_VALID_BIT: u64 = 31;
pub const EVENT_INJECTION_VALID: u64 = 1 << 31;
pub const EVENT_INJECTION_ERROR_CODE_BIT_START: u64 = 32;
pub const EVENT_INJECTION_ERROR_CODE_MASK: u64 = 0xFFFFFFFF;

/// The packed event-injection word held at offset 0xA8 of the control area.
pub struct EventInjection(pub u64);

impl Default for EventInjection {
    fn default() -> (r: Self)
        ensures
            r.0 == 0,
    {
        EventInjection(0)
    }
}

impl EventInjection {
    /// Builds an injection word from its components.
    pub fn new(vector: u8, event_type: EventType, has_error_code: bool, valid: bool, error_code: u32)
        -> (r: Self)
        ensures
            r.0 == spec_event_injection_word(vector, event_type, has_error_code, valid, error_code),
    {
        let code = (vector as u64) | (event_type_value(event_type)
            << EVENT_INJECTION_TYPE_BIT_START) | (if has_error_code {
            1u64 << EVENT_INJECTION_ERROR_CODE_VALID_BIT
        } else {
            0u64
        }) | (if valid {
            1u64 << EVENT_INJECTION_VALID_BIT
        } else {
            0u64
        }) | ((error_code as u64) << EVENT_INJECTION_ERROR_CODE_BIT_START);
        EventInjection(code)
    }

    pub fn get_vector(&self) -> (r: u8)
        ensures
            r == ((self.0 >> EVENT_INJECTION_VECTOR_BIT_START) & 0xFF) as u8,
    {
        ((self.0 >> EVENT_INJECTION_VECTOR_BIT_START) & 0xFF) as u8
    }

    pub fn set_vector(&mut self, val: u8)
        ensures
            final(self).0 == (old(self).0 & !(0xFFu64 << EVENT_INJECTION_VECTOR_BIT_START)) | (((val as u64)
                & 0xFF) << EVENT_INJECTION_VECTOR_BIT_START),
    {
        self.0 = (self.0 & !(0xFFu64 << EVENT_INJECTION_VECTOR_BIT_START)) | (((val as u64) & 0xFF) << EVENT_INJECTION_VECTOR_BIT_START);
    }

    pub fn get_event_type(&self) -> (r: u8)
        ensures
            r == ((self.0 >> EVENT_INJECTION_TYPE_BIT_START) & 0x7) as u8,
    {
        ((self.0 >> EVENT_INJECTION_TYPE_BIT_START) & 0x7) as u8
    }

    pub fn set_event_type(&mut self, val: u8)
        ensures
            final(self).0 == (old(self).0 & !(0x7u64 << EVENT_INJECTION_TYPE_BIT_START)) | (((val as u64)
                & 0x7) << EVENT_INJECTION_TYPE_BIT_START),
    {
        self.0 = (self.0 & !(0x7u64 << EVENT_INJECTION_TYPE_BIT_START)) | (((val as u64) & 0x7) << EVENT_INJECTION_TYPE_BIT_START);
    }

    pub fn get_error_code_valid(&self) -> (r: bool)
        ensures
            r == (self.0 & EVENT_INJECTION_ERROR_CODE_VALID == EVENT_INJECTION_ERROR_CODE_VALID),
    {
        (self.0 & EVENT_INJECTION_ERROR_CODE_VALID) == EVENT_INJECTION_ERROR_CODE_VALID
    }

    pub fn set_error_code_valid(&mut self, val: bool)
        ensures
            val ==> final(self).0 == old(self).0 | EVENT_INJECTION_ERROR_CODE_VALID,
            !val ==> final(self).0 == old(self).0 & !EVENT_INJECTION_ERROR_CODE_VALID,
    {
        if val {
            self.0 = self.0 | EVENT_INJECTION_ERROR_CODE_VALID;
        } else {
            self.0 = self.0 & !EVENT_INJECTION_ERROR_CODE_VALID;
        }
    }

    pub fn get_valid(&self) -> (r: bool)
        ensures
            r == (self.0 & EVENT_INJECTION_VALID == EVENT_INJECTION_VALID),
    {
        (self.0 & EVENT_INJECTION_VALID) == EVENT_INJECTION_VALID
    }

    pub fn set_valid(&mut self, val: bool)
        ensures
            val ==> final(self).0 == old(self).0 | EVENT_INJECTION_VALID,
            !val ==> final(self).0 == old(self).0 & !EVENT_INJECTION_VALID,
    {
        if val {
            self.0 = self.0 | EVENT_INJECTION_VALID;
        } else {
            self.0 = self.0 & !EVENT_INJECTION_VALID;
        }
    }

    pub fn get_error_code(&self) -> (r: u32)
        ensures
            r == ((self.0 >> EVENT_INJECTION_ERROR_CODE_BIT_START) & 0xFFFFFFFF) as u32,
    {
        ((self.0 >> EVENT_INJECTION_ERROR_CODE_BIT_START) & 0xFFFFFFFF) as u32
    }

    pub fn set_error_code(&mut self, val: u32)
        ensures
            final(self).0 == (old(self).0 & !(0xFFFFFFFFu64 << EVENT_INJECTION_ERROR_CODE_BIT_START)) | (((val as u64)
                & 0xFFFFFFFF) << EVENT_INJECTION_ERROR_CODE_BIT_START),
    {
        self.0 = (self.0 & !(0xFFFFFFFFu64 << EVENT_INJECTION_ERROR_CODE_BIT_START)) | (((val as u64) & 0xFFFFFFFF) << EVENT_INJECTION_ERROR_CODE_BIT_START);
    }
}

// Bit layout of the LBR-virtualization word at offset 0xB8.
pub const LBR_VIRT_ENABLE: u64 = 1 << 0;
pub const LBR_VIRT_VMLS_ENABLE: u64 = 1 << 1;
pub const LBR_VIRT_IBS_ENABLE: u64 = 1 << 2;

/// The packed LBR-virtualization word held at offset 0xB8 of the control
/// area.
pub struct LbrVirtualization(pub u64);

impl Default for LbrVirtualization {
    fn default() -> (r: Self)
        ensures
            r.0 == 0,
    {
        LbrVirtualization(0)
    }
}

impl LbrVirtualization {
    pub fn get_enable(&self) -> (r: bool)
        ensures
            r == (self.0 & LBR_VIRT_ENABLE == LBR_VIRT_ENABLE),
    {
        (self.0 & LBR_VIRT_ENABLE) == LBR_VIRT_ENABLE
    }

    pub fn set_enable(&mut self, val: bool)
        ensures
            val ==> final(self).0 == old(self).0 | LBR_VIRT_ENABLE,
            !val ==> final(self).0 == old(self).0 & !LBR_VIRT_ENABLE,
    {
        if val {
            self.0 = self.0 | LBR_VIRT_ENABLE;
        } else {
            self.0 = self.0 & !LBR_VIRT_ENABLE;
        }
    }

    pub fn get_vmls_enable(&self) -> (r: bool)
        ensures
            r == (self.0 & LBR_VIRT_VMLS_ENABLE == LBR_VIRT_VMLS_ENABLE),
    {
        (self.0 & LBR_VIRT_VMLS_ENABLE) == LBR_VIRT_VMLS_ENABLE
    }

    pub fn set_vmls_enable(&mut self, val: bool)
        ensures
            val ==> final(self).0 == old(self).0 | LBR_VIRT_VMLS_ENABLE,
            !val ==> final(self).0 == old(self).0 & !LBR_VIRT_VMLS_ENABLE,
    {
        if val {
            self.0 = self.0 | LBR_VIRT_VMLS_ENABLE;
        } else {
            self.0 = self.0 & !LBR_VIRT_VMLS_ENABLE;
        }
    }

    pub fn get_ibs_enable(&self) -> (r: bool)
        ensures
            r == (self.0 & LBR_VIRT_IBS_ENABLE == LBR_VIRT_IBS_ENABLE),
    {
        (self.0 & LBR_VIRT_IBS_ENABLE) == LBR_VIRT_IBS_ENABLE
    }

    pub fn set_ibs_enable(&mut self, val: bool)
        ensures
            val ==> final(self).0 == old(self).0 | LBR_VIRT_IBS_ENABLE,
            !val ==> final(self).0 == old(self).0 & !LBR_VIRT_IBS_ENABLE,
    {
        if val {
            self.0 = self.0 | LBR_VIRT_IBS_ENABLE;
        } else {
            self.0 = self.0 & !LBR_VIRT_IBS_ENABLE;
        }
    }
}

} // verus!
