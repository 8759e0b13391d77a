//! The VM-exit dispatch engine and its handlers: a total, constant-time map
//! from the numeric intercept code to a handler, the CPUID interception
//! policy, and the structured outcome each handler produces.

use vstd::prelude::*;

use crate::bdk::GprState;
use crate::mshv::{spec_mshv_cpuid, mshv_cpuid_dispatch, MSHV_CPUID_HANDLERS_COUNT};
use crate::svm::{
    SvmVcpu, CPUID_EXT_PROCESSOR_FEATURE, CPUID_EXT_SECURE_VIRTUAL_MACHINE_FEATURE,
    CPUID_STD_PROCESSOR_FEATURE, CPUID_SVM, CPUID_UNDER_HYPERVISOR,
};
use crate::vmcb::{
    advance_rip, le32_at, le64_at, spec_injected_event, vmread32, vmread64, EventType, Vmcb,
    EVENT_INJECTION, EXIT_CODE, EXIT_INFO1, EXIT_INFO2, GUEST_RAX, GUEST_RFLAGS, GUEST_RIP,
    NEXT_RIP, RFLAGS_TF_BIT, VMCB_SIZE,
};

verus! {

// Table geometry: two groups of non-negative codes in blocks of 1024, and a
// small table for negative codes.
pub const SVM_MAXIMUM_GROUPS: usize = 2;
pub const SVM_MAXIMUM_CODE1: usize = 0xA5;
pub const SVM_MAXIMUM_CODE2: usize = 0x4;
pub const SVM_MAXIMUM_NEGATIVE: usize = 3;

// Group-1 intercept codes: instruction and event intercepts.
pub const INTERCEPTED_INTERRUPT: i64 = 0x60;
pub const INTERCEPTED_NMI: i64 = 0x61;
pub const INTERCEPTED_SMI: i64 = 0x62;
pub const INTERCEPTED_INIT: i64 = 0x63;
pub const INTERCEPTED_VINTR: i64 = 0x64;
pub const INTERCEPTED_CR0_NOTTSMP: i64 = 0x65;
pub const INTERCEPTED_SIDT: i64 = 0x66;
pub const INTERCEPTED_SGDT: i64 = 0x67;
pub const INTERCEPTED_SLDT: i64 = 0x68;
pub const INTERCEPTED_STR: i64 = 0x69;
pub const INTERCEPTED_LIDT: i64 = 0x6A;
pub const INTERCEPTED_LGDT: i64 = 0x6B;
pub const INTERCEPTED_LLDT: i64 = 0x6C;
pub const INTERCEPTED_LTR: i64 = 0x6D;
pub const INTERCEPTED_RDTSC: i64 = 0x6E;
pub const INTERCEPTED_RDPMC: i64 = 0x6F;
pub const INTERCEPTED_PUSHF: i64 = 0x70;
pub const INTERCEPTED_POPF: i64 = 0x71;
pub const INTERCEPTED_CPUID: i64 = 0x72;
pub const INTERCEPTED_RSM: i64 = 0x73;
pub const INTERCEPTED_IRET: i64 = 0x74;
pub const INTERCEPTED_INT: i64 = 0x75;
pub const INTERCEPTED_INVD: i64 = 0x76;
pub const INTERCEPTED_PAUSE: i64 = 0x77;
pub const INTERCEPTED_HLT: i64 = 0x78;
pub const INTERCEPTED_INVLPG: i64 = 0x79;
pub const INTERCEPTED_INVLPGA: i64 = 0x7A;
pub const INTERCEPTED_IO: i64 = 0x7B;
pub const INTERCEPTED_MSR: i64 = 0x7C;
pub const INTERCEPTED_TASK_SWITCH: i64 = 0x7D;
pub const INTERCEPTED_FERR_FREEZE: i64 = 0x7E;
pub const INTERCEPTED_SHUTDOWN: i64 = 0x7F;
pub const INTERCEPTED_VMRUN: i64 = 0x80;
pub const INTERCEPTED_VMMCALL: i64 = 0x81;
pub const INTERCEPTED_VMLOAD: i64 = 0x82;
pub const INTERCEPTED_VMSAVE: i64 = 0x83;
pub const INTERCEPTED_STGI: i64 = 0x84;
pub const INTERCEPTED_CLGI: i64 = 0x85;
pub const INTERCEPTED_SKINIT: i64 = 0x86;
pub const INTERCEPTED_RDTSCP: i64 = 0x87;
pub const INTERCEPTED_ICEBP: i64 = 0x88;
pub const INTERCEPTED_WBINVD: i64 = 0x89;
pub const INTERCEPTED_MONITOR: i64 = 0x8A;
pub const INTERCEPTED_MWAIT: i64 = 0x8B;
pub const INTERCEPTED_MWAIT_COND: i64 = 0x8C;
pub const INTERCEPTED_XSETBV: i64 = 0x8D;
pub const INTERCEPTED_RDPRU: i64 = 0x8E;
pub const INTERCEPTED_EFER_W_TRAP: i64 = 0x8F;
pub const INTERCEPTED_INVLPGB: i64 = 0xA0;
pub const ILLEGAL_INVLPGB: i64 = 0xA2;
pub const INTERCEPTED_MCOMMIT: i64 = 0xA3;
pub const INTERCEPTED_TLBSYNC: i64 = 0xA4;

// Group-2 intercept codes: nested paging and accelerated-interrupt events.
pub const NESTED_PAGE_FAULT: i64 = 0x400;
pub const AVIC_INCOMPLETE_IPI: i64 = 0x401;
pub const AVIC_NO_ACCELERATION: i64 = 0x402;
pub const INTERCEPTED_VMGEXIT: i64 = 0x403;

// Negative intercept codes: internal and invalid-state conditions.
pub const INVALID_GUEST_STATE: i64 = -1;
pub const INTERCEPTED_VMSA_BUSY: i64 = -2;
pub const IDLE_REQUIRED: i64 = -3;

/// The handler an intercept code dispatches to.  Every code resolves to one
/// of these; codes with no registered handler resolve to `Unknown`.
#[derive(Clone, Copy, PartialEq, Eq, Structural, Debug)]
pub enum SvmExitHandler {
    Unknown,
    Cpuid,
    Shutdown,
    Vmrun,
    Vmmcall,
    Vmload,
    Vmsave,
    Stgi,
    Clgi,
    Skinit,
    NestedPageFault,
    Invalid,
}

/// The handler each representable intercept code resolves to: the
/// instruction intercepts that are emulated or refused, the nested page
/// fault, the invalid-state report, and the default for everything else.
pub open spec fn spec_dispatch(code: i64) -> SvmExitHandler {
    if code == INTERCEPTED_CPUID {
        SvmExitHandler::Cpuid
    } else if code == INTERCEPTED_SHUTDOWN {
        SvmExitHandler::Shutdown
    } else if code == INTERCEPTED_VMRUN {
        SvmExitHandler::Vmrun
    } else if code == INTERCEPTED_VMMCALL {
        SvmExitHandler::Vmmcall
    } else if code == INTERCEPTED_VMLOAD {
        SvmExitHandler::Vmload
    } else if code == INTERCEPTED_VMSAVE {
        SvmExitHandler::Vmsave
    } else if code == INTERCEPTED_STGI {
        SvmExitHandler::Stgi
    } else if code == INTERCEPTED_CLGI {
        SvmExitHandler::Clgi
    } else if code == INTERCEPTED_SKINIT {
        SvmExitHandler::Skinit
    } else if code == NESTED_PAGE_FAULT {
        SvmExitHandler::NestedPageFault
    } else if code == INVALID_GUEST_STATE {
        SvmExitHandler::Invalid
    } else {
        SvmExitHandler::Unknown
    }
}

/// How the group and index arithmetic of the dispatch tables relates to the
/// plain value of a non-negative code.
proof fn lemma_dispatch_bits(c: u64)
    by (bit_vector)
    ensures
        (c >> 10 == 0) <==> c < 0x400,
        c < 0x400 ==> (c & 0x3FF) == c,
        (c >> 10 == 1) <==> (0x400 <= c < 0x800),
        0x400 <= c < 0x800 ==> (c & 0x3FF) as int == c - 0x400,
{
}

/// Resolves an intercept code to its handler in constant time: non-negative
/// codes select a group by their upper bits and an entry by their low ten
/// bits, negative codes index a small separate table by their complement,
/// and anything outside every table falls to the default handler.  The
/// dispatch is total: every representable code resolves without any
/// out-of-bounds access.
pub fn dispatch_handler(intercept_code: i64) -> (r: SvmExitHandler)
    ensures
        r == spec_dispatch(intercept_code),
{
    if intercept_code < 0 {
        // The complement of a negative code indexes the negative table.
        let index: i64 = -(intercept_code + 1);
        if index < SVM_MAXIMUM_NEGATIVE as i64 {
            if index == 0 {
                SvmExitHandler::Invalid
            } else {
                SvmExitHandler::Unknown
            }
        } else {
            SvmExitHandler::Unknown
        }
    } else {
        let code = intercept_code as u64;
        proof {
            lemma_dispatch_bits(code);
        }
        let group: u64 = code >> 10;
        if group < SVM_MAXIMUM_GROUPS as u64 {
            let index: u64 = code & 0x3FF;
            if group == 0 {
                if index < SVM_MAXIMUM_CODE1 as u64 {
                    match index {
                        0x72 => SvmExitHandler::Cpuid,
                        0x7F => SvmExitHandler::Shutdown,
                        0x80 => SvmExitHandler::Vmrun,
                        0x81 => SvmExitHandler::Vmmcall,
                        0x82 => SvmExitHandler::Vmload,
                        0x83 => SvmExitHandler::Vmsave,
                        0x84 => SvmExitHandler::Stgi,
                        0x85 => SvmExitHandler::Clgi,
                        0x86 => SvmExitHandler::Skinit,
                        _ => SvmExitHandler::Unknown,
                    }
                } else {
                    SvmExitHandler::Unknown
                }
            } else {
                if index < SVM_MAXIMUM_CODE2 as u64 {
                    if index == 0 {
                        SvmExitHandler::NestedPageFault
                    } else {
                        SvmExitHandler::Unknown
                    }
                } else {
                    SvmExitHandler::Unknown
                }
            }
        } else {
            SvmExitHandler::Unknown
        }
    }
}

/// Dispatch is total and bounded: every representable code resolves, and a
/// code outside every registered entry resolves to the default handler.
pub proof fn lemma_dispatch_total_and_default(code: i64)
    ensures
        !(code == INTERCEPTED_CPUID || code == INTERCEPTED_SHUTDOWN || (INTERCEPTED_VMRUN <= code
            <= INTERCEPTED_SKINIT) || code == NESTED_PAGE_FAULT || code == INVALID_GUEST_STATE)
            ==> spec_dispatch(code) is Unknown,
        spec_dispatch(INTERCEPTED_CPUID) is Cpuid,
        spec_dispatch(INTERCEPTED_SHUTDOWN) is Shutdown,
        spec_dispatch(NESTED_PAGE_FAULT) is NestedPageFault,
        spec_dispatch(INVALID_GUEST_STATE) is Invalid,
{
}

/// The CPUID interception policy over the values the hardware instruction
/// returned: the hypervisor-present bit set in the third word of the
/// standard feature leaf, the SVM-availability bit cleared in the third
/// word of the extended feature leaf — the same word the capability probe
/// reads — the whole extended SVM-feature leaf zeroed, and every other
/// leaf passed through byte-for-byte.
pub open spec fn spec_filtered_cpuid(ia: u32, a: u32, b: u32, c: u32, d: u32) -> (
    u32,
    u32,
    u32,
    u32,
) {
    if ia == CPUID_STD_PROCESSOR_FEATURE {
        (a, b, c | CPUID_UNDER_HYPERVISOR, d)
    } else if ia == CPUID_EXT_PROCESSOR_FEATURE {
        (a, b, c & !CPUID_SVM, d)
    } else if ia == CPUID_EXT_SECURE_VIRTUAL_MACHINE_FEATURE {
        (0u32, 0u32, 0u32, 0u32)
    } else {
        (a, b, c, d)
    }
}

/// Applies the CPUID interception policy to the values the hardware
/// instruction returned for leaf `ia`.
pub fn filter_host_cpuid(ia: u32, a: u32, b: u32, c: u32, d: u32) -> (r: (u32, u32, u32, u32))
    ensures
        r == spec_filtered_cpuid(ia, a, b, c, d),
{
    if ia == CPUID_STD_PROCESSOR_FEATURE {
        (a, b, c | CPUID_UNDER_HYPERVISOR, d)
    } else if ia == CPUID_EXT_PROCESSOR_FEATURE {
        // Nested virtualization is unsupported: conceal the capability.
        (a, b, c & !CPUID_SVM, d)
    } else if ia == CPUID_EXT_SECURE_VIRTUAL_MACHINE_FEATURE {
        (0, 0, 0, 0)
    } else {
        (a, b, c, d)
    }
}

/// The interception policy touches exactly the virtualization-visibility
/// bits: the standard feature leaf gains precisely the hypervisor-present
/// bit in its third word, the extended feature leaf loses precisely the
/// SVM-availability bit in its third word — the word the capability probe
/// reads — and every other output word of those leaves is identical to the
/// hardware result.
pub proof fn lemma_cpuid_filter_exact(a: u32, b: u32, c: u32, d: u32)
    ensures
        spec_filtered_cpuid(CPUID_STD_PROCESSOR_FEATURE, a, b, c, d) == (
            a,
            b,
            (c | CPUID_UNDER_HYPERVISOR) as u32,
            d,
        ),
        (c | CPUID_UNDER_HYPERVISOR) & !CPUID_UNDER_HYPERVISOR == c & !CPUID_UNDER_HYPERVISOR,
        (c | CPUID_UNDER_HYPERVISOR) & CPUID_UNDER_HYPERVISOR == CPUID_UNDER_HYPERVISOR,
        spec_filtered_cpuid(CPUID_EXT_PROCESSOR_FEATURE, a, b, c, d) == (
            a,
            b,
            (c & !CPUID_SVM) as u32,
            d,
        ),
        (c & !CPUID_SVM) & !CPUID_SVM == c & !CPUID_SVM,
        (c & !CPUID_SVM) & CPUID_SVM == 0,
        forall|ia: u32|
            ia != CPUID_STD_PROCESSOR_FEATURE && ia != CPUID_EXT_PROCESSOR_FEATURE && ia
                != CPUID_EXT_SECURE_VIRTUAL_MACHINE_FEATURE ==> #[trigger] spec_filtered_cpuid(
                ia,
                a,
                b,
                c,
                d,
            ) == (a, b, c, d),
{
    assert((c | 0x80000000u32) & !0x80000000u32 == c & !0x80000000u32 && (c | 0x80000000u32)
        & 0x80000000u32 == 0x80000000u32 && (c & !0x4u32) & !0x4u32 == c & !0x4u32 && (c
        & !0x4u32) & 0x4u32 == 0) by (bit_vector);
}

/// What an intercepted CPUID answers for the leaf selected by `ia` and
/// `ic`: a synthetic-range leaf is served from the synthetic table and the
/// host values are ignored; any other leaf is the host result filtered by
/// the interception policy.
pub open spec fn spec_cpuid_answer(ia: u32, ic: u32, host: (u32, u32, u32, u32)) -> (
    u32,
    u32,
    u32,
    u32,
) {
    if ia & 0x40000000 == 0x40000000 {
        spec_mshv_cpuid(ia & 0x3FFFFFFF, ia, ic)
    } else {
        spec_filtered_cpuid(ia, host.0, host.1, host.2, host.3)
    }
}

/// A 64-bit register with the answer word replacing its low half.
pub open spec fn spec_low_word(reg: u64, word: u32) -> u64 {
    (reg & 0xFFFFFFFF00000000) | (word as u64)
}

/// The structured outcome of one VM exit: resume the guest, or halt with
/// the diagnostic the handler collected.  Only the CPUID emulation and the
/// unknown-exit report let the guest resume; every other intercept in this
/// skeleton policy is fatal.
#[derive(Clone, Copy, PartialEq, Eq, Structural, Debug)]
pub enum SvmExitAction {
    Resume,
    UnknownExit(i64),
    Shutdown,
    NestedVirt(i64, u64),
    Hypercall(u32),
    NestedPageFault(u64, u64),
    InvalidState(i64),
}

impl SvmVcpu {
    /// Emulates an intercepted CPUID: answers from the synthetic table or
    /// the filtered host values, writes the four words into the low halves
    /// of the snapshot's first four registers, and advances the guest past
    /// the instruction, injecting a debug trap if it single-steps.  The
    /// host values are what the hardware instruction returned for the
    /// selected leaf.
    pub fn handle_cpuid(&mut self, gpr_state: &mut GprState, host: (u32, u32, u32, u32))
        requires
            old(self).wf(),
        ensures
            final(self).wf(),
            ({
                let answer = spec_cpuid_answer(
                    old(gpr_state).rax as u32,
                    old(gpr_state).rcx as u32,
                    host,
                );
                &&& final(gpr_state).rax == spec_low_word(old(gpr_state).rax, answer.0)
                &&& final(gpr_state).rbx == spec_low_word(old(gpr_state).rbx, answer.1)
                &&& final(gpr_state).rcx == spec_low_word(old(gpr_state).rcx, answer.2)
                &&& final(gpr_state).rdx == spec_low_word(old(gpr_state).rdx, answer.3)
            }),
            final(gpr_state).rsp == old(gpr_state).rsp,
            final(gpr_state).rbp == old(gpr_state).rbp,
            final(gpr_state).rsi == old(gpr_state).rsi,
            final(gpr_state).rdi == old(gpr_state).rdi,
            final(gpr_state).r8 == old(gpr_state).r8,
            final(gpr_state).r9 == old(gpr_state).r9,
            final(gpr_state).r10 == old(gpr_state).r10,
            final(gpr_state).r11 == old(gpr_state).r11,
            final(gpr_state).r12 == old(gpr_state).r12,
            final(gpr_state).r13 == old(gpr_state).r13,
            final(gpr_state).r14 == old(gpr_state).r14,
            final(gpr_state).r15 == old(gpr_state).r15,
            le64_at(final(self).vmcb.bytes@, GUEST_RIP as int) == le64_at(
                old(self).vmcb.bytes@,
                NEXT_RIP as int,
            ),
            (le32_at(old(self).vmcb.bytes@, GUEST_RFLAGS as int) >> RFLAGS_TF_BIT) & 1 == 1
                ==> le64_at(final(self).vmcb.bytes@, EVENT_INJECTION as int)
                == spec_injected_event(1u8, EventType::HardwareException, None, true),
            (le32_at(old(self).vmcb.bytes@, GUEST_RFLAGS as int) >> RFLAGS_TF_BIT) & 1 != 1
                ==> forall|j: int|
                EVENT_INJECTION <= j < EVENT_INJECTION + 8 ==> final(self).vmcb.bytes@[j] == old(
                    self,
                ).vmcb.bytes@[j],
            final(self).vmcb.md == old(self).vmcb.md,
            forall|j: int|
                0 <= j < VMCB_SIZE && !(GUEST_RIP <= j < GUEST_RIP + 8) && !(EVENT_INJECTION <= j
                    < EVENT_INJECTION + 8) ==> final(self).vmcb.bytes@[j] == old(
                    self,
                ).vmcb.bytes@[j],
            final(self).hsave == old(self).hsave,
            final(self).hvmcb == old(self).hvmcb,
            final(self).hv_stack == old(self).hv_stack,
            final(self).stack_top == old(self).stack_top,
            final(self).vcpu_id == old(self).vcpu_id,
            final(self).cpuid_fms == old(self).cpuid_fms,
    {
        let ia = gpr_state.rax as u32;
        let ic = gpr_state.rcx as u32;
        let (a, b, c, d) = if ia & 0x40000000 == 0x40000000 {
            // The guest asks for a synthetic hypervisor leaf.
            mshv_cpuid_dispatch(ia & 0x3FFFFFFF, ia, ic)
        } else {
            // A processor leaf: filter what the hardware returned.
            filter_host_cpuid(ia, host.0, host.1, host.2, host.3)
        };
        gpr_state.rax = (gpr_state.rax & 0xFFFFFFFF00000000) | (a as u64);
        gpr_state.rbx = (gpr_state.rbx & 0xFFFFFFFF00000000) | (b as u64);
        gpr_state.rcx = (gpr_state.rcx & 0xFFFFFFFF00000000) | (c as u64);
        gpr_state.rdx = (gpr_state.rdx & 0xFFFFFFFF00000000) | (d as u64);
        advance_rip(&mut self.vmcb);
    }
}

/// The VM-exit entry point: reads the intercept code from the control
/// block, loads the guest's first register from its saved field, dispatches
/// in constant time, runs the selected handler, and restores the snapshot's
/// first register to the control block's physical address, which the
/// world-switch instruction consumes on re-entry.  The host CPUID words are
/// consulted only when the exit is an intercepted CPUID.
pub fn nvc_svm_exit_handler(
    gpr_state: &mut GprState,
    vcpu: &mut SvmVcpu,
    host_cpuid: (u32, u32, u32, u32),
) -> (r: SvmExitAction)
    requires
        old(vcpu).wf(),
    ensures
        final(vcpu).wf(),
        final(vcpu).vmcb.md == old(vcpu).vmcb.md,
        final(vcpu).stack_top == old(vcpu).stack_top,
        final(gpr_state).rax == old(vcpu).stack_top.guest_vmcb_pa,
        final(gpr_state).rsp == old(gpr_state).rsp,
        final(gpr_state).rbp == old(gpr_state).rbp,
        final(gpr_state).rsi == old(gpr_state).rsi,
        final(gpr_state).rdi == old(gpr_state).rdi,
        final(gpr_state).r8 == old(gpr_state).r8,
        final(gpr_state).r9 == old(gpr_state).r9,
        final(gpr_state).r10 == old(gpr_state).r10,
        final(gpr_state).r11 == old(gpr_state).r11,
        final(gpr_state).r12 == old(gpr_state).r12,
        final(gpr_state).r13 == old(gpr_state).r13,
        final(gpr_state).r14 == old(gpr_state).r14,
        final(gpr_state).r15 == old(gpr_state).r15,
        ({
            let code = (le32_at(old(vcpu).vmcb.bytes@, EXIT_CODE as int) as i32) as i64;
            !(spec_dispatch(code) is Cpuid) ==> *final(gpr_state) == (GprState {
                rax: old(vcpu).stack_top.guest_vmcb_pa,
                ..*old(gpr_state)
            })
        }),
        ({
            let code = (le32_at(old(vcpu).vmcb.bytes@, EXIT_CODE as int) as i32) as i64;
            let guest_rax = le64_at(old(vcpu).vmcb.bytes@, GUEST_RAX as int);
            &&& (spec_dispatch(code) is Unknown ==> r == SvmExitAction::UnknownExit(code)
                && *final(vcpu) == *old(vcpu))
            &&& (spec_dispatch(code) is Shutdown ==> r is Shutdown)
            &&& (spec_dispatch(code) is Vmrun || spec_dispatch(code) is Vmload || spec_dispatch(
                code,
            ) is Vmsave || spec_dispatch(code) is Stgi || spec_dispatch(code) is Clgi
                || spec_dispatch(code) is Skinit ==> r == SvmExitAction::NestedVirt(
                code,
                guest_rax,
            ))
            &&& (spec_dispatch(code) is Vmmcall ==> r == SvmExitAction::Hypercall(
                guest_rax as u32,
            ))
            &&& (spec_dispatch(code) is NestedPageFault ==> r == SvmExitAction::NestedPageFault(
                le64_at(old(vcpu).vmcb.bytes@, EXIT_INFO2 as int),
                le64_at(old(vcpu).vmcb.bytes@, EXIT_INFO1 as int),
            ))
            &&& (spec_dispatch(code) is Invalid ==> r == SvmExitAction::InvalidState(code))
            &&& (spec_dispatch(code) is Cpuid ==> r is Resume && ({
                let answer = spec_cpuid_answer(guest_rax as u32, old(gpr_state).rcx as u32,
                    host_cpuid);
                &&& final(gpr_state).rbx == spec_low_word(old(gpr_state).rbx, answer.1)
                &&& final(gpr_state).rcx == spec_low_word(old(gpr_state).rcx, answer.2)
                &&& final(gpr_state).rdx == spec_low_word(old(gpr_state).rdx, answer.3)
                &&& le64_at(final(vcpu).vmcb.bytes@, GUEST_RIP as int) == le64_at(
                    old(vcpu).vmcb.bytes@,
                    NEXT_RIP as int,
                )
            }))
        }),
{
    let code32: i32 = vmread32(&vcpu.vmcb, EXIT_CODE) as i32;
    let intercept_code: i64 = code32 as i64;
    let handler = dispatch_handler(intercept_code);
    gpr_state.rax = vmread64(&vcpu.vmcb, GUEST_RAX);
    let action = match handler {
        SvmExitHandler::Unknown => SvmExitAction::UnknownExit(intercept_code),
        SvmExitHandler::Cpuid => {
            vcpu.handle_cpuid(gpr_state, host_cpuid);
            SvmExitAction::Resume
        },
        SvmExitHandler::Shutdown => SvmExitAction::Shutdown,
        SvmExitHandler::Vmrun => SvmExitAction::NestedVirt(intercept_code, gpr_state.rax),
        SvmExitHandler::Vmmcall => SvmExitAction::Hypercall(gpr_state.rax as u32),
        SvmExitHandler::Vmload => SvmExitAction::NestedVirt(intercept_code, gpr_state.rax),
        SvmExitHandler::Vmsave => SvmExitAction::NestedVirt(intercept_code, gpr_state.rax),
        SvmExitHandler::Stgi => SvmExitAction::NestedVirt(intercept_code, gpr_state.rax),
        SvmExitHandler::Clgi => SvmExitAction::NestedVirt(intercept_code, gpr_state.rax),
        SvmExitHandler::Skinit => SvmExitAction::NestedVirt(intercept_code, gpr_state.rax),
        SvmExitHandler::NestedPageFault => SvmExitAction::NestedPageFault(
            vmread64(&vcpu.vmcb, EXIT_INFO2),
            vmread64(&vcpu.vmcb, EXIT_INFO1),
        ),
        SvmExitHandler::Invalid => SvmExitAction::InvalidState(intercept_code),
    };
    // The first register must carry the control block's physical address
    // for the re-entering world switch.
    gpr_state.rax = vcpu.stack_top.guest_vmcb_pa;
    action
}

} // verus!
