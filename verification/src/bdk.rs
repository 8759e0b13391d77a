//! Basic development kit: memory descriptors, captured processor state,
//! general-purpose-register snapshots, page-granularity address arithmetic and
//! the page source that models the platform's contiguous-page allocator.

use vstd::prelude::*;

verus! {

/// One allocation handed out by the platform: a virtual address together with
/// the physical address it maps to.  Both are null (zero) for the unallocated
/// descriptor, and both are non-zero for a live one.
#[derive(Clone, Copy, PartialEq, Eq, Structural, Debug)]
pub struct MemoryDescriptor {
    pub virt: u64,
    pub phys: u64,
}

impl MemoryDescriptor {
    /// Both addresses are either simultaneously null or simultaneously valid.
    pub open spec fn wf(self) -> bool {
        (self.virt == 0) <==> (self.phys == 0)
    }

    pub open spec fn is_null(self) -> bool {
        self.virt == 0 && self.phys == 0
    }

    pub fn new(virt: u64, phys: u64) -> (r: Self)
        ensures
            r.virt == virt,
            r.phys == phys,
    {
        Self { virt, phys }
    }

    /// The unallocated descriptor.
    pub fn null() -> (r: Self)
        ensures
            r.is_null(),
            r.wf(),
    {
        Self { virt: 0, phys: 0 }
    }
}

/// An unpacked segment register: selector, attribute bits, limit and base.
#[derive(Clone, Copy, PartialEq, Eq, Structural, Debug)]
pub struct SegmentRegister {
    pub selector: u16,
    pub attrib: u16,
    pub limit: u32,
    pub base: u64,
}

impl SegmentRegister {
    pub fn new(selector: u16, attrib: u16, limit: u32, base: u64) -> (r: Self)
        ensures
            r == (SegmentRegister { selector, attrib, limit, base }),
    {
        Self { selector, attrib, limit, base }
    }
}

impl Default for SegmentRegister {
    fn default() -> (r: Self)
        ensures
            r == (SegmentRegister { selector: 0u16, attrib: 0u16, limit: 0u32, base: 0u64 }),
    {
        Self { selector: 0, attrib: 0, limit: 0, base: 0 }
    }
}

/// The fixed-layout record the platform's state-capture routine fills: all
/// segment registers, control and debug registers, and the model-specific
/// registers mirrored into the guest state on subversion.
#[derive(Clone, Copy, PartialEq, Eq, Structural, Debug)]
pub struct ProcessorState {
    pub cs: SegmentRegister,
    pub ds: SegmentRegister,
    pub es: SegmentRegister,
    pub fs: SegmentRegister,
    pub gs: SegmentRegister,
    pub ss: SegmentRegister,
    pub tr: SegmentRegister,
    pub gdtr: SegmentRegister,
    pub idtr: SegmentRegister,
    pub ldtr: SegmentRegister,
    pub cr0: u64,
    pub cr2: u64,
    pub cr3: u64,
    pub cr4: u64,
    pub cr8: u64,
    pub dr0: u64,
    pub dr1: u64,
    pub dr2: u64,
    pub dr3: u64,
    pub dr6: u64,
    pub dr7: u64,
    pub sysenter_cs: u64,
    pub sysenter_esp: u64,
    pub sysenter_eip: u64,
    pub debug_ctrl: u64,
    pub pat: u64,
    pub efer: u64,
    pub star: u64,
    pub lstar: u64,
    pub cstar: u64,
    pub sfmask: u64,
    pub fsbase: u64,
    pub gsbase: u64,
    pub gsswap: u64,
}

/// A fixed-order snapshot of the 16 general-purpose registers, addressable
/// both by name and by the hardware's 0-15 register number.
#[derive(Clone, Copy, PartialEq, Eq, Structural, Debug)]
pub struct GprState {
    pub rax: u64,
    pub rcx: u64,
    pub rdx: u64,
    pub rbx: u64,
    pub rsp: u64,
    pub rbp: u64,
    pub rsi: u64,
    pub rdi: u64,
    pub r8: u64,
    pub r9: u64,
    pub r10: u64,
    pub r11: u64,
    pub r12: u64,
    pub r13: u64,
    pub r14: u64,
    pub r15: u64,
}

impl GprState {
    /// The register at hardware number `index`, in encoding order.
    pub open spec fn spec_reg(self, index: int) -> u64 {
        if index == 0 { self.rax }
        else if index == 1 { self.rcx }
        else if index == 2 { self.rdx }
        else if index == 3 { self.rbx }
        else if index == 4 { self.rsp }
        else if index == 5 { self.rbp }
        else if index == 6 { self.rsi }
        else if index == 7 { self.rdi }
        else if index == 8 { self.r8 }
        else if index == 9 { self.r9 }
        else if index == 10 { self.r10 }
        else if index == 11 { self.r11 }
        else if index == 12 { self.r12 }
        else if index == 13 { self.r13 }
        else if index == 14 { self.r14 }
        else { self.r15 }
    }

    /// This snapshot with the register at `index` replaced by `value`.
    pub open spec fn spec_with_reg(self, index: int, value: u64) -> GprState {
        GprState {
            rax: if index == 0 { value } else { self.rax },
            rcx: if index == 1 { value } else { self.rcx },
            rdx: if index == 2 { value } else { self.rdx },
            rbx: if index == 3 { value } else { self.rbx },
            rsp: if index == 4 { value } else { self.rsp },
            rbp: if index == 5 { value } else { self.rbp },
            rsi: if index == 6 { value } else { self.rsi },
            rdi: if index == 7 { value } else { self.rdi },
            r8: if index == 8 { value } else { self.r8 },
            r9: if index == 9 { value } else { self.r9 },
            r10: if index == 10 { value } else { self.r10 },
            r11: if index == 11 { value } else { self.r11 },
            r12: if index == 12 { value } else { self.r12 },
            r13: if index == 13 { value } else { self.r13 },
            r14: if index == 14 { value } else { self.r14 },
            r15: if index == 15 { value } else { self.r15 },
        }
    }

    pub fn new() -> (r: Self)
        ensures
            forall|i: int| 0 <= i < 16 ==> r.spec_reg(i) == 0u64,
    {
        Self {
            rax: 0, rcx: 0, rdx: 0, rbx: 0, rsp: 0, rbp: 0, rsi: 0, rdi: 0,
            r8: 0, r9: 0, r10: 0, r11: 0, r12: 0, r13: 0, r14: 0, r15: 0,
        }
    }

    /// Reads the register with hardware number `index`; `None` for an index
    /// outside the 16 registers.
    pub fn read(&self, index: u64) -> (r: Option<u64>)
        ensures
            index < 16 ==> r == Some(self.spec_reg(index as int)),
            index >= 16 ==> r is None,
    {
        match index {
            0 => Some(self.rax),
            1 => Some(self.rcx),
            2 => Some(self.rdx),
            3 => Some(self.rbx),
            4 => Some(self.rsp),
            5 => Some(self.rbp),
            6 => Some(self.rsi),
            7 => Some(self.rdi),
            8 => Some(self.r8),
            9 => Some(self.r9),
            10 => Some(self.r10),
            11 => Some(self.r11),
            12 => Some(self.r12),
            13 => Some(self.r13),
            14 => Some(self.r14),
            15 => Some(self.r15),
            _ => None,
        }
    }

    /// Writes the register with hardware number `index`; an index outside the
    /// 16 registers leaves the snapshot unchanged.
    pub fn write(&mut self, index: u64, value: u64)
        ensures
            index < 16 ==> *final(self) == old(self).spec_with_reg(index as int, value),
            index >= 16 ==> *final(self) == *old(self),
    {
        match index {
            0 => { self.rax = value; }
            1 => { self.rcx = value; }
            2 => { self.rdx = value; }
            3 => { self.rbx = value; }
            4 => { self.rsp = value; }
            5 => { self.rbp = value; }
            6 => { self.rsi = value; }
            7 => { self.rdi = value; }
            8 => { self.r8 = value; }
            9 => { self.r9 = value; }
            10 => { self.r10 = value; }
            11 => { self.r11 = value; }
            12 => { self.r12 = value; }
            13 => { self.r13 = value; }
            14 => { self.r14 = value; }
            15 => { self.r15 = value; }
            _ => {}
        }
    }
}

// Page-granularity constants.  An entry covers 4 KiB at the page-table level,
// 2 MiB at the directory level and 1 GiB at the directory-pointer level.
pub const PAGE_SHIFT: u64 = 12;
pub const PAGE_4KB_SHIFT: u64 = 12;
pub const PAGE_2MB_SHIFT: u64 = 21;
pub const PAGE_1GB_SHIFT: u64 = 30;
pub const PAGE_SIZE: u64 = 0x1000;
pub const PAGE_4KB_SIZE: u64 = 0x1000;
pub const PAGE_2MB_SIZE: u64 = 0x200000;
pub const PAGE_1GB_SIZE: u64 = 0x40000000;
pub const PAGE_SHIFT_DIFF: u64 = 10;
pub const PAGE_TABLE_ENTRIES: u64 = 512;

/// Index of `addr` within one page table: the low bits that select one of the
/// 512 entries.
pub fn page_entry_index(addr: u64) -> (r: u64)
    ensures
        r == addr & 0x1FF,
        r < 512,
    {
        let r = addr & (PAGE_TABLE_ENTRIES - 1);
        proof {
            assert(addr & 0x1FF < 512) by (bit_vector);
        }
        r
    }

/// Offset of `addr` inside its 4 KiB page.
pub fn page_offset(addr: u64) -> (r: u64)
    ensures
        r == addr & 0xFFF,
{
    addr & (PAGE_SIZE - 1)
}

/// `addr` rounded down to its 4 KiB page base.
pub fn page_4kb_base(addr: u64) -> (r: u64)
    ensures
        r == addr & 0xFFFFFFFFFFFFF000u64,
{
    addr & 0xFFFFFFFFFFFFF000u64
}

/// `addr` rounded down to its 2 MiB page base.
pub fn page_2mb_base(addr: u64) -> (r: u64)
    ensures
        r == addr & 0xFFFFFFFFFFE00000u64,
{
    addr & 0xFFFFFFFFFFE00000u64
}

/// `addr` rounded down to its 1 GiB page base.
pub fn page_1gb_base(addr: u64) -> (r: u64)
    ensures
        r == addr & 0xFFFFFFFFC0000000u64,
{
    addr & 0xFFFFFFFFC0000000u64
}

/// Number of whole 4 KiB pages below `addr`.
pub fn page_count(addr: u64) -> (r: u64)
    ensures
        r == addr >> 12,
{
    addr >> PAGE_SHIFT
}

/// Number of whole 2 MiB pages below `addr`.
pub fn page_2mb_count(addr: u64) -> (r: u64)
    ensures
        r == addr >> 21,
{
    addr >> PAGE_2MB_SHIFT
}

/// Number of whole 1 GiB pages below `addr`.
pub fn page_1gb_count(addr: u64) -> (r: u64)
    ensures
        r == addr >> 30,
{
    addr >> PAGE_1GB_SHIFT
}

/// `count` 4 KiB pages expressed in bytes.
pub fn page_mult(count: u64) -> (r: u64)
    requires
        count << 12 == count * 0x1000,
    ensures
        r == count * 0x1000,
{
    count << PAGE_SHIFT
}

/// `count` 2 MiB pages expressed in bytes.
pub fn page_2mb_mult(count: u64) -> (r: u64)
    requires
        count << 21 == count * 0x200000,
    ensures
        r == count * 0x200000,
{
    count << PAGE_2MB_SHIFT
}

/// `count` 1 GiB pages expressed in bytes.
pub fn page_1gb_mult(count: u64) -> (r: u64)
    requires
        count << 30 == count * 0x40000000,
    ensures
        r == count * 0x40000000,
{
    count << PAGE_1GB_SHIFT
}

// A page-table entry carries a physical base in bits 12..52; the bits outside
// that span hold permission and attribute flags.
pub const PHYS_PAGE_4KB_MASK: u64 = 0xFFF0000000000FFF;
pub const PHYS_PAGE_2MB_MASK: u64 = 0xFFF00000001FFFFF;
pub const PHYS_PAGE_1GB_MASK: u64 = 0xFFF000003FFFFFFF;

/// The 4 KiB-aligned physical base held in page-table entry bits 12..52.
pub fn phys_page_4kb_base(entry: u64) -> (r: u64)
    ensures
        r == entry & 0x000FFFFFFFFFF000u64,
{
    entry & 0x000FFFFFFFFFF000u64
}

/// The 2 MiB-aligned physical base held in page-table entry bits 21..52.
pub fn phys_page_2mb_base(entry: u64) -> (r: u64)
    ensures
        r == entry & 0x000FFFFFFFE00000u64,
{
    entry & 0x000FFFFFFFE00000u64
}

/// The 1 GiB-aligned physical base held in page-table entry bits 30..52.
pub fn phys_page_1gb_base(entry: u64) -> (r: u64)
    ensures
        r == entry & 0x000FFFFFC0000000u64,
{
    entry & 0x000FFFFFC0000000u64
}

/// The model of the platform's contiguous-page allocator: a staged queue of
/// descriptors handed out in order.  An empty queue models an allocator that
/// has run out of resources.  The platform never hands out the null page, nor
/// the same physical page twice, which is the well-formedness below.
pub struct MemorySource {
    pub pages: Vec<MemoryDescriptor>,
}

impl MemorySource {
    /// Every staged descriptor is live, page-aligned and inside the
    /// machine's physical range, and no two share a physical address.
    pub open spec fn wf(self) -> bool {
        &&& forall|i: int| 0 <= i < self.pages@.len() ==> (#[trigger] self.pages@[i]).wf()
        &&& forall|i: int| 0 <= i < self.pages@.len() ==> !(#[trigger] self.pages@[i]).is_null()
        &&& forall|i: int|
            0 <= i < self.pages@.len() ==> (#[trigger] self.pages@[i]).phys & 0xFFF == 0
        &&& forall|i: int|
            0 <= i < self.pages@.len() ==> (#[trigger] self.pages@[i]).phys < 0x1000000000000
        &&& forall|i: int, j: int|
            0 <= i < j < self.pages@.len() ==> (#[trigger] self.pages@[i]).phys != (
            #[trigger] self.pages@[j]).phys
    }

    pub fn new() -> (r: Self)
        ensures
            r.wf(),
            r.pages@.len() == 0,
    {
        Self { pages: Vec::new() }
    }

    /// Stages one more allocation outcome at the back of the queue.
    pub fn stage(&mut self, md: MemoryDescriptor)
        requires
            old(self).wf(),
            md.wf(),
            !md.is_null(),
            md.phys & 0xFFF == 0,
            md.phys < 0x1000000000000,
            forall|i: int| 0 <= i < old(self).pages@.len() ==> (#[trigger] old(
                self,
            ).pages@[i]).phys != md.phys,
        ensures
            final(self).wf(),
            final(self).pages@ == old(self).pages@.push(md),
    {
        self.pages.push(md);
    }

    /// Takes the next staged allocation, or reports exhaustion.  The length
    /// argument mirrors the platform call and does not influence the model.
    pub fn allocate(&mut self, length: u64) -> (r: Option<MemoryDescriptor>)
        ensures
            old(self).wf() ==> final(self).wf(),
            old(self).pages@.len() == 0 ==> r is None && *final(self) == *old(self),
            old(self).pages@.len() > 0 ==> {
                &&& r == Some(old(self).pages@[0])
                &&& final(self).pages@ == old(self).pages@.skip(1)
            },
    {
        let _ = length;
        if self.pages.len() == 0 {
            None
        } else {
            let md = self.pages.remove(0);
            assert(self.pages@ =~= old(self).pages@.skip(1));
            Some(md)
        }
    }
}

} // verus!
