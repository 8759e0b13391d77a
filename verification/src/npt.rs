//! The nested-page-table manager: entry layouts for each level of the radix
//! structure, the identity map covering the whole guest-physical range with
//! 1 GiB leaves, the one-time split of a 1 GiB region into 2 MiB entries, and
//! the remapping primitive that rewrites one 2 MiB entry.

use vstd::prelude::*;
use vstd::pervasive::VecAdditionalExecFns;

use crate::bdk::{MemoryDescriptor, MemorySource};

verus! {

// Bit positions shared by all levels of a nested-page-table entry.
pub const NPT_ENTRY_PRESENT: u64 = 0;
pub const NPT_ENTRY_PRESENT_BIT: u64 = 0x1;
pub const NPT_ENTRY_WRITE: u64 = 1;
pub const NPT_ENTRY_WRITE_BIT: u64 = 0x2;
pub const NPT_ENTRY_USER: u64 = 2;
pub const NPT_ENTRY_USER_BIT: u64 = 0x4;
pub const NPT_ENTRY_PWT: u64 = 3;
pub const NPT_ENTRY_PWT_BIT: u64 = 0x8;
pub const NPT_ENTRY_PCD: u64 = 4;
pub const NPT_ENTRY_PCD_BIT: u64 = 0x10;
pub const NPT_ENTRY_ACCESSED: u64 = 5;
pub const NPT_ENTRY_ACCESSED_BIT: u64 = 0x20;
pub const NPT_ENTRY_DIRTY: u64 = 6;
pub const NPT_ENTRY_DIRTY_BIT: u64 = 0x40;
pub const NPT_ENTRY_PAGE_SIZE: u64 = 7;
pub const NPT_ENTRY_PAGE_SIZE_BIT: u64 = 0x80;
pub const NPT_ENTRY_PAT: u64 = 7;
pub const NPT_ENTRY_PAT_BIT: u64 = 0x80;
pub const NPT_ENTRY_GLOBAL: u64 = 8;
pub const NPT_ENTRY_GLOBAL_BIT: u64 = 0x100;
pub const NPT_ENTRY_PAT_HI: u64 = 12;
pub const NPT_ENTRY_PAT_HI_BIT: u64 = 0x1000;
pub const NPT_ENTRY_NO_EXECUTE: u64 = 63;
pub const NPT_ENTRY_NO_EXECUTE_BIT: u64 = 0x8000000000000000;

/// Guest-physical addresses are translated through four page-map levels of
/// 512 entries each, so the structure spans 48 address bits.
pub const GPA_LIMIT: u64 = 0x1000000000000;

/// The value a permission flag contributes to an entry word.
pub open spec fn flag_term(b: bool, mask: u64) -> u64 {
    if b {
        mask
    } else {
        0
    }
}

/// An entry word assembled from its disjoint fields: permission flags in the
/// low byte, a physical base in bits 12..52 and the no-execute flag on top.
pub open spec fn spec_npt_entry(
    present: bool,
    write: bool,
    user: bool,
    page_size: bool,
    base_masked: u64,
    nx: bool,
) -> u64
    recommends
        base_masked & 0xFFF0000000000FFF == 0,
{
    flag_term(nx, 0x8000000000000000) | base_masked | flag_term(page_size, 0x80) | flag_term(
        user,
        0x4,
    ) | flag_term(write, 0x2) | flag_term(present, 0x1)
}

/// Whether an entry marks its page or table present.
pub open spec fn npt_present(e: u64) -> bool {
    e & NPT_ENTRY_PRESENT_BIT == NPT_ENTRY_PRESENT_BIT
}

/// Whether an entry permits writes.
pub open spec fn npt_write(e: u64) -> bool {
    e & NPT_ENTRY_WRITE_BIT == NPT_ENTRY_WRITE_BIT
}

/// Whether an entry permits user-mode access.
pub open spec fn npt_user(e: u64) -> bool {
    e & NPT_ENTRY_USER_BIT == NPT_ENTRY_USER_BIT
}

/// Whether an entry is a large or huge leaf rather than a table pointer.
pub open spec fn npt_page_size(e: u64) -> bool {
    e & NPT_ENTRY_PAGE_SIZE_BIT == NPT_ENTRY_PAGE_SIZE_BIT
}

/// Whether an entry forbids instruction fetch.
pub open spec fn npt_no_execute(e: u64) -> bool {
    e & NPT_ENTRY_NO_EXECUTE_BIT == NPT_ENTRY_NO_EXECUTE_BIT
}

/// The 4 KiB-aligned physical base an entry holds in bits 12..52.
pub open spec fn npt_base_4kb(e: u64) -> u64 {
    e & 0x000FFFFFFFFFF000
}

/// The 2 MiB-aligned physical base a large leaf holds in bits 21..52.
pub open spec fn npt_base_2mb(e: u64) -> u64 {
    e & 0x000FFFFFFFE00000
}

/// The 1 GiB-aligned physical base a huge leaf holds in bits 30..52.
pub open spec fn npt_base_1gb(e: u64) -> u64 {
    e & 0x000FFFFFC0000000
}

/// The base a page-directory entry points at: the mapped 2 MiB page when the
/// entry is a large leaf, the next-level table otherwise.
pub open spec fn spec_pde_next_level_base(e: u64) -> u64 {
    if npt_page_size(e) {
        npt_base_2mb(e)
    } else {
        npt_base_4kb(e)
    }
}

/// The base a page-directory-pointer entry points at: the mapped 1 GiB page
/// when the entry is a huge leaf, the next-level table otherwise.
pub open spec fn spec_pdpte_next_level_base(e: u64) -> u64 {
    if npt_page_size(e) {
        npt_base_1gb(e)
    } else {
        npt_base_4kb(e)
    }
}

/// How each flag and the base can be read back out of an assembled entry
/// word.  The flag arguments are the 0-or-1 numeric forms of the booleans
/// handed to [`spec_npt_entry`].
pub proof fn lemma_npt_entry_decode(p: u64, w: u64, u: u64, ps: u64, n: u64, base: u64, e: u64)
    by (bit_vector)
    requires
        p & !1 == 0,
        w & !1 == 0,
        u & !1 == 0,
        ps & !1 == 0,
        n & !1 == 0,
        base & 0xFFF0000000000FFF == 0,
        e == (n << 63) | base | (ps << 7) | (u << 2) | (w << 1) | p,
    ensures
        (e & 0x1 == 0x1) <==> (p == 1),
        (e & 0x2 == 0x2) <==> (w == 1),
        (e & 0x4 == 0x4) <==> (u == 1),
        (e & 0x80 == 0x80) <==> (ps == 1),
        (e & 0x8000000000000000 == 0x8000000000000000) <==> (n == 1),
        e & 0x000FFFFFFFFFF000 == base,
        e & 0x000FFFFFFFE00000 == base & 0x000FFFFFFFE00000,
        e & 0x000FFFFFC0000000 == base & 0x000FFFFFC0000000,
{
}

/// Bitwise-or with zero changes nothing; stated once for the entry builders,
/// whose spec form carries a zero page-size term.
pub proof fn lemma_u64_or_zero(a: u64)
    by (bit_vector)
    ensures
        a | 0 == a,
{
}

/// The decode facts of [`lemma_npt_entry_decode`], restated over the boolean
/// flags of [`spec_npt_entry`] directly.
pub proof fn lemma_npt_entry_fields(
    present: bool,
    write: bool,
    user: bool,
    page_size: bool,
    base_masked: u64,
    nx: bool,
)
    requires
        base_masked & 0xFFF0000000000FFF == 0,
    ensures
        npt_present(spec_npt_entry(present, write, user, page_size, base_masked, nx)) == present,
        npt_write(spec_npt_entry(present, write, user, page_size, base_masked, nx)) == write,
        npt_user(spec_npt_entry(present, write, user, page_size, base_masked, nx)) == user,
        npt_page_size(spec_npt_entry(present, write, user, page_size, base_masked, nx))
            == page_size,
        npt_no_execute(spec_npt_entry(present, write, user, page_size, base_masked, nx)) == nx,
        npt_base_4kb(spec_npt_entry(present, write, user, page_size, base_masked, nx))
            == base_masked,
        npt_base_2mb(spec_npt_entry(present, write, user, page_size, base_masked, nx))
            == base_masked & 0x000FFFFFFFE00000,
        npt_base_1gb(spec_npt_entry(present, write, user, page_size, base_masked, nx))
            == base_masked & 0x000FFFFFC0000000,
{
    let p: u64 = if present { 1 } else { 0 };
    let w: u64 = if write { 1 } else { 0 };
    let u: u64 = if user { 1 } else { 0 };
    let ps: u64 = if page_size { 1 } else { 0 };
    let n: u64 = if nx { 1 } else { 0 };
    let e = spec_npt_entry(present, write, user, page_size, base_masked, nx);
    assert((0u64 << 63) == 0 && (1u64 << 63) == 0x8000000000000000 && (0u64 << 7) == 0 && (1u64
        << 7) == 0x80 && (0u64 << 2) == 0 && (1u64 << 2) == 0x4 && (0u64 << 1) == 0 && (1u64 << 1)
        == 0x2 && (0u64 & !1) == 0 && (1u64 & !1) == 0) by (bit_vector);
    assert(flag_term(nx, 0x8000000000000000) == (n << 63));
    assert(flag_term(page_size, 0x80) == (ps << 7));
    assert(flag_term(user, 0x4) == (u << 2));
    assert(flag_term(write, 0x2) == (w << 1));
    assert(flag_term(present, 0x1) == p);
    assert(e == (n << 63) | base_masked | (ps << 7) | (u << 2) | (w << 1) | p);
    lemma_npt_entry_decode(p, w, u, ps, n, base_masked, e);
}

/// A page-map-level-4 entry: selects the table covering address bits 39..48.
pub struct NptPml4e(pub u64);

impl NptPml4e {

    /// Builds an entry from its fields; the base contributes only its
    /// 4 KiB-aligned physical bits.
    pub fn new(present: bool, write: bool, user: bool, pdpte: u64, nx: bool) -> (r: Self)
        ensures
            r.0 == spec_npt_entry(present, write, user, false, pdpte & 0x000FFFFFFFFFF000, nx),
    {
        let base: u64 = pdpte & 0x000FFFFFFFFFF000;
        let val: u64 = (if nx { 0x8000000000000000u64 } else { 0u64 }) | base | (if user {
            0x4u64
        } else {
            0u64
        }) | (if write { 0x2u64 } else { 0u64 }) | (if present { 0x1u64 } else { 0u64 });
        proof {
            lemma_u64_or_zero((if nx { 0x8000000000000000u64 } else { 0u64 }) | base);
        }
        NptPml4e(val)
    }

    /// The 4 KiB-aligned base of the next-level table.
    pub fn get_next_level_base(&self) -> (r: u64)
        ensures
            r == npt_base_4kb(self.0),
    {
        self.0 & 0x000FFFFFFFFFF000
    }

    /// Replaces the next-level base, keeping every flag bit.
    pub fn set_next_level_base(&mut self, val: u64)
        ensures
            final(self).0 == (old(self).0 & 0xFFF0000000000FFF) | (val & 0x000FFFFFFFFFF000),
    {
        self.0 = (self.0 & 0xFFF0000000000FFF) | (val & 0x000FFFFFFFFFF000);
    }

    pub fn get_raw(&self) -> (r: u64)
        ensures
            r == self.0,
    {
        self.0
    }

    pub fn set_raw(&mut self, val: u64)
        ensures
            final(self).0 == val,
    {
        self.0 = val;
    }

    pub fn get_present(&self) -> (r: bool)
        ensures
            r == (self.0 & NPT_ENTRY_PRESENT_BIT == NPT_ENTRY_PRESENT_BIT),
    {
        (self.0 & NPT_ENTRY_PRESENT_BIT) == NPT_ENTRY_PRESENT_BIT
    }

    pub fn set_present(&mut self, val: bool)
        ensures
            val ==> final(self).0 == old(self).0 | NPT_ENTRY_PRESENT_BIT,
            !val ==> final(self).0 == old(self).0 & !NPT_ENTRY_PRESENT_BIT,
    {
        if val {
            self.0 = self.0 | NPT_ENTRY_PRESENT_BIT;
        } else {
            self.0 = self.0 & !NPT_ENTRY_PRESENT_BIT;
        }
    }

    pub fn get_write(&self) -> (r: bool)
        ensures
            r == (self.0 & NPT_ENTRY_WRITE_BIT == NPT_ENTRY_WRITE_BIT),
    {
        (self.0 & NPT_ENTRY_WRITE_BIT) == NPT_ENTRY_WRITE_BIT
    }

    pub fn set_write(&mut self, val: bool)
        ensures
            val ==> final(self).0 == old(self).0 | NPT_ENTRY_WRITE_BIT,
            !val ==> final(self).0 == old(self).0 & !NPT_ENTRY_WRITE_BIT,
    {
        if val {
            self.0 = self.0 | NPT_ENTRY_WRITE_BIT;
        } else {
            self.0 = self.0 & !NPT_ENTRY_WRITE_BIT;
        }
    }

    pub fn get_user(&self) -> (r: bool)
        ensures
            r == (self.0 & NPT_ENTRY_USER_BIT == NPT_ENTRY_USER_BIT),
    {
        (self.0 & NPT_ENTRY_USER_BIT) == NPT_ENTRY_USER_BIT
    }

    pub fn set_user(&mut self, val: bool)
        ensures
            val ==> final(self).0 == old(self).0 | NPT_ENTRY_USER_BIT,
            !val ==> final(self).0 == old(self).0 & !NPT_ENTRY_USER_BIT,
    {
        if val {
            self.0 = self.0 | NPT_ENTRY_USER_BIT;
        } else {
            self.0 = self.0 & !NPT_ENTRY_USER_BIT;
        }
    }

    pub fn get_pwt(&self) -> (r: bool)
        ensures
            r == (self.0 & NPT_ENTRY_PWT_BIT == NPT_ENTRY_PWT_BIT),
    {
        (self.0 & NPT_ENTRY_PWT_BIT) == NPT_ENTRY_PWT_BIT
    }

    pub fn set_pwt(&mut self, val: bool)
        ensures
            val ==> final(self).0 == old(self).0 | NPT_ENTRY_PWT_BIT,
            !val ==> final(self).0 == old(self).0 & !NPT_ENTRY_PWT_BIT,
    {
        if val {
            self.0 = self.0 | NPT_ENTRY_PWT_BIT;
        } else {
            self.0 = self.0 & !NPT_ENTRY_PWT_BIT;
        }
    }

    pub fn get_pcd(&self) -> (r: bool)
        ensures
            r == (self.0 & NPT_ENTRY_PCD_BIT == NPT_ENTRY_PCD_BIT),
    {
        (self.0 & NPT_ENTRY_PCD_BIT) == NPT_ENTRY_PCD_BIT
    }

    pub fn set_pcd(&mut self, val: bool)
        ensures
            val ==> final(self).0 == old(self).0 | NPT_ENTRY_PCD_BIT,
            !val ==> final(self).0 == old(self).0 & !NPT_ENTRY_PCD_BIT,
    {
        if val {
            self.0 = self.0 | NPT_ENTRY_PCD_BIT;
        } else {
            self.0 = self.0 & !NPT_ENTRY_PCD_BIT;
        }
    }

    pub fn get_accessed(&self) -> (r: bool)
        ensures
            r == (self.0 & NPT_ENTRY_ACCESSED_BIT == NPT_ENTRY_ACCESSED_BIT),
    {
        (self.0 & NPT_ENTRY_ACCESSED_BIT) == NPT_ENTRY_ACCESSED_BIT
    }

    pub fn set_accessed(&mut self, val: bool)
        ensures
            val ==> final(self).0 == old(self).0 | NPT_ENTRY_ACCESSED_BIT,
            !val ==> final(self).0 == old(self).0 & !NPT_ENTRY_ACCESSED_BIT,
    {
        if val {
            self.0 = self.0 | NPT_ENTRY_ACCESSED_BIT;
        } else {
            self.0 = self.0 & !NPT_ENTRY_ACCESSED_BIT;
        }
    }

    pub fn get_no_execute(&self) -> (r: bool)
        ensures
            r == (self.0 & NPT_ENTRY_NO_EXECUTE_BIT == NPT_ENTRY_NO_EXECUTE_BIT),
    {
        (self.0 & NPT_ENTRY_NO_EXECUTE_BIT) == NPT_ENTRY_NO_EXECUTE_BIT
    }

    pub fn set_no_execute(&mut self, val: bool)
        ensures
            val ==> final(self).0 == old(self).0 | NPT_ENTRY_NO_EXECUTE_BIT,
            !val ==> final(self).0 == old(self).0 & !NPT_ENTRY_NO_EXECUTE_BIT,
    {
        if val {
            self.0 = self.0 | NPT_ENTRY_NO_EXECUTE_BIT;
        } else {
            self.0 = self.0 & !NPT_ENTRY_NO_EXECUTE_BIT;
        }
    }
}

/// A page-directory-pointer-table entry: either a 1 GiB leaf or a pointer to
/// a page-directory table, covering address bits 30..39.
pub struct NptPdpte(pub u64);

impl NptPdpte {

    /// Builds an entry from its fields; the base contributes only its
    /// 4 KiB-aligned physical bits.
    pub fn new(present: bool, write: bool, user: bool, pde: u64, nx: bool) -> (r: Self)
        ensures
            r.0 == spec_npt_entry(present, write, user, false, pde & 0x000FFFFFFFFFF000, nx),
    {
        let base: u64 = pde & 0x000FFFFFFFFFF000;
        let val: u64 = (if nx { 0x8000000000000000u64 } else { 0u64 }) | base | (if user {
            0x4u64
        } else {
            0u64
        }) | (if write { 0x2u64 } else { 0u64 }) | (if present { 0x1u64 } else { 0u64 });
        proof {
            lemma_u64_or_zero((if nx { 0x8000000000000000u64 } else { 0u64 }) | base);
        }
        NptPdpte(val)
    }

    /// The base this entry points at: the mapped 1 GiB page for a huge leaf,
    /// the next-level table otherwise.
    pub fn get_next_level_base(&self) -> (r: u64)
        ensures
            r == spec_pdpte_next_level_base(self.0),
    {
        if self.get_page_size() {
            self.0 & 0x000FFFFFC0000000
        } else {
            self.0 & 0x000FFFFFFFFFF000
        }
    }

    /// Replaces the base this entry points at, keeping every flag bit; the
    /// granularity follows the current page-size flag.
    pub fn set_next_level_base(&mut self, val: u64)
        ensures
            npt_page_size(old(self).0) ==> final(self).0 == (old(self).0 & 0xFFF000003FFFFFFF) | (
            val & 0x000FFFFFC0000000),
            !npt_page_size(old(self).0) ==> final(self).0 == (old(self).0 & 0xFFF0000000000FFF) | (
            val & 0x000FFFFFFFFFF000),
    {
        if self.get_page_size() {
            self.0 = (self.0 & 0xFFF000003FFFFFFF) | (val & 0x000FFFFFC0000000);
        } else {
            self.0 = (self.0 & 0xFFF0000000000FFF) | (val & 0x000FFFFFFFFFF000);
        }
    }

    pub fn get_raw(&self) -> (r: u64)
        ensures
            r == self.0,
    {
        self.0
    }

    pub fn set_raw(&mut self, val: u64)
        ensures
            final(self).0 == val,
    {
        self.0 = val;
    }

    pub fn get_present(&self) -> (r: bool)
        ensures
            r == (self.0 & NPT_ENTRY_PRESENT_BIT == NPT_ENTRY_PRESENT_BIT),
    {
        (self.0 & NPT_ENTRY_PRESENT_BIT) == NPT_ENTRY_PRESENT_BIT
    }

    pub fn set_present(&mut self, val: bool)
        ensures
            val ==> final(self).0 == old(self).0 | NPT_ENTRY_PRESENT_BIT,
            !val ==> final(self).0 == old(self).0 & !NPT_ENTRY_PRESENT_BIT,
    {
        if val {
            self.0 = self.0 | NPT_ENTRY_PRESENT_BIT;
        } else {
            self.0 = self.0 & !NPT_ENTRY_PRESENT_BIT;
        }
    }

    pub fn get_write(&self) -> (r: bool)
        ensures
            r == (self.0 & NPT_ENTRY_WRITE_BIT == NPT_ENTRY_WRITE_BIT),
    {
        (self.0 & NPT_ENTRY_WRITE_BIT) == NPT_ENTRY_WRITE_BIT
    }

    pub fn set_write(&mut self, val: bool)
        ensures
            val ==> final(self).0 == old(self).0 | NPT_ENTRY_WRITE_BIT,
            !val ==> final(self).0 == old(self).0 & !NPT_ENTRY_WRITE_BIT,
    {
        if val {
            self.0 = self.0 | NPT_ENTRY_WRITE_BIT;
        } else {
            self.0 = self.0 & !NPT_ENTRY_WRITE_BIT;
        }
    }

    pub fn get_user(&self) -> (r: bool)
        ensures
            r == (self.0 & NPT_ENTRY_USER_BIT == NPT_ENTRY_USER_BIT),
    {
        (self.0 & NPT_ENTRY_USER_BIT) == NPT_ENTRY_USER_BIT
    }

    pub fn set_user(&mut self, val: bool)
        ensures
            val ==> final(self).0 == old(self).0 | NPT_ENTRY_USER_BIT,
            !val ==> final(self).0 == old(self).0 & !NPT_ENTRY_USER_BIT,
    {
        if val {
            self.0 = self.0 | NPT_ENTRY_USER_BIT;
        } else {
            self.0 = self.0 & !NPT_ENTRY_USER_BIT;
        }
    }

    pub fn get_pwt(&self) -> (r: bool)
        ensures
            r == (self.0 & NPT_ENTRY_PWT_BIT == NPT_ENTRY_PWT_BIT),
    {
        (self.0 & NPT_ENTRY_PWT_BIT) == NPT_ENTRY_PWT_BIT
    }

    pub fn set_pwt(&mut self, val: bool)
        ensures
            val ==> final(self).0 == old(self).0 | NPT_ENTRY_PWT_BIT,
            !val ==> final(self).0 == old(self).0 & !NPT_ENTRY_PWT_BIT,
    {
        if val {
            self.0 = self.0 | NPT_ENTRY_PWT_BIT;
        } else {
            self.0 = self.0 & !NPT_ENTRY_PWT_BIT;
        }
    }

    pub fn get_pcd(&self) -> (r: bool)
        ensures
            r == (self.0 & NPT_ENTRY_PCD_BIT == NPT_ENTRY_PCD_BIT),
    {
        (self.0 & NPT_ENTRY_PCD_BIT) == NPT_ENTRY_PCD_BIT
    }

    pub fn set_pcd(&mut self, val: bool)
        ensures
            val ==> final(self).0 == old(self).0 | NPT_ENTRY_PCD_BIT,
            !val ==> final(self).0 == old(self).0 & !NPT_ENTRY_PCD_BIT,
    {
        if val {
            self.0 = self.0 | NPT_ENTRY_PCD_BIT;
        } else {
            self.0 = self.0 & !NPT_ENTRY_PCD_BIT;
        }
    }

    pub fn get_accessed(&self) -> (r: bool)
        ensures
            r == (self.0 & NPT_ENTRY_ACCESSED_BIT == NPT_ENTRY_ACCESSED_BIT),
    {
        (self.0 & NPT_ENTRY_ACCESSED_BIT) == NPT_ENTRY_ACCESSED_BIT
    }

    pub fn set_accessed(&mut self, val: bool)
        ensures
            val ==> final(self).0 == old(self).0 | NPT_ENTRY_ACCESSED_BIT,
            !val ==> final(self).0 == old(self).0 & !NPT_ENTRY_ACCESSED_BIT,
    {
        if val {
            self.0 = self.0 | NPT_ENTRY_ACCESSED_BIT;
        } else {
            self.0 = self.0 & !NPT_ENTRY_ACCESSED_BIT;
        }
    }

    pub fn get_page_size(&self) -> (r: bool)
        ensures
            r == (self.0 & NPT_ENTRY_PAGE_SIZE_BIT == NPT_ENTRY_PAGE_SIZE_BIT),
    {
        (self.0 & NPT_ENTRY_PAGE_SIZE_BIT) == NPT_ENTRY_PAGE_SIZE_BIT
    }

    pub fn set_page_size(&mut self, val: bool)
        ensures
            val ==> final(self).0 == old(self).0 | NPT_ENTRY_PAGE_SIZE_BIT,
            !val ==> final(self).0 == old(self).0 & !NPT_ENTRY_PAGE_SIZE_BIT,
    {
        if val {
            self.0 = self.0 | NPT_ENTRY_PAGE_SIZE_BIT;
        } else {
            self.0 = self.0 & !NPT_ENTRY_PAGE_SIZE_BIT;
        }
    }

    pub fn get_no_execute(&self) -> (r: bool)
        ensures
            r == (self.0 & NPT_ENTRY_NO_EXECUTE_BIT == NPT_ENTRY_NO_EXECUTE_BIT),
    {
        (self.0 & NPT_ENTRY_NO_EXECUTE_BIT) == NPT_ENTRY_NO_EXECUTE_BIT
    }

    pub fn set_no_execute(&mut self, val: bool)
        ensures
            val ==> final(self).0 == old(self).0 | NPT_ENTRY_NO_EXECUTE_BIT,
            !val ==> final(self).0 == old(self).0 & !NPT_ENTRY_NO_EXECUTE_BIT,
    {
        if val {
            self.0 = self.0 | NPT_ENTRY_NO_EXECUTE_BIT;
        } else {
            self.0 = self.0 & !NPT_ENTRY_NO_EXECUTE_BIT;
        }
    }
}

/// A page-directory entry: either a 2 MiB leaf or a pointer to a page table,
/// covering address bits 21..30.
pub struct NptPde(pub u64);

impl NptPde {

    /// Builds an entry from its fields; the base contributes only its
    /// 4 KiB-aligned physical bits.
    pub fn new(present: bool, write: bool, user: bool, pte: u64, nx: bool) -> (r: Self)
        ensures
            r.0 == spec_npt_entry(present, write, user, false, pte & 0x000FFFFFFFFFF000, nx),
    {
        let base: u64 = pte & 0x000FFFFFFFFFF000;
        let val: u64 = (if nx { 0x8000000000000000u64 } else { 0u64 }) | base | (if user {
            0x4u64
        } else {
            0u64
        }) | (if write { 0x2u64 } else { 0u64 }) | (if present { 0x1u64 } else { 0u64 });
        proof {
            lemma_u64_or_zero((if nx { 0x8000000000000000u64 } else { 0u64 }) | base);
        }
        NptPde(val)
    }

    /// Builds a 2 MiB leaf from its fields; the base contributes only its
    /// 2 MiB-aligned physical bits.
    pub fn new_large(present: bool, write: bool, user: bool, page_base: u64, nx: bool) -> (r: Self)
        ensures
            r.0 == spec_npt_entry(present, write, user, true, page_base & 0x000FFFFFFFE00000, nx),
    {
        let base: u64 = page_base & 0x000FFFFFFFE00000;
        proof {
            assert(page_base & 0x000FFFFFFFE00000 & 0xFFF0000000000FFF == 0) by (bit_vector);
        }
        let val: u64 = (if nx { 0x8000000000000000u64 } else { 0u64 }) | base | 0x80u64 | (if user {
            0x4u64
        } else {
            0u64
        }) | (if write { 0x2u64 } else { 0u64 }) | (if present { 0x1u64 } else { 0u64 });
        NptPde(val)
    }

    /// The base this entry points at: the mapped 2 MiB page for a large leaf,
    /// the next-level table otherwise.
    pub fn get_next_level_base(&self) -> (r: u64)
        ensures
            r == spec_pde_next_level_base(self.0),
    {
        if self.get_page_size() {
            self.0 & 0x000FFFFFFFE00000
        } else {
            self.0 & 0x000FFFFFFFFFF000
        }
    }

    /// Replaces the base this entry points at, keeping every flag bit; the
    /// granularity follows the current page-size flag.
    pub fn set_next_level_base(&mut self, val: u64)
        ensures
            npt_page_size(old(self).0) ==> final(self).0 == (old(self).0 & 0xFFF00000001FFFFF) | (
            val & 0x000FFFFFFFE00000),
            !npt_page_size(old(self).0) ==> final(self).0 == (old(self).0 & 0xFFF0000000000FFF) | (
            val & 0x000FFFFFFFFFF000),
    {
        if self.get_page_size() {
            self.0 = (self.0 & 0xFFF00000001FFFFF) | (val & 0x000FFFFFFFE00000);
        } else {
            self.0 = (self.0 & 0xFFF0000000000FFF) | (val & 0x000FFFFFFFFFF000);
        }
    }

    pub fn get_raw(&self) -> (r: u64)
        ensures
            r == self.0,
    {
        self.0
    }

    pub fn set_raw(&mut self, val: u64)
        ensures
            final(self).0 == val,
    {
        self.0 = val;
    }

    pub fn get_present(&self) -> (r: bool)
        ensures
            r == (self.0 & NPT_ENTRY_PRESENT_BIT == NPT_ENTRY_PRESENT_BIT),
    {
        (self.0 & NPT_ENTRY_PRESENT_BIT) == NPT_ENTRY_PRESENT_BIT
    }

    pub fn set_present(&mut self, val: bool)
        ensures
            val ==> final(self).0 == old(self).0 | NPT_ENTRY_PRESENT_BIT,
            !val ==> final(self).0 == old(self).0 & !NPT_ENTRY_PRESENT_BIT,
    {
        if val {
            self.0 = self.0 | NPT_ENTRY_PRESENT_BIT;
        } else {
            self.0 = self.0 & !NPT_ENTRY_PRESENT_BIT;
        }
    }

    pub fn get_write(&self) -> (r: bool)
        ensures
            r == (self.0 & NPT_ENTRY_WRITE_BIT == NPT_ENTRY_WRITE_BIT),
    {
        (self.0 & NPT_ENTRY_WRITE_BIT) == NPT_ENTRY_WRITE_BIT
    }

    pub fn set_write(&mut self, val: bool)
        ensures
            val ==> final(self).0 == old(self).0 | NPT_ENTRY_WRITE_BIT,
            !val ==> final(self).0 == old(self).0 & !NPT_ENTRY_WRITE_BIT,
    {
        if val {
            self.0 = self.0 | NPT_ENTRY_WRITE_BIT;
        } else {
            self.0 = self.0 & !NPT_ENTRY_WRITE_BIT;
        }
    }

    pub fn get_user(&self) -> (r: bool)
        ensures
            r == (self.0 & NPT_ENTRY_USER_BIT == NPT_ENTRY_USER_BIT),
    {
        (self.0 & NPT_ENTRY_USER_BIT) == NPT_ENTRY_USER_BIT
    }

    pub fn set_user(&mut self, val: bool)
        ensures
            val ==> final(self).0 == old(self).0 | NPT_ENTRY_USER_BIT,
            !val ==> final(self).0 == old(self).0 & !NPT_ENTRY_USER_BIT,
    {
        if val {
            self.0 = self.0 | NPT_ENTRY_USER_BIT;
        } else {
            self.0 = self.0 & !NPT_ENTRY_USER_BIT;
        }
    }

    pub fn get_pwt(&self) -> (r: bool)
        ensures
            r == (self.0 & NPT_ENTRY_PWT_BIT == NPT_ENTRY_PWT_BIT),
    {
        (self.0 & NPT_ENTRY_PWT_BIT) == NPT_ENTRY_PWT_BIT
    }

    pub fn set_pwt(&mut self, val: bool)
        ensures
            val ==> final(self).0 == old(self).0 | NPT_ENTRY_PWT_BIT,
            !val ==> final(self).0 == old(self).0 & !NPT_ENTRY_PWT_BIT,
    {
        if val {
            self.0 = self.0 | NPT_ENTRY_PWT_BIT;
        } else {
            self.0 = self.0 & !NPT_ENTRY_PWT_BIT;
        }
    }

    pub fn get_pcd(&self) -> (r: bool)
        ensures
            r == (self.0 & NPT_ENTRY_PCD_BIT == NPT_ENTRY_PCD_BIT),
    {
        (self.0 & NPT_ENTRY_PCD_BIT) == NPT_ENTRY_PCD_BIT
    }

    pub fn set_pcd(&mut self, val: bool)
        ensures
            val ==> final(self).0 == old(self).0 | NPT_ENTRY_PCD_BIT,
            !val ==> final(self).0 == old(self).0 & !NPT_ENTRY_PCD_BIT,
    {
        if val {
            self.0 = self.0 | NPT_ENTRY_PCD_BIT;
        } else {
            self.0 = self.0 & !NPT_ENTRY_PCD_BIT;
        }
    }

    pub fn get_accessed(&self) -> (r: bool)
        ensures
            r == (self.0 & NPT_ENTRY_ACCESSED_BIT == NPT_ENTRY_ACCESSED_BIT),
    {
        (self.0 & NPT_ENTRY_ACCESSED_BIT) == NPT_ENTRY_ACCESSED_BIT
    }

    pub fn set_accessed(&mut self, val: bool)
        ensures
            val ==> final(self).0 == old(self).0 | NPT_ENTRY_ACCESSED_BIT,
            !val ==> final(self).0 == old(self).0 & !NPT_ENTRY_ACCESSED_BIT,
    {
        if val {
            self.0 = self.0 | NPT_ENTRY_ACCESSED_BIT;
        } else {
            self.0 = self.0 & !NPT_ENTRY_ACCESSED_BIT;
        }
    }

    pub fn get_page_size(&self) -> (r: bool)
        ensures
            r == (self.0 & NPT_ENTRY_PAGE_SIZE_BIT == NPT_ENTRY_PAGE_SIZE_BIT),
    {
        (self.0 & NPT_ENTRY_PAGE_SIZE_BIT) == NPT_ENTRY_PAGE_SIZE_BIT
    }

    pub fn set_page_size(&mut self, val: bool)
        ensures
            val ==> final(self).0 == old(self).0 | NPT_ENTRY_PAGE_SIZE_BIT,
            !val ==> final(self).0 == old(self).0 & !NPT_ENTRY_PAGE_SIZE_BIT,
    {
        if val {
            self.0 = self.0 | NPT_ENTRY_PAGE_SIZE_BIT;
        } else {
            self.0 = self.0 & !NPT_ENTRY_PAGE_SIZE_BIT;
        }
    }

    pub fn get_no_execute(&self) -> (r: bool)
        ensures
            r == (self.0 & NPT_ENTRY_NO_EXECUTE_BIT == NPT_ENTRY_NO_EXECUTE_BIT),
    {
        (self.0 & NPT_ENTRY_NO_EXECUTE_BIT) == NPT_ENTRY_NO_EXECUTE_BIT
    }

    pub fn set_no_execute(&mut self, val: bool)
        ensures
            val ==> final(self).0 == old(self).0 | NPT_ENTRY_NO_EXECUTE_BIT,
            !val ==> final(self).0 == old(self).0 & !NPT_ENTRY_NO_EXECUTE_BIT,
    {
        if val {
            self.0 = self.0 | NPT_ENTRY_NO_EXECUTE_BIT;
        } else {
            self.0 = self.0 & !NPT_ENTRY_NO_EXECUTE_BIT;
        }
    }
}

/// A page-table entry: a 4 KiB leaf, covering address bits 12..21.
pub struct NptPte(pub u64);

impl NptPte {

    /// Builds an entry from its fields; the base contributes only its
    /// 4 KiB-aligned physical bits.
    pub fn new(present: bool, write: bool, user: bool, page_base: u64, nx: bool) -> (r: Self)
        ensures
            r.0 == spec_npt_entry(present, write, user, false, page_base & 0x000FFFFFFFFFF000, nx),
    {
        let base: u64 = page_base & 0x000FFFFFFFFFF000;
        let val: u64 = (if nx { 0x8000000000000000u64 } else { 0u64 }) | base | (if user {
            0x4u64
        } else {
            0u64
        }) | (if write { 0x2u64 } else { 0u64 }) | (if present { 0x1u64 } else { 0u64 });
        proof {
            lemma_u64_or_zero((if nx { 0x8000000000000000u64 } else { 0u64 }) | base);
        }
        NptPte(val)
    }

    /// The 4 KiB-aligned base of the mapped page.
    pub fn get_next_level_base(&self) -> (r: u64)
        ensures
            r == npt_base_4kb(self.0),
    {
        self.0 & 0x000FFFFFFFFFF000
    }

    /// Replaces the mapped page base, keeping every flag bit.
    pub fn set_next_level_base(&mut self, val: u64)
        ensures
            final(self).0 == (old(self).0 & 0xFFF0000000000FFF) | (val & 0x000FFFFFFFFFF000),
    {
        self.0 = (self.0 & 0xFFF0000000000FFF) | (val & 0x000FFFFFFFFFF000);
    }

    pub fn get_raw(&self) -> (r: u64)
        ensures
            r == self.0,
    {
        self.0
    }

    pub fn set_raw(&mut self, val: u64)
        ensures
            final(self).0 == val,
    {
        self.0 = val;
    }

    pub fn get_present(&self) -> (r: bool)
        ensures
            r == (self.0 & NPT_ENTRY_PRESENT_BIT == NPT_ENTRY_PRESENT_BIT),
    {
        (self.0 & NPT_ENTRY_PRESENT_BIT) == NPT_ENTRY_PRESENT_BIT
    }

    pub fn set_present(&mut self, val: bool)
        ensures
            val ==> final(self).0 == old(self).0 | NPT_ENTRY_PRESENT_BIT,
            !val ==> final(self).0 == old(self).0 & !NPT_ENTRY_PRESENT_BIT,
    {
        if val {
            self.0 = self.0 | NPT_ENTRY_PRESENT_BIT;
        } else {
            self.0 = self.0 & !NPT_ENTRY_PRESENT_BIT;
        }
    }

    pub fn get_write(&self) -> (r: bool)
        ensures
            r == (self.0 & NPT_ENTRY_WRITE_BIT == NPT_ENTRY_WRITE_BIT),
    {
        (self.0 & NPT_ENTRY_WRITE_BIT) == NPT_ENTRY_WRITE_BIT
    }

    pub fn set_write(&mut self, val: bool)
        ensures
            val ==> final(self).0 == old(self).0 | NPT_ENTRY_WRITE_BIT,
            !val ==> final(self).0 == old(self).0 & !NPT_ENTRY_WRITE_BIT,
    {
        if val {
            self.0 = self.0 | NPT_ENTRY_WRITE_BIT;
        } else {
            self.0 = self.0 & !NPT_ENTRY_WRITE_BIT;
        }
    }

    pub fn get_user(&self) -> (r: bool)
        ensures
            r == (self.0 & NPT_ENTRY_USER_BIT == NPT_ENTRY_USER_BIT),
    {
        (self.0 & NPT_ENTRY_USER_BIT) == NPT_ENTRY_USER_BIT
    }

    pub fn set_user(&mut self, val: bool)
        ensures
            val ==> final(self).0 == old(self).0 | NPT_ENTRY_USER_BIT,
            !val ==> final(self).0 == old(self).0 & !NPT_ENTRY_USER_BIT,
    {
        if val {
            self.0 = self.0 | NPT_ENTRY_USER_BIT;
        } else {
            self.0 = self.0 & !NPT_ENTRY_USER_BIT;
        }
    }

    pub fn get_pwt(&self) -> (r: bool)
        ensures
            r == (self.0 & NPT_ENTRY_PWT_BIT == NPT_ENTRY_PWT_BIT),
    {
        (self.0 & NPT_ENTRY_PWT_BIT) == NPT_ENTRY_PWT_BIT
    }

    pub fn set_pwt(&mut self, val: bool)
        ensures
            val ==> final(self).0 == old(self).0 | NPT_ENTRY_PWT_BIT,
            !val ==> final(self).0 == old(self).0 & !NPT_ENTRY_PWT_BIT,
    {
        if val {
            self.0 = self.0 | NPT_ENTRY_PWT_BIT;
        } else {
            self.0 = self.0 & !NPT_ENTRY_PWT_BIT;
        }
    }

    pub fn get_pcd(&self) -> (r: bool)
        ensures
            r == (self.0 & NPT_ENTRY_PCD_BIT == NPT_ENTRY_PCD_BIT),
    {
        (self.0 & NPT_ENTRY_PCD_BIT) == NPT_ENTRY_PCD_BIT
    }

    pub fn set_pcd(&mut self, val: bool)
        ensures
            val ==> final(self).0 == old(self).0 | NPT_ENTRY_PCD_BIT,
            !val ==> final(self).0 == old(self).0 & !NPT_ENTRY_PCD_BIT,
    {
        if val {
            self.0 = self.0 | NPT_ENTRY_PCD_BIT;
        } else {
            self.0 = self.0 & !NPT_ENTRY_PCD_BIT;
        }
    }

    pub fn get_accessed(&self) -> (r: bool)
        ensures
            r == (self.0 & NPT_ENTRY_ACCESSED_BIT == NPT_ENTRY_ACCESSED_BIT),
    {
        (self.0 & NPT_ENTRY_ACCESSED_BIT) == NPT_ENTRY_ACCESSED_BIT
    }

    pub fn set_accessed(&mut self, val: bool)
        ensures
            val ==> final(self).0 == old(self).0 | NPT_ENTRY_ACCESSED_BIT,
            !val ==> final(self).0 == old(self).0 & !NPT_ENTRY_ACCESSED_BIT,
    {
        if val {
            self.0 = self.0 | NPT_ENTRY_ACCESSED_BIT;
        } else {
            self.0 = self.0 & !NPT_ENTRY_ACCESSED_BIT;
        }
    }

    pub fn get_no_execute(&self) -> (r: bool)
        ensures
            r == (self.0 & NPT_ENTRY_NO_EXECUTE_BIT == NPT_ENTRY_NO_EXECUTE_BIT),
    {
        (self.0 & NPT_ENTRY_NO_EXECUTE_BIT) == NPT_ENTRY_NO_EXECUTE_BIT
    }

    pub fn set_no_execute(&mut self, val: bool)
        ensures
            val ==> final(self).0 == old(self).0 | NPT_ENTRY_NO_EXECUTE_BIT,
            !val ==> final(self).0 == old(self).0 & !NPT_ENTRY_NO_EXECUTE_BIT,
    {
        if val {
            self.0 = self.0 | NPT_ENTRY_NO_EXECUTE_BIT;
        } else {
            self.0 = self.0 & !NPT_ENTRY_NO_EXECUTE_BIT;
        }
    }
}


/// Records one page-directory table created by splitting a 1 GiB region:
/// the allocation that backs it, the guest-physical base of the region it
/// covers, and the 512 entries it holds.
pub struct SvmNptPageTableDescriptor {
    pub table: MemoryDescriptor,
    pub gpa_start: u64,
    pub entries: Vec<u64>,
}

impl SvmNptPageTableDescriptor {
    /// A live descriptor: a real allocation, a 1 GiB-aligned base inside the
    /// translated range, and a full table of entries.
    pub open spec fn wf(self) -> bool {
        &&& self.table.wf()
        &&& !self.table.is_null()
        &&& self.gpa_start & 0x3FFFFFFF == 0
        &&& self.gpa_start < GPA_LIMIT
        &&& self.entries@.len() == 512
    }
}

impl Default for SvmNptPageTableDescriptor {
    fn default() -> (r: Self)
        ensures
            r.table.is_null(),
            r.gpa_start == 0,
            r.entries@.len() == 0,
    {
        Self { table: MemoryDescriptor::null(), gpa_start: 0, entries: Vec::new() }
    }
}

/// The 1 GiB region a guest-physical address falls in.
pub open spec fn spec_region_of(gpa: u64) -> u64 {
    gpa & 0xFFFFFFFFC0000000
}

/// The entry slot a guest-physical address selects inside a page-directory
/// table.
pub open spec fn spec_pde_index(gpa: u64) -> int {
    ((gpa >> 21) & 0x1FF) as int
}

/// The page-directory-pointer entry a split leaves behind: the huge-leaf
/// flag cleared and the base replaced by the new table's physical address,
/// with every other flag bit kept.
pub open spec fn spec_split_parent_entry(e_old: u64, table_phys: u64) -> u64 {
    ((e_old & !0x80) & 0xFFF0000000000FFF) | (table_phys & 0x000FFFFFFFFFF000)
}

/// The 2 MiB leaf a split writes at slot `k`: the parent's permission flags
/// replicated over the `k`-th 2 MiB sub-range of the region.
pub open spec fn spec_split_leaf(e_old: u64, region: u64, k: int) -> u64 {
    spec_npt_entry(
        npt_present(e_old),
        npt_write(e_old),
        npt_user(e_old),
        true,
        ((region + k * 0x200000) as u64) & 0x000FFFFFFFE00000,
        npt_no_execute(e_old),
    )
}

/// The nested-page-table manager of one hypervisor instance: the top-level
/// table, the directory-pointer block holding one entry per 1 GiB of
/// guest-physical space, and the directory tables created by splitting.
pub struct SvmNptManager {
    pub pml4e: MemoryDescriptor,
    pub pdpte: MemoryDescriptor,
    pub pml4e_entries: Vec<u64>,
    pub pdpte_entries: Vec<u64>,
    pub pde: Vec<SvmNptPageTableDescriptor>,
    pub pte: Vec<SvmNptPageTableDescriptor>,
}

impl Default for SvmNptManager {
    fn default() -> (r: Self)
        ensures
            r.pml4e.is_null(),
            r.pdpte.is_null(),
            r.pml4e_entries@.len() == 0,
            r.pdpte_entries@.len() == 0,
            r.pde@.len() == 0,
            r.pte@.len() == 0,
            r.wf(),
    {
        Self {
            pml4e: MemoryDescriptor::null(),
            pdpte: MemoryDescriptor::null(),
            pml4e_entries: Vec::new(),
            pdpte_entries: Vec::new(),
            pde: Vec::new(),
            pte: Vec::new(),
        }
    }
}

impl SvmNptManager {
    /// Every split descriptor is live and no 1 GiB region has been split
    /// twice.
    pub open spec fn wf(self) -> bool {
        &&& forall|i: int| 0 <= i < self.pde@.len() ==> (#[trigger] self.pde@[i]).wf()
        &&& forall|i: int, j: int|
            0 <= i < j < self.pde@.len() ==> (#[trigger] self.pde@[i]).gpa_start != (
            #[trigger] self.pde@[j]).gpa_start
    }

    /// The top two levels exist and have their architectural sizes: 512
    /// top-level entries and one directory-pointer entry per 1 GiB of the
    /// 48-bit guest-physical range.
    pub open spec fn tables_built(self) -> bool {
        &&& self.pml4e.wf()
        &&& !self.pml4e.is_null()
        &&& self.pdpte.wf()
        &&& !self.pdpte.is_null()
        &&& self.pml4e_entries@.len() == 512
        &&& self.pdpte_entries@.len() == 0x40000
    }

    /// Whether the 1 GiB region of `gpa` has already been split into a
    /// page-directory table.
    pub open spec fn covered_by_split(self, gpa: u64) -> bool {
        exists|i: int|
            0 <= i < self.pde@.len() && (#[trigger] self.pde@[i]).gpa_start == spec_region_of(gpa)
    }

    /// The index of the split descriptor covering `gpa`; meaningful only
    /// under [`Self::covered_by_split`].
    pub open spec fn split_index_of(self, gpa: u64) -> int {
        choose|i: int|
            0 <= i < self.pde@.len() && (#[trigger] self.pde@[i]).gpa_start == spec_region_of(gpa)
    }

    /// The page-directory entry covering `gpa`; meaningful only under
    /// [`Self::covered_by_split`].
    pub open spec fn pde_slot(self, gpa: u64) -> u64 {
        self.pde@[self.split_index_of(gpa)].entries@[spec_pde_index(gpa)]
    }

    /// The set of 1 GiB region bases that have been split.
    pub open spec fn split_regions(self) -> Set<u64> {
        Set::new(
            |r: u64|
                exists|i: int|
                    0 <= i < self.pde@.len() && (#[trigger] self.pde@[i]).gpa_start == r,
        )
    }

    /// Under well-formedness the covering descriptor is unique, so any index
    /// holding the region is the chosen one.
    pub proof fn lemma_split_index_unique(self, gpa: u64, i: int)
        requires
            self.wf(),
            0 <= i < self.pde@.len(),
            self.pde@[i].gpa_start == spec_region_of(gpa),
        ensures
            self.split_index_of(gpa) == i,
    {
        assert(self.covered_by_split(gpa));
        let j = self.split_index_of(gpa);
        if i < j {
            assert(self.pde@[i].gpa_start != self.pde@[j].gpa_start);
        } else if j < i {
            assert(self.pde@[j].gpa_start != self.pde@[i].gpa_start);
        }
    }

    /// Addresses in one 1 GiB region are covered together: whether a split
    /// exists depends only on the region of the address.
    pub proof fn lemma_covered_same_region(self, gpa1: u64, gpa2: u64)
        requires
            spec_region_of(gpa1) == spec_region_of(gpa2),
        ensures
            self.covered_by_split(gpa1) == self.covered_by_split(gpa2),
            self.split_index_of(gpa1) == self.split_index_of(gpa2),
    {
    }
}

/// Facts connecting a guest-physical address below the translated limit with
/// its region base and table indices.
pub proof fn lemma_gpa_region_facts(gpa: u64)
    by (bit_vector)
    requires
        gpa < 0x1000000000000,
    ensures
        (gpa >> 30) < 0x40000,
        ((gpa >> 30) as int) * 0x40000000 == (gpa & 0xFFFFFFFFC0000000) as int,
        (gpa & 0xFFFFFFFFC0000000) & 0x3FFFFFFF == 0,
        (gpa & 0xFFFFFFFFC0000000) < 0x1000000000000,
        (gpa & 0xFFFFFFFFC0000000) <= gpa,
        0 <= ((gpa >> 21) & 0x1FF) < 512,
        (gpa >> 39) < 512,
        (gpa >> 30) as int == (gpa >> 39) * 512 + ((gpa >> 30) & 0x1FF),
        (gpa & 0xFFFFFFFFC0000000) & 0x000FFFFFC0000000 == gpa & 0xFFFFFFFFC0000000,
{
}

/// A 1 GiB-aligned base covers exactly the addresses from it up to the next
/// 1 GiB boundary.
pub proof fn lemma_region_range(start: u64, gpa: u64)
    by (bit_vector)
    requires
        start & 0x3FFFFFFF == 0,
    ensures
        (start <= gpa && gpa < start + 0x40000000) <==> start == (gpa & 0xFFFFFFFFC0000000),
{
}

/// Two addresses selecting the same region and the same directory slot map
/// the same 2 MiB page base.
pub proof fn lemma_slot_determines_base(s1: u64, s2: u64)
    by (bit_vector)
    requires
        s1 < 0x1000000000000,
        s2 < 0x1000000000000,
        s1 & 0xFFFFFFFFC0000000 == s2 & 0xFFFFFFFFC0000000,
        (s1 >> 21) & 0x1FF == (s2 >> 21) & 0x1FF,
    ensures
        s1 & 0x000FFFFFFFE00000 == s2 & 0x000FFFFFFFE00000,
{
}

/// Setting the huge- or large-page flag on an assembled entry word moves it
/// from the table form of the formula to the leaf form.
pub proof fn lemma_entry_set_page_size(
    present: bool,
    write: bool,
    user: bool,
    base_masked: u64,
    nx: bool,
)
    requires
        base_masked & 0xFFF0000000000FFF == 0,
    ensures
        spec_npt_entry(present, write, user, false, base_masked, nx) | 0x80 == spec_npt_entry(
            present,
            write,
            user,
            true,
            base_masked,
            nx,
        ),
{
    let p: u64 = if present { 1 } else { 0 };
    let w: u64 = if write { 1 } else { 0 };
    let u: u64 = if user { 1 } else { 0 };
    let n: u64 = if nx { 1 } else { 0 };
    assert((0u64 << 63) == 0 && (1u64 << 63) == 0x8000000000000000 && (0u64 << 2) == 0 && (1u64
        << 2) == 0x4 && (0u64 << 1) == 0 && (1u64 << 1) == 0x2) by (bit_vector);
    assert((0u64 & !1) == 0 && (1u64 & !1) == 0) by (bit_vector);
    let e0 = (n << 63) | base_masked | 0u64 | (u << 2) | (w << 1) | p;
    let e1 = (n << 63) | base_masked | 0x80u64 | (u << 2) | (w << 1) | p;
    assert(spec_npt_entry(present, write, user, false, base_masked, nx) == e0);
    assert(spec_npt_entry(present, write, user, true, base_masked, nx) == e1);
    assert(e0 | 0x80 == e1) by (bit_vector)
        requires
            e0 == (n << 63) | base_masked | 0u64 | (u << 2) | (w << 1) | p,
            e1 == (n << 63) | base_masked | 0x80u64 | (u << 2) | (w << 1) | p,
            n & !1 == 0,
            u & !1 == 0,
            w & !1 == 0,
            p & !1 == 0,
            base_masked & 0xFFF0000000000FFF == 0,
    ;
}


/// The base written by an identity-map directory-pointer entry stays inside
/// the entry's physical-base field untouched.
pub proof fn lemma_identity_pdpte_base(k: u64)
    by (bit_vector)
    requires
        k < 0x40000,
    ensures
        k * 0x40000000 < 0x1000000000000,
        ((k * 0x40000000) as u64) & 0x000FFFFFFFFFF000 == (k * 0x40000000) as u64,
        ((k * 0x40000000) as u64) & 0xFFF0000000000FFF == 0,
{
}

/// A page-aligned physical base plus a small table offset stays inside the
/// entry's physical-base field untouched.
pub proof fn lemma_pml4e_base(phys: u64, i: u64)
    by (bit_vector)
    requires
        phys & 0xFFF == 0,
        phys < 0x1000000000000,
        i < 512,
    ensures
        ((phys + i * 0x1000) as u64) & 0x000FFFFFFFFFF000 == (phys + i * 0x1000) as u64,
        (((phys + i * 0x1000) as u64) & 0x000FFFFFFFFFF000) & 0xFFF0000000000FFF == 0,
{
}

/// Masking to the physical-base field leaves nothing outside it.
pub proof fn lemma_mask_4kb_disjoint(x: u64)
    by (bit_vector)
    ensures
        (x & 0x000FFFFFFFFFF000) & 0xFFF0000000000FFF == 0,
        (x & 0x000FFFFFFFE00000) & 0xFFF0000000000FFF == 0,
        (x & 0x000FFFFFFFE00000) & 0x000FFFFFFFE00000 == x & 0x000FFFFFFFE00000,
        (x & 0x000FFFFFFFFFF000) & 0x000FFFFFFFFFF000 == x & 0x000FFFFFFFFFF000,
{
}

/// Clearing the page-size bit indeed leaves an entry in table form.
pub proof fn lemma_clear_page_size(x: u64)
    by (bit_vector)
    ensures
        (x & !0x80) & 0x80 == 0,
{
}

impl SvmNptManager {
    /// Allocates the top-level table and the directory-pointer block, then
    /// fills them so that the whole guest-physical range is identity-mapped
    /// with present, writable 1 GiB leaves, in ascending order.
    pub fn build_identity_map(&mut self, source: &mut MemorySource)
        requires
            old(self).wf(),
            old(source).wf(),
            old(source).pages@.len() >= 2,
        ensures
            final(self).wf(),
            final(self).tables_built(),
            final(self).identity_mapped(),
            final(source).wf(),
            final(source).pages@ == old(source).pages@.skip(2),
            final(self).pml4e == old(source).pages@[0],
            final(self).pdpte == old(source).pages@[1],
            final(self).pde@ == old(self).pde@,
            final(self).pte@ == old(self).pte@,
            forall|k: int|
                0 <= k < 0x40000 ==> final(self).pdpte_entries@[k] == spec_npt_entry(
                    true,
                    true,
                    true,
                    true,
                    (k * 0x40000000) as u64,
                    false,
                ),
            forall|i: int|
                0 <= i < 512 ==> final(self).pml4e_entries@[i] == spec_npt_entry(
                    true,
                    true,
                    true,
                    false,
                    (old(source).pages@[1].phys + i * 0x1000) as u64,
                    false,
                ),
    {
        let pml4e_md = match source.allocate(crate::bdk::PAGE_SIZE) {
            Some(md) => md,
            None => {
                proof {
                    assert(false);
                }
                MemoryDescriptor::null()
            },
        };
        let pdpte_md = match source.allocate(crate::bdk::PAGE_2MB_SIZE) {
            Some(md) => md,
            None => {
                proof {
                    assert(false);
                }
                MemoryDescriptor::null()
            },
        };
        proof {
            assert(final(source).pages@ =~= old(source).pages@.skip(2));
        }
        self.pml4e = pml4e_md;
        self.pdpte = pdpte_md;
        let mut pdpte_entries: Vec<u64> = Vec::new();
        let mut k: usize = 0;
        while k < 0x40000
            invariant
                k <= 0x40000,
                pdpte_entries@.len() == k,
                forall|j: int|
                    0 <= j < k ==> pdpte_entries@[j] == spec_npt_entry(
                        true,
                        true,
                        true,
                        true,
                        (j * 0x40000000) as u64,
                        false,
                    ),
            decreases 0x40000 - k,
        {
            proof {
                lemma_identity_pdpte_base(k as u64);
            }
            let base: u64 = (k as u64) * 0x40000000;
            let mut e = NptPdpte::new(true, true, true, base, false);
            e.set_page_size(true);
            proof {
                lemma_entry_set_page_size(true, true, true, base, false);
            }
            pdpte_entries.push(e.0);
            k += 1;
        }
        self.pdpte_entries = pdpte_entries;
        let mut pml4e_entries: Vec<u64> = Vec::new();
        let mut i: usize = 0;
        while i < 512
            invariant
                i <= 512,
                pml4e_entries@.len() == i,
                self.pdpte == old(source).pages@[1],
                old(source).wf(),
                old(source).pages@.len() >= 2,
                forall|j: int|
                    0 <= j < i ==> pml4e_entries@[j] == spec_npt_entry(
                        true,
                        true,
                        true,
                        false,
                        (old(source).pages@[1].phys + j * 0x1000) as u64,
                        false,
                    ),
            decreases 512 - i,
        {
            proof {
                lemma_pml4e_base(self.pdpte.phys, i as u64);
            }
            let base: u64 = self.pdpte.phys + (i as u64) * 0x1000;
            let e = NptPml4e::new(true, true, true, base, false);
            pml4e_entries.push(e.0);
            i += 1;
        }
        self.pml4e_entries = pml4e_entries;
    }

    /// Reads the directory-pointer entry covering `gpa`, selected by its
    /// 1 GiB page number.
    pub fn locate_pdpte(&self, gpa: u64) -> (r: NptPdpte)
        requires
            self.tables_built(),
            gpa < GPA_LIMIT,
        ensures
            r.0 == self.pdpte_entries@[(gpa >> 30) as int],
    {
        proof {
            lemma_gpa_region_facts(gpa);
        }
        NptPdpte(self.pdpte_entries[(gpa >> 30) as usize])
    }

    /// Finds the split descriptor whose region covers `gpa`, if the region
    /// has been split.
    pub fn locate_pde(&self, gpa: u64) -> (r: Option<usize>)
        requires
            self.wf(),
        ensures
            r is Some <==> self.covered_by_split(gpa),
            match r {
                Some(i) => 0 <= i < self.pde@.len() && self.pde@[i as int].gpa_start
                    == spec_region_of(gpa) && self.split_index_of(gpa) == i,
                None => !self.covered_by_split(gpa),
            },
    {
        let n = self.pde.len();
        let mut i: usize = 0;
        while i < n
            invariant
                self.wf(),
                n == self.pde@.len(),
                i <= n,
                forall|j: int| 0 <= j < i ==> (#[trigger] self.pde@[j]).gpa_start != spec_region_of(gpa),
            decreases n - i,
        {
            let d_start = self.pde[i].gpa_start;
            proof {
                lemma_region_range(d_start, gpa);
            }
            if gpa >= d_start && gpa < d_start + crate::bdk::PAGE_1GB_SIZE {
                proof {
                    self.lemma_split_index_unique(gpa, i as int);
                }
                return Some(i);
            }
            i += 1;
        }
        proof {
            assert(!self.covered_by_split(gpa));
        }
        None
    }

    /// Splits the 1 GiB region covering `gpa`: allocates one page-directory
    /// table, fills its 512 entries as 2 MiB leaves replicating the parent
    /// leaf's permission flags across the sub-range, rewrites the parent
    /// entry to point at the new table, and records the table for later
    /// lookup.  Each region is split at most once.
    pub fn split_pdpte(&mut self, gpa: u64, source: &mut MemorySource)
        requires
            old(self).wf(),
            old(self).tables_built(),
            old(source).wf(),
            old(source).pages@.len() >= 1,
            gpa < GPA_LIMIT,
            !old(self).covered_by_split(gpa),
        ensures
            final(self).wf(),
            final(self).tables_built(),
            final(source).wf(),
            final(source).pages@ == old(source).pages@.skip(1),
            final(self).pde@.len() == old(self).pde@.len() + 1,
            forall|i: int|
                0 <= i < old(self).pde@.len() ==> final(self).pde@[i] == old(self).pde@[i],
            final(self).pde@[old(self).pde@.len() as int].gpa_start == spec_region_of(gpa),
            final(self).pde@[old(self).pde@.len() as int].table == old(source).pages@[0],
            final(self).pde@[old(self).pde@.len() as int].entries@ == Seq::new(
                512,
                |k: int|
                    spec_split_leaf(
                        old(self).pdpte_entries@[(gpa >> 30) as int],
                        spec_region_of(gpa),
                        k,
                    ),
            ),
            final(self).covered_by_split(gpa),
            final(self).split_index_of(gpa) == old(self).pde@.len(),
            final(self).pdpte_entries@ == old(self).pdpte_entries@.update(
                (gpa >> 30) as int,
                spec_split_parent_entry(
                    old(self).pdpte_entries@[(gpa >> 30) as int],
                    old(source).pages@[0].phys,
                ),
            ),
            final(self).pml4e == old(self).pml4e,
            final(self).pdpte == old(self).pdpte,
            final(self).pml4e_entries@ == old(self).pml4e_entries@,
            final(self).pte@ == old(self).pte@,
        {
        let md = match source.allocate(crate::bdk::PAGE_SIZE) {
            Some(md) => md,
            None => {
                proof {
                    assert(false);
                }
                MemoryDescriptor::null()
            },
        };
        proof {
            lemma_gpa_region_facts(gpa);
        }
        let gpa_start = crate::bdk::page_1gb_base(gpa);
        let idx = (gpa >> 30) as usize;
        let parent = NptPdpte(self.pdpte_entries[idx]);
        let ghost e_old = parent.0;
        let mut entries: Vec<u64> = Vec::new();
        let mut k: usize = 0;
        while k < 512
            invariant
                k <= 512,
                entries@.len() == k,
                parent.0 == e_old,
                gpa_start == spec_region_of(gpa),
                gpa_start < GPA_LIMIT,
                forall|j: int|
                    0 <= j < k ==> entries@[j] == spec_split_leaf(e_old, spec_region_of(gpa), j),
            decreases 512 - k,
        {
            let e = NptPde::new_large(
                parent.get_present(),
                parent.get_write(),
                parent.get_user(),
                gpa_start + (k as u64) * 0x200000,
                parent.get_no_execute(),
            );
            entries.push(e.0);
            k += 1;
        }
        let mut rewritten = parent;
        rewritten.set_page_size(false);
        proof {
            lemma_clear_page_size(e_old);
        }
        rewritten.set_next_level_base(md.phys);
        self.pdpte_entries.set(idx, rewritten.0);
        let d = SvmNptPageTableDescriptor { table: md, gpa_start, entries };
        proof {
            assert(d.wf());
            assert(forall|i: int|
                0 <= i < self.pde@.len() ==> (#[trigger] self.pde@[i]).gpa_start != spec_region_of(
                    gpa,
                ));
        }
        self.pde.push(d);
        proof {
            assert(final(self).pde@[old(self).pde@.len() as int].entries@ =~= Seq::new(
                512,
                |k: int|
                    spec_split_leaf(
                        old(self).pdpte_entries@[(gpa >> 30) as int],
                        spec_region_of(gpa),
                        k,
                    ),
            ));
            final(self).lemma_split_index_unique(gpa, old(self).pde@.len() as int);
        }
    }
}


/// The directory entries of the region covering `gpa` as they stand before
/// [`SvmNptManager::update_pde`] rewrites one of them: the recorded table if
/// the region is already split, otherwise the table a fresh split would
/// create.
pub open spec fn spec_pre_update_entries(m: SvmNptManager, gpa: u64) -> Seq<u64> {
    if m.covered_by_split(gpa) {
        m.pde@[m.split_index_of(gpa)].entries@
    } else {
        Seq::new(
            512,
            |k: int| spec_split_leaf(m.pdpte_entries@[(gpa >> 30) as int], spec_region_of(gpa), k),
        )
    }
}

/// The entry [`SvmNptManager::update_pde`] writes: a 2 MiB leaf mapping
/// `hpa` with the given permissions, or a table entry keeping the previous
/// next-level base, with the execute permission stored as the hardware's
/// inverted no-execute flag.
pub open spec fn spec_updated_pde(r: bool, w: bool, x: bool, l: bool, hpa: u64, prev: u64) -> u64 {
    if l {
        spec_npt_entry(r, w, true, true, hpa & 0x000FFFFFFFE00000, !x)
    } else {
        spec_npt_entry(r, w, true, false, spec_pde_next_level_base(prev) & 0x000FFFFFFFFFF000, !x)
    }
}

impl SvmNptManager {
    /// Rewrites the page-directory entry covering `gpa`, splitting its
    /// 1 GiB region on first demand.  This is the sole guest-physical to
    /// host-physical remapping primitive the manager exposes: the entry
    /// becomes a 2 MiB leaf mapping `hpa` with the given permissions, or,
    /// with `l` false, a table entry keeping the previous next-level base.
    pub fn update_pde(
        &mut self,
        gpa: u64,
        hpa: u64,
        r: bool,
        w: bool,
        x: bool,
        l: bool,
        source: &mut MemorySource,
    )
        requires
            old(self).wf(),
            old(self).tables_built(),
            old(source).wf(),
            gpa < GPA_LIMIT,
            !old(self).covered_by_split(gpa) ==> old(source).pages@.len() >= 1,
        ensures
            final(self).wf(),
            final(self).tables_built(),
            final(source).wf(),
            final(self).covered_by_split(gpa),
    // A region is split at most once: a second update in a covered
    // region allocates nothing.
            old(self).covered_by_split(gpa) ==> final(self).pde@.len() == old(self).pde@.len()
                && *final(source) == *old(source) && final(self).pdpte_entries@ == old(
                self,
            ).pdpte_entries@,
            !old(self).covered_by_split(gpa) ==> final(self).pde@.len() == old(self).pde@.len() + 1
                && final(source).pages@ == old(source).pages@.skip(1) && final(self).pde@[old(
                self,
            ).pde@.len() as int].gpa_start == spec_region_of(gpa) && final(self).pde@[old(
                self,
            ).pde@.len() as int].table == old(source).pages@[0] && final(self).pdpte_entries@
                == old(self).pdpte_entries@.update(
                (gpa >> 30) as int,
                spec_split_parent_entry(
                    old(self).pdpte_entries@[(gpa >> 30) as int],
                    old(source).pages@[0].phys,
                ),
            ),
            forall|i: int|
                0 <= i < old(self).pde@.len() ==> (#[trigger] final(self).pde@[i]).gpa_start == old(
                    self,
                ).pde@[i].gpa_start && final(self).pde@[i].table == old(self).pde@[i].table,
            forall|i: int|
                0 <= i < old(self).pde@.len() && old(self).pde@[i].gpa_start != spec_region_of(gpa)
                    ==> (#[trigger] final(self).pde@[i]).entries@ == old(self).pde@[i].entries@,
            final(self).pde@[final(self).split_index_of(gpa)].entries@ == spec_pre_update_entries(
                *old(self),
                gpa,
            ).update(
                spec_pde_index(gpa),
                spec_updated_pde(
                    r,
                    w,
                    x,
                    l,
                    hpa,
                    spec_pre_update_entries(*old(self), gpa)[spec_pde_index(gpa)],
                ),
            ),
            final(self).pde_slot(gpa) == spec_updated_pde(
                r,
                w,
                x,
                l,
                hpa,
                spec_pre_update_entries(*old(self), gpa)[spec_pde_index(gpa)],
            ),
            final(self).pml4e == old(self).pml4e,
            final(self).pdpte == old(self).pdpte,
            final(self).pml4e_entries@ == old(self).pml4e_entries@,
            final(self).pte@ == old(self).pte@,
    {
        proof {
            lemma_gpa_region_facts(gpa);
        }
        let mut d_idx_opt = self.locate_pde(gpa);
        if d_idx_opt.is_none() {
            // First protection request inside this region: build its table.
            self.split_pdpte(gpa, source);
            d_idx_opt = self.locate_pde(gpa);
        }
        match d_idx_opt {
            Some(d_idx) => {
                let pdx = crate::bdk::page_entry_index(crate::bdk::page_2mb_count(gpa)) as usize;
                let d_ref = &mut self.pde[d_idx];
                let prev = NptPde(d_ref.entries[pdx]);
                let new_entry = if l {
                    NptPde::new_large(r, w, true, hpa, !x)
                } else {
                    NptPde::new(r, w, true, prev.get_next_level_base(), !x)
                };
                d_ref.entries.set(pdx, new_entry.0);
                proof {
                    assert(self.wf());
                    assert(self.pde@[d_idx as int].gpa_start == spec_region_of(gpa));
                    assert(self.covered_by_split(gpa));
                    self.lemma_split_index_unique(gpa, d_idx as int);
                }
            },
            None => {
                proof {
                    assert(false);
                }
            },
        }
    }
}


impl SvmNptManager {
    /// The state [`Self::build_identity_map`] establishes: both upper levels
    /// in place, every directory-pointer entry a present, writable 1 GiB
    /// identity leaf, and every top-level entry pointing at the matching
    /// 4 KiB page of the directory-pointer block.
    pub open spec fn identity_mapped(self) -> bool {
        &&& self.tables_built()
        &&& forall|k: int|
            0 <= k < 0x40000 ==> self.pdpte_entries@[k] == spec_npt_entry(
                true,
                true,
                true,
                true,
                (k * 0x40000000) as u64,
                false,
            )
        &&& forall|i: int|
            0 <= i < 512 ==> self.pml4e_entries@[i] == spec_npt_entry(
                true,
                true,
                true,
                false,
                (self.pdpte.phys + i * 0x1000) as u64,
                false,
            )
    }
}

/// Walking the fresh identity map translates any in-range guest-physical
/// address to itself: the top-level entry selects the page of the pointer
/// block that holds the address's entry, and that entry is a present 1 GiB
/// leaf whose base is the address rounded down to 1 GiB.
pub proof fn lemma_identity_map_walk(m: SvmNptManager, gpa: u64)
    requires
        m.identity_mapped(),
        gpa < GPA_LIMIT,
        m.pdpte.phys & 0xFFF == 0,
        m.pdpte.phys < 0x1000000000000,
    ensures
        npt_present(m.pml4e_entries@[(gpa >> 39) as int]),
        npt_base_4kb(m.pml4e_entries@[(gpa >> 39) as int]) == m.pdpte.phys + (gpa >> 39) * 0x1000,
        (gpa >> 30) as int == (gpa >> 39) * 512 + ((gpa >> 30) & 0x1FF),
        npt_present(m.pdpte_entries@[(gpa >> 30) as int]),
        npt_page_size(m.pdpte_entries@[(gpa >> 30) as int]),
        npt_base_1gb(m.pdpte_entries@[(gpa >> 30) as int]) == spec_region_of(gpa),
{
    lemma_gpa_region_facts(gpa);
    let k = gpa >> 30;
    let i = gpa >> 39;
    lemma_identity_pdpte_base(k);
    lemma_npt_entry_fields(true, true, true, true, (k * 0x40000000) as u64, false);
    lemma_pml4e_base(m.pdpte.phys, i);
    lemma_npt_entry_fields(true, true, true, false, (m.pdpte.phys + i * 0x1000) as u64, false);
    assert(((k * 0x40000000) as u64) & 0x000FFFFFC0000000 == spec_region_of(gpa));
}

/// The leaf [`SvmNptManager::update_pde`] writes carries exactly the asked
/// permissions: readable as the present flag, writable as the write flag,
/// executable as the inverted no-execute flag, and the host-physical base
/// rounded down to 2 MiB.
pub proof fn lemma_updated_pde_leaf_fields(r: bool, w: bool, x: bool, hpa: u64, prev: u64)
    ensures
        npt_present(spec_updated_pde(r, w, x, true, hpa, prev)) == r,
        npt_write(spec_updated_pde(r, w, x, true, hpa, prev)) == w,
        npt_user(spec_updated_pde(r, w, x, true, hpa, prev)),
        npt_page_size(spec_updated_pde(r, w, x, true, hpa, prev)),
        npt_no_execute(spec_updated_pde(r, w, x, true, hpa, prev)) == !x,
        npt_base_2mb(spec_updated_pde(r, w, x, true, hpa, prev)) == hpa & 0x000FFFFFFFE00000,
        hpa < 0x10000000000000 ==> npt_base_2mb(spec_updated_pde(r, w, x, true, hpa, prev)) == hpa
            & 0xFFFFFFFFFFE00000,
{
    lemma_mask_4kb_disjoint(hpa);
    lemma_npt_entry_fields(r, w, true, true, hpa & 0x000FFFFFFFE00000, !x);
    assert(hpa < 0x10000000000000 ==> hpa & 0x000FFFFFFFE00000 == hpa & 0xFFFFFFFFFFE00000)
        by (bit_vector);
}

/// After a split appends one descriptor, the set of split regions grows by
/// exactly the new region.
pub proof fn lemma_regions_after_push(old_m: SvmNptManager, new_m: SvmNptManager, reg: u64)
    requires
        new_m.pde@.len() == old_m.pde@.len() + 1,
        forall|i: int|
            0 <= i < old_m.pde@.len() ==> (#[trigger] new_m.pde@[i]).gpa_start
                == old_m.pde@[i].gpa_start,
        new_m.pde@[old_m.pde@.len() as int].gpa_start == reg,
    ensures
        new_m.split_regions() == old_m.split_regions().insert(reg),
{
    assert forall|rr: u64|
        new_m.split_regions().contains(rr) == old_m.split_regions().insert(reg).contains(rr) by {
        if new_m.split_regions().contains(rr) {
            let i = choose|i: int|
                0 <= i < new_m.pde@.len() && (#[trigger] new_m.pde@[i]).gpa_start == rr;
            if i < old_m.pde@.len() {
                assert(old_m.pde@[i].gpa_start == rr);
                assert(old_m.split_regions().contains(rr));
            } else {
                assert(rr == reg);
            }
        }
        if old_m.split_regions().contains(rr) {
            let i = choose|i: int|
                0 <= i < old_m.pde@.len() && (#[trigger] old_m.pde@[i]).gpa_start == rr;
            assert(new_m.pde@[i].gpa_start == rr);
            assert(new_m.split_regions().contains(rr));
        }
        if rr == reg {
            assert(new_m.pde@[old_m.pde@.len() as int].gpa_start == rr);
            assert(new_m.split_regions().contains(rr));
        }
    }
    assert(new_m.split_regions() =~= old_m.split_regions().insert(reg));
}

/// When no descriptor is added and no region base changes, the set of split
/// regions stays the same.
pub proof fn lemma_regions_preserved(old_m: SvmNptManager, new_m: SvmNptManager)
    requires
        new_m.pde@.len() == old_m.pde@.len(),
        forall|i: int|
            0 <= i < old_m.pde@.len() ==> (#[trigger] new_m.pde@[i]).gpa_start
                == old_m.pde@[i].gpa_start,
    ensures
        new_m.split_regions() == old_m.split_regions(),
{
    assert forall|rr: u64|
        new_m.split_regions().contains(rr) == old_m.split_regions().contains(rr) by {
        if new_m.split_regions().contains(rr) {
            let i = choose|i: int|
                0 <= i < new_m.pde@.len() && (#[trigger] new_m.pde@[i]).gpa_start == rr;
            assert(old_m.pde@[i].gpa_start == rr);
            assert(old_m.split_regions().contains(rr));
        }
        if old_m.split_regions().contains(rr) {
            let i = choose|i: int|
                0 <= i < old_m.pde@.len() && (#[trigger] old_m.pde@[i]).gpa_start == rr;
            assert(new_m.pde@[i].gpa_start == rr);
            assert(new_m.split_regions().contains(rr));
        }
    }
    assert(new_m.split_regions() =~= old_m.split_regions());
}

/// How many fresh page-directory tables protecting the given range starts
/// will take, over and above the regions already split.
pub open spec fn spec_needed_splits(starts: Seq<u64>, covered: Set<u64>) -> nat
    decreases starts.len(),
{
    if starts.len() == 0 {
        0
    } else {
        let reg = spec_region_of(starts[0]);
        if covered.contains(reg) {
            spec_needed_splits(starts.drop_first(), covered)
        } else {
            1 + spec_needed_splits(starts.drop_first(), covered.insert(reg))
        }
    }
}

/// The 2 MiB leaf that protects a hypervisor-private page: present,
/// read-only, non-executable, mapping the page to itself.
pub open spec fn spec_protected_leaf(start: u64) -> u64 {
    spec_npt_entry(true, false, true, true, start & 0x000FFFFFFFE00000, true)
}

impl SvmNptManager {
    /// Marks every hypervisor-private large page as present, read-only and
    /// non-executable in the guest's view, so a guest with identity-mapped
    /// access cannot later observe or corrupt hypervisor memory.  The ranges
    /// come from the platform's enumeration of previously allocated large
    /// pages; each must be exactly one 2 MiB unit.
    pub fn protect_allocated_pages(&mut self, ranges: &Vec<(u64, u64)>, source: &mut MemorySource)
        requires
            old(self).wf(),
            old(self).tables_built(),
            old(source).wf(),
            forall|i: int| 0 <= i < ranges@.len() ==> (#[trigger] ranges@[i]).1 == 0x200000,
            forall|i: int| 0 <= i < ranges@.len() ==> (#[trigger] ranges@[i]).0 < GPA_LIMIT,
            old(source).pages@.len() >= spec_needed_splits(
                ranges@.map_values(|rg: (u64, u64)| rg.0),
                old(self).split_regions(),
            ),
        ensures
            final(self).wf(),
            final(self).tables_built(),
            final(source).wf(),
            forall|i: int|
                0 <= i < ranges@.len() ==> final(self).covered_by_split(
                    (#[trigger] ranges@[i]).0,
                ) && final(self).pde_slot(ranges@[i].0) == spec_protected_leaf(ranges@[i].0),
    {
        let ghost starts = ranges@.map_values(|rg: (u64, u64)| rg.0);
        proof {
            assert(starts.skip(0) =~= starts);
        }
        let n = ranges.len();
        let mut i: usize = 0;
        while i < n
            invariant
                self.wf(),
                self.tables_built(),
                source.wf(),
                n == ranges@.len(),
                i <= n,
                starts == ranges@.map_values(|rg: (u64, u64)| rg.0),
                forall|j: int| 0 <= j < n ==> (#[trigger] ranges@[j]).1 == 0x200000,
                forall|j: int| 0 <= j < n ==> (#[trigger] ranges@[j]).0 < GPA_LIMIT,
                source.pages@.len() >= spec_needed_splits(
                    starts.skip(i as int),
                    self.split_regions(),
                ),
                forall|j: int|
                    0 <= j < i ==> self.covered_by_split((#[trigger] ranges@[j]).0)
                        && self.pde_slot(ranges@[j].0) == spec_protected_leaf(ranges@[j].0),
            decreases n - i,
        {
            let (start, length) = *(&ranges[i]);
            let _ = length;
            let ghost prev_self = *self;
            let ghost prev_src = *source;
            proof {
                assert(starts.skip(i as int)[0] == start);
                assert(starts.skip(i as int).drop_first() =~= starts.skip(i as int + 1));
                if prev_self.covered_by_split(start) {
                    assert(prev_self.split_regions().contains(spec_region_of(start)));
                } else {
                    assert(!prev_self.split_regions().contains(spec_region_of(start)));
                }
            }
            self.update_pde(start, start, true, false, false, true, source);
            proof {
                if !prev_self.covered_by_split(start) {
                    lemma_regions_after_push(prev_self, *self, spec_region_of(start));
                } else {
                    lemma_regions_preserved(prev_self, *self);
                }
                // Entries already written stay in place: a later update only
                // rewrites one slot, and when two starts share that slot they
                // share its protected value too.
                assert forall|j: int|
                    0 <= j < i implies self.covered_by_split((#[trigger] ranges@[j]).0)
                    && self.pde_slot(ranges@[j].0) == spec_protected_leaf(ranges@[j].0) by {
                    let sj = ranges@[j].0;
                    let rj = spec_region_of(sj);
                    lemma_gpa_region_facts(sj);
                    lemma_gpa_region_facts(start);
                    let oi = prev_self.split_index_of(sj);
                    prev_self.lemma_split_index_unique(sj, oi);
                    assert(self.pde@[oi].gpa_start == rj);
                    self.lemma_split_index_unique(sj, oi);
                    if rj != spec_region_of(start) {
                        assert(self.pde@[oi].entries@ == prev_self.pde@[oi].entries@);
                    } else {
                        self.lemma_covered_same_region(sj, start);
                        prev_self.lemma_covered_same_region(sj, start);
                        assert(prev_self.covered_by_split(start));
                        assert(self.pde@[oi].entries@ == prev_self.pde@[oi].entries@.update(
                            spec_pde_index(start),
                            spec_updated_pde(
                                true,
                                false,
                                false,
                                true,
                                start,
                                prev_self.pde@[oi].entries@[spec_pde_index(start)],
                            ),
                        ));
                        if spec_pde_index(sj) == spec_pde_index(start) {
                            lemma_slot_determines_base(sj, start);
                        }
                    }
                }
            }
            i += 1;
        }
    }

    /// Tearing the nested page tables back down is not part of this design:
    /// teardown ordering and page reclamation are an open question, so this
    /// reports the gap instead of guessing a protocol.
    pub fn cleanup(&mut self) -> (r: u32)
        ensures
            r == crate::status::NOIR_NOT_IMPLEMENTED,
            *final(self) == *old(self),
    {
        crate::status::NOIR_NOT_IMPLEMENTED
    }
}

// Bit positions of the nested-page-fault reason word the hardware reports in
// the first exit-information field.
pub const NPT_FAULT_IS_PRESENT_BIT: u64 = 0x1;
pub const NPT_FAULT_IS_WRITE_BIT: u64 = 0x2;
pub const NPT_FAULT_IS_USER_BIT: u64 = 0x4;
pub const NPT_FAULT_IS_RESERVED_BIT: u64 = 0x8;
pub const NPT_FAULT_IS_CODE_READ_BIT: u64 = 0x10;
pub const NPT_FAULT_IS_SHADOW_STACK_BIT: u64 = 0x40;
pub const NPT_FAULT_IS_TRANSLATE_FINAL_HPA_BIT: u64 = 0x100000000;
pub const NPT_FAULT_IS_TRANSLATE_PAGE_TABLE_BIT: u64 = 0x200000000;
pub const NPT_FAULT_IS_SUPERVISOR_SHADOW_STACK_BIT: u64 = 0x2000000000;

/// The fault-reason bitfield of a nested page fault, read from the exit
/// information; derived and never persisted.
pub struct NptFaultCode(pub u64);

impl NptFaultCode {
    pub fn is_present(&self) -> (r: bool)
        ensures
            r == (self.0 & NPT_FAULT_IS_PRESENT_BIT == NPT_FAULT_IS_PRESENT_BIT),
    {
        (self.0 & NPT_FAULT_IS_PRESENT_BIT) == NPT_FAULT_IS_PRESENT_BIT
    }

    pub fn is_write(&self) -> (r: bool)
        ensures
            r == (self.0 & NPT_FAULT_IS_WRITE_BIT == NPT_FAULT_IS_WRITE_BIT),
    {
        (self.0 & NPT_FAULT_IS_WRITE_BIT) == NPT_FAULT_IS_WRITE_BIT
    }

    pub fn is_user(&self) -> (r: bool)
        ensures
            r == (self.0 & NPT_FAULT_IS_USER_BIT == NPT_FAULT_IS_USER_BIT),
    {
        (self.0 & NPT_FAULT_IS_USER_BIT) == NPT_FAULT_IS_USER_BIT
    }

    pub fn is_reserved(&self) -> (r: bool)
        ensures
            r == (self.0 & NPT_FAULT_IS_RESERVED_BIT == NPT_FAULT_IS_RESERVED_BIT),
    {
        (self.0 & NPT_FAULT_IS_RESERVED_BIT) == NPT_FAULT_IS_RESERVED_BIT
    }

    pub fn is_code_read(&self) -> (r: bool)
        ensures
            r == (self.0 & NPT_FAULT_IS_CODE_READ_BIT == NPT_FAULT_IS_CODE_READ_BIT),
    {
        (self.0 & NPT_FAULT_IS_CODE_READ_BIT) == NPT_FAULT_IS_CODE_READ_BIT
    }

    pub fn is_shadow_stack(&self) -> (r: bool)
        ensures
            r == (self.0 & NPT_FAULT_IS_SHADOW_STACK_BIT == NPT_FAULT_IS_SHADOW_STACK_BIT),
    {
        (self.0 & NPT_FAULT_IS_SHADOW_STACK_BIT) == NPT_FAULT_IS_SHADOW_STACK_BIT
    }

    pub fn is_translate_final_hpa(&self) -> (r: bool)
        ensures
            r == (self.0 & NPT_FAULT_IS_TRANSLATE_FINAL_HPA_BIT
                == NPT_FAULT_IS_TRANSLATE_FINAL_HPA_BIT),
    {
        (self.0 & NPT_FAULT_IS_TRANSLATE_FINAL_HPA_BIT) == NPT_FAULT_IS_TRANSLATE_FINAL_HPA_BIT
    }

    pub fn is_translate_page_table(&self) -> (r: bool)
        ensures
            r == (self.0 & NPT_FAULT_IS_TRANSLATE_PAGE_TABLE_BIT
                == NPT_FAULT_IS_TRANSLATE_PAGE_TABLE_BIT),
    {
        (self.0 & NPT_FAULT_IS_TRANSLATE_PAGE_TABLE_BIT) == NPT_FAULT_IS_TRANSLATE_PAGE_TABLE_BIT
    }

    pub fn is_supervisor_shadow_stack(&self) -> (r: bool)
        ensures
            r == (self.0 & NPT_FAULT_IS_SUPERVISOR_SHADOW_STACK_BIT
                == NPT_FAULT_IS_SUPERVISOR_SHADOW_STACK_BIT),
    {
        (self.0 & NPT_FAULT_IS_SUPERVISOR_SHADOW_STACK_BIT)
            == NPT_FAULT_IS_SUPERVISOR_SHADOW_STACK_BIT
    }
}

} // verus!
