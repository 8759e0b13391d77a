use noirvisor::bdk::{MemoryDescriptor, MemorySource};
use noirvisor::npt::{
    NptFaultCode, NptPde, NptPdpte, NptPml4e, NptPte, SvmNptManager, GPA_LIMIT,
    NPT_ENTRY_NO_EXECUTE_BIT, NPT_ENTRY_PAGE_SIZE_BIT, NPT_ENTRY_PRESENT_BIT, NPT_ENTRY_WRITE_BIT,
};

fn source_with(n: usize) -> MemorySource {
    let mut source = MemorySource::new();
    for i in 0..n {
        let virt = 0x1000_0000 + (i as u64) * 0x1000;
        let phys = 0x2000_0000 + (i as u64) * 0x1000;
        source.stage(MemoryDescriptor::new(virt, phys));
    }
    source
}

#[test]
fn entry_constructors_lay_out_bits() {
    let e = NptPml4e::new(true, true, true, 0x123456789000, false);
    assert_eq!(e.0, 0x7 | 0x123456789000);
    assert_eq!(e.get_next_level_base(), 0x123456789000);
    let e = NptPdpte::new(true, false, true, 0xABC000, true);
    assert_eq!(e.0, 0x5 | 0xABC000 | (1 << 63));
    let e = NptPde::new_large(true, true, true, 0x40311111, false);
    assert_eq!(e.0, 0x7 | 0x80 | 0x40200000);
    assert_eq!(e.get_next_level_base(), 0x40200000);
    let e = NptPte::new(true, true, false, 0x7777000, false);
    assert_eq!(e.0, 0x3 | 0x7777000);
    let mut e = NptPde::new(true, true, true, 0x9000, false);
    assert!(!e.get_page_size());
    e.set_page_size(true);
    assert!(e.get_page_size());
    e.set_no_execute(true);
    assert!(e.get_no_execute());
    e.set_present(false);
    assert!(!e.get_present());
}

#[test]
fn identity_map_covers_the_range_with_huge_leaves() {
    let mut m = SvmNptManager::default();
    let mut source = source_with(2);
    m.build_identity_map(&mut source);
    assert_eq!(m.pml4e_entries.len(), 512);
    assert_eq!(m.pdpte_entries.len(), 512 * 512);
    // Every directory-pointer entry is a present, writable, user 1 GiB leaf
    // mapping its region to itself.
    assert_eq!(m.pdpte_entries[0], 0x87);
    assert_eq!(m.pdpte_entries[1], 0x87 | (1u64 << 30));
    assert_eq!(m.pdpte_entries[511], 0x87 | (511u64 << 30));
    assert_eq!(m.pdpte_entries[512 * 512 - 1], 0x87 | (((512 * 512 - 1) as u64) << 30));
    // Every top-level entry points at the matching page of the block.
    assert_eq!(m.pml4e_entries[0], 0x7 | m.pdpte.phys);
    assert_eq!(m.pml4e_entries[511], 0x7 | (m.pdpte.phys + 511 * 0x1000));
    // Walking a sample address yields a present leaf with its region base.
    let gpa: u64 = 0x1234_5678_9ABC;
    let l4 = m.pml4e_entries[(gpa >> 39) as usize];
    assert!(l4 & NPT_ENTRY_PRESENT_BIT != 0);
    assert_eq!(l4 & 0x000FFFFFFFFFF000, m.pdpte.phys + (gpa >> 39) * 0x1000);
    let l3 = m.pdpte_entries[(gpa >> 30) as usize];
    assert!(l3 & NPT_ENTRY_PRESENT_BIT != 0);
    assert!(l3 & NPT_ENTRY_PAGE_SIZE_BIT != 0);
    assert_eq!(l3 & 0x000FFFFFC0000000, gpa & !0x3FFFFFFF);
}

#[test]
fn split_replicates_the_parent_leaf() {
    let mut m = SvmNptManager::default();
    let mut source = source_with(3);
    m.build_identity_map(&mut source);
    let gpa: u64 = 0x4000_0000 + 0x1234;
    m.split_pdpte(gpa, &mut source);
    assert_eq!(m.pde.len(), 1);
    assert_eq!(m.pde[0].gpa_start, 0x4000_0000);
    assert_eq!(m.pde[0].entries.len(), 512);
    // Each 2 MiB leaf keeps the identity leaf's permissions over its
    // sub-range.
    assert_eq!(m.pde[0].entries[0], 0x7 | 0x80 | 0x4000_0000);
    assert_eq!(m.pde[0].entries[511], 0x7 | 0x80 | (0x4000_0000 + 511 * 0x200000));
    // The parent entry now points at the table instead of being a leaf.
    let parent = m.pdpte_entries[1];
    assert_eq!(parent & NPT_ENTRY_PAGE_SIZE_BIT, 0);
    assert_eq!(parent & 0x000FFFFFFFFFF000, m.pde[0].table.phys);
    assert_eq!(parent & 0x7, 0x7);
}

#[test]
fn update_pde_splits_once_and_rewrites_the_slot() {
    let mut m = SvmNptManager::default();
    let mut source = source_with(3);
    m.build_identity_map(&mut source);
    let gpa: u64 = 0x4000_0000;
    m.split_pdpte(gpa, &mut source);
    assert_eq!(m.pde.len(), 1);
    // Two updates inside the already split region allocate no second table.
    m.update_pde(gpa + 0x200000, 0x7700_0000, true, false, false, true, &mut source);
    assert_eq!(m.pde.len(), 1);
    m.update_pde(gpa + 0x400000, 0x7720_0000, true, true, true, true, &mut source);
    assert_eq!(m.pde.len(), 1);
    assert_eq!(source.pages.len(), 0);
}

#[test]
fn update_pde_splits_on_first_demand() {
    let mut m = SvmNptManager::default();
    let mut source = source_with(4);
    m.build_identity_map(&mut source);
    m.update_pde(0x8000_1234, 0x8000_1234, true, false, false, true, &mut source);
    assert_eq!(m.pde.len(), 1);
    assert_eq!(m.pde[0].gpa_start, 0x8000_0000);
    m.update_pde(0xC000_0000, 0xC000_0000, true, true, false, true, &mut source);
    assert_eq!(m.pde.len(), 2);
}

#[test]
fn update_pde_writes_the_asked_permissions() {
    let mut m = SvmNptManager::default();
    let mut source = source_with(3);
    m.build_identity_map(&mut source);
    let gpa: u64 = 0x4030_0000;
    let hpa: u64 = 0x7731_1111;
    m.update_pde(gpa, hpa, true, false, false, true, &mut source);
    let slot = ((gpa >> 21) & 0x1FF) as usize;
    let e = m.pde[0].entries[slot];
    assert!(e & NPT_ENTRY_PRESENT_BIT != 0);
    assert_eq!(e & NPT_ENTRY_WRITE_BIT, 0);
    assert!(e & NPT_ENTRY_NO_EXECUTE_BIT != 0);
    assert!(e & NPT_ENTRY_PAGE_SIZE_BIT != 0);
    // The mapped base is the host-physical address rounded down to 2 MiB.
    assert_eq!(e & 0x000FFFFFFFE00000, hpa & !0x1FFFFF);
    // The other slots of the region keep their split values.
    assert_eq!(m.pde[0].entries[0], 0x7 | 0x80 | 0x4000_0000);
}

#[test]
fn update_pde_table_form_keeps_the_base() {
    let mut m = SvmNptManager::default();
    let mut source = source_with(3);
    m.build_identity_map(&mut source);
    let gpa: u64 = 0x4000_0000;
    m.update_pde(gpa, 0, true, true, false, false, &mut source);
    let e = m.pde[0].entries[0];
    assert_eq!(e & NPT_ENTRY_PAGE_SIZE_BIT, 0);
    // The previous entry was a 2 MiB leaf of the split: its page base is
    // kept as the next-level base.
    assert_eq!(e & 0x000FFFFFFFFFF000, 0x4000_0000);
    assert!(e & NPT_ENTRY_NO_EXECUTE_BIT != 0);
}

#[test]
fn protect_allocated_pages_write_protects_each_range() {
    let mut m = SvmNptManager::default();
    let mut source = source_with(4);
    m.build_identity_map(&mut source);
    let ranges: Vec<(u64, u64)> =
        vec![(0x4020_0000, 0x200000), (0x4040_0000, 0x200000), (0x8000_0000, 0x200000)];
    m.protect_allocated_pages(&ranges, &mut source);
    // Two distinct regions were split.
    assert_eq!(m.pde.len(), 2);
    for (start, _) in ranges {
        let region = if start < 0x8000_0000 { 0 } else { 1 };
        let e = m.pde[region].entries[((start >> 21) & 0x1FF) as usize];
        assert!(e & NPT_ENTRY_PRESENT_BIT != 0);
        assert_eq!(e & NPT_ENTRY_WRITE_BIT, 0);
        assert!(e & NPT_ENTRY_NO_EXECUTE_BIT != 0);
        assert_eq!(e & 0x000FFFFFFFE00000, start);
    }
}

#[test]
fn gpa_limit_spans_the_four_level_structure() {
    assert_eq!(GPA_LIMIT, 1u64 << 48);
}

#[test]
fn fault_code_bits_decode() {
    let f = NptFaultCode(0x1 | 0x2 | 0x10);
    assert!(f.is_present());
    assert!(f.is_write());
    assert!(!f.is_user());
    assert!(f.is_code_read());
    assert!(!f.is_reserved());
    assert!(!f.is_shadow_stack());
    let f = NptFaultCode(0x100000000);
    assert!(f.is_translate_final_hpa());
    assert!(!f.is_translate_page_table());
    let f = NptFaultCode(0x2000000000);
    assert!(f.is_supervisor_shadow_stack());
}

#[test]
fn update_in_the_last_region() {
    let mut m = SvmNptManager::default();
    let mut source = source_with(3);
    m.build_identity_map(&mut source);
    let gpa: u64 = GPA_LIMIT - 0x1000;
    m.update_pde(gpa, gpa, true, false, false, true, &mut source);
    assert_eq!(m.pde.len(), 1);
    assert_eq!(m.pde[0].gpa_start, GPA_LIMIT - 0x4000_0000);
    let e = m.pde[0].entries[511];
    assert!(e & NPT_ENTRY_PRESENT_BIT != 0);
    assert_eq!(e & 0x000FFFFFFFE00000, gpa & !0x1FFFFF);
}

#[test]
fn protect_with_no_ranges_changes_nothing() {
    let mut m = SvmNptManager::default();
    let mut source = source_with(2);
    m.build_identity_map(&mut source);
    let ranges: Vec<(u64, u64)> = Vec::new();
    m.protect_allocated_pages(&ranges, &mut source);
    assert_eq!(m.pde.len(), 0);
    assert_eq!(m.pdpte_entries[0], 0x87);
}
