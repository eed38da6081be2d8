//! Boot-time page table for the Raspberry Pi Zero 2W.
//!
//! The GPU firmware loads the kernel to physical `0x0008_0000` and starts
//! the ARM cores at EL2. Before enabling the MMU the primary core installs
//! a flat early page table: one L2 table of 2 MB block descriptors covering
//! the first 1 GB, where `[0, PERIPHERAL_BASE)` is normal memory (MAIR attr
//! 1, executable) and `[PERIPHERAL_BASE, 1 GB)` is device memory (MAIR attr
//! 0, non-executable). Because `0xffff_0000_0000_0000` has zeroes in
//! VA[47:30], the low identity mapping and the high linear mapping reach the
//! same L0/L1 entries, so one set of tables serves both.
//!
//! This module computes the table contents; the boot assembly places them
//! in the page-aligned tables and enables the MMU.

use vstd::prelude::*;
use super::config::{MAX_CPU_NUM, PERIPHERAL_BASE, PERIPHERAL_SIZE, PHYS_VIRT_OFFSET};

verus! {

/// Size of an L2 block mapping.
pub const BLOCK_SIZE: usize = 0x20_0000;

/// Entries in one translation table.
pub const TABLE_ENTRIES: usize = 512;

/// Physical address of the reserved CPU-local runtime area.
pub const CPU_LOCAL_RESERVE_PADDR: usize = 0x0100_0000;
/// Size of the reserved CPU-local runtime area (per-CPU stride * CPU count).
pub const CPU_LOCAL_RESERVE_SIZE: usize = 0x1_0000 * MAX_CPU_NUM;

/// Output address bits `[47:12]` of a descriptor.
pub const DESC_ADDR_MASK: u64 = 0x000f_ffff_f000;

/// The block descriptor for `paddr` with MAIR index `attr_index`: the
/// address bits, the two low type bits, the attribute index at bit 2, the
/// shareability/access bits 8-10, and UXN (bit 54) unless `executable`.
pub open spec fn spec_block_descriptor(paddr: usize, attr_index: u64, executable: bool) -> u64 {
    let desc = ((paddr as u64) & DESC_ADDR_MASK) | 0b11u64;
    let desc = desc | (attr_index << 2u64);
    let desc = desc | (0b11u64 << 8u64);
    let desc = desc | (0b11u64 << 9u64);
    let desc = desc | (1u64 << 10u64);
    if !executable {
        desc | (1u64 << 54u64)
    } else {
        desc
    }
}

/// Builds a 2 MB block descriptor.
pub fn block_descriptor(paddr: usize, attr_index: u64, executable: bool) -> (desc: u64)
    ensures
        desc == spec_block_descriptor(paddr, attr_index, executable),
{
    let mut desc: u64 = ((paddr as u64) & DESC_ADDR_MASK) | 0b11;  // valid + block
    desc = desc | (attr_index << 2u64);
    desc = desc | (0b11u64 << 8u64);
    desc = desc | (0b11u64 << 9u64);
    desc = desc | (1u64 << 10u64);  // AF
    if !executable {
        desc = desc | (1u64 << 54u64);  // UXN
    }
    desc
}

/// The table descriptor pointing at the next-level table at `next_paddr`.
pub open spec fn spec_table_descriptor(next_paddr: usize) -> u64 {
    ((next_paddr as u64) & DESC_ADDR_MASK) | 0b11u64
}

/// Builds a table descriptor (valid + table).
pub fn table_descriptor(next_paddr: usize) -> (desc: u64)
    ensures
        desc == spec_table_descriptor(next_paddr),
{
    ((next_paddr as u64) & DESC_ADDR_MASK) | 0b11
}

/// L2 entry `i` of the early table: the 2 MB block at physical `i * 2 MB`,
/// normal executable memory below the peripheral window, device memory
/// (never executable) from it on.
pub open spec fn boot_l2_entry(i: int) -> u64 {
    let pa = (i * BLOCK_SIZE) as usize;
    if pa < PERIPHERAL_BASE {
        spec_block_descriptor(pa, 1, true)
    } else {
        spec_block_descriptor(pa, 0, false)
    }
}

/// Fills the flat early page table in place, given the physical addresses
/// of the L1 and L2 tables: every L2 entry maps its own 2 MB of the first
/// 1 GB, L1[0] points at L2 and L0[0] at L1; no other entry is touched.
pub fn init_boot_page_table(
    l0: &mut [u64],
    l1: &mut [u64],
    l2: &mut [u64],
    l1_paddr: usize,
    l2_paddr: usize,
)
    requires
        old(l0)@.len() >= 1,
        old(l1)@.len() >= 1,
        old(l2)@.len() >= TABLE_ENTRIES,
    ensures
        final(l0)@ == old(l0)@.update(0, spec_table_descriptor(l1_paddr)),
        final(l1)@ == old(l1)@.update(0, spec_table_descriptor(l2_paddr)),
        final(l2)@.len() == old(l2)@.len(),
        forall|i: int| 0 <= i < TABLE_ENTRIES ==> final(l2)@[i] == boot_l2_entry(i),
        forall|i: int| TABLE_ENTRIES <= i < old(l2)@.len() ==> final(l2)@[i] == old(l2)@[i],
{
    let ghost o2 = l2@;
    let normal_blocks = PERIPHERAL_BASE / BLOCK_SIZE;
    let peripheral_blocks = PERIPHERAL_SIZE / BLOCK_SIZE;
    let mut i: usize = 0;
    while i < normal_blocks
        invariant
            normal_blocks == 504,
            i <= normal_blocks,
            l2@.len() == o2.len(),
            o2.len() >= TABLE_ENTRIES,
            forall|j: int| 0 <= j < i ==> l2@[j] == boot_l2_entry(j),
            forall|j: int| TABLE_ENTRIES <= j < o2.len() ==> l2@[j] == o2[j],
        decreases normal_blocks - i,
    {
        l2[i] = block_descriptor(i * BLOCK_SIZE, 1, true);
        i = i + 1;
    }
    let mut k: usize = 0;
    while k < peripheral_blocks
        invariant
            normal_blocks == 504,
            peripheral_blocks == 8,
            k <= peripheral_blocks,
            l2@.len() == o2.len(),
            o2.len() >= TABLE_ENTRIES,
            forall|j: int| 0 <= j < normal_blocks + k ==> l2@[j] == boot_l2_entry(j),
            forall|j: int| TABLE_ENTRIES <= j < o2.len() ==> l2@[j] == o2[j],
        decreases peripheral_blocks - k,
    {
        assert(PERIPHERAL_BASE + k * BLOCK_SIZE == (normal_blocks + k) * BLOCK_SIZE);
        l2[normal_blocks + k] = block_descriptor(PERIPHERAL_BASE + k * BLOCK_SIZE, 0, false);
        k = k + 1;
    }
    l1[0] = table_descriptor(l2_paddr);
    l0[0] = table_descriptor(l1_paddr);
}

/// Index into the L0 table of a virtual address (4 KB granule).
pub open spec fn l0_index(va: u64) -> u64 {
    (va >> 39u64) & 0x1ff
}

/// Index into the L1 table.
pub open spec fn l1_index(va: u64) -> u64 {
    (va >> 30u64) & 0x1ff
}

/// Index into the L2 table.
pub open spec fn l2_index(va: u64) -> u64 {
    (va >> 21u64) & 0x1ff
}

/// The early mapping is the identity on the first 1 GB, and the linear
/// mapping at `PHYS_VIRT_OFFSET` goes through the same entries: for a
/// physical address `pa` below 1 GB, both `pa` and `PHYS_VIRT_OFFSET + pa`
/// select L0[0], L1[0] and the same L2 entry, whose block starts at `pa`
/// rounded down to 2 MB; that block is normal executable memory exactly
/// when `pa` lies below the peripheral window.
pub proof fn lemma_boot_mapping(pa: u64)
    requires
        pa < 0x4000_0000,
    ensures
        l0_index(pa) == 0,
        l1_index(pa) == 0,
        l0_index((PHYS_VIRT_OFFSET + pa) as u64) == 0,
        l1_index((PHYS_VIRT_OFFSET + pa) as u64) == 0,
        l2_index((PHYS_VIRT_OFFSET + pa) as u64) == l2_index(pa),
        boot_l2_entry(l2_index(pa) as int) & DESC_ADDR_MASK == pa & !0x1f_ffffu64,
        (boot_l2_entry(l2_index(pa) as int) >> 2u64) & 0x7 == (if pa < PERIPHERAL_BASE {
            1u64
        } else {
            0u64
        }),
        (boot_l2_entry(l2_index(pa) as int) >> 54u64) & 1 == (if pa < PERIPHERAL_BASE {
            0u64
        } else {
            1u64
        }),
{
    assert(l0_index(pa) == 0 && l1_index(pa) == 0) by (bit_vector)
        requires
            pa < 0x4000_0000,
    ;
    assert(((0xffff_0000_0000_0000u64 + pa) as u64 >> 39u64) & 0x1ff == 0
        && ((0xffff_0000_0000_0000u64 + pa) as u64 >> 30u64) & 0x1ff == 0
        && ((0xffff_0000_0000_0000u64 + pa) as u64 >> 21u64) & 0x1ff == (pa >> 21u64) & 0x1ff)
        by (bit_vector)
        requires
            pa < 0x4000_0000,
    ;
    let i = l2_index(pa);
    assert(i == pa >> 21u64 && i < 512) by (bit_vector)
        requires
            pa < 0x4000_0000,
            i == (pa >> 21u64) & 0x1ff,
    ;
    let blk = (i * 0x20_0000) as u64;
    assert(blk == pa & !0x1f_ffffu64 && blk < 0x4000_0000 && blk & DESC_ADDR_MASK == blk)
        by (bit_vector)
        requires
            pa < 0x4000_0000,
            i == pa >> 21u64,
            blk == i * 0x20_0000,
    ;
    assert((blk < 0x3f00_0000) == (pa < 0x3f00_0000)) by (bit_vector)
        requires
            pa < 0x4000_0000,
            blk == pa & !0x1f_ffffu64,
    ;
    let d1 = spec_block_descriptor(blk as usize, 1, true);
    let d0 = spec_block_descriptor(blk as usize, 0, false);
    assert(d1 & DESC_ADDR_MASK == blk && (d1 >> 2u64) & 0x7 == 1 && (d1 >> 54u64) & 1 == 0)
        by (bit_vector)
        requires
            blk & DESC_ADDR_MASK == blk,
            blk < 0x4000_0000,
            d1 == ((((((blk & DESC_ADDR_MASK) | 0b11u64) | (1u64 << 2u64)) | (0b11u64 << 8u64)) | (
            0b11u64 << 9u64)) | (1u64 << 10u64)),
    ;
    assert(d0 & DESC_ADDR_MASK == blk && (d0 >> 2u64) & 0x7 == 0 && (d0 >> 54u64) & 1 == 1)
        by (bit_vector)
        requires
            blk & DESC_ADDR_MASK == blk,
            blk < 0x4000_0000,
            d0 == (((((((blk & DESC_ADDR_MASK) | 0b11u64) | (0u64 << 2u64)) | (0b11u64 << 8u64)) | (
            0b11u64 << 9u64)) | (1u64 << 10u64)) | (1u64 << 54u64)),
    ;
}

/// Physical address of the secondary-core entry point, from its linked
/// (linear-mapping) virtual address.
pub fn secondary_entry_paddr(entry_vaddr: u64) -> (paddr: u64)
    requires
        entry_vaddr >= PHYS_VIRT_OFFSET,
    ensures
        paddr == entry_vaddr - PHYS_VIRT_OFFSET,
{
    entry_vaddr - PHYS_VIRT_OFFSET
}

} // verus!
