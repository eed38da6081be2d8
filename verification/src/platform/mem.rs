//! Physical memory layout of the Raspberry Pi Zero 2W.
//!
//! 512 MB RAM at physical `0x0`; the GPU firmware loads the kernel at
//! `0x0008_0000`. A page-aligned region at `0x0100_0000` is reserved for the
//! CPU-local runtime areas (see [`super::boot::CPU_LOCAL_RESERVE_PADDR`]).
//! The kernel reaches physical memory through the linear mapping at
//! `PHYS_VIRT_OFFSET`.

use vstd::prelude::*;
use super::boot::{CPU_LOCAL_RESERVE_PADDR, CPU_LOCAL_RESERVE_SIZE};
use super::config::{
    KERNEL_ASPACE_BASE, KERNEL_ASPACE_SIZE, KERNEL_BASE_PADDR, PERIPHERAL_BASE, PERIPHERAL_SIZE,
    PHYS_MEMORY_BASE, PHYS_MEMORY_SIZE, PHYS_VIRT_OFFSET,
};

verus! {

/// A physical range: start and size.
pub type RawRange = (usize, usize);

/// Physical RAM ranges.
pub fn phys_ram_ranges() -> (r: [RawRange; 1])
    ensures
        r@ == seq![(PHYS_MEMORY_BASE, PHYS_MEMORY_SIZE)],
{
    let r = [(PHYS_MEMORY_BASE, PHYS_MEMORY_SIZE)];
    assert(r@ =~= seq![(PHYS_MEMORY_BASE, PHYS_MEMORY_SIZE)]);
    r
}

/// RAM ranges kept from allocation: the CPU-local runtime areas.
pub fn reserved_phys_ram_ranges() -> (r: [RawRange; 1])
    ensures
        r@ == seq![(CPU_LOCAL_RESERVE_PADDR, CPU_LOCAL_RESERVE_SIZE)],
{
    let r = [(CPU_LOCAL_RESERVE_PADDR, CPU_LOCAL_RESERVE_SIZE)];
    assert(r@ =~= seq![(CPU_LOCAL_RESERVE_PADDR, CPU_LOCAL_RESERVE_SIZE)]);
    r
}

/// MMIO ranges: the peripheral window.
pub fn mmio_ranges() -> (r: [RawRange; 1])
    ensures
        r@ == seq![(PERIPHERAL_BASE, PERIPHERAL_SIZE)],
{
    let r = [(PERIPHERAL_BASE, PERIPHERAL_SIZE)];
    assert(r@ =~= seq![(PERIPHERAL_BASE, PERIPHERAL_SIZE)]);
    r
}

/// The reserved area lies inside RAM, the kernel image starts inside RAM
/// below the reserved area, and the peripheral window does not overlap RAM.
pub proof fn lemma_layout()
    ensures
        PHYS_MEMORY_BASE <= CPU_LOCAL_RESERVE_PADDR,
        CPU_LOCAL_RESERVE_PADDR + CPU_LOCAL_RESERVE_SIZE <= PHYS_MEMORY_BASE + PHYS_MEMORY_SIZE,
        PHYS_MEMORY_BASE <= KERNEL_BASE_PADDR < CPU_LOCAL_RESERVE_PADDR,
        PHYS_MEMORY_BASE + PHYS_MEMORY_SIZE <= PERIPHERAL_BASE,
        CPU_LOCAL_RESERVE_PADDR % 4096 == 0,
{
}

/// Virtual address of physical address `paddr` in the linear mapping.
pub fn phys_to_virt(paddr: usize) -> (vaddr: u64)
    requires
        paddr + PHYS_VIRT_OFFSET <= u64::MAX,
    ensures
        vaddr == paddr + PHYS_VIRT_OFFSET,
{
    (paddr as u64) + PHYS_VIRT_OFFSET
}

/// Physical address of a linear-mapping virtual address.
pub fn virt_to_phys(vaddr: u64) -> (paddr: usize)
    requires
        vaddr >= PHYS_VIRT_OFFSET,
        vaddr - PHYS_VIRT_OFFSET <= usize::MAX,
    ensures
        paddr == vaddr - PHYS_VIRT_OFFSET,
{
    (vaddr - PHYS_VIRT_OFFSET) as usize
}

/// Translating to the linear mapping and back gives the original address,
/// in both directions.
pub proof fn lemma_linear_mapping_roundtrip(paddr: usize, vaddr: u64)
    ensures
        paddr + PHYS_VIRT_OFFSET <= u64::MAX ==> ((paddr + PHYS_VIRT_OFFSET) as u64) - PHYS_VIRT_OFFSET
            == paddr,
        vaddr >= PHYS_VIRT_OFFSET ==> (vaddr - PHYS_VIRT_OFFSET) + PHYS_VIRT_OFFSET == vaddr,
{
}

/// The kernel address space: base and size.
pub fn kernel_aspace() -> (r: (u64, u64))
    ensures
        r == (KERNEL_ASPACE_BASE, KERNEL_ASPACE_SIZE),
{
    (KERNEL_ASPACE_BASE, KERNEL_ASPACE_SIZE)
}

/// Data cache maintenance operations.
#[derive(Clone, Copy, Debug, PartialEq, Eq, Structural)]
pub enum DCacheOp {
    Clean,
    Invalidate,
    CleanInvalidate,
}

/// Whether a maintenance request cleans the range to the point of
/// unification. The platform is non-coherent for DMA: cleaning is needed
/// before a device owns a buffer; invalidation is a no-op, as the GPU never
/// writes kernel buffers the CPU reads back in this design.
pub fn dcache_range_cleans(op: DCacheOp) -> (clean: bool)
    ensures
        clean == (op != DCacheOp::Invalidate),
{
    match op {
        DCacheOp::Clean | DCacheOp::CleanInvalidate => true,
        DCacheOp::Invalidate => false,
    }
}

} // verus!
