//! Register accesses as data.
//!
//! The drivers in this crate never touch memory-mapped registers
//! themselves: every routine that programs a hardware block returns the
//! ordered list of accesses it needs, as [`RegOp`] values with offsets
//! relative to the block's base address. The platform glue performs them
//! with volatile loads and stores, in order.
//!
//! For reasoning, a register block is modelled as a function from offset to
//! the value last stored there ([`apply_op`], [`apply_ops`]); reads and
//! polls leave the model unchanged.

use vstd::prelude::*;

verus! {

/// One access to a 32-bit memory-mapped register.
#[derive(Clone, Copy, Debug, PartialEq, Eq, Structural)]
pub enum RegOp<A = usize> {
    /// Store `value`.
    Write { reg: A, value: u32 },
    /// Read the register, clear the bits of `clear`, set the bits of `set`,
    /// and store the result.
    Modify { reg: A, clear: u32, set: u32 },
    /// Read the register and drop the value (used as a short delay).
    Read { reg: A },
    /// Read the register until the bits of `mask` are all clear.
    WaitClear { reg: A, mask: u32 },
}

/// An access at a full 64-bit virtual address.
pub type MmioOp = RegOp<u64>;

/// The value a read-modify-write stores, given the value it read.
pub open spec fn modified(old: u32, clear: u32, set: u32) -> u32 {
    (old & !clear) | set
}

/// A register block as the value last stored at each offset.
pub open spec fn apply_op<A>(regs: spec_fn(A) -> u32, op: RegOp<A>) -> spec_fn(A) -> u32 {
    match op {
        RegOp::Write { reg, value } => |r: A| if r == reg { value } else { regs(r) },
        RegOp::Modify { reg, clear, set } => |r: A|
            if r == reg {
                modified(regs(reg), clear, set)
            } else {
                regs(r)
            },
        RegOp::Read { .. } => regs,
        RegOp::WaitClear { .. } => regs,
    }
}

/// The register block after a sequence of accesses, in order.
pub open spec fn apply_ops<A>(regs: spec_fn(A) -> u32, ops: Seq<RegOp<A>>) -> spec_fn(A) -> u32
    decreases ops.len(),
{
    if ops.len() == 0 {
        regs
    } else {
        apply_ops(apply_op(regs, ops[0]), ops.drop_first())
    }
}

} // verus!
