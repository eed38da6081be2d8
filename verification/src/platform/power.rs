//! Power control for the BCM2837.
//!
//! The BCM2835/6/7 power management block (`0x3f10_0000`) accepts writes
//! only when the top byte carries the 0x5a password. The SoC has no true
//! power down; switching the system off falls back to a watchdog reboot,
//! the conventional bare-metal behaviour on these boards.

use vstd::prelude::*;
use crate::regops::{MmioOp, RegOp};
use super::config::{
    LOCAL_INTC_PADDR, LOCAL_MAILBOX0_SET0, MAX_CPU_NUM, PHYS_VIRT_OFFSET, PM_PADDR, PM_PASSWORD,
    PM_RSTC, PM_RSTC_WRCFG_FULL_RESET, PM_WDOG,
};

verus! {

/// The bits of `PM_RSTC` a reset request replaces: the password byte and
/// the low byte (which holds the reset configuration field, bits 5:4).
pub const PM_RSTC_REPLACED: u32 = 0xff00_00ff;

/// Virtual address of a power management register.
pub open spec fn spec_pm_addr(offset: usize) -> int {
    PM_PADDR + PHYS_VIRT_OFFSET + offset
}

/// Virtual address of a power management register.
pub fn pm_addr(offset: usize) -> (addr: u64)
    requires
        spec_pm_addr(offset) <= u64::MAX,
    ensures
        addr == spec_pm_addr(offset),
{
    (PM_PADDR as u64) + PHYS_VIRT_OFFSET + (offset as u64)
}

/// The accesses that reboot through the watchdog: arm it with a short
/// timeout (password + 1 tick), then request a full reset: `PM_RSTC` gets
/// the password in its top byte and the full-reset configuration as its
/// low byte, its bits 8-23 kept.
pub open spec fn watchdog_reset_ops() -> Seq<MmioOp> {
    seq![
        RegOp::Write { reg: spec_pm_addr(PM_WDOG) as u64, value: PM_PASSWORD | 1 },
        RegOp::Modify {
            reg: spec_pm_addr(PM_RSTC) as u64,
            clear: PM_RSTC_REPLACED,
            set: PM_PASSWORD | PM_RSTC_WRCFG_FULL_RESET,
        },
    ]
}

/// Issues a watchdog reboot (see [`watchdog_reset_ops`]). Switching the
/// system off is this followed by halting the CPU.
pub fn watchdog_reset() -> (ops: Vec<MmioOp>)
    ensures
        ops@ == watchdog_reset_ops(),
{
    let ops = vec![
        RegOp::Write { reg: pm_addr(PM_WDOG), value: PM_PASSWORD | 1 },
        RegOp::Modify {
            reg: pm_addr(PM_RSTC),
            clear: PM_RSTC_REPLACED,
            set: PM_PASSWORD | PM_RSTC_WRCFG_FULL_RESET,
        },
    ];
    assert(ops@ =~= watchdog_reset_ops());
    ops
}

/// Every write the reboot makes carries the 0x5a password in its top byte,
/// which the block requires; the reset request's low byte selects a full
/// reset (configuration field 0b10, nothing else) and it keeps bits 8-23
/// of `PM_RSTC` read as `old`.
pub proof fn lemma_reset_request(old: u32)
    ensures
        ({
            let v = crate::regops::modified(old, PM_RSTC_REPLACED, PM_PASSWORD | PM_RSTC_WRCFG_FULL_RESET);
            &&& v >> 24u32 == 0x5a
            &&& v & 0xff == PM_RSTC_WRCFG_FULL_RESET
            &&& (v >> 4u32) & 0b11 == 0b10
            &&& v & 0x00ff_ff00 == old & 0x00ff_ff00
        }),
        (PM_PASSWORD | 1) >> 24u32 == 0x5a,
{
    assert({
        let v = (old & !0xff00_00ffu32) | (0x5a00_0000u32 | 0x20u32);
        &&& v >> 24u32 == 0x5a
        &&& v & 0xff == 0x20
        &&& (v >> 4u32) & 0b11 == 0b10
        &&& v & 0x00ff_ff00u32 == old & 0x00ff_ff00u32
    }) by (bit_vector);
    assert((0x5a00_0000u32 | 1u32) >> 24u32 == 0x5a) by (bit_vector);
}

/// Releases secondary CPU `cpu_id` from its boot loop by writing the entry
/// point's physical address to the core's first local mailbox. (The
/// core's stack top is stored in its boot parameters before this.)
pub fn cpu_boot_shared(cpu_id: usize, entry_paddr: u64) -> (op: MmioOp)
    requires
        cpu_id < MAX_CPU_NUM,
    ensures
        op == (RegOp::Write {
            reg: (LOCAL_INTC_PADDR + PHYS_VIRT_OFFSET + LOCAL_MAILBOX0_SET0 + 16 * cpu_id) as u64,
            value: entry_paddr as u32,
        }),
{
    RegOp::Write {
        reg: (LOCAL_INTC_PADDR as u64) + PHYS_VIRT_OFFSET + (LOCAL_MAILBOX0_SET0 as u64) + 16 * (
        cpu_id as u64),
        value: entry_paddr as u32,
    }
}

} // verus!
