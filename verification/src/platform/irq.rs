//! BCM2836 CPU-local interrupt controller + BCM2835-style ARM control
//! interrupt controller.
//!
//! The Zero 2W (BCM2837 die) has two chained controllers:
//!
//! * `local` (`0x3f00_b000`): per-CPU interrupts — the ARM generic timer
//!   (CNTPNSIRQ = local IRQ 1), the GPU interrupt (local IRQ 8, which chains
//!   the banked controller below), and the PMU (local IRQ 9). Each CPU has
//!   its own pending/enable register set.
//! * `armctrl` (`0x3f00_b200`): three banks of 32 GPU/peripheral interrupts.
//!   Bank 0 holds 8 "basic" bits plus bank-overflow bits 8/9 and shortcut
//!   alias bits 10-20 (bank 1 bits 7/9/10/18/19 and bank 2 bits
//!   21/22/23/24/25/30).
//!
//! Peripheral IRQs are numbered by their armctrl position (bank * 32 + bit,
//! 0..96); the per-CPU timer lives in the CPU-local domain. Register
//! accesses are at full virtual addresses (linear mapping).

use vstd::prelude::*;
use crate::regops::{MmioOp, RegOp};
use super::config::{
    ARMCTRL_IC_PADDR, ARMC_BANK0_DISABLE, ARMC_BANK0_ENABLE, ARMC_BANK1_DISABLE, ARMC_BANK1_ENABLE,
    ARMC_BANK2_DISABLE, ARMC_BANK2_ENABLE, BANK0_VALID_MASK, LOCAL_CONTROL, LOCAL_INTC_PADDR,
    LOCAL_IRQ_CNTPNSIRQ, LOCAL_IRQ_GPU_FAST, LOCAL_MAILBOX0_SET0, LOCAL_TIMER_INT_CONTROL0,
    PHYS_VIRT_OFFSET, SHORTCUT_BANK1_BITS, SHORTCUT_BANK2_BITS, SHORTCUT_MASK1, SHORTCUT_MASK2,
};

verus! {

/// Number of peripheral (armctrl) IRQs.
pub const PERIPHERAL_IRQ_COUNT: usize = 96;

/// Sentinel IRQ number for the CPU-local timer in the legacy numbering,
/// just past the peripheral range.
pub const TIMER_IRQ_LEGACY: usize = 96;

/// Virtual address of a CPU-local controller register.
pub open spec fn spec_local_addr(offset: usize) -> int {
    LOCAL_INTC_PADDR + PHYS_VIRT_OFFSET + offset
}

/// Virtual address of a CPU-local controller register.
pub fn local_addr(offset: usize) -> (addr: u64)
    requires
        spec_local_addr(offset) <= u64::MAX,
    ensures
        addr == spec_local_addr(offset),
{
    (LOCAL_INTC_PADDR as u64) + PHYS_VIRT_OFFSET + (offset as u64)
}

/// Virtual address of an armctrl register.
pub open spec fn spec_armc_addr(offset: usize) -> int {
    ARMCTRL_IC_PADDR + PHYS_VIRT_OFFSET + offset
}

/// Virtual address of an armctrl register.
pub fn armc_addr(offset: usize) -> (addr: u64)
    requires
        spec_armc_addr(offset) <= u64::MAX,
    ensures
        addr == spec_armc_addr(offset),
{
    (ARMCTRL_IC_PADDR as u64) + PHYS_VIRT_OFFSET + (offset as u64)
}

/// The enable register of an armctrl bank (banks past 2 count as 2).
pub open spec fn spec_armc_enable_reg(bank: usize) -> usize {
    if bank == 0 {
        ARMC_BANK0_ENABLE
    } else if bank == 1 {
        ARMC_BANK1_ENABLE
    } else {
        ARMC_BANK2_ENABLE
    }
}

/// The disable register of an armctrl bank (banks past 2 count as 2).
pub open spec fn spec_armc_disable_reg(bank: usize) -> usize {
    if bank == 0 {
        ARMC_BANK0_DISABLE
    } else if bank == 1 {
        ARMC_BANK1_DISABLE
    } else {
        ARMC_BANK2_DISABLE
    }
}

/// The enable register of an armctrl bank.
pub fn armc_enable_reg(bank: usize) -> (reg: usize)
    ensures
        reg == spec_armc_enable_reg(bank),
{
    match bank {
        0 => ARMC_BANK0_ENABLE,
        1 => ARMC_BANK1_ENABLE,
        _ => ARMC_BANK2_ENABLE,
    }
}

/// The disable register of an armctrl bank.
pub fn armc_disable_reg(bank: usize) -> (reg: usize)
    ensures
        reg == spec_armc_disable_reg(bank),
{
    match bank {
        0 => ARMC_BANK0_DISABLE,
        1 => ARMC_BANK1_DISABLE,
        _ => ARMC_BANK2_DISABLE,
    }
}

/// Whether `raw` names a peripheral IRQ: one of the 8 basic bank-0 bits or
/// a bank 1 or bank 2 bit.
pub open spec fn valid_peripheral_irq(raw: usize) -> bool {
    raw < 96 && !(raw / 32 == 0 && raw >= 8)
}

/// The access that enables (or disables) peripheral IRQ `raw`: its bit,
/// written to its bank's enable (or disable) register.
pub open spec fn enable_op(raw: usize, enabled: bool) -> MmioOp {
    RegOp::Write {
        reg: spec_armc_addr(
            if enabled {
                spec_armc_enable_reg(raw / 32)
            } else {
                spec_armc_disable_reg(raw / 32)
            },
        ) as u64,
        value: 1u32 << (raw % 32) as u32,
    }
}

/// Enables or disables a peripheral IRQ by its raw armctrl number. Returns
/// the access to perform, or `None` for an invalid IRQ number.
pub fn set_enable_shared(raw: usize, enabled: bool) -> (op: Option<MmioOp>)
    ensures
        op is None <==> !valid_peripheral_irq(raw),
        op matches Some(o) ==> o == enable_op(raw, enabled),
{
    if raw >= 96 || (raw / 32 == 0 && raw >= 8) {
        return None;
    }
    let bank = raw / 32;
    let bit = 1u32 << ((raw % 32) as u32);
    let reg = if enabled {
        armc_enable_reg(bank)
    } else {
        armc_disable_reg(bank)
    };
    Some(RegOp::Write { reg: armc_addr(reg), value: bit })
}

/// The timer interrupt bit in the local timer control register.
pub open spec fn timer_bit() -> u32 {
    1u32 << LOCAL_IRQ_CNTPNSIRQ
}

/// The access that enables (or disables) the CPU-local timer interrupt.
pub open spec fn timer_enable_op(enabled: bool) -> MmioOp {
    RegOp::Modify {
        reg: spec_local_addr(LOCAL_TIMER_INT_CONTROL0) as u64,
        clear: if enabled {
            0
        } else {
            timer_bit()
        },
        set: if enabled {
            timer_bit()
        } else {
            0
        },
    }
}

/// Enables or disables the CPU-local timer interrupt.
pub fn timer_irq_legacy_enable(enabled: bool) -> (op: MmioOp)
    ensures
        op == timer_enable_op(enabled),
{
    let reg = local_addr(LOCAL_TIMER_INT_CONTROL0);
    if enabled {
        RegOp::Modify { reg, clear: 0, set: 1u32 << LOCAL_IRQ_CNTPNSIRQ }
    } else {
        RegOp::Modify { reg, clear: 1u32 << LOCAL_IRQ_CNTPNSIRQ, set: 0 }
    }
}

/// The accesses that initialize both interrupt controllers: GPU interrupt
/// routed to CPU 0 and PMU routing cleared on the local controller, every
/// peripheral interrupt disabled and FIQ off on the banked controller, then
/// the local timer interrupt enabled.
pub open spec fn init_boot_irqs_ops() -> Seq<MmioOp> {
    seq![
        RegOp::Write { reg: spec_local_addr(LOCAL_CONTROL) as u64, value: 1 },
        RegOp::Write { reg: spec_local_addr(0x00c) as u64, value: 0 },
        RegOp::Write { reg: spec_local_addr(0x014) as u64, value: 0xf },
        RegOp::Write { reg: spec_armc_addr(ARMC_BANK0_DISABLE) as u64, value: 0xffff_ffff },
        RegOp::Write { reg: spec_armc_addr(ARMC_BANK1_DISABLE) as u64, value: 0xffff_ffff },
        RegOp::Write { reg: spec_armc_addr(ARMC_BANK2_DISABLE) as u64, value: 0xffff_ffff },
        RegOp::Write { reg: spec_armc_addr(0x00c) as u64, value: 0 },
        timer_enable_op(true),
    ]
}

/// Initializes both interrupt controllers.
pub fn init_boot_irqs_shared() -> (ops: Vec<MmioOp>)
    ensures
        ops@ == init_boot_irqs_ops(),
{
    let ops = vec![
        // Local controller: route the GPU IRQ to CPU 0 and disable PMU.
        RegOp::Write { reg: local_addr(LOCAL_CONTROL), value: 1 },
        RegOp::Write { reg: local_addr(0x00c), value: 0 },  // LOCAL_GPU_ROUTING
        RegOp::Write { reg: local_addr(0x014), value: 0xf },  // LOCAL_PM_ROUTING_CLR
        // Disable all peripheral interrupts in the banked controller.
        RegOp::Write { reg: armc_addr(ARMC_BANK0_DISABLE), value: 0xffff_ffff },
        RegOp::Write { reg: armc_addr(ARMC_BANK1_DISABLE), value: 0xffff_ffff },
        RegOp::Write { reg: armc_addr(ARMC_BANK2_DISABLE), value: 0xffff_ffff },
        RegOp::Write { reg: armc_addr(0x00c), value: 0 },  // REG_FIQ_CONTROL
        // Enable the timer interrupt on the local controller.
        timer_irq_legacy_enable(true),
    ];
    assert(ops@ =~= init_boot_irqs_ops());
    ops
}

/// Whether bit `n` of `w` is set.
pub open spec fn bit_set(w: u32, n: u32) -> bool {
    w & (1u32 << n) != 0
}

/// `base + k` for each set bit `k < n` of `w`, in ascending order.
pub open spec fn bits_from(w: u32, base: int, n: nat) -> Seq<usize>
    decreases n,
{
    if n == 0 {
        Seq::empty()
    } else {
        bits_from(w, base, (n - 1) as nat) + (if bit_set(w, (n - 1) as u32) {
            seq![(base + n - 1) as usize]
        } else {
            Seq::empty()
        })
    }
}

/// `base + table[i]` for each `i < n` whose alias bit `first + i` of `b0`
/// is set, in order of `i`.
pub open spec fn aliases(b0: u32, first: int, table: Seq<u8>, base: int, n: nat) -> Seq<usize>
    decreases n,
{
    if n == 0 {
        Seq::empty()
    } else {
        aliases(b0, first, table, base, (n - 1) as nat) + (if bit_set(b0, (first + n - 1) as u32) {
            seq![(base + table[n - 1]) as usize]
        } else {
            Seq::empty()
        })
    }
}

/// The bits of a bank (1 or 2) that have a shortcut alias set in `b0`:
/// bit `table[i]` for each `i < n` whose alias bit `first + i` is set.
pub open spec fn alias_mask(b0: u32, first: int, table: Seq<u8>, n: nat) -> u32
    decreases n,
{
    if n == 0 {
        0
    } else {
        alias_mask(b0, first, table, (n - 1) as nat) | (if bit_set(b0, (first + n - 1) as u32) {
            1u32 << (table[n - 1] as u32)
        } else {
            0u32
        })
    }
}

/// The bank 0 bits the scan looks at: the basic bits 0-7, the overflow
/// bits 8/9, and the shortcut alias bits 10-20.
pub open spec fn scan_mask() -> u32 {
    BANK0_VALID_MASK | SHORTCUT_MASK1 | SHORTCUT_MASK2
}

/// The IRQs the scan reports for the pending registers `bank0`, `bank1`,
/// `bank2`: the basic bank 0 interrupts, the bank 1 and bank 2 interrupts
/// signalled through shortcut alias bits, then every other interrupt of a
/// bank whose overflow bit is set (those already reported through their
/// alias are not reported again).
pub open spec fn pending_irqs(bank0: u32, bank1: u32, bank2: u32) -> Seq<usize> {
    let b0 = bank0 & scan_mask();
    if b0 == 0 {
        Seq::empty()
    } else {
        bits_from(b0, 0, 8) + (if b0 & SHORTCUT_MASK1 != 0 {
            aliases(b0, 10, SHORTCUT_BANK1_BITS@, 32, 5)
        } else {
            Seq::empty()
        }) + (if b0 & SHORTCUT_MASK2 != 0 {
            aliases(b0, 15, SHORTCUT_BANK2_BITS@, 64, 6)
        } else {
            Seq::empty()
        }) + (if bit_set(b0, 8) {
            bits_from(bank1 & !alias_mask(b0, 10, SHORTCUT_BANK1_BITS@, 5), 32, 32)
        } else {
            Seq::empty()
        }) + (if bit_set(b0, 9) {
            bits_from(bank2 & !alias_mask(b0, 15, SHORTCUT_BANK2_BITS@, 6), 64, 32)
        } else {
            Seq::empty()
        })
    }
}

fn alias_mask_of(b0: u32, first: u32, table: &[u8]) -> (m: u32)
    requires
        first + table@.len() <= 32,
        forall|j: int| 0 <= j < table@.len() ==> table@[j] < 32,
    ensures
        m == alias_mask(b0, first as int, table@, table@.len()),
{
    let mut m: u32 = 0;
    let mut i: usize = 0;
    while i < table.len()
        invariant
            i <= table@.len(),
            first + table@.len() <= 32,
            forall|j: int| 0 <= j < table@.len() ==> table@[j] < 32,
            m == alias_mask(b0, first as int, table@, i as nat),
        decreases table@.len() - i,
    {
        let bit = table[i];
        if b0 & (1u32 << (first + i as u32)) != 0 {
            m = m | (1u32 << (bit as u32));
        } else {
            m = m | 0u32;
        }
        i = i + 1;
    }
    m
}

fn push_set_bits(out: &mut Vec<usize>, w: u32, base: usize, count: u32)
    requires
        count <= 32,
        base + count <= usize::MAX,
    ensures
        final(out)@ == old(out)@ + bits_from(w, base as int, count as nat),
{
    let ghost start = out@;
    let mut n: u32 = 0;
    assert(start + bits_from(w, base as int, 0) =~= start);
    while n < count
        invariant
            n <= count <= 32,
            base + count <= usize::MAX,
            out@ == start + bits_from(w, base as int, n as nat),
        decreases count - n,
    {
        if w & (1u32 << n) != 0 {
            out.push(base + n as usize);
        }
        n = n + 1;
        assert(out@ =~= start + bits_from(w, base as int, n as nat));
    }
}

fn push_aliases(out: &mut Vec<usize>, b0: u32, first: u32, table: &[u8], base: usize)
    requires
        first + table@.len() <= 32,
        base + 256 <= usize::MAX,
    ensures
        final(out)@ == old(out)@ + aliases(b0, first as int, table@, base as int, table@.len()),
{
    let ghost start = out@;
    let mut i: usize = 0;
    assert(start + aliases(b0, first as int, table@, base as int, 0) =~= start);
    while i < table.len()
        invariant
            i <= table@.len(),
            first + table@.len() <= 32,
            base + 256 <= usize::MAX,
            out@ == start + aliases(b0, first as int, table@, base as int, i as nat),
        decreases table@.len() - i,
    {
        let bit = table[i];
        if b0 & (1u32 << (first + i as u32)) != 0 {
            out.push(base + bit as usize);
        }
        i = i + 1;
        assert(out@ =~= start + aliases(b0, first as int, table@, base as int, i as nat));
    }
}

/// Whether the scan needs the bank 1 pending register (its overflow bit is
/// set in `bank0`); otherwise 0 may be passed for it.
pub fn needs_bank1(bank0: u32) -> (needed: bool)
    ensures
        needed == (bank0 & scan_mask() != 0 && bit_set(bank0 & scan_mask(), 8)),
{
    let b0 = bank0 & (BANK0_VALID_MASK | SHORTCUT_MASK1 | SHORTCUT_MASK2);
    b0 != 0 && b0 & (1u32 << 8u32) != 0
}

/// Whether the scan needs the bank 2 pending register.
pub fn needs_bank2(bank0: u32) -> (needed: bool)
    ensures
        needed == (bank0 & scan_mask() != 0 && bit_set(bank0 & scan_mask(), 9)),
{
    let b0 = bank0 & (BANK0_VALID_MASK | SHORTCUT_MASK1 | SHORTCUT_MASK2);
    b0 != 0 && b0 & (1u32 << 9u32) != 0
}

/// Scans all pending peripheral IRQs from the armctrl banks, honoring the
/// bank 0 shortcut aliases, given the bank 0 pending register and (where
/// [`needs_bank1`] / [`needs_bank2`] hold) the bank 1 / bank 2 pending
/// registers. Returns the raw IRQ numbers (0..96).
pub fn scan_armctrl_pending(bank0: u32, bank1: u32, bank2: u32) -> (pending: Vec<usize>)
    ensures
        pending@ == pending_irqs(bank0, bank1, bank2),
{
    let mut pending: Vec<usize> = Vec::new();
    let b0 = bank0 & (BANK0_VALID_MASK | SHORTCUT_MASK1 | SHORTCUT_MASK2);
    if b0 == 0 {
        assert(pending@ =~= pending_irqs(bank0, bank1, bank2));
        return pending;
    }
    // Basic interrupts (bank 0, bits 0-7).
    push_set_bits(&mut pending, b0, 0, 8);
    let ghost p1 = pending@;
    // Shortcut aliases: bank 0 bits 10-14 -> bank 1 bits {7,9,10,18,19}.
    if b0 & SHORTCUT_MASK1 != 0 {
        push_aliases(&mut pending, b0, 10, &SHORTCUT_BANK1_BITS, 32);
    }
    let ghost p2 = pending@;
    // Shortcut aliases: bank 0 bits 15-20 -> bank 2 bits {21..25, 30}.
    if b0 & SHORTCUT_MASK2 != 0 {
        push_aliases(&mut pending, b0, 15, &SHORTCUT_BANK2_BITS, 64);
    }
    let ghost p3 = pending@;
    // Overflow bits: bank 1 (bit 8) and bank 2 (bit 9); interrupts already
    // reported through their alias are skipped.
    proof {
        assert(SHORTCUT_BANK1_BITS@ == seq![7u8, 9, 10, 18, 19]);
        assert(SHORTCUT_BANK2_BITS@ == seq![21u8, 22, 23, 24, 25, 30]);
    }
    if b0 & (1u32 << 8u32) != 0 {
        let seen = alias_mask_of(b0, 10, &SHORTCUT_BANK1_BITS);
        push_set_bits(&mut pending, bank1 & !seen, 32, 32);
    }
    let ghost p4 = pending@;
    if b0 & (1u32 << 9u32) != 0 {
        let seen = alias_mask_of(b0, 15, &SHORTCUT_BANK2_BITS);
        push_set_bits(&mut pending, bank2 & !seen, 64, 32);
    }
    assert(pending@ =~= pending_irqs(bank0, bank1, bank2));
    pending
}

proof fn lemma_bits_from(w: u32, base: int, n: nat)
    requires
        n <= 32,
        0 <= base,
        base + n <= usize::MAX,
    ensures
        forall|k: int|
            0 <= k < bits_from(w, base, n).len() ==> base <= #[trigger] bits_from(w, base, n)[k]
                < base + n && bit_set(w, (bits_from(w, base, n)[k] - base) as u32),
        forall|k: u32| k < n && bit_set(w, k) ==> bits_from(w, base, n).contains((base + k) as usize),
        bits_from(w, base, n).no_duplicates(),
    decreases n,
{
    if n > 0 {
        let m = (n - 1) as nat;
        lemma_bits_from(w, base, m);
        let prev = bits_from(w, base, m);
        let tail = if bit_set(w, m as u32) {
            seq![(base + m) as usize]
        } else {
            Seq::<usize>::empty()
        };
        assert(bits_from(w, base, n) == prev + tail);
        assert forall|k: int| 0 <= k < (prev + tail).len() implies base <= #[trigger] (prev + tail)[k]
            < base + n && bit_set(w, ((prev + tail)[k] - base) as u32) by {
            if k < prev.len() {
                assert((prev + tail)[k] == prev[k]);
            } else {
                assert((prev + tail)[k] == tail[k - prev.len()]);
            }
        }
        assert forall|k: u32| k < n && bit_set(w, k) implies (prev + tail).contains(
            (base + k) as usize,
        ) by {
            if k < m {
                let j = choose|j: int| 0 <= j < prev.len() && prev[j] == (base + k) as usize;
                assert((prev + tail)[j] == prev[j]);
            } else {
                assert((prev + tail)[prev.len() as int] == (base + k) as usize);
            }
        }
        assert forall|i: int, j: int|
            0 <= i < prev.len() && 0 <= j < tail.len() implies prev[i] != tail[j] by {
            assert(prev[i] < base + m);
        }
        vstd::seq_lib::lemma_no_dup_in_concat(prev, tail);
    }
}

/// Bit facts about the alias mask: a set bit comes from a set alias bit
/// whose table entry names it, and every set alias bit sets its entry.
proof fn lemma_alias_mask(b0: u32, first: int, table: Seq<u8>, n: nat, k: u32)
    requires
        n <= table.len(),
        forall|j: int| 0 <= j < table.len() ==> table[j] < 32,
    ensures
        k < 32 && bit_set(alias_mask(b0, first, table, n), k) ==> exists|i: int|
            0 <= i < n && bit_set(b0, (first + i) as u32) && table[i] == k,
        forall|i: int|
            0 <= i < n && bit_set(b0, (first + i) as u32) ==> bit_set(
                alias_mask(b0, first, table, n),
                #[trigger] table[i] as u32,
            ),
    decreases n,
{
    if n > 0 {
        let m = (n - 1) as nat;
        lemma_alias_mask(b0, first, table, m, k);
        let pm = alias_mask(b0, first, table, m);
        let t = table[m as int] as u32;
        assert(t < 32);
        if k < 32 && bit_set(pm, k) {
            let w = choose|i: int| 0 <= i < m && bit_set(b0, (first + i) as u32) && table[i] == k;
            assert(0 <= w < n && bit_set(b0, (first + w) as u32) && table[w] == k);
        }
        if bit_set(b0, (first + m) as u32) {
            assert(alias_mask(b0, first, table, n) == pm | (1u32 << t));
            if k < 32 && bit_set(pm | (1u32 << t), k) && !bit_set(pm, k) {
                assert(k < 32 && (pm | (1u32 << t)) & (1u32 << k) != 0 ==> pm & (1u32 << k) != 0
                    || t == k) by (bit_vector);
                assert(0 <= m < n && bit_set(b0, (first + m) as u32) && table[m as int] == k);
            }
            assert(k < 32 && (pm | (1u32 << t)) & (1u32 << k) != 0 ==> pm & (1u32 << k) != 0 || t
                == k) by (bit_vector);
            assert((pm | (1u32 << t)) & (1u32 << t) != 0) by (bit_vector)
                requires
                    t < 32,
            ;
            assert forall|i: int|
                0 <= i < n && bit_set(b0, (first + i) as u32) implies bit_set(
                pm | (1u32 << t),
                #[trigger] table[i] as u32,
            ) by {
                if i < m {
                    let u = table[i] as u32;
                    assert(pm & (1u32 << u) != 0 ==> (pm | (1u32 << t)) & (1u32 << u) != 0)
                        by (bit_vector);
                }
            }
        } else {
            assert(alias_mask(b0, first, table, n) == pm | 0u32);
            assert(pm | 0u32 == pm) by (bit_vector);
        }
    } else {
        assert(0u32 & (1u32 << k) == 0) by (bit_vector);
    }
}

proof fn lemma_aliases(b0: u32, first: int, table: Seq<u8>, base: int, n: nat)
    requires
        n <= table.len(),
        forall|j: int| 0 <= j < table.len() ==> table[j] < 32,
        forall|i: int, j: int| 0 <= i < j < table.len() ==> table[i] != table[j],
        0 <= base,
        base + 32 <= usize::MAX,
    ensures
        forall|k: int|
            0 <= k < aliases(b0, first, table, base, n).len() ==> base <= #[trigger] aliases(
                b0,
                first,
                table,
                base,
                n,
            )[k] < base + 32 && bit_set(
                alias_mask(b0, first, table, n),
                (aliases(b0, first, table, base, n)[k] - base) as u32,
            ),
        forall|i: int|
            0 <= i < n && bit_set(b0, (first + i) as u32) ==> aliases(b0, first, table, base, n).contains(
                (base + #[trigger] table[i]) as usize,
            ),
        aliases(b0, first, table, base, n).no_duplicates(),
    decreases n,
{
    if n > 0 {
        let m = (n - 1) as nat;
        lemma_aliases(b0, first, table, base, m);
        lemma_alias_mask(b0, first, table, n, 0);
        let prev = aliases(b0, first, table, base, m);
        let t = table[m as int];
        let tail = if bit_set(b0, (first + m) as u32) {
            seq![(base + t) as usize]
        } else {
            Seq::<usize>::empty()
        };
        let pm = alias_mask(b0, first, table, m);
        let nm = alias_mask(b0, first, table, n);
        assert(aliases(b0, first, table, base, n) == prev + tail);
        assert(nm == pm | (if bit_set(b0, (first + m) as u32) {
            1u32 << (t as u32)
        } else {
            0u32
        }));
        assert forall|k: int| 0 <= k < (prev + tail).len() implies base <= #[trigger] (prev + tail)[k]
            < base + 32 && bit_set(nm, ((prev + tail)[k] - base) as u32) by {
            if k < prev.len() {
                assert((prev + tail)[k] == prev[k]);
                let u = (prev[k] - base) as u32;
                let x = if bit_set(b0, (first + m) as u32) {
                    1u32 << (t as u32)
                } else {
                    0u32
                };
                assert(pm & (1u32 << u) != 0 ==> (pm | x) & (1u32 << u) != 0) by (bit_vector);
            } else {
                assert((prev + tail)[k] == tail[k - prev.len()]);
                assert(bit_set(nm, table[m as int] as u32));
            }
        }
        assert forall|i: int|
            0 <= i < n && bit_set(b0, (first + i) as u32) implies (prev + tail).contains(
            (base + #[trigger] table[i]) as usize,
        ) by {
            if i < m {
                let j = choose|j: int| 0 <= j < prev.len() && prev[j] == (base + table[i]) as usize;
                assert((prev + tail)[j] == prev[j]);
            } else {
                assert((prev + tail)[prev.len() as int] == (base + table[i]) as usize);
            }
        }
        assert forall|i: int, j: int|
            0 <= i < prev.len() && 0 <= j < tail.len() implies prev[i] != tail[j] by {
            let u = (prev[i] - base) as u32;
            lemma_alias_mask(b0, first, table, m, u);
            if prev[i] == tail[j] {
                let w = choose|w: int| 0 <= w < m && bit_set(b0, (first + w) as u32) && table[w] == u;
                assert(table[w] != table[m as int]);
            }
        }
        vstd::seq_lib::lemma_no_dup_in_concat(prev, tail);
    }
}

/// The five parts of the scan, in order: basic bank 0 interrupts, bank 1
/// aliases, bank 2 aliases, the rest of bank 1, the rest of bank 2.
spec fn scan_parts(bank0: u32, bank1: u32, bank2: u32) -> (Seq<usize>, Seq<usize>, Seq<usize>, Seq<usize>, Seq<usize>) {
    let b0 = bank0 & scan_mask();
    (
        bits_from(b0, 0, 8),
        if b0 & SHORTCUT_MASK1 != 0 {
            aliases(b0, 10, SHORTCUT_BANK1_BITS@, 32, 5)
        } else {
            Seq::empty()
        },
        if b0 & SHORTCUT_MASK2 != 0 {
            aliases(b0, 15, SHORTCUT_BANK2_BITS@, 64, 6)
        } else {
            Seq::empty()
        },
        if bit_set(b0, 8) {
            bits_from(bank1 & !alias_mask(b0, 10, SHORTCUT_BANK1_BITS@, 5), 32, 32)
        } else {
            Seq::empty()
        },
        if bit_set(b0, 9) {
            bits_from(bank2 & !alias_mask(b0, 15, SHORTCUT_BANK2_BITS@, 6), 64, 32)
        } else {
            Seq::empty()
        },
    )
}

/// The facts about each part that the laws below combine.
proof fn lemma_scan_parts(bank0: u32, bank1: u32, bank2: u32)
    ensures
        ({
            let b0 = bank0 & scan_mask();
            let p = scan_parts(bank0, bank1, bank2);
            &&& b0 != 0 ==> pending_irqs(bank0, bank1, bank2) == p.0 + p.1 + p.2 + p.3 + p.4
            &&& b0 == 0 ==> pending_irqs(bank0, bank1, bank2) == Seq::<usize>::empty()
            &&& forall|k: int| 0 <= k < p.0.len() ==> #[trigger] p.0[k] < 8
            &&& forall|k: int| 0 <= k < p.1.len() ==> 32 <= #[trigger] p.1[k] < 64 && bit_set(
                alias_mask(b0, 10, SHORTCUT_BANK1_BITS@, 5),
                (p.1[k] - 32) as u32,
            )
            &&& forall|k: int| 0 <= k < p.2.len() ==> 64 <= #[trigger] p.2[k] < 96 && bit_set(
                alias_mask(b0, 15, SHORTCUT_BANK2_BITS@, 6),
                (p.2[k] - 64) as u32,
            )
            &&& forall|k: int| 0 <= k < p.3.len() ==> 32 <= #[trigger] p.3[k] < 64 && !bit_set(
                alias_mask(b0, 10, SHORTCUT_BANK1_BITS@, 5),
                (p.3[k] - 32) as u32,
            )
            &&& forall|k: int| 0 <= k < p.4.len() ==> 64 <= #[trigger] p.4[k] < 96 && !bit_set(
                alias_mask(b0, 15, SHORTCUT_BANK2_BITS@, 6),
                (p.4[k] - 64) as u32,
            )
            &&& p.0.no_duplicates() && p.1.no_duplicates() && p.2.no_duplicates()
            &&& p.3.no_duplicates() && p.4.no_duplicates()
        }),
{
    let b0 = bank0 & scan_mask();
    let t1 = SHORTCUT_BANK1_BITS@;
    let t2 = SHORTCUT_BANK2_BITS@;
    assert(t1 == seq![7u8, 9, 10, 18, 19]);
    assert(t2 == seq![21u8, 22, 23, 24, 25, 30]);
    let m1 = alias_mask(b0, 10, t1, 5);
    let m2 = alias_mask(b0, 15, t2, 6);
    let r1 = bank1 & !m1;
    let r2 = bank2 & !m2;
    lemma_bits_from(b0, 0, 8);
    lemma_aliases(b0, 10, t1, 32, 5);
    lemma_aliases(b0, 15, t2, 64, 6);
    lemma_bits_from(r1, 32, 32);
    lemma_bits_from(r2, 64, 32);
    let p = scan_parts(bank0, bank1, bank2);
    assert forall|k: int| 0 <= k < p.3.len() implies 32 <= #[trigger] p.3[k] < 64 && !bit_set(
        m1,
        (p.3[k] - 32) as u32,
    ) by {
        let u = (p.3[k] - 32) as u32;
        assert(r1 & (1u32 << u) != 0 ==> m1 & (1u32 << u) == 0) by (bit_vector)
            requires
                r1 == bank1 & !m1,
        ;
    }
    assert forall|k: int| 0 <= k < p.4.len() implies 64 <= #[trigger] p.4[k] < 96 && !bit_set(
        m2,
        (p.4[k] - 64) as u32,
    ) by {
        let u = (p.4[k] - 64) as u32;
        assert(r2 & (1u32 << u) != 0 ==> m2 & (1u32 << u) == 0) by (bit_vector)
            requires
                r2 == bank2 & !m2,
        ;
    }
}

/// Every IRQ the scan reports is a peripheral IRQ that
/// [`set_enable_shared`] accepts: a basic bank 0 interrupt (below 8) or a
/// bank 1 / bank 2 interrupt (32..96).
pub proof fn lemma_scan_reports_valid_irqs(bank0: u32, bank1: u32, bank2: u32)
    ensures
        forall|k: int|
            0 <= k < pending_irqs(bank0, bank1, bank2).len() ==> valid_peripheral_irq(
                #[trigger] pending_irqs(bank0, bank1, bank2)[k],
            ),
{
    lemma_scan_parts(bank0, bank1, bank2);
    let b0 = bank0 & scan_mask();
    let r = pending_irqs(bank0, bank1, bank2);
    let p = scan_parts(bank0, bank1, bank2);
    assert forall|k: int| 0 <= k < r.len() implies valid_peripheral_irq(#[trigger] r[k]) by {
        if b0 != 0 {
            let (s1, s2, s3, s4, s5) = p;
            if k < s1.len() {
                assert(r[k] == s1[k]);
            } else if k < s1.len() + s2.len() {
                assert(r[k] == s2[k - s1.len()]);
            } else if k < s1.len() + s2.len() + s3.len() {
                assert(r[k] == s3[k - s1.len() - s2.len()]);
            } else if k < s1.len() + s2.len() + s3.len() + s4.len() {
                assert(r[k] == s4[k - s1.len() - s2.len() - s3.len()]);
            } else {
                assert(r[k] == s5[k - s1.len() - s2.len() - s3.len() - s4.len()]);
            }
        }
    }
}

/// The scan reports each interrupt at most once, also when an interrupt
/// is signalled both through its shortcut alias and through its bank.
pub proof fn lemma_scan_reports_each_once(bank0: u32, bank1: u32, bank2: u32)
    ensures
        pending_irqs(bank0, bank1, bank2).no_duplicates(),
{
    lemma_scan_parts(bank0, bank1, bank2);
    let b0 = bank0 & scan_mask();
    if b0 != 0 {
        let (s1, s2, s3, s4, s5) = scan_parts(bank0, bank1, bank2);
        vstd::seq_lib::lemma_no_dup_in_concat(s1, s2);
        let a = s1 + s2;
        assert forall|i: int, j: int| 0 <= i < a.len() && 0 <= j < s3.len() implies a[i]
            != s3[j] by {
            if i < s1.len() {
                assert(a[i] == s1[i]);
            } else {
                assert(a[i] == s2[i - s1.len()]);
            }
        }
        vstd::seq_lib::lemma_no_dup_in_concat(a, s3);
        let b = a + s3;
        assert forall|i: int, j: int| 0 <= i < b.len() && 0 <= j < s4.len() implies b[i]
            != s4[j] by {
            if i < s1.len() {
                assert(b[i] == s1[i]);
            } else if i < s1.len() + s2.len() {
                assert(b[i] == s2[i - s1.len()]);
            } else {
                assert(b[i] == s3[i - s1.len() - s2.len()]);
            }
        }
        vstd::seq_lib::lemma_no_dup_in_concat(b, s4);
        let c = b + s4;
        assert forall|i: int, j: int| 0 <= i < c.len() && 0 <= j < s5.len() implies c[i]
            != s5[j] by {
            if i < s1.len() {
                assert(c[i] == s1[i]);
            } else if i < s1.len() + s2.len() {
                assert(c[i] == s2[i - s1.len()]);
            } else if i < s1.len() + s2.len() + s3.len() {
                assert(c[i] == s3[i - s1.len() - s2.len()]);
            } else {
                assert(c[i] == s4[i - s1.len() - s2.len() - s3.len()]);
            }
        }
        vstd::seq_lib::lemma_no_dup_in_concat(c, s5);
    }
}

/// The scan misses nothing it can see: every pending basic bank 0
/// interrupt is reported, every interrupt signalled through a shortcut
/// alias is reported, and when a bank's overflow bit is pending, every
/// pending interrupt of that bank is reported.
pub proof fn lemma_scan_reports_pending(bank0: u32, bank1: u32, bank2: u32, k: u32)
    ensures
        k < 8 && bit_set(bank0 & scan_mask(), k) ==> pending_irqs(bank0, bank1, bank2).contains(
            k as usize,
        ),
        k < 5 && bit_set(bank0 & scan_mask(), (10 + k) as u32) ==> pending_irqs(bank0, bank1, bank2).contains(
            (32 + SHORTCUT_BANK1_BITS@[k as int]) as usize,
        ),
        k < 6 && bit_set(bank0 & scan_mask(), (15 + k) as u32) ==> pending_irqs(bank0, bank1, bank2).contains(
            (64 + SHORTCUT_BANK2_BITS@[k as int]) as usize,
        ),
        k < 32 && bit_set(bank0 & scan_mask(), 8) && bit_set(bank1, k) ==> pending_irqs(
            bank0,
            bank1,
            bank2,
        ).contains((32 + k) as usize),
        k < 32 && bit_set(bank0 & scan_mask(), 9) && bit_set(bank2, k) ==> pending_irqs(
            bank0,
            bank1,
            bank2,
        ).contains((64 + k) as usize),
{
    let b0 = bank0 & scan_mask();
    let t1 = SHORTCUT_BANK1_BITS@;
    let t2 = SHORTCUT_BANK2_BITS@;
    assert(t1 == seq![7u8, 9, 10, 18, 19]);
    assert(t2 == seq![21u8, 22, 23, 24, 25, 30]);
    let m1 = alias_mask(b0, 10, t1, 5);
    let m2 = alias_mask(b0, 15, t2, 6);
    lemma_scan_parts(bank0, bank1, bank2);
    lemma_bits_from(b0, 0, 8);
    lemma_aliases(b0, 10, t1, 32, 5);
    lemma_aliases(b0, 15, t2, 64, 6);
    lemma_bits_from(bank1 & !m1, 32, 32);
    lemma_bits_from(bank2 & !m2, 64, 32);
    lemma_alias_mask(b0, 10, t1, 5, k);
    lemma_alias_mask(b0, 15, t2, 6, k);
    let r = pending_irqs(bank0, bank1, bank2);
    let (s1, s2, s3, s4, s5) = scan_parts(bank0, bank1, bank2);
    // An element of one part is an element of the whole scan.
    assert forall|x: usize|
        b0 != 0 && (s1.contains(x) || s2.contains(x) || s3.contains(x) || s4.contains(x)
            || s5.contains(x)) implies r.contains(x) by {
        {
            if s1.contains(x) {
                let j = choose|j: int| 0 <= j < s1.len() && s1[j] == x;
                assert(r[j] == s1[j]);
            } else if s2.contains(x) {
                let j = choose|j: int| 0 <= j < s2.len() && s2[j] == x;
                assert(r[s1.len() + j] == s2[j]);
            } else if s3.contains(x) {
                let j = choose|j: int| 0 <= j < s3.len() && s3[j] == x;
                assert(r[s1.len() + s2.len() + j] == s3[j]);
            } else if s4.contains(x) {
                let j = choose|j: int| 0 <= j < s4.len() && s4[j] == x;
                assert(r[s1.len() + s2.len() + s3.len() + j] == s4[j]);
            } else {
                let j = choose|j: int| 0 <= j < s5.len() && s5[j] == x;
                assert(r[s1.len() + s2.len() + s3.len() + s4.len() + j] == s5[j]);
            }
        }
    }
    // Any set bit among those the scan looks at makes the scan run.
    assert(k < 21 && b0 & (1u32 << k) != 0 ==> b0 != 0) by (bit_vector);
    assert(k < 32 && b0 & (1u32 << (10 + k) as u32) != 0 && k < 5 ==> b0 != 0 && b0 & 0x0000_7c00
        != 0) by (bit_vector);
    assert(k < 32 && b0 & (1u32 << (15 + k) as u32) != 0 && k < 6 ==> b0 != 0 && b0 & 0x001f_8000
        != 0) by (bit_vector);
    assert(b0 & (1u32 << 8u32) != 0 ==> b0 != 0) by (bit_vector);
    assert(b0 & (1u32 << 9u32) != 0 ==> b0 != 0) by (bit_vector);
    if k < 5 && bit_set(b0, (10 + k) as u32) {
        assert(bit_set(b0, (10 + (k as int)) as u32));
        assert(s2.contains((32 + t1[k as int]) as usize));
    }
    if k < 6 && bit_set(b0, (15 + k) as u32) {
        assert(bit_set(b0, (15 + (k as int)) as u32));
        assert(s3.contains((64 + t2[k as int]) as usize));
    }
    if k < 32 && bit_set(b0, 8) && bit_set(bank1, k) {
        if bit_set(m1, k) {
            let i = choose|i: int| 0 <= i < 5 && bit_set(b0, (10 + i) as u32) && t1[i] == k;
            let iu = i as u32;
            assert(b0 & (1u32 << (10u32 + iu)) != 0);
            assert(iu < 5 && b0 & (1u32 << (10u32 + iu)) != 0 ==> b0 & 0x0000_7c00 != 0)
                by (bit_vector);
            assert(s2.contains((32 + t1[i]) as usize));
        } else {
            let r1 = bank1 & !m1;
            assert(bank1 & (1u32 << k) != 0 && m1 & (1u32 << k) == 0 ==> r1 & (1u32 << k) != 0)
                by (bit_vector)
                requires
                    r1 == bank1 & !m1,
            ;
            assert(bit_set(r1, k));
            assert(s4.contains((32 + k) as usize));
        }
    }
    if k < 32 && bit_set(b0, 9) && bit_set(bank2, k) {
        if bit_set(m2, k) {
            let i = choose|i: int| 0 <= i < 6 && bit_set(b0, (15 + i) as u32) && t2[i] == k;
            let iu = i as u32;
            assert(b0 & (1u32 << (15u32 + iu)) != 0);
            assert(iu < 6 && b0 & (1u32 << (15u32 + iu)) != 0 ==> b0 & 0x001f_8000 != 0)
                by (bit_vector);
            assert(s3.contains((64 + t2[i]) as usize));
        } else {
            let r2 = bank2 & !m2;
            assert(bank2 & (1u32 << k) != 0 && m2 & (1u32 << k) == 0 ==> r2 & (1u32 << k) != 0)
                by (bit_vector)
                requires
                    r2 == bank2 & !m2,
            ;
            assert(bit_set(r2, k));
            assert(s5.contains((64 + k) as usize));
        }
    }
}

/// The CPU-local sources pending in `LOCAL_IRQ_PENDING0`.
#[derive(Clone, Copy, Debug, PartialEq, Eq, Structural)]
pub struct LocalPending {
    /// The chained banked controller (local IRQ 8).
    pub gpu: bool,
    /// The physical non-secure timer (local IRQ 1).
    pub timer: bool,
}

/// Decodes `LOCAL_IRQ_PENDING0`.
pub fn local_pending(pending: u32) -> (p: LocalPending)
    ensures
        p.gpu == bit_set(pending, LOCAL_IRQ_GPU_FAST),
        p.timer == bit_set(pending, LOCAL_IRQ_CNTPNSIRQ),
{
    LocalPending {
        gpu: pending & (1u32 << LOCAL_IRQ_GPU_FAST) != 0,
        timer: pending & (1u32 << LOCAL_IRQ_CNTPNSIRQ) != 0,
    }
}

/// Enables or disables a CPU-local interrupt: only the timer (local IRQ
/// 1) is supported; any other yields `None`.
pub fn local_set_enable(hwirq: u32, enabled: bool) -> (op: Option<MmioOp>)
    ensures
        op == (if hwirq == LOCAL_IRQ_CNTPNSIRQ {
            Some(timer_enable_op(enabled))
        } else {
            None
        }),
{
    if hwirq == LOCAL_IRQ_CNTPNSIRQ {
        Some(timer_irq_legacy_enable(enabled))
    } else {
        None
    }
}

/// Whether a per-CPU hardware interrupt resolves (only the timer does).
pub fn resolve_percpu(hwirq: u32) -> (ok: bool)
    ensures
        ok == (hwirq == LOCAL_IRQ_CNTPNSIRQ),
{
    hwirq == LOCAL_IRQ_CNTPNSIRQ
}

/// The access that raises IPI bit `raw` in the first mailbox of CPU
/// `cpu_id`.
pub fn send_ipi(cpu_id: usize, raw: u32) -> (op: MmioOp)
    requires
        raw < 32,
        cpu_id < 0x0800_0000,
    ensures
        op == (RegOp::Write {
            reg: spec_local_addr((LOCAL_MAILBOX0_SET0 + 16 * cpu_id) as usize) as u64,
            value: 1u32 << raw,
        }),
{
    RegOp::Write { reg: local_addr(LOCAL_MAILBOX0_SET0 + 16 * cpu_id), value: 1u32 << raw }
}

/// What an IRQ number of the legacy numbering names.
#[derive(Clone, Copy, Debug, PartialEq, Eq, Structural)]
pub enum LegacyIrqKind {
    /// The CPU-local timer (the sentinel [`TIMER_IRQ_LEGACY`]).
    Timer,
    /// A peripheral IRQ of the banked controller (below
    /// [`PERIPHERAL_IRQ_COUNT`]).
    Peripheral,
    /// Anything else: handlers for it are refused.
    Invalid,
}

/// Classifies an IRQ number of the legacy numbering, as handler
/// registration routes it.
pub fn legacy_irq_kind(irq: usize) -> (kind: LegacyIrqKind)
    ensures
        kind == (if irq == TIMER_IRQ_LEGACY {
            LegacyIrqKind::Timer
        } else if irq < PERIPHERAL_IRQ_COUNT {
            LegacyIrqKind::Peripheral
        } else {
            LegacyIrqKind::Invalid
        }),
{
    if irq == TIMER_IRQ_LEGACY {
        LegacyIrqKind::Timer
    } else if irq < PERIPHERAL_IRQ_COUNT {
        LegacyIrqKind::Peripheral
    } else {
        LegacyIrqKind::Invalid
    }
}

/// Enables or disables an IRQ in the legacy numbering: the timer sentinel
/// toggles the local timer interrupt, peripheral numbers go to the banked
/// controller (invalid ones are ignored), anything else is ignored.
pub fn legacy_set_enable(irq: usize, enabled: bool) -> (op: Option<MmioOp>)
    ensures
        irq == TIMER_IRQ_LEGACY ==> op == Some(timer_enable_op(enabled)),
        irq != TIMER_IRQ_LEGACY ==> op == (if irq < PERIPHERAL_IRQ_COUNT
            && valid_peripheral_irq(irq) {
            Some(enable_op(irq, enabled))
        } else {
            None
        }),
{
    if irq == TIMER_IRQ_LEGACY {
        Some(timer_irq_legacy_enable(enabled))
    } else if irq < PERIPHERAL_IRQ_COUNT {
        set_enable_shared(irq, enabled)
    } else {
        None
    }
}

/// What the legacy interrupt handler serves for a given
/// `LOCAL_IRQ_PENDING0`: the banked controller takes precedence over the
/// timer.
#[derive(Clone, Copy, Debug, PartialEq, Eq, Structural)]
pub enum LegacySource {
    Peripherals,
    Timer,
    Spurious,
}

/// Chooses what the legacy interrupt handler serves.
pub fn legacy_irq_source(pending: u32) -> (src: LegacySource)
    ensures
        src == (if bit_set(pending, LOCAL_IRQ_GPU_FAST) {
            LegacySource::Peripherals
        } else if bit_set(pending, LOCAL_IRQ_CNTPNSIRQ) {
            LegacySource::Timer
        } else {
            LegacySource::Spurious
        }),
{
    let p = local_pending(pending);
    if p.gpu {
        LegacySource::Peripherals
    } else if p.timer {
        LegacySource::Timer
    } else {
        LegacySource::Spurious
    }
}

/// The legacy timer sentinel lies outside the peripheral range, so it is
/// never confused with a peripheral IRQ, and enabling it touches the local
/// timer control rather than the banked controller.
pub proof fn lemma_legacy_timer_sentinel(enabled: bool)
    ensures
        !valid_peripheral_irq(TIMER_IRQ_LEGACY),
        timer_enable_op(enabled) matches RegOp::Modify { reg, .. } && reg == spec_local_addr(
            LOCAL_TIMER_INT_CONTROL0,
        ),
{
}


/// The peripheral IRQs are the 8 basic bank 0 interrupts (0..8) and the
/// interrupts of banks 1 and 2 (32..96). Enabling one writes its bit
/// (`raw % 32`) to its bank's ENABLE register (bank 0 at 0x218, bank 1 at
/// 0x210, bank 2 at 0x214 in the controller page at
/// `0xffff_0000_3f00_b000`); disabling writes the same bit to the bank's
/// DISABLE register (0x224, 0x21c, 0x220).
pub proof fn lemma_enable_targets_the_bank(raw: usize, enabled: bool)
    ensures
        valid_peripheral_irq(raw) <==> (raw < 8 || 32 <= raw < 96),
        valid_peripheral_irq(raw) ==> enable_op(raw, enabled) == (RegOp::Write {
            reg: (0xffff_0000_3f00_b200int + (if raw < 32 {
                if enabled {
                    0x18int
                } else {
                    0x24int
                }
            } else if raw < 64 {
                if enabled {
                    0x10int
                } else {
                    0x1cint
                }
            } else if enabled {
                0x14int
            } else {
                0x20int
            })) as u64,
            value: 1u32 << (raw % 32) as u32,
        }),
{
}

} // verus!
