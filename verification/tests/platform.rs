use std::cell::Cell;

use bcm283x::platform::boot::{
    block_descriptor, init_boot_page_table, secondary_entry_paddr, table_descriptor,
    CPU_LOCAL_RESERVE_PADDR, CPU_LOCAL_RESERVE_SIZE,
};
use bcm283x::platform::console::{
    early_write_bytes, empty_event, read_step, write_bytes, ConsoleIrqEvent, Uart,
};
use bcm283x::platform::cpu::{platform_name, resolve_cpu_index};
use bcm283x::platform::irq::{
    armc_addr, armc_disable_reg, armc_enable_reg, init_boot_irqs_shared, legacy_irq_source,
    legacy_set_enable, local_addr, local_pending, local_set_enable, needs_bank1, needs_bank2,
    resolve_percpu, scan_armctrl_pending, send_ipi, set_enable_shared, timer_irq_legacy_enable,
    legacy_irq_kind, LegacyIrqKind, LegacySource, LocalPending, TIMER_IRQ_LEGACY,
};
use bcm283x::platform::mem::{
    dcache_range_cleans, kernel_aspace, mmio_ranges, phys_ram_ranges, phys_to_virt,
    reserved_phys_ram_ranges, virt_to_phys, DCacheOp,
};
use bcm283x::platform::power::{cpu_boot_shared, pm_addr, watchdog_reset};
use bcm283x::platform::time::{
    cached_timer_freq, nanos_to_ticks_shared, oneshot_interval, ticks_to_nanos_shared, timer_freq,
};
use bcm283x::regops::RegOp;

#[test]
fn block_descriptors() {
    assert_eq!(block_descriptor(0, 1, true), 0x707);
    assert_eq!(block_descriptor(0x3f00_0000, 0, false), 0x0040_0000_3f00_0703);
    assert_eq!(block_descriptor(0x20_0123, 1, true), 0x20_0707);
    assert_eq!(table_descriptor(0x8_1000), 0x8_1003);
    assert_eq!(table_descriptor(0x8_1fff), 0x8_1003);
}

#[test]
fn boot_page_table_maps_the_first_gigabyte() {
    let mut l0 = [0u64; 512];
    let mut l1 = [0u64; 512];
    let mut l2 = [0u64; 512];
    l0[7] = 0x55;
    init_boot_page_table(&mut l0, &mut l1, &mut l2, 0x9_1000, 0x9_2000);
    assert_eq!(l0[0], 0x9_1003);
    assert_eq!(l1[0], 0x9_2003);
    assert_eq!(l0[7], 0x55);
    assert!(l0[1..].iter().enumerate().all(|(i, &e)| e == if i == 6 { 0x55 } else { 0 }));
    assert!(l1[1..].iter().all(|&e| e == 0));
    assert_eq!(l2[0], 0x707);
    assert_eq!(l2[1], 0x20_0707);
    assert_eq!(l2[503], 0x3ee0_0707);
    assert_eq!(l2[504], 0x0040_0000_3f00_0703);
    assert_eq!(l2[511], 0x0040_0000_3fe0_0703);
    for (i, e) in l2.iter().enumerate() {
        assert_eq!(e & 0x000f_ffff_f000, (i as u64) * 0x20_0000);
    }
}

#[test]
fn boot_page_table_leaves_entries_past_the_table_alone() {
    let mut l0 = [0u64; 1];
    let mut l1 = [0u64; 1];
    let mut l2 = vec![0xaau64; 514];
    init_boot_page_table(&mut l0, &mut l1, &mut l2, 0x9_1000, 0x9_2000);
    assert_eq!(l2[511], 0x0040_0000_3f00_0703 + 7 * 0x20_0000);
    assert_eq!(&l2[512..], &[0xaa, 0xaa]);
}

#[test]
fn secondary_entry_is_the_linked_address_minus_the_offset() {
    assert_eq!(secondary_entry_paddr(0xffff_0000_0008_1000), 0x8_1000);
    assert_eq!(CPU_LOCAL_RESERVE_PADDR, 0x0100_0000);
    assert_eq!(CPU_LOCAL_RESERVE_SIZE, 0x4_0000);
}

#[test]
fn controller_addresses() {
    assert_eq!(local_addr(0x40), 0xffff_0000_3f00_b040);
    assert_eq!(armc_addr(0x10), 0xffff_0000_3f00_b210);
    assert_eq!(pm_addr(0x24), 0xffff_0000_3f10_0024);
    assert_eq!((armc_enable_reg(0), armc_enable_reg(1), armc_enable_reg(2)), (0x18, 0x10, 0x14));
    assert_eq!(armc_enable_reg(7), 0x14);
    assert_eq!((armc_disable_reg(0), armc_disable_reg(1), armc_disable_reg(9)), (0x24, 0x1c, 0x20));
}

#[test]
fn enabling_peripheral_irqs() {
    assert_eq!(
        set_enable_shared(42, true),
        Some(RegOp::Write { reg: 0xffff_0000_3f00_b210, value: 1 << 10 })
    );
    assert_eq!(
        set_enable_shared(42, false),
        Some(RegOp::Write { reg: 0xffff_0000_3f00_b21c, value: 1 << 10 })
    );
    assert_eq!(
        set_enable_shared(7, true),
        Some(RegOp::Write { reg: 0xffff_0000_3f00_b218, value: 0x80 })
    );
    assert_eq!(
        set_enable_shared(95, false),
        Some(RegOp::Write { reg: 0xffff_0000_3f00_b220, value: 0x8000_0000 })
    );
    assert_eq!(set_enable_shared(8, true), None);
    assert_eq!(set_enable_shared(31, true), None);
    assert_eq!(set_enable_shared(96, true), None);
}

#[test]
fn local_timer_interrupt() {
    assert_eq!(
        timer_irq_legacy_enable(true),
        RegOp::Modify { reg: 0xffff_0000_3f00_b040, clear: 0, set: 2 }
    );
    assert_eq!(
        timer_irq_legacy_enable(false),
        RegOp::Modify { reg: 0xffff_0000_3f00_b040, clear: 2, set: 0 }
    );
    assert_eq!(local_set_enable(1, true), Some(timer_irq_legacy_enable(true)));
    assert_eq!(local_set_enable(3, true), None);
    assert!(resolve_percpu(1));
    assert!(!resolve_percpu(0));
}

#[test]
fn boot_irq_initialization() {
    let ops = init_boot_irqs_shared();
    assert_eq!(
        ops,
        vec![
            RegOp::Write { reg: 0xffff_0000_3f00_b000, value: 1 },
            RegOp::Write { reg: 0xffff_0000_3f00_b00c, value: 0 },
            RegOp::Write { reg: 0xffff_0000_3f00_b014, value: 0xf },
            RegOp::Write { reg: 0xffff_0000_3f00_b224, value: 0xffff_ffff },
            RegOp::Write { reg: 0xffff_0000_3f00_b21c, value: 0xffff_ffff },
            RegOp::Write { reg: 0xffff_0000_3f00_b220, value: 0xffff_ffff },
            RegOp::Write { reg: 0xffff_0000_3f00_b20c, value: 0 },
            RegOp::Modify { reg: 0xffff_0000_3f00_b040, clear: 0, set: 2 },
        ]
    );
}

#[test]
fn scan_basic_interrupts() {
    assert_eq!(scan_armctrl_pending(0b1000_0101, 0, 0), vec![0, 2, 7]);
    assert_eq!(scan_armctrl_pending(0, 0xffff_ffff, 0xffff_ffff), Vec::<usize>::new());
}

#[test]
fn scan_overflow_banks() {
    assert!(needs_bank1(0x100));
    assert!(!needs_bank1(0x400));
    assert!(needs_bank2(0x200));
    assert_eq!(scan_armctrl_pending(0x100, 0x0000_0402, 0xffff), vec![33, 42]);
    assert_eq!(scan_armctrl_pending(0x200, 0xffff, 0x8000_0001), vec![64, 95]);
}

#[test]
fn scan_shortcut_aliases() {
    // Bank 0 bit 10 aliases bank 1 bit 7; bit 15 aliases bank 2 bit 21;
    // bit 20 aliases bank 2 bit 30.
    assert_eq!(scan_armctrl_pending(1 << 10, 0, 0), vec![39]);
    assert_eq!(scan_armctrl_pending(1 << 15, 0, 0), vec![85]);
    assert_eq!(scan_armctrl_pending(1 << 20, 0, 0), vec![94]);
    assert_eq!(scan_armctrl_pending((1 << 14) | (1 << 3), 0, 0), vec![3, 51]);
    // Bits outside the basic, overflow and shortcut bits are ignored.
    assert_eq!(scan_armctrl_pending(1 << 25, 0, 0), Vec::<usize>::new());
}

#[test]
fn interrupt_seen_through_alias_and_bank_is_reported_once() {
    // V3D (bank 1 bit 10) through its shortcut (bank 0 bit 12) and through
    // the bank 1 overflow bit, with bank 1 bit 3 pending too.
    assert_eq!(scan_armctrl_pending((1 << 12) | (1 << 8), (1 << 10) | (1 << 3), 0), vec![42, 35]);
    // The same for the SD host (bank 2 bit 30, shortcut bank 0 bit 20).
    assert_eq!(scan_armctrl_pending((1 << 20) | (1 << 9), 0, 1 << 30), vec![94]);
    for bank0 in [0x1f_ffffu32, 0x1f_fc00, 0x300] {
        let irqs = scan_armctrl_pending(bank0, 0xffff_ffff, 0xffff_ffff);
        let mut sorted = irqs.clone();
        sorted.sort();
        sorted.dedup();
        assert_eq!(sorted.len(), irqs.len());
    }
}

#[test]
fn scanned_irqs_can_be_enabled() {
    for bank0 in [0x3ffu32, 0x1f_fc00, 0x1f_ffff] {
        for irq in scan_armctrl_pending(bank0, 0xffff_ffff, 0xffff_ffff) {
            assert!(set_enable_shared(irq, true).is_some());
        }
    }
}

#[test]
fn local_sources() {
    assert_eq!(local_pending(0x102), LocalPending { gpu: true, timer: true });
    assert_eq!(local_pending(0), LocalPending { gpu: false, timer: false });
    assert_eq!(legacy_irq_source(0x102), LegacySource::Peripherals);
    assert_eq!(legacy_irq_source(0x2), LegacySource::Timer);
    assert_eq!(legacy_irq_source(0x1), LegacySource::Spurious);
}

#[test]
fn legacy_numbering() {
    assert_eq!(TIMER_IRQ_LEGACY, 96);
    assert_eq!(legacy_set_enable(TIMER_IRQ_LEGACY, true), Some(timer_irq_legacy_enable(true)));
    assert_eq!(legacy_set_enable(42, true), set_enable_shared(42, true));
    assert_eq!(legacy_set_enable(10, true), None);
    assert_eq!(legacy_set_enable(200, false), None);
}

#[test]
fn inter_processor_interrupt() {
    assert_eq!(send_ipi(1, 0), RegOp::Write { reg: 0xffff_0000_3f00_b090, value: 1 });
    assert_eq!(send_ipi(0, 3), RegOp::Write { reg: 0xffff_0000_3f00_b080, value: 8 });
}

#[test]
fn uart_initialization_and_output() {
    let uart = Uart::console();
    assert_eq!(uart.base(), 0xffff_0000_3f20_1000);
    assert_eq!(
        uart.init().to_vec(),
        vec![
            RegOp::Write { reg: 0x30, value: 0 },
            RegOp::Write { reg: 0x24, value: 26 },
            RegOp::Write { reg: 0x28, value: 3 },
            RegOp::Write { reg: 0x2c, value: 0x70 },
            RegOp::Write { reg: 0x38, value: 0 },
            RegOp::Write { reg: 0x44, value: 0x7ff },
            RegOp::Write { reg: 0x30, value: 0x301 },
        ]
    );
    assert_eq!(
        uart.send_byte(b'A').to_vec(),
        vec![RegOp::WaitClear { reg: 0x18, mask: 0x20 }, RegOp::Write { reg: 0x00, value: 0x41 }]
    );
    assert_eq!(uart.flush(), vec![RegOp::WaitClear { reg: 0x18, mask: 0x08 }]);
    assert_eq!(uart.early_send_byte(b'\n')[1], RegOp::Write { reg: 0x00, value: 0x0d });
    assert_eq!(uart.early_send_byte(b'x')[1], RegOp::Write { reg: 0x00, value: b'x' as u32 });
    let ops = write_bytes(&uart, b"hi");
    assert_eq!(
        ops,
        vec![
            RegOp::WaitClear { reg: 0x18, mask: 0x20 },
            RegOp::Write { reg: 0x00, value: b'h' as u32 },
            RegOp::WaitClear { reg: 0x18, mask: 0x20 },
            RegOp::Write { reg: 0x00, value: b'i' as u32 },
        ]
    );
}

#[test]
fn early_console_turns_line_feeds_into_carriage_returns() {
    let uart = Uart::new(0x1000);
    let ops = early_write_bytes(&uart, b"a\nb");
    let sent: Vec<u32> = ops
        .iter()
        .filter_map(|op| match op {
            RegOp::Write { value, .. } => Some(*value),
            _ => None,
        })
        .collect();
    assert_eq!(sent, vec![b'a' as u32, b'\r' as u32, b'b' as u32]);
}

#[test]
fn receiving_bytes() {
    let uart = Uart::new(0x1000);
    assert_eq!(uart.try_receive(0x10, || panic!("data register read while empty")), None);
    assert_eq!(uart.try_receive(0x00, || 0x0000_0241), Some(0x41));
    assert!(!uart.rx_pending(0x10));
    assert!(uart.rx_pending(0x80));
    let mut buf = [0u8; 5];
    assert_eq!(read_step(&mut buf, 0, Some(1)), Some(1));
    assert_eq!(read_step(&mut buf, 1, Some(2)), Some(2));
    assert_eq!(read_step(&mut buf, 2, Some(3)), Some(3));
    assert_eq!(read_step(&mut buf, 3, None), None);
    assert_eq!(buf, [1, 2, 3, 0, 0]);
}

/// Reads like the console does: one step per received byte until the FIFO
/// is empty or the buffer is full.
fn read_all(bytes: &mut [u8], fifo: &[u8]) -> usize {
    let next = Cell::new(0usize);
    let rx = || {
        let i = next.get();
        next.set(i + 1);
        fifo.get(i).copied()
    };
    let mut n = 0;
    while n < bytes.len() {
        match read_step(bytes, n, rx()) {
            Some(m) => n = m,
            None => break,
        }
    }
    n
}

#[test]
fn console_read_keeps_fifo_order() {
    let mut buf = [9u8; 4];
    assert_eq!(read_all(&mut buf, &[7, 8]), 2);
    assert_eq!(buf, [7, 8, 9, 9]);
    let mut small = [0u8; 2];
    assert_eq!(read_all(&mut small, &[1, 2, 3]), 2);
    assert_eq!(small, [1, 2]);
}

#[test]
fn console_receive_interrupt() {
    let uart = Uart::new(0x1000);
    assert_eq!(
        uart.set_input_irq_enabled(true),
        RegOp::Modify { reg: 0x38, clear: 0, set: 0x10 }
    );
    assert_eq!(
        uart.set_input_irq_enabled(false),
        RegOp::Modify { reg: 0x38, clear: 0x10, set: 0 }
    );
    assert_eq!(uart.irq_ack(0x20), None);
    assert_eq!(uart.irq_ack(0x10), Some(RegOp::Write { reg: 0x44, value: 0x10 }));
    assert_eq!(uart.irq_event(Some(b'a' as u32)), ConsoleIrqEvent { rx_ready: true, rx_error: false });
    // A data byte with bits 1-3 set is no error; the flags live in bits 8-11.
    assert_eq!(uart.irq_event(Some(0x0e)), ConsoleIrqEvent { rx_ready: true, rx_error: false });
    assert_eq!(uart.irq_event(Some(0x141)), ConsoleIrqEvent { rx_ready: true, rx_error: true });
    assert_eq!(uart.irq_event(Some(0x841)), ConsoleIrqEvent { rx_ready: true, rx_error: true });
    assert_eq!(uart.irq_event(None), ConsoleIrqEvent { rx_ready: true, rx_error: false });
    assert_eq!(empty_event(), ConsoleIrqEvent { rx_ready: false, rx_error: false });
}

#[test]
fn watchdog_reboot() {
    assert_eq!(
        watchdog_reset(),
        vec![
            RegOp::Write { reg: 0xffff_0000_3f10_0024, value: 0x5a00_0001 },
            RegOp::Modify { reg: 0xffff_0000_3f10_001c, clear: 0xff00_00ff, set: 0x5a00_0020 },
        ]
    );
    // The request as stored, for a few values read back from PM_RSTC.
    let store = |old: u32| match watchdog_reset()[1] {
        RegOp::Modify { clear, set, .. } => (old & !clear) | set,
        _ => unreachable!(),
    };
    assert_eq!(store(0), 0x5a00_0020);
    assert_eq!(store(0xffff_ffff), 0x5aff_ff20);
    assert_eq!(store(0x1234_56cf), 0x5a34_5620);
}

#[test]
fn secondary_cpu_release() {
    assert_eq!(
        cpu_boot_shared(1, 0x8_1000),
        RegOp::Write { reg: 0xffff_0000_3f00_b090, value: 0x8_1000 }
    );
    assert_eq!(
        cpu_boot_shared(3, 0x1_0000_2000),
        RegOp::Write { reg: 0xffff_0000_3f00_b0b0, value: 0x2000 }
    );
}

#[test]
fn timer_conversions() {
    assert_eq!(timer_freq(0), 19_200_000);
    assert_eq!(timer_freq(54_000_000), 54_000_000);
    assert_eq!(cached_timer_freq(0, 0), 19_200_000);
    assert_eq!(cached_timer_freq(0, 54_000_000), 54_000_000);
    let f = cached_timer_freq(0, 54_000_000);
    assert_eq!(cached_timer_freq(f, 0), 54_000_000);
    assert_eq!(cached_timer_freq(f, 19_200_000), 54_000_000);
    assert_eq!(ticks_to_nanos_shared(19_200_000, 19_200_000), 1_000_000_000);
    assert_eq!(nanos_to_ticks_shared(1_000_000_000, 19_200_000), 19_200_000);
    assert_eq!(ticks_to_nanos_shared(1, 0), 0);
    assert_eq!(nanos_to_ticks_shared(1, 0), 0);
    let ticks = nanos_to_ticks_shared(1000, 19_200_000);
    assert_eq!(ticks, 19);
    assert_eq!(ticks_to_nanos_shared(ticks, 19_200_000), 989);
    assert_eq!(ticks_to_nanos_shared(u64::MAX, 1_000_000_000), u64::MAX);
}

#[test]
fn oneshot_intervals() {
    assert_eq!(oneshot_interval(5, 10), 5);
    assert_eq!(oneshot_interval(10, 5), 0);
    assert_eq!(oneshot_interval(7, 7), 0);
}

#[test]
fn memory_layout() {
    assert_eq!(phys_ram_ranges(), [(0, 0x2000_0000)]);
    assert_eq!(reserved_phys_ram_ranges(), [(0x0100_0000, 0x4_0000)]);
    assert_eq!(mmio_ranges(), [(0x3f00_0000, 0x100_0000)]);
    assert_eq!(kernel_aspace(), (0xffff_0000_0000_0000, 0x1_0000_0000));
    assert_eq!(phys_to_virt(0x8_0000), 0xffff_0000_0008_0000);
    assert_eq!(virt_to_phys(0xffff_0000_3f20_1000), 0x3f20_1000);
    assert_eq!(virt_to_phys(phys_to_virt(0x1234)), 0x1234);
    assert!(dcache_range_cleans(DCacheOp::Clean));
    assert!(dcache_range_cleans(DCacheOp::CleanInvalidate));
    assert!(!dcache_range_cleans(DCacheOp::Invalidate));
}

#[test]
fn cpu_topology() {
    assert_eq!(resolve_cpu_index(0), Some(0));
    assert_eq!(resolve_cpu_index(3), Some(3));
    assert_eq!(resolve_cpu_index(4), None);
    assert_eq!(platform_name(), "bcm2837-zero2w");
}

#[test]
fn legacy_irq_numbers_are_classified() {
    assert_eq!(legacy_irq_kind(96), LegacyIrqKind::Timer);
    assert_eq!(legacy_irq_kind(0), LegacyIrqKind::Peripheral);
    assert_eq!(legacy_irq_kind(95), LegacyIrqKind::Peripheral);
    assert_eq!(legacy_irq_kind(97), LegacyIrqKind::Invalid);
    assert_eq!(legacy_irq_kind(usize::MAX), LegacyIrqKind::Invalid);
}
