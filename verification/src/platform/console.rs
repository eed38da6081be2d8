//! PL011 UART0 console for the Raspberry Pi Zero 2W.
//!
//! PL011 register map (BCM2835 ARM Peripherals, section 13): DR 0x00, FR
//! 0x18, IBRD 0x24, FBRD 0x28, LCRH 0x2c, CR 0x30, IFLS 0x34, IMSC 0x38,
//! MIS 0x40, ICR 0x44. The firmware configures the UART clock (48 MHz);
//! initializing at 115200 baud keeps the console working if firmware left
//! the UART disabled or misconfigured. Register accesses are relative to
//! the UART base; reads of the data register, which pop the receive FIFO,
//! are made through the caller's closure only when a byte is available.

use vstd::prelude::*;
use crate::regops::RegOp;
use super::config::{PHYS_VIRT_OFFSET, UART0_PADDR};

verus! {

// PL011 registers (byte offsets).
pub const PL011_DR: usize = 0x00;
pub const PL011_FR: usize = 0x18;
pub const PL011_IBRD: usize = 0x24;
pub const PL011_FBRD: usize = 0x28;
pub const PL011_LCRH: usize = 0x2c;
pub const PL011_CR: usize = 0x30;
pub const PL011_IMSC: usize = 0x38;
pub const PL011_MIS: usize = 0x40;
pub const PL011_ICR: usize = 0x44;

/// Transmit FIFO full.
pub const FR_TXFF: u32 = 1 << 5;
/// Receive FIFO empty.
pub const FR_RXFE: u32 = 1 << 4;
pub const FR_BUSY: u32 = 1 << 3;

pub const LCRH_WLEN_8: u32 = 0b11 << 5;
pub const LCRH_FEN: u32 = 1 << 4;
pub const CR_UARTEN: u32 = 1 << 0;
pub const CR_TXE: u32 = 1 << 8;
pub const CR_RXE: u32 = 1 << 9;
/// Receive interrupt mask.
pub const IMSC_RXIM: u32 = 1 << 4;
/// Receive error flags of the data register: framing (bit 8), parity
/// (bit 9), break (bit 10) and overrun (bit 11).
pub const DR_ERROR_FLAGS: u32 = 0xf00;

/// Virtual address of UART0 in the linear mapping.
pub const UART0_VADDR: u64 = PHYS_VIRT_OFFSET + 0x3f20_1000;

/// The accesses that (re)initialize the UART: disabled while 115200 baud
/// 8N1 with FIFOs is programmed (48 MHz / (16 * 115200) = 26 + 3/64),
/// interrupts masked and cleared, then enabled for transmit and receive.
pub open spec fn init_ops() -> Seq<RegOp> {
    seq![
        RegOp::Write { reg: PL011_CR, value: 0 },
        RegOp::Write { reg: PL011_IBRD, value: 26 },
        RegOp::Write { reg: PL011_FBRD, value: 3 },
        RegOp::Write { reg: PL011_LCRH, value: LCRH_WLEN_8 | LCRH_FEN },
        RegOp::Write { reg: PL011_IMSC, value: 0 },
        RegOp::Write { reg: PL011_ICR, value: 0x7ff },
        RegOp::Write { reg: PL011_CR, value: CR_UARTEN | CR_TXE | CR_RXE },
    ]
}

/// The accesses that send one byte: wait for room in the transmit FIFO,
/// then write the data register.
pub open spec fn send_ops(byte: u8) -> Seq<RegOp> {
    seq![RegOp::WaitClear { reg: PL011_FR, mask: FR_TXFF }, RegOp::Write { reg: PL011_DR, value: byte as u32 }]
}

/// The accesses that send `bytes` in order.
pub open spec fn write_ops(bytes: Seq<u8>) -> Seq<RegOp>
    decreases bytes.len(),
{
    if bytes.len() == 0 {
        Seq::empty()
    } else {
        write_ops(bytes.drop_last()) + send_ops(bytes.last())
    }
}

/// The early console sends a carriage return in place of each line feed.
pub open spec fn early_byte(b: u8) -> u8 {
    if b == 0x0a {
        0x0d
    } else {
        b
    }
}

/// What the console reports for a receive interrupt.
#[derive(Clone, Copy, Debug, PartialEq, Eq, Structural)]
pub struct ConsoleIrqEvent {
    pub rx_ready: bool,
    pub rx_error: bool,
}

/// The PL011 UART.
pub struct Uart {
    base: u64,
}

impl Uart {
    /// The UART's base address.
    pub closed spec fn spec_base(&self) -> u64 {
        self.base
    }

    /// A UART at `base`.
    pub fn new(base: u64) -> (uart: Self)
        ensures
            uart.spec_base() == base,
    {
        Self { base }
    }

    /// The console UART0, in the linear mapping.
    pub fn console() -> (uart: Self)
        ensures
            uart.spec_base() == UART0_PADDR + PHYS_VIRT_OFFSET,
    {
        Self { base: (UART0_PADDR as u64) + PHYS_VIRT_OFFSET }
    }

    /// The UART's base address.
    pub fn base(&self) -> (base: u64)
        ensures
            base == self.spec_base(),
    {
        self.base
    }

    /// Initializes the UART (see [`init_ops`]).
    pub fn init(&self) -> (ops: [RegOp; 7])
        ensures
            ops@ == init_ops(),
    {
        let ops = [
            // Disable the UART before programming the line configuration.
            RegOp::Write { reg: PL011_CR, value: 0 },
            // 115200 baud from a 48 MHz UART clock: IBRD = 26, FBRD = 3.
            RegOp::Write { reg: PL011_IBRD, value: 26 },
            RegOp::Write { reg: PL011_FBRD, value: 3 },
            RegOp::Write { reg: PL011_LCRH, value: LCRH_WLEN_8 | LCRH_FEN },
            RegOp::Write { reg: PL011_IMSC, value: 0 },
            RegOp::Write { reg: PL011_ICR, value: 0x7ff },
            RegOp::Write { reg: PL011_CR, value: CR_UARTEN | CR_TXE | CR_RXE },
        ];
        assert(ops@ =~= init_ops());
        ops
    }

    /// Sends one byte.
    pub fn send_byte(&self, byte: u8) -> (ops: [RegOp; 2])
        ensures
            ops@ == send_ops(byte),
    {
        let ops = [
            RegOp::WaitClear { reg: PL011_FR, mask: FR_TXFF },
            RegOp::Write { reg: PL011_DR, value: byte as u32 },
        ];
        assert(ops@ =~= send_ops(byte));
        ops
    }

    /// Receives a byte if one is available: `fr` is the flag register;
    /// when the receive FIFO is not empty, the data register is read with
    /// `read_dr` and its low 8 bits returned.
    pub fn try_receive<F: Fn() -> u32>(&self, fr: u32, read_dr: F) -> (byte: Option<u8>)
        requires
            read_dr.requires(()),
        ensures
            fr & FR_RXFE != 0 ==> byte is None,
            fr & FR_RXFE == 0 ==> exists|dr: u32|
                read_dr.ensures((), dr) && byte == Some((dr & 0xff) as u8),
    {
        if fr & FR_RXFE != 0 {
            None
        } else {
            let dr = read_dr();
            Some((dr & 0xff) as u8)
        }
    }

    /// The accesses the early console makes for one byte: a line feed goes
    /// out as a carriage return.
    pub fn early_send_byte(&self, byte: u8) -> (ops: [RegOp; 2])
        ensures
            ops@ == send_ops(early_byte(byte)),
    {
        let out = if byte == 0x0a {
            0x0d
        } else {
            byte
        };
        self.send_byte(out)
    }

    /// Waits until the UART is idle.
    pub fn flush(&self) -> (ops: Vec<RegOp>)
        ensures
            ops@ == seq![RegOp::WaitClear { reg: PL011_FR, mask: FR_BUSY }],
    {
        let ops = vec![RegOp::WaitClear { reg: PL011_FR, mask: FR_BUSY }];
        assert(ops@ =~= seq![RegOp::WaitClear { reg: PL011_FR, mask: FR_BUSY }]);
        ops
    }

    /// Unmasks (or masks) the receive interrupt.
    pub fn set_input_irq_enabled(&self, enabled: bool) -> (op: RegOp)
        ensures
            op == (if enabled {
                RegOp::Modify { reg: PL011_IMSC, clear: 0, set: IMSC_RXIM }
            } else {
                RegOp::Modify { reg: PL011_IMSC, clear: IMSC_RXIM, set: 0 }
            }),
    {
        if enabled {
            RegOp::Modify { reg: PL011_IMSC, clear: 0, set: IMSC_RXIM }
        } else {
            RegOp::Modify { reg: PL011_IMSC, clear: IMSC_RXIM, set: 0 }
        }
    }

    /// First step of the receive interrupt, given the masked interrupt
    /// status `mis`: `None` when no receive interrupt is pending (nothing
    /// to report), otherwise the access that acknowledges it.
    pub fn irq_ack(&self, mis: u32) -> (op: Option<RegOp>)
        ensures
            op == (if mis & IMSC_RXIM == 0 {
                None
            } else {
                Some(RegOp::Write { reg: PL011_ICR, value: IMSC_RXIM })
            }),
    {
        if mis & IMSC_RXIM == 0 {
            None
        } else {
            Some(RegOp::Write { reg: PL011_ICR, value: IMSC_RXIM })
        }
    }

    /// Second step of an acknowledged receive interrupt, given the data
    /// register as read for the character then received (if any): input is
    /// ready, and an error is reported when the data register carries one
    /// of its receive error flags (framing, parity, break, overrun).
    pub fn irq_event(&self, dr: Option<u32>) -> (event: ConsoleIrqEvent)
        ensures
            event.rx_ready,
            event.rx_error == (dr matches Some(d) && d & DR_ERROR_FLAGS != 0),
    {
        let mut event = ConsoleIrqEvent { rx_ready: true, rx_error: false };
        if let Some(d) = dr {
            if d & DR_ERROR_FLAGS != 0 {
                event.rx_error = true;
            }
        }
        event
    }

    /// Whether the receive FIFO holds a character, given the flag register.
    pub fn rx_pending(&self, fr: u32) -> (pending: bool)
        ensures
            pending == (fr & FR_RXFE == 0),
    {
        fr & FR_RXFE == 0
    }
}

/// The event for a spurious console interrupt.
pub fn empty_event() -> (event: ConsoleIrqEvent)
    ensures
        !event.rx_ready && !event.rx_error,
{
    ConsoleIrqEvent { rx_ready: false, rx_error: false }
}

/// Writes bytes to the console.
pub fn write_bytes(uart: &Uart, bytes: &[u8]) -> (ops: Vec<RegOp>)
    ensures
        ops@ == write_ops(bytes@),
{
    let mut ops: Vec<RegOp> = Vec::new();
    let mut i: usize = 0;
    while i < bytes.len()
        invariant
            i <= bytes@.len(),
            ops@ == write_ops(bytes@.take(i as int)),
        decreases bytes@.len() - i,
    {
        let send = uart.send_byte(bytes[i]);
        ops.push(send[0]);
        ops.push(send[1]);
        assert(bytes@.take(i + 1).drop_last() =~= bytes@.take(i as int));
        i = i + 1;
    }
    assert(bytes@.take(bytes@.len() as int) =~= bytes@);
    ops
}

/// Writes a string to the console before it is initialized, sending a
/// carriage return for each line feed.
pub fn early_write_bytes(uart: &Uart, bytes: &[u8]) -> (ops: Vec<RegOp>)
    ensures
        ops@ == write_ops(bytes@.map_values(|b: u8| early_byte(b))),
{
    let mut ops: Vec<RegOp> = Vec::new();
    let ghost mapped = bytes@.map_values(|b: u8| early_byte(b));
    let mut i: usize = 0;
    while i < bytes.len()
        invariant
            i <= bytes@.len(),
            mapped == bytes@.map_values(|b: u8| early_byte(b)),
            ops@ == write_ops(mapped.take(i as int)),
        decreases bytes@.len() - i,
    {
        let send = uart.early_send_byte(bytes[i]);
        ops.push(send[0]);
        ops.push(send[1]);
        assert(mapped.take(i + 1).drop_last() =~= mapped.take(i as int));
        i = i + 1;
    }
    assert(mapped.take(bytes@.len() as int) =~= mapped);
    ops
}


/// One step of reading console input into `bytes`, `read` bytes in so
/// far, given what the receive FIFO gave (`None` when it was empty): a
/// received byte is stored at position `read` and the count advances; an
/// empty FIFO ends the read, leaving the buffer as it was. Reading stops
/// when the buffer is full, before receiving again.
pub fn read_step(bytes: &mut [u8], read: usize, rx: Option<u8>) -> (next: Option<usize>)
    requires
        read < old(bytes)@.len(),
    ensures
        match rx {
            Some(b) => next == Some((read + 1) as usize) && final(bytes)@ == old(bytes)@.update(
                read as int,
                b,
            ),
            None => next is None && final(bytes)@ == old(bytes)@,
        },
{
    match rx {
        Some(b) => {
            bytes[read] = b;
            Some(read + 1)
        },
        None => None,
    }
}

/// Reading byte by byte copies what was received, in order: after `k`
/// steps that each received a byte, starting from count 0, the buffer
/// holds the `k` received bytes at its start and is unchanged after them.
pub proof fn lemma_read_steps_copy_in_order(buf: Seq<u8>, received: Seq<u8>)
    requires
        received.len() <= buf.len(),
    ensures
        read_steps(buf, received).len() == buf.len(),
        read_steps(buf, received).take(received.len() as int) == received,
        read_steps(buf, received).skip(received.len() as int) == buf.skip(received.len() as int),
    decreases received.len(),
{
    if received.len() > 0 {
        let r = received.drop_last();
        lemma_read_steps_copy_in_order(buf, r);
        let prev = read_steps(buf, r);
        let next = prev.update(r.len() as int, received.last());
        assert forall|i: int| 0 <= i < received.len() implies next.take(received.len() as int)[i]
            == received[i] by {
            if i < r.len() {
                assert(prev.take(r.len() as int)[i] == r[i]);
            }
        }
        assert(next.take(received.len() as int) =~= received);
        assert(next.skip(received.len() as int) =~= buf.skip(received.len() as int)) by {
            assert forall|i: int| 0 <= i < buf.len() - received.len() implies next.skip(
                received.len() as int,
            )[i] == buf.skip(received.len() as int)[i] by {
                assert(prev.skip(r.len() as int)[i + 1] == buf.skip(r.len() as int)[i + 1]);
            }
        }
    }
}

/// The buffer after storing `received` with successive [`read_step`]
/// calls, starting from count 0.
pub open spec fn read_steps(buf: Seq<u8>, received: Seq<u8>) -> Seq<u8>
    decreases received.len(),
{
    if received.len() == 0 {
        buf
    } else {
        read_steps(buf, received.drop_last()).update(received.len() - 1, received.last())
    }
}

} // verus!
