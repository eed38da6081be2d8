//! Raspberry Pi firmware mailbox, property channel (clock requests).
//!
//! The GPU firmware owns the clock tree on BCM283x; the V3D clock and the
//! HDMI pixel clocks are set through the mailbox `CLOCK_SET_RATE` request
//! rather than by programming CPRMAN directly. A request is a buffer of
//! 32-bit words in normal memory; the driver cleans it from the CPU cache,
//! writes its bus address (with the channel in the low 4 bits) to the
//! mailbox, waits for the reply carrying the same address, invalidates the
//! cache, and reads the result back from the buffer.
//!
//! This module holds the decisions and the buffer layout; register accesses
//! are relative to [`MBOX_BASE`].

use vstd::prelude::*;
use crate::regops::RegOp;

verus! {

pub const MBOX_BASE: usize = 0x3f00_b880;
pub const MBOX_READ: usize = 0x00;
pub const MBOX_STATUS: usize = 0x18;
pub const MBOX_WRITE: usize = 0x20;

pub const MBOX_STATUS_EMPTY: u32 = 1 << 30;
pub const MBOX_STATUS_FULL: u32 = 1 << 31;

/// Property channel (channel 8) used for firmware requests.
pub const MBOX_CH_PROPERTY: u32 = 8;

pub const TAG_CLOCK_SET_RATE: u32 = 0x0003_8002;
pub const TAG_END: u32 = 0;

/// V3D clock id for the firmware clock manager.
pub const CLK_V3D: u32 = 5;

/// Words in the request buffer.
pub const REQ_BUF_WORDS: usize = 32;

/// The word written to the mailbox for a request buffer at bus address
/// `addr` on `channel`: the address with its low 4 bits replaced by the
/// channel.
pub open spec fn request_word(addr: usize, channel: u32) -> u32 {
    ((addr as u32) & 0xffff_fff0) | channel
}

/// Waits until the mailbox is writable, then submits the request buffer at
/// bus address `addr` on `channel`.
pub fn write_request(addr: usize, channel: u32) -> (ops: Vec<RegOp>)
    ensures
        ops@ == seq![
            RegOp::WaitClear { reg: MBOX_STATUS, mask: MBOX_STATUS_FULL },
            RegOp::Write { reg: MBOX_WRITE, value: request_word(addr, channel) },
        ],
{
    let ops = vec![
        RegOp::WaitClear { reg: MBOX_STATUS, mask: MBOX_STATUS_FULL },
        RegOp::Write { reg: MBOX_WRITE, value: ((addr as u32) & 0xffff_fff0) | channel },
    ];
    assert(ops@ =~= seq![
        RegOp::WaitClear { reg: MBOX_STATUS, mask: MBOX_STATUS_FULL },
        RegOp::Write { reg: MBOX_WRITE, value: request_word(addr, channel) },
    ]);
    ops
}

/// The wait that precedes each read of a reply: until the mailbox holds a
/// message.
pub fn response_wait() -> (op: RegOp)
    ensures
        op == (RegOp::WaitClear { reg: MBOX_STATUS, mask: MBOX_STATUS_EMPTY }),
{
    RegOp::WaitClear { reg: MBOX_STATUS, mask: MBOX_STATUS_EMPTY }
}

/// Examines a message `value` read from the mailbox: a reply on `channel`
/// yields its buffer address (the high 28 bits); a message for another
/// channel is skipped (`None`) and the caller reads the next one.
pub fn read_response(value: u32, channel: u32) -> (addr: Option<usize>)
    ensures
        addr == (if value & 0xf == channel {
            Some((value & 0xffff_fff0) as usize)
        } else {
            None
        }),
{
    if value & 0xf == channel {
        Some((value & 0xffff_fff0) as usize)
    } else {
        None
    }
}

/// A reply that carries the request's buffer address on the request's
/// channel is recognized, and yields the address the request was sent with
/// (to 16-byte granularity).
pub proof fn lemma_request_reply_roundtrip(addr: usize, channel: u32)
    requires
        channel < 16,
    ensures
        request_word(addr, channel) & 0xf == channel,
        request_word(addr, channel) & 0xffff_fff0 == (addr as u32) & 0xffff_fff0,
{
    let a = addr as u32;
    assert(((a & 0xffff_fff0) | channel) & 0xf == channel) by (bit_vector)
        requires
            channel < 16,
    ;
    assert(((a & 0xffff_fff0) | channel) & 0xffff_fff0 == a & 0xffff_fff0) by (bit_vector)
        requires
            channel < 16,
    ;
}

/// The data cache line size in bytes, from the `CTR_EL0` register value
/// (its low 4 bits are log2 of the line size in words).
pub fn cache_line_size(ctr: u64) -> (line: usize)
    ensures
        line == 4 * vstd::arithmetic::power2::pow2((ctr & 0xf) as nat),
{
    let k = ctr & 0xf;
    assert(k < 16) by (bit_vector)
        requires
            k == ctr & 0xf,
    ;
    proof {
        vstd::arithmetic::power2::lemma_pow2_strictly_increases(k as nat, 16);
        vstd::arithmetic::power2::lemma2_to64();
        vstd::bits::lemma_u64_shl_is_mul(4, k);
        vstd::arithmetic::power2::lemma_pow2_pos(k as nat);
    }
    assert(4 * vstd::arithmetic::power2::pow2(k as nat) <= 4 * 0x8000);
    ((4u64 << k) as usize)
}

/// Whether byte address `b` lies in one of the lines starting at `lines`.
pub open spec fn in_some_line(lines: Seq<usize>, line: usize, b: int) -> bool {
    exists|i: int| 0 <= i < lines.len() && #[trigger] lines[i] <= b < lines[i] + line
}

/// The start addresses of the cache lines a maintenance loop visits for
/// `[addr, addr + size)` with lines of `line` bytes: from `addr` rounded
/// down with the mask `!(line - 1)`, in steps of `line`, while below the
/// range end.
pub fn cache_line_addrs(addr: usize, size: usize, line: usize) -> (lines: Vec<usize>)
    requires
        line > 0,
        addr + size + line <= usize::MAX,
    ensures
        forall|i: int|
            0 <= i < lines@.len() ==> lines@[i] == (addr & !((line - 1) as usize)) + i * line,
        (addr & !((line - 1) as usize)) + lines@.len() * line >= addr + size,
        lines@.len() == 0 || (addr & !((line - 1) as usize)) + (lines@.len() - 1) * line < addr
            + size,
        forall|b: int| addr <= b < addr + size ==> #[trigger] in_some_line(lines@, line, b),
{
    let start = addr & !(line - 1);
    let m = !(line - 1);
    assert(addr & m <= addr) by (bit_vector);
    let end = addr + size;
    let mut a = start;
    let mut lines: Vec<usize> = Vec::new();
    assert(start + lines@.len() * line == start) by (nonlinear_arith)
        requires
            lines@.len() == 0,
    ;
    while a < end
        invariant
            line > 0,
            start <= addr,
            end == addr + size,
            end + line <= usize::MAX,
            a == start + lines@.len() * line,
            a < end + line,
            lines@.len() == 0 || start + (lines@.len() - 1) * line < end,
            forall|i: int| 0 <= i < lines@.len() ==> lines@[i] == start + i * line,
        decreases end + line - a,
    {
        lines.push(a);
        assert(start + (lines@.len() - 1) * line == a);
        a = a + line;
        assert(a == start + lines@.len() * line) by (nonlinear_arith)
            requires
                a == start + (lines@.len() - 1) * line + line,
        ;
    }
    assert forall|b: int| addr <= b < addr + size implies #[trigger] in_some_line(lines@, line, b) by {
        let i = (b - start) / (line as int);
        let n = lines@.len() as int;
        assert(0 <= i < n && start + i * line <= b < start + i * line + line) by (nonlinear_arith)
            requires
                start <= addr <= b,
                b < start + n * line,
                line > 0,
                i == (b - start) / (line as int),
        {
            vstd::arithmetic::div_mod::lemma_fundamental_div_mod(b - start, line as int);
            vstd::arithmetic::div_mod::lemma_div_pos_is_pos(b - start, line as int);
            assert((b - start) < n * line);
            vstd::arithmetic::div_mod::lemma_div_by_multiple_is_strongly_ordered(b - start, n * line, n, line as int);
        }
        assert(lines@[i] == start + i * line);
    }
    lines
}

/// A firmware property-channel request: the buffer words and the length in
/// bytes that the buffer header announces.
pub struct PropertyRequest {
    pub words: Vec<u32>,
    pub total_bytes: usize,
}

/// Word `i` of the request buffer for a single tag `tag_id` with value
/// words `data`: the buffer size (header, tag header, values and end tag),
/// the request code 0, the tag id, the value buffer size twice (the second
/// copy, bit 31 clear, marks a request), the values, the end tag at index
/// `5 + data.len()`, and zeroes after it.
pub open spec fn property_word(tag_id: u32, data: Seq<u32>, i: int) -> u32 {
    let n = data.len() as int;
    if i == 0 {
        ((6 + n) * 4) as u32
    } else if i == 1 {
        0
    } else if i == 2 {
        tag_id
    } else if i == 3 || i == 4 {
        (n * 4) as u32
    } else if i < 5 + n {
        data[i - 5]
    } else if i == 5 + n {
        TAG_END
    } else {
        0
    }
}

/// The whole request buffer.
pub open spec fn property_words(tag_id: u32, data: Seq<u32>) -> Seq<u32> {
    Seq::new(REQ_BUF_WORDS as nat, |i: int| property_word(tag_id, data, i))
}

/// Fills a request buffer for a single tag.
pub fn property_request(tag_id: u32, data: &[u32]) -> (req: PropertyRequest)
    requires
        data@.len() + 6 <= REQ_BUF_WORDS,
    ensures
        req.words@ == property_words(tag_id, data@),
        req.total_bytes == (6 + data@.len()) * 4,
{
    let n = data.len();
    let total_bytes = (6 + n) * 4;
    let mut req: Vec<u32> = Vec::new();
    let mut i: usize = 0;
    while i < REQ_BUF_WORDS
        invariant
            n == data@.len(),
            n + 6 <= REQ_BUF_WORDS,
            total_bytes == (6 + n) * 4,
            i <= REQ_BUF_WORDS,
            req@.len() == i,
            forall|j: int| 0 <= j < i ==> req@[j] == property_word(tag_id, data@, j),
        decreases REQ_BUF_WORDS - i,
    {
        let w = if i == 0 {
            total_bytes as u32
        } else if i == 1 {
            0
        } else if i == 2 {
            tag_id
        } else if i == 3 || i == 4 {
            (n * 4) as u32
        } else if i < 5 + n {
            data[i - 5]
        } else if i == 5 + n {
            TAG_END
        } else {
            0
        };
        req.push(w);
        i = i + 1;
    }
    assert(req@ =~= property_words(tag_id, data@));
    PropertyRequest { words: req, total_bytes }
}

/// Prepares the request that asks the firmware to set clock `clock_id` to
/// `rate_hz` (values: clock id, rate, skip-turbo flag 0).
pub fn set_clock_rate(clock_id: u32, rate_hz: u32) -> (req: PropertyRequest)
    ensures
        req.words@ == property_words(TAG_CLOCK_SET_RATE, seq![clock_id, rate_hz, 0u32]),
        req.total_bytes == 36,
{
    let data = [clock_id, rate_hz, 0u32];
    assert(data@ =~= seq![clock_id, rate_hz, 0u32]);
    property_request(TAG_CLOCK_SET_RATE, &data)
}

/// The outcome of a property call: the reply must carry the request
/// buffer's address, and the firmware reports success in the high bit of
/// word 4 of the buffer as read back after the reply.
pub fn property_succeeded(reply_addr: usize, buf_addr: usize, words: &[u32]) -> (ok: bool)
    requires
        words@.len() > 4,
    ensures
        ok == (reply_addr == buf_addr && words@[4] & 0x8000_0000 != 0),
{
    if reply_addr != buf_addr {
        return false;
    }
    words[4] & 0x8000_0000 != 0
}

} // verus!
