//! Command list builders for the V3D binner and render control lists.
//!
//! The V3D executes two control lists per frame:
//!
//! * the **bin control list** (BCL), run by the binner thread: bins
//!   primitives into per-tile sub-lists and initializes the tile state
//!   (clear colors);
//! * the **render control list** (RCL), run by the render thread: iterates
//!   tiles, branches to the binner's per-tile sub-lists, and stores the
//!   tile buffers to the framebuffer.
//!
//! This module builds both for the "clear" job shape, plus a halt-only list.
//! Each builder writes a prefix of the caller's buffer and returns its
//! length; the bytes it writes are given exactly by [`clear_bcl`],
//! [`bin_rcl`] and [`halt_cl`].

use vstd::prelude::*;
use super::regs::{
    PACKET_BRANCH_TO_SUB_LIST, PACKET_FLUSH, PACKET_HALT, PACKET_INCREMENT_SEMAPHORE,
    PACKET_START_TILE_BINNING, PACKET_STORE_MS_TILE_BUFFER, PACKET_STORE_MS_TILE_BUFFER_AND_EOF,
    PACKET_TILE_BINNING_MODE_CONFIG, PACKET_TILE_COORDINATES, PACKET_WAIT_ON_SEMAPHORE, TILE_SIZE,
};

verus! {

/// The four little-endian bytes of `v`.
pub open spec fn le32(v: u32) -> Seq<u8> {
    seq![(v & 0xff) as u8, ((v >> 8) & 0xff) as u8, ((v >> 16) & 0xff) as u8, ((v >> 24) & 0xff) as u8]
}

/// The number of tiles of side `TILE_SIZE` covering `size` pixels.
pub open spec fn spec_tiles_for(size: int) -> int {
    (size + TILE_SIZE - 1) / TILE_SIZE as int
}

/// Returns the number of 32x32 tiles covering `size` pixels.
pub fn tiles_for(size: u32) -> (n: u32)
    requires
        size + TILE_SIZE - 1 <= u32::MAX,
    ensures
        n == spec_tiles_for(size as int),
        n * TILE_SIZE >= size,
        size == 0 || (n - 1) * TILE_SIZE < size,
{
    (size + (TILE_SIZE - 1)) / TILE_SIZE
}

/// Size in bytes of the tile state array (48 bytes per tile).
pub fn tile_state_size(tiles_x: u32, tiles_y: u32) -> (n: usize)
    requires
        48 * (tiles_x as int) <= usize::MAX,
        48 * (tiles_x as int) * (tiles_y as int) <= usize::MAX,
    ensures
        n == 48 * (tiles_x as int) * (tiles_y as int),
{
    48 * (tiles_x as usize) * (tiles_y as usize)
}

/// Size in bytes of the tile alloc area (32 bytes of bin list header per
/// tile).
pub fn tile_alloc_size(tiles_x: u32, tiles_y: u32) -> (n: usize)
    requires
        32 * (tiles_x as int) <= usize::MAX,
        32 * (tiles_x as int) * (tiles_y as int) <= usize::MAX,
    ensures
        n == 32 * (tiles_x as int) * (tiles_y as int),
{
    32 * (tiles_x as usize) * (tiles_y as usize)
}

/// Binner flags: auto-init the tile state array and use 32-byte initial /
/// 128-byte overflow allocation blocks (matching the kernel driver).
pub const BIN_CONFIG_FLAGS: u8 = (2 << 5) | (0 << 3) | (1 << 2);

/// Appends `v` at `p`, the end of what has been written so far (`w`) over
/// the buffer's original contents `o`.
fn emit(buf: &mut [u8], p: usize, v: u8, Ghost(w): Ghost<Seq<u8>>, Ghost(o): Ghost<Seq<u8>>) -> (q: usize)
    requires
        old(buf)@ == w + o.skip(p as int),
        w.len() == p,
        p < o.len(),
    ensures
        final(buf)@ == w.push(v) + o.skip(q as int),
        q == p + 1,
{
    buf[p] = v;
    assert(buf@ =~= w.push(v) + o.skip(p + 1));
    p + 1
}

/// Appends the little-endian bytes of `v` at `p`.
fn emit_le32(buf: &mut [u8], p: usize, v: u32, Ghost(w): Ghost<Seq<u8>>, Ghost(o): Ghost<Seq<u8>>) -> (q: usize)
    requires
        old(buf)@ == w + o.skip(p as int),
        w.len() == p,
        p + 4 <= o.len(),
    ensures
        final(buf)@ == (w + le32(v)) + o.skip(q as int),
        q == p + 4,
{
    let q = emit(buf, p, (v & 0xff) as u8, Ghost(w), Ghost(o));
    let q = emit(buf, q, ((v >> 8) & 0xff) as u8, Ghost(w.push((v & 0xff) as u8)), Ghost(o));
    let q = emit(
        buf,
        q,
        ((v >> 16) & 0xff) as u8,
        Ghost(w.push((v & 0xff) as u8).push(((v >> 8) & 0xff) as u8)),
        Ghost(o),
    );
    let q = emit(
        buf,
        q,
        ((v >> 24) & 0xff) as u8,
        Ghost(w.push((v & 0xff) as u8).push(((v >> 8) & 0xff) as u8).push(((v >> 16) & 0xff) as u8)),
        Ghost(o),
    );
    assert(w.push((v & 0xff) as u8).push(((v >> 8) & 0xff) as u8).push(((v >> 16) & 0xff) as u8).push(
        ((v >> 24) & 0xff) as u8,
    ) =~= w + le32(v));
    q
}

/// The bin control list of a frame with no draw calls (clear only).
pub open spec fn clear_bcl(
    tile_state_addr: u32,
    tile_alloc_addr: u32,
    tile_alloc_size: u32,
    tiles_x: u32,
    tiles_y: u32,
) -> Seq<u8> {
    seq![PACKET_START_TILE_BINNING, PACKET_TILE_BINNING_MODE_CONFIG] + le32(tile_alloc_addr) + le32(
        tile_alloc_size,
    ) + le32(tile_state_addr) + seq![
        tiles_x as u8,
        tiles_y as u8,
        BIN_CONFIG_FLAGS,
        PACKET_INCREMENT_SEMAPHORE,
        PACKET_FLUSH,
    ]
}

/// Length of the clear-only bin control list.
pub const CLEAR_BCL_LEN: usize = 19;

/// Builds the bin control list for a frame with no draw calls (clear only).
///
/// `tile_state_addr` / `tile_alloc_addr` are the GPU bus addresses of the
/// tile state array and the tile alloc buffer; the binner writes the clear
/// state and empty sub-lists there. The list ends with
/// `INCREMENT_SEMAPHORE` then `FLUSH`. Returns the number of bytes written.
pub fn build_clear_bcl(
    bcl: &mut [u8],
    tile_state_addr: u32,
    tile_alloc_addr: u32,
    tile_alloc_size: u32,
    tiles_x: u32,
    tiles_y: u32,
) -> (n: usize)
    requires
        old(bcl)@.len() >= CLEAR_BCL_LEN,
    ensures
        n == CLEAR_BCL_LEN,
        final(bcl)@ == clear_bcl(tile_state_addr, tile_alloc_addr, tile_alloc_size, tiles_x, tiles_y)
            + old(bcl)@.skip(n as int),
{
    let ghost o = bcl@;
    assert(bcl@ =~= Seq::<u8>::empty() + o.skip(0));
    let p = 0usize;
    let p = emit(bcl, p, PACKET_START_TILE_BINNING, Ghost(Seq::empty()), Ghost(o));
    let ghost w1 = seq![PACKET_START_TILE_BINNING];
    assert(Seq::<u8>::empty().push(PACKET_START_TILE_BINNING) =~= w1);
    let p = emit(bcl, p, PACKET_TILE_BINNING_MODE_CONFIG, Ghost(w1), Ghost(o));
    let ghost w2 = w1.push(PACKET_TILE_BINNING_MODE_CONFIG);
    let p = emit_le32(bcl, p, tile_alloc_addr, Ghost(w2), Ghost(o));
    let ghost w3 = w2 + le32(tile_alloc_addr);
    let p = emit_le32(bcl, p, tile_alloc_size, Ghost(w3), Ghost(o));
    let ghost w4 = w3 + le32(tile_alloc_size);
    let p = emit_le32(bcl, p, tile_state_addr, Ghost(w4), Ghost(o));
    let ghost w5 = w4 + le32(tile_state_addr);
    let p = emit(bcl, p, tiles_x as u8, Ghost(w5), Ghost(o));
    let ghost w6 = w5.push(tiles_x as u8);
    let p = emit(bcl, p, tiles_y as u8, Ghost(w6), Ghost(o));
    let ghost w7 = w6.push(tiles_y as u8);
    let p = emit(bcl, p, BIN_CONFIG_FLAGS, Ghost(w7), Ghost(o));
    let ghost w8 = w7.push(BIN_CONFIG_FLAGS);
    // The bin CL must end with INCREMENT_SEMAPHORE then FLUSH.
    let p = emit(bcl, p, PACKET_INCREMENT_SEMAPHORE, Ghost(w8), Ghost(o));
    let ghost w9 = w8.push(PACKET_INCREMENT_SEMAPHORE);
    let p = emit(bcl, p, PACKET_FLUSH, Ghost(w9), Ghost(o));
    assert(w9.push(PACKET_FLUSH) =~= clear_bcl(
        tile_state_addr,
        tile_alloc_addr,
        tile_alloc_size,
        tiles_x,
        tiles_y,
    ));
    p
}

/// Bus address of the binner's sub-list header for tile `(x, y)`.
pub open spec fn sub_list_addr(tile_alloc_addr: u32, tiles_x: u32, x: int, y: int) -> u32 {
    (tile_alloc_addr + (y * tiles_x + x) * 32) as u32
}

/// The render control list packets for tile `(x, y)`.
pub open spec fn rcl_tile(
    tile_alloc_addr: u32,
    tiles_x: u32,
    tiles_y: u32,
    has_bin: bool,
    x: int,
    y: int,
) -> Seq<u8> {
    seq![PACKET_TILE_COORDINATES, x as u8, y as u8] + (if has_bin && x == 0 && y == 0 {
        seq![PACKET_WAIT_ON_SEMAPHORE]
    } else {
        Seq::empty()
    }) + (if has_bin {
        seq![PACKET_BRANCH_TO_SUB_LIST] + le32(sub_list_addr(tile_alloc_addr, tiles_x, x, y))
    } else {
        Seq::empty()
    }) + seq![
        if x == tiles_x - 1 && y == tiles_y - 1 {
            PACKET_STORE_MS_TILE_BUFFER_AND_EOF
        } else {
            PACKET_STORE_MS_TILE_BUFFER
        },
    ]
}

/// The packets of the first `n` tiles of row `y`.
pub open spec fn rcl_row(
    tile_alloc_addr: u32,
    tiles_x: u32,
    tiles_y: u32,
    has_bin: bool,
    y: int,
    n: nat,
) -> Seq<u8>
    decreases n,
{
    if n == 0 {
        Seq::empty()
    } else {
        rcl_row(tile_alloc_addr, tiles_x, tiles_y, has_bin, y, (n - 1) as nat) + rcl_tile(
            tile_alloc_addr,
            tiles_x,
            tiles_y,
            has_bin,
            n - 1,
            y,
        )
    }
}

/// The packets of the first `n` rows of tiles, in row-major order.
pub open spec fn rcl_rows(tile_alloc_addr: u32, tiles_x: u32, tiles_y: u32, has_bin: bool, n: nat) -> Seq<u8>
    decreases n,
{
    if n == 0 {
        Seq::empty()
    } else {
        rcl_rows(tile_alloc_addr, tiles_x, tiles_y, has_bin, (n - 1) as nat) + rcl_row(
            tile_alloc_addr,
            tiles_x,
            tiles_y,
            has_bin,
            n - 1,
            tiles_x as nat,
        )
    }
}

/// The render control list of a frame: every tile in row-major order,
/// then `HALT`.
pub open spec fn bin_rcl(tile_alloc_addr: u32, tiles_x: u32, tiles_y: u32, has_bin: bool) -> Seq<u8> {
    rcl_rows(tile_alloc_addr, tiles_x, tiles_y, has_bin, tiles_y as nat) + seq![PACKET_HALT]
}

/// Bytes per tile, not counting the one-off semaphore wait.
pub open spec fn tile_stride(has_bin: bool) -> int {
    if has_bin {
        9
    } else {
        4
    }
}

/// Length of the render control list: `tile_stride` bytes per tile, one
/// semaphore wait when binning and there is a tile, and the final `HALT`.
pub open spec fn bin_rcl_len(tiles_x: u32, tiles_y: u32, has_bin: bool) -> int {
    tiles_x * tiles_y * tile_stride(has_bin) + (if has_bin && tiles_x > 0 && tiles_y > 0 {
        1int
    } else {
        0int
    }) + 1
}

/// `has_bin` render lists branch to the sub-list of every tile; this holds
/// when all those bus addresses fit in 32 bits.
pub open spec fn sub_lists_fit(tile_alloc_addr: u32, tiles_x: u32, tiles_y: u32, has_bin: bool) -> bool {
    has_bin && tiles_x > 0 && tiles_y > 0 ==> tile_alloc_addr + (tiles_x * tiles_y - 1) * 32
        <= u32::MAX
}

proof fn lemma_tile_len(a: u32, tx: u32, ty: u32, hb: bool, x: int, y: int)
    ensures
        rcl_tile(a, tx, ty, hb, x, y).len() == tile_stride(hb) + (if hb && x == 0 && y == 0 {
            1int
        } else {
            0int
        }),
{
}

proof fn lemma_row_len(a: u32, tx: u32, ty: u32, hb: bool, y: int, n: nat)
    ensures
        rcl_row(a, tx, ty, hb, y, n).len() == n * tile_stride(hb) + (if hb && y == 0 && n > 0 {
            1int
        } else {
            0int
        }),
    decreases n,
{
    if n > 0 {
        lemma_row_len(a, tx, ty, hb, y, (n - 1) as nat);
        lemma_tile_len(a, tx, ty, hb, n - 1, y);
        assert((n - 1) * tile_stride(hb) + tile_stride(hb) == n * tile_stride(hb)) by (nonlinear_arith);
    } else {
        assert(n * tile_stride(hb) == 0) by (nonlinear_arith)
            requires
                n == 0,
        ;
    }
}

proof fn lemma_rows_len(a: u32, tx: u32, ty: u32, hb: bool, n: nat)
    ensures
        rcl_rows(a, tx, ty, hb, n).len() == n * tx * tile_stride(hb) + (if hb && n > 0 && tx > 0 {
            1int
        } else {
            0int
        }),
    decreases n,
{
    if n > 0 {
        lemma_rows_len(a, tx, ty, hb, (n - 1) as nat);
        lemma_row_len(a, tx, ty, hb, n - 1, tx as nat);
        let c = tile_stride(hb);
        let m = (n - 1) as nat;
        assert(m * tx * c + tx * c == n * tx * c) by (nonlinear_arith)
            requires
                m + 1 == n,
        ;
        assert(rcl_rows(a, tx, ty, hb, n) == rcl_rows(a, tx, ty, hb, m) + rcl_row(
            a,
            tx,
            ty,
            hb,
            m as int,
            tx as nat,
        ));
    } else {
        assert(n * tx * tile_stride(hb) == 0) by (nonlinear_arith)
            requires
                n == 0,
        ;
    }
}

/// The render control list, as built by [`build_bin_rcl`], has length
/// [`bin_rcl_len`].
pub proof fn lemma_bin_rcl_len(tile_alloc_addr: u32, tiles_x: u32, tiles_y: u32, has_bin: bool)
    ensures
        bin_rcl(tile_alloc_addr, tiles_x, tiles_y, has_bin).len() == bin_rcl_len(
            tiles_x,
            tiles_y,
            has_bin,
        ),
{
    lemma_rows_len(tile_alloc_addr, tiles_x, tiles_y, has_bin, tiles_y as nat);
    assert(tiles_y * tiles_x * tile_stride(has_bin) == tiles_x * tiles_y * tile_stride(has_bin))
        by (nonlinear_arith);
}

proof fn lemma_tile_fits(a: u32, tx: u32, ty: u32, hb: bool, x: int, y: int)
    requires
        0 <= x < tx,
        0 <= y < ty,
    ensures
        rcl_rows(a, tx, ty, hb, y as nat).len() + rcl_row(a, tx, ty, hb, y, (x + 1) as nat).len()
            + 1 <= bin_rcl_len(tx, ty, hb),
        0 <= y * tx + x <= tx * ty - 1,
{
    lemma_rows_len(a, tx, ty, hb, y as nat);
    lemma_row_len(a, tx, ty, hb, y, (x + 1) as nat);
    let c = tile_stride(hb);
    assert(y * tx * c + (x + 1) * c <= tx * ty * c) by (nonlinear_arith)
        requires
            0 <= x < tx,
            0 <= y < ty,
            c > 0,
    {
        assert(y * tx + (x + 1) <= tx * ty) by (nonlinear_arith)
            requires
                0 <= x < tx,
                0 <= y < ty,
        {
            assert(y * tx + tx == (y + 1) * tx) by (nonlinear_arith);
            assert((y + 1) * tx <= ty * tx) by (nonlinear_arith)
                requires
                    y + 1 <= ty,
                    tx >= 0,
            ;
        }
        assert(y * tx * c + (x + 1) * c == (y * tx + (x + 1)) * c) by (nonlinear_arith);
        assert((y * tx + (x + 1)) * c <= (tx * ty) * c) by (nonlinear_arith)
            requires
                y * tx + (x + 1) <= tx * ty,
                c > 0,
        ;
    }
    assert(0 <= y * tx + x <= tx * ty - 1) by (nonlinear_arith)
        requires
            0 <= x < tx,
            0 <= y < ty,
    {
        assert(y * tx + tx == (y + 1) * tx) by (nonlinear_arith);
        assert((y + 1) * tx <= ty * tx) by (nonlinear_arith)
            requires
                y + 1 <= ty,
                tx >= 0,
        ;
        assert(y * tx >= 0) by (nonlinear_arith)
            requires
                y >= 0,
                tx >= 0,
        ;
    }
}

/// Appends the packets of tile `(x, y)` at `p`.
fn emit_tile(
    rcl: &mut [u8],
    p: usize,
    tile_alloc_addr: u32,
    tiles_x: u32,
    tiles_y: u32,
    has_bin: bool,
    x: u32,
    y: u32,
    Ghost(w): Ghost<Seq<u8>>,
    Ghost(o): Ghost<Seq<u8>>,
) -> (q: usize)
    requires
        old(rcl)@ == w + o.skip(p as int),
        w.len() == p,
        p + rcl_tile(tile_alloc_addr, tiles_x, tiles_y, has_bin, x as int, y as int).len() <= o.len(),
        x < tiles_x,
        y < tiles_y,
        sub_lists_fit(tile_alloc_addr, tiles_x, tiles_y, has_bin),
    ensures
        final(rcl)@ == (w + rcl_tile(tile_alloc_addr, tiles_x, tiles_y, has_bin, x as int, y as int))
            + o.skip(q as int),
        q == p + rcl_tile(tile_alloc_addr, tiles_x, tiles_y, has_bin, x as int, y as int).len(),
{
    proof {
        lemma_tile_len(tile_alloc_addr, tiles_x, tiles_y, has_bin, x as int, y as int);
    }
    // TILE_COORDINATES
    let q = emit(rcl, p, PACKET_TILE_COORDINATES, Ghost(w), Ghost(o));
    let ghost w1 = w.push(PACKET_TILE_COORDINATES);
    let q = emit(rcl, q, x as u8, Ghost(w1), Ghost(o));
    let ghost w2 = w1.push(x as u8);
    let q = emit(rcl, q, y as u8, Ghost(w2), Ghost(o));
    let ghost w3 = w2.push(y as u8);
    assert(w3 =~= w + seq![PACKET_TILE_COORDINATES, x as u8, y as u8]);
    // The first tile waits for the binner's semaphore increment.
    let ghost mut cur = w3;
    let mut q = q;
    if has_bin && x == 0 && y == 0 {
        q = emit(rcl, q, PACKET_WAIT_ON_SEMAPHORE, Ghost(cur), Ghost(o));
        proof {
            cur = cur.push(PACKET_WAIT_ON_SEMAPHORE);
        }
    }
    assert(cur =~= w + seq![PACKET_TILE_COORDINATES, x as u8, y as u8] + (if has_bin && x == 0 && y
        == 0 {
        seq![PACKET_WAIT_ON_SEMAPHORE]
    } else {
        Seq::empty()
    }));
    let ghost before_branch = cur;
    if has_bin {
        // BRANCH_TO_SUB_LIST: run the binner's per-tile list.
        q = emit(rcl, q, PACKET_BRANCH_TO_SUB_LIST, Ghost(cur), Ghost(o));
        proof {
            cur = cur.push(PACKET_BRANCH_TO_SUB_LIST);
            lemma_tile_fits(tile_alloc_addr, tiles_x, tiles_y, has_bin, x as int, y as int);
            assert((y * tiles_x + x) * 32 <= (tiles_x * tiles_y - 1) * 32) by (nonlinear_arith)
                requires
                    y * tiles_x + x <= tiles_x * tiles_y - 1,
            ;
        }
        let sub_addr = tile_alloc_addr + (y * tiles_x + x) * 32;
        q = emit_le32(rcl, q, sub_addr, Ghost(cur), Ghost(o));
        proof {
            cur = cur + le32(sub_addr);
        }
    }
    assert(cur =~= before_branch + (if has_bin {
        seq![PACKET_BRANCH_TO_SUB_LIST] + le32(
            sub_list_addr(tile_alloc_addr, tiles_x, x as int, y as int),
        )
    } else {
        Seq::empty()
    }));
    // STORE_MS_TILE_BUFFER (or ..._AND_EOF on the last tile).
    let last = x == tiles_x - 1 && y == tiles_y - 1;
    let store = if last {
        PACKET_STORE_MS_TILE_BUFFER_AND_EOF
    } else {
        PACKET_STORE_MS_TILE_BUFFER
    };
    q = emit(rcl, q, store, Ghost(cur), Ghost(o));
    assert(cur.push(store) =~= w + rcl_tile(
        tile_alloc_addr,
        tiles_x,
        tiles_y,
        has_bin,
        x as int,
        y as int,
    ));
    q
}

/// Builds the render control list for a binned frame.
///
/// `tile_alloc_addr` is the GPU bus address of the tile alloc buffer; the
/// per-tile sub-list header for tile `(x, y)` sits at
/// `tile_alloc_addr + (y * tiles_x + x) * 32`. The last tile ends with
/// `STORE_MS_TILE_BUFFER_AND_EOF` and the list closes with `HALT`. Returns
/// the number of bytes written.
pub fn build_bin_rcl(rcl: &mut [u8], tile_alloc_addr: u32, tiles_x: u32, tiles_y: u32, has_bin: bool) -> (n: usize)
    requires
        old(rcl)@.len() >= bin_rcl_len(tiles_x, tiles_y, has_bin),
        sub_lists_fit(tile_alloc_addr, tiles_x, tiles_y, has_bin),
    ensures
        n == bin_rcl_len(tiles_x, tiles_y, has_bin),
        final(rcl)@ == bin_rcl(tile_alloc_addr, tiles_x, tiles_y, has_bin) + old(rcl)@.skip(n as int),
{
    let ghost o = rcl@;
    let mut p = 0usize;
    assert(rcl@ =~= rcl_rows(tile_alloc_addr, tiles_x, tiles_y, has_bin, 0) + o.skip(0));
    for y in 0..tiles_y
        invariant
            o.len() >= bin_rcl_len(tiles_x, tiles_y, has_bin),
            sub_lists_fit(tile_alloc_addr, tiles_x, tiles_y, has_bin),
            rcl@ == rcl_rows(tile_alloc_addr, tiles_x, tiles_y, has_bin, y as nat) + o.skip(p as int),
            p == rcl_rows(tile_alloc_addr, tiles_x, tiles_y, has_bin, y as nat).len(),
    {
        let ghost rows = rcl_rows(tile_alloc_addr, tiles_x, tiles_y, has_bin, y as nat);
        assert(rows + rcl_row(tile_alloc_addr, tiles_x, tiles_y, has_bin, y as int, 0) =~= rows);
        for x in 0..tiles_x
            invariant
                y < tiles_y,
                o.len() >= bin_rcl_len(tiles_x, tiles_y, has_bin),
                sub_lists_fit(tile_alloc_addr, tiles_x, tiles_y, has_bin),
                rows == rcl_rows(tile_alloc_addr, tiles_x, tiles_y, has_bin, y as nat),
                rcl@ == (rows + rcl_row(tile_alloc_addr, tiles_x, tiles_y, has_bin, y as int, x as nat))
                    + o.skip(p as int),
                p == rows.len() + rcl_row(tile_alloc_addr, tiles_x, tiles_y, has_bin, y as int, x as nat).len(),
        {
            proof {
                lemma_tile_fits(tile_alloc_addr, tiles_x, tiles_y, has_bin, x as int, y as int);
                assert(rcl_row(tile_alloc_addr, tiles_x, tiles_y, has_bin, y as int, (x + 1) as nat)
                    == rcl_row(tile_alloc_addr, tiles_x, tiles_y, has_bin, y as int, x as nat)
                    + rcl_tile(tile_alloc_addr, tiles_x, tiles_y, has_bin, x as int, y as int));
            }
            p = emit_tile(
                rcl,
                p,
                tile_alloc_addr,
                tiles_x,
                tiles_y,
                has_bin,
                x,
                y,
                Ghost(rows + rcl_row(tile_alloc_addr, tiles_x, tiles_y, has_bin, y as int, x as nat)),
                Ghost(o),
            );
            assert((rows + rcl_row(tile_alloc_addr, tiles_x, tiles_y, has_bin, y as int, x as nat))
                + rcl_tile(tile_alloc_addr, tiles_x, tiles_y, has_bin, x as int, y as int) =~= rows
                + rcl_row(tile_alloc_addr, tiles_x, tiles_y, has_bin, y as int, (x + 1) as nat));
        }
        assert(rcl_rows(tile_alloc_addr, tiles_x, tiles_y, has_bin, (y + 1) as nat) == rows + rcl_row(
            tile_alloc_addr,
            tiles_x,
            tiles_y,
            has_bin,
            y as int,
            tiles_x as nat,
        ));
    }
    proof {
        lemma_bin_rcl_len(tile_alloc_addr, tiles_x, tiles_y, has_bin);
    }
    let ghost rows = rcl_rows(tile_alloc_addr, tiles_x, tiles_y, has_bin, tiles_y as nat);
    rcl[p] = PACKET_HALT;
    assert(rcl@ =~= bin_rcl(tile_alloc_addr, tiles_x, tiles_y, has_bin) + o.skip(p + 1));
    p + 1
}

/// The clear-only bin control list ends with `INCREMENT_SEMAPHORE` then
/// `FLUSH`, which lets the render list's semaphore wait go ahead.
pub proof fn lemma_clear_bcl_ends_with_semaphore(
    tile_state_addr: u32,
    tile_alloc_addr: u32,
    tile_alloc_size: u32,
    tiles_x: u32,
    tiles_y: u32,
)
    ensures
        ({
            let l = clear_bcl(tile_state_addr, tile_alloc_addr, tile_alloc_size, tiles_x, tiles_y);
            &&& l.len() == CLEAR_BCL_LEN
            &&& l[CLEAR_BCL_LEN - 2] == PACKET_INCREMENT_SEMAPHORE
            &&& l[CLEAR_BCL_LEN - 1] == PACKET_FLUSH
        }),
{
}

/// The render control list of a frame with tiles closes the last tile with
/// `STORE_MS_TILE_BUFFER_AND_EOF` and then `HALT`; when binning, the first
/// tile waits on the binner's semaphore right after its coordinates.
pub proof fn lemma_bin_rcl_shape(tile_alloc_addr: u32, tiles_x: u32, tiles_y: u32, has_bin: bool)
    requires
        tiles_x > 0,
        tiles_y > 0,
    ensures
        ({
            let l = bin_rcl(tile_alloc_addr, tiles_x, tiles_y, has_bin);
            &&& l[l.len() - 1] == PACKET_HALT
            &&& l[l.len() - 2] == PACKET_STORE_MS_TILE_BUFFER_AND_EOF
            &&& l[0] == PACKET_TILE_COORDINATES
            &&& has_bin ==> l[3] == PACKET_WAIT_ON_SEMAPHORE
        }),
{
    let a = tile_alloc_addr;
    let tx = tiles_x;
    let ty = tiles_y;
    let hb = has_bin;
    let l = bin_rcl(a, tx, ty, hb);
    let rows = rcl_rows(a, tx, ty, hb, ty as nat);
    let last_row = rcl_row(a, tx, ty, hb, ty - 1, tx as nat);
    let last_tile = rcl_tile(a, tx, ty, hb, tx - 1, ty - 1);
    assert(rows == rcl_rows(a, tx, ty, hb, (ty - 1) as nat) + last_row);
    assert(last_row == rcl_row(a, tx, ty, hb, ty - 1, (tx - 1) as nat) + last_tile);
    assert(last_tile[last_tile.len() - 1] == PACKET_STORE_MS_TILE_BUFFER_AND_EOF);
    assert(l == rows + seq![PACKET_HALT]);
    assert(rows[rows.len() - 1] == last_row[last_row.len() - 1]);
    assert(last_row[last_row.len() - 1] == last_tile[last_tile.len() - 1]);
    // The first tile opens the list.
    let first_tile = rcl_tile(a, tx, ty, hb, 0, 0);
    let first_row = rcl_row(a, tx, ty, hb, 0, tx as nat);
    lemma_row_prefix(a, tx, ty, hb, 0, tx as nat);
    lemma_rows_prefix(a, tx, ty, hb, ty as nat);
    assert(first_tile[0] == PACKET_TILE_COORDINATES);
    assert(hb ==> first_tile[3] == PACKET_WAIT_ON_SEMAPHORE);
    lemma_tile_len(a, tx, ty, hb, 0, 0);
    assert(l[0] == rows[0]);
    assert(hb ==> l[3] == rows[3]);
}

proof fn lemma_row_prefix(a: u32, tx: u32, ty: u32, hb: bool, y: int, n: nat)
    requires
        n > 0,
    ensures
        forall|k: int|
            0 <= k < rcl_tile(a, tx, ty, hb, 0, y).len() ==> #[trigger] rcl_row(a, tx, ty, hb, y, n)[k]
                == rcl_tile(a, tx, ty, hb, 0, y)[k],
        rcl_tile(a, tx, ty, hb, 0, y).len() <= rcl_row(a, tx, ty, hb, y, n).len(),
    decreases n,
{
    if n == 1 {
        assert(rcl_row(a, tx, ty, hb, y, 0) =~= Seq::<u8>::empty());
        assert(rcl_row(a, tx, ty, hb, y, 1) =~= rcl_tile(a, tx, ty, hb, 0, y));
    } else {
        lemma_row_prefix(a, tx, ty, hb, y, (n - 1) as nat);
        let prev = rcl_row(a, tx, ty, hb, y, (n - 1) as nat);
        let t = rcl_tile(a, tx, ty, hb, (n - 1) as int, y);
        assert(rcl_row(a, tx, ty, hb, y, n) == prev + t);
        assert forall|k: int| 0 <= k < rcl_tile(a, tx, ty, hb, 0, y).len() implies #[trigger] rcl_row(
            a,
            tx,
            ty,
            hb,
            y,
            n,
        )[k] == rcl_tile(a, tx, ty, hb, 0, y)[k] by {
            assert((prev + t)[k] == prev[k]);
        }
    }
}

proof fn lemma_rows_prefix(a: u32, tx: u32, ty: u32, hb: bool, n: nat)
    requires
        n > 0,
        tx > 0,
    ensures
        forall|k: int|
            0 <= k < rcl_tile(a, tx, ty, hb, 0, 0).len() ==> #[trigger] rcl_rows(a, tx, ty, hb, n)[k]
                == rcl_tile(a, tx, ty, hb, 0, 0)[k],
        rcl_tile(a, tx, ty, hb, 0, 0).len() <= rcl_rows(a, tx, ty, hb, n).len(),
    decreases n,
{
    if n == 1 {
        lemma_row_prefix(a, tx, ty, hb, 0, tx as nat);
        assert(rcl_rows(a, tx, ty, hb, 0) =~= Seq::<u8>::empty());
        assert(rcl_rows(a, tx, ty, hb, 1) =~= rcl_row(a, tx, ty, hb, 0, tx as nat));
    } else {
        lemma_rows_prefix(a, tx, ty, hb, (n - 1) as nat);
        let prev = rcl_rows(a, tx, ty, hb, (n - 1) as nat);
        let r = rcl_row(a, tx, ty, hb, (n - 1) as int, tx as nat);
        assert(rcl_rows(a, tx, ty, hb, n) == prev + r);
        assert forall|k: int| 0 <= k < rcl_tile(a, tx, ty, hb, 0, 0).len() implies #[trigger] rcl_rows(
            a,
            tx,
            ty,
            hb,
            n,
        )[k] == rcl_tile(a, tx, ty, hb, 0, 0)[k] by {
            assert((prev + r)[k] == prev[k]);
        }
    }
}

/// The halt-only control list.
pub open spec fn halt_cl() -> Seq<u8> {
    seq![PACKET_HALT]
}

/// Builds a trivial control list that immediately halts; used to verify the
/// submission and interrupt path without touching memory.
pub fn build_halt_cl(cl: &mut [u8]) -> (n: usize)
    requires
        old(cl)@.len() >= 1,
    ensures
        n == 1,
        final(cl)@ == halt_cl() + old(cl)@.skip(1),
{
    cl[0] = PACKET_HALT;
    assert(cl@ =~= halt_cl() + old(cl)@.skip(1));
    1
}

/// Where the pieces of a clear-only frame go in one buffer, as byte
/// offsets: the tile state array, the tile alloc area, the bin control
/// list and the render control list, each starting on a 4 KB boundary
/// after the previous one.
#[derive(Clone, Copy, Debug, PartialEq, Eq, Structural)]
pub struct ClearJobLayout {
    pub tile_state_offset: usize,
    pub tile_state_size: usize,
    pub tile_alloc_offset: usize,
    pub tile_alloc_size: usize,
    pub bcl_offset: usize,
    pub rcl_offset: usize,
    pub rcl_len: usize,
}

/// `x` rounded up to a multiple of 4 KB.
pub open spec fn page_up(x: int) -> int {
    ((x + 4095) / 4096) * 4096
}

/// The layout of a clear-only frame of `tiles_x` by `tiles_y` tiles
/// (unbounded integers; see [`clear_job_layout`]).
pub open spec fn clear_layout_offsets(tiles_x: u32, tiles_y: u32) -> (int, int, int, int, int, int) {
    let state_size = 48 * (tiles_x as int) * (tiles_y as int);
    let alloc_offset = page_up(state_size);
    let alloc_size = 32 * (tiles_x as int) * (tiles_y as int);
    let bcl_offset = page_up(alloc_offset + alloc_size);
    let rcl_offset = page_up(bcl_offset + CLEAR_BCL_LEN);
    let rcl_len = bin_rcl_len(tiles_x, tiles_y, true);
    (state_size, alloc_offset, alloc_size, bcl_offset, rcl_offset, rcl_len)
}

/// Lays out a clear-only frame in a buffer of `buf_size` bytes: `None`
/// exactly when the pieces do not fit; otherwise the offsets of
/// [`clear_layout_offsets`], which keep the pieces apart and inside the
/// buffer.
pub fn clear_job_layout(buf_size: usize, tiles_x: u32, tiles_y: u32) -> (l: Option<ClearJobLayout>)
    ensures
        ({
            let o = clear_layout_offsets(tiles_x, tiles_y);
            &&& l is None <==> o.4 + o.5 > buf_size
            &&& l matches Some(l) ==> {
                &&& l.tile_state_offset == 0
                &&& l.tile_state_size == o.0
                &&& l.tile_alloc_offset == o.1
                &&& l.tile_alloc_size == o.2
                &&& l.bcl_offset == o.3
                &&& l.rcl_offset == o.4
                &&& l.rcl_len == o.5
                &&& l.tile_state_offset + l.tile_state_size <= l.tile_alloc_offset
                &&& l.tile_alloc_offset + l.tile_alloc_size <= l.bcl_offset
                &&& l.bcl_offset + CLEAR_BCL_LEN <= l.rcl_offset
                &&& l.rcl_offset + l.rcl_len <= buf_size
                &&& l.tile_alloc_offset % 4096 == 0
                &&& l.bcl_offset % 4096 == 0
                &&& l.rcl_offset % 4096 == 0
            }
        }),
{
    let tx = tiles_x as u128;
    let ty = tiles_y as u128;
    assert(tx * ty <= 0xffff_ffff_ffff_ffff) by (nonlinear_arith)
        requires
            tx <= 0xffff_ffff,
            ty <= 0xffff_ffff,
    ;
    let t = tx * ty;
    assert(t == (tiles_x as int) * (tiles_y as int));
    let state_size = 48 * t;
    let alloc_offset = ((state_size + 4095) / 4096) * 4096;
    let alloc_size = 32 * t;
    let bcl_offset = ((alloc_offset + alloc_size + 4095) / 4096) * 4096;
    let rcl_offset = ((bcl_offset + 19 + 4095) / 4096) * 4096;
    let stride: u128 = 9;
    let rcl_len = t * stride + (if t > 0 {
        1u128
    } else {
        0u128
    }) + 1;
    proof {
        assert(48 * (tiles_x as int) * (tiles_y as int) == 48 * t) by (nonlinear_arith)
            requires
                t == (tiles_x as int) * (tiles_y as int),
        ;
        assert(32 * (tiles_x as int) * (tiles_y as int) == 32 * t) by (nonlinear_arith)
            requires
                t == (tiles_x as int) * (tiles_y as int),
        ;
        assert(tiles_x * tiles_y * tile_stride(true) == t * 9) by (nonlinear_arith)
            requires
                t == (tiles_x as int) * (tiles_y as int),
                tile_stride(true) == 9,
        ;
        assert((tiles_x > 0 && tiles_y > 0) == (t > 0)) by (nonlinear_arith)
            requires
                t == (tiles_x as int) * (tiles_y as int),
        ;
    }
    if rcl_offset + rcl_len > buf_size as u128 {
        return None;
    }
    Some(
        ClearJobLayout {
            tile_state_offset: 0,
            tile_state_size: state_size as usize,
            tile_alloc_offset: alloc_offset as usize,
            tile_alloc_size: alloc_size as usize,
            bcl_offset: bcl_offset as usize,
            rcl_offset: rcl_offset as usize,
            rcl_len: rcl_len as usize,
        },
    )
}

} // verus!
