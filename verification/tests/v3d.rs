use bcm283x::regops::RegOp;
use bcm283x::v3d::cl::{
    build_bin_rcl, build_clear_bcl, build_halt_cl, clear_job_layout, tile_alloc_size, tile_state_size,
    tiles_for, ClearJobLayout,
    BIN_CONFIG_FLAGS, CLEAR_BCL_LEN,
};
use bcm283x::v3d::regs::{V3D_EXPECTED_IDENT0, V3D_INT_FLDONE, V3D_INT_FRDONE};
use bcm283x::v3d::{V3dCore, V3dResources, V3dState};

fn resources() -> V3dResources {
    V3dResources {
        base: 0x3fc0_0000,
        binner_bus_addr: 0x1000_0000,
        binner_size: 16 * 1024 * 1024,
        binner_overflow_addr: 0x1000_0000,
        irq: Some(42),
    }
}

#[test]
fn tiles_cover_the_frame() {
    assert_eq!(tiles_for(1920), 60);
    assert_eq!(tiles_for(1080), 34);
    assert_eq!(tiles_for(0), 0);
    assert_eq!(tiles_for(32), 1);
    assert_eq!(tiles_for(33), 2);
    assert_eq!(tiles_for(u32::MAX - 31), 0x0800_0000 - 1);
}

#[test]
fn tile_buffer_sizes() {
    assert_eq!(tile_state_size(60, 34), 48 * 60 * 34);
    assert_eq!(tile_alloc_size(60, 34), 32 * 60 * 34);
    assert_eq!(tile_state_size(0, 34), 0);
}

#[test]
fn clear_bcl_bytes() {
    let mut buf = [0xaau8; 32];
    let n = build_clear_bcl(&mut buf, 0x1000_0000, 0x1000_1000, 0x0010_0000, 60, 34);
    assert_eq!(n, CLEAR_BCL_LEN);
    assert_eq!(n, 19);
    assert_eq!(BIN_CONFIG_FLAGS, 68);
    assert_eq!(
        &buf[..19],
        &[6, 112, 0x00, 0x10, 0x00, 0x10, 0x00, 0x00, 0x10, 0x00, 0x00, 0x00, 0x00, 0x10, 60, 34, 68, 7, 4]
    );
    assert!(buf[19..].iter().all(|&b| b == 0xaa));
}

#[test]
fn clear_bcl_truncates_tile_counts_to_a_byte() {
    let mut buf = [0u8; 19];
    build_clear_bcl(&mut buf, 0, 0, 0, 300, 256);
    assert_eq!(buf[14], 44);
    assert_eq!(buf[15], 0);
}

#[test]
fn bin_rcl_with_binning() {
    let mut buf = [0xffu8; 32];
    let n = build_bin_rcl(&mut buf, 0x2000_0000, 2, 1, true);
    assert_eq!(n, 20);
    assert_eq!(
        &buf[..20],
        &[
            115, 0, 0, 8, 17, 0x00, 0x00, 0x00, 0x20, 24, // tile (0, 0)
            115, 1, 0, 17, 0x20, 0x00, 0x00, 0x20, 25, // tile (1, 0), last
            0, // HALT
        ]
    );
    assert!(buf[20..].iter().all(|&b| b == 0xff));
}

#[test]
fn bin_rcl_without_binning() {
    let mut buf = [0xffu8; 17];
    let n = build_bin_rcl(&mut buf, 0x2000_0000, 2, 2, false);
    assert_eq!(n, 17);
    assert_eq!(buf, [115, 0, 0, 24, 115, 1, 0, 24, 115, 0, 1, 24, 115, 1, 1, 25, 0]);
}

#[test]
fn bin_rcl_sub_list_addresses_follow_row_major_order() {
    let tiles_x = 3u32;
    let tiles_y = 2u32;
    let mut buf = vec![0u8; 64];
    let n = build_bin_rcl(&mut buf, 0x100, tiles_x, tiles_y, true);
    assert_eq!(n, (tiles_x * tiles_y * 9 + 1 + 1) as usize);
    // Tile (2, 1) is the last one: its branch address is 0x100 + (1 * 3 + 2) * 32.
    let last = &buf[n - 10..n - 1];
    assert_eq!(last[0], 115);
    assert_eq!((last[1], last[2]), (2, 1));
    assert_eq!(last[3], 17);
    assert_eq!(u32::from_le_bytes([last[4], last[5], last[6], last[7]]), 0x100 + 5 * 32);
    assert_eq!(last[8], 25);
    assert_eq!(buf[n - 1], 0);
}

#[test]
fn bin_rcl_without_tiles_only_halts() {
    let mut buf = [7u8; 4];
    assert_eq!(build_bin_rcl(&mut buf, 0, 0, 5, true), 1);
    assert_eq!(buf, [0, 7, 7, 7]);
}

#[test]
fn halt_cl_is_one_byte() {
    let mut buf = [9u8; 3];
    assert_eq!(build_halt_cl(&mut buf), 1);
    assert_eq!(buf, [0, 9, 9]);
}

#[test]
fn core_starts_off() {
    let core = V3dCore::new(resources());
    assert_eq!(core.state(), V3dState::Off);
    assert_eq!(core.seqno(), 0);
    assert_eq!(core.finished_seqno(), 0);
    assert_eq!(core.resources().base, 0x3fc0_0000);
}

#[test]
fn init_programs_the_engine_once() {
    let mut core = V3dCore::new(resources());
    assert!(V3dCore::ident_ok(V3D_EXPECTED_IDENT0));
    assert!(!V3dCore::ident_ok(0));
    assert_eq!(V3D_EXPECTED_IDENT0, 0x0244_3356);
    let ops = core.init(V3D_EXPECTED_IDENT0);
    assert_eq!(
        ops,
        vec![
            RegOp::Write { reg: 0x504, value: 0 },
            RegOp::Write { reg: 0x308, value: 0x1000_0000 },
            RegOp::Write { reg: 0x30c, value: 16 * 1024 * 1024 },
            RegOp::Write { reg: 0x030, value: 7 },
            RegOp::Write { reg: 0x034, value: 3 },
        ]
    );
    assert_eq!(core.state(), V3dState::Ready);
    assert!(core.init(0).is_empty());
    assert_eq!(core.state(), V3dState::Ready);
}

#[test]
fn ident1_fields() {
    assert_eq!(V3dCore::decode_ident1(0x0000_0321), (1, 2, 3));
    assert_eq!(V3dCore::decode_ident1(0xffff_f4ff), (0xf, 0xf, 4));
}

#[test]
fn binned_frame_completes() {
    let mut core = V3dCore::new(resources());
    core.init(V3D_EXPECTED_IDENT0);
    let (seqno, ops) = core.submit_frame(Some((0x100, 0x110)), (0x200, 0x220));
    assert_eq!(seqno, 1);
    assert_eq!(core.seqno(), 2);
    assert_eq!(core.state(), V3dState::Rendering);
    assert_eq!(
        ops,
        vec![
            RegOp::Write { reg: 0x20, value: 4 },
            RegOp::Write { reg: 0x24, value: 0x0f0f_0f0f },
            RegOp::Write { reg: 0x110, value: 0x100 },
            RegOp::Write { reg: 0x108, value: 0x110 },
            RegOp::Write { reg: 0x114, value: 0x200 },
            RegOp::Write { reg: 0x10c, value: 0x220 },
        ]
    );
    assert!(!core.wait_for_seqno(seqno));
    let (handled, ack) = core.handle_irq(V3D_INT_FLDONE | V3D_INT_FRDONE);
    assert_eq!(handled, 3);
    assert_eq!(ack, vec![RegOp::Write { reg: 0x30, value: 3 }]);
    assert_eq!(core.state(), V3dState::Ready);
    assert_eq!(core.finished_seqno(), 2);
    assert!(core.wait_for_seqno(seqno));
    assert!(core.wait_for_seqno(core.seqno()));
}

#[test]
fn binned_frame_completes_interrupt_by_interrupt() {
    let mut core = V3dCore::new(resources());
    core.init(V3D_EXPECTED_IDENT0);
    let (seqno, _) = core.submit_frame(Some((0x100, 0x110)), (0x200, 0x220));
    core.handle_irq(V3D_INT_FLDONE);
    assert_eq!(core.finished_seqno(), seqno);
    assert_eq!(core.state(), V3dState::Rendering);
    assert!(!core.wait_for_seqno(core.seqno()));
    core.handle_irq(V3D_INT_FRDONE);
    assert_eq!(core.finished_seqno(), 2);
    assert_eq!(core.state(), V3dState::Ready);
    assert!(core.wait_for_seqno(core.seqno()));
}

#[test]
fn stray_render_done_counts_nothing() {
    let mut core = V3dCore::new(resources());
    core.init(V3D_EXPECTED_IDENT0);
    core.handle_irq(V3D_INT_FRDONE);
    assert_eq!(core.finished_seqno(), 0);
    assert_eq!(core.seqno(), 0);
    core.submit_cl(1, 0, 4);
    core.handle_irq(V3D_INT_FRDONE | V3D_INT_FLDONE);
    assert_eq!(core.finished_seqno(), 1);
    assert_eq!(core.state(), V3dState::Ready);
}

#[test]
fn clock_is_requested_only_at_bring_up() {
    let mut core = V3dCore::new(resources());
    let req = core.clock_request().expect("an off core asks for its clock");
    assert_eq!(req.total_bytes, 36);
    assert_eq!(&req.words[..9], &[36, 0, 0x0003_8002, 12, 12, 5, 250_000_000, 0, 0]);
    core.init(V3D_EXPECTED_IDENT0);
    assert!(core.clock_request().is_none());
}

#[test]
fn render_only_frame_flushes_textures() {
    let mut core = V3dCore::new(resources());
    core.init(V3D_EXPECTED_IDENT0);
    let (seqno, ops) = core.submit_frame(None, (0x200, 0x220));
    assert_eq!(seqno, 1);
    assert_eq!(core.seqno(), 1);
    assert_eq!(
        ops,
        vec![
            RegOp::Write { reg: 0x20, value: 4 },
            RegOp::Write { reg: 0x24, value: 0x0f0f_0f0f },
            RegOp::Write { reg: 0x20, value: 4 },
            RegOp::Write { reg: 0x24, value: 0x0f0f_0000 },
            RegOp::Write { reg: 0x114, value: 0x200 },
            RegOp::Write { reg: 0x10c, value: 0x220 },
        ]
    );
}

#[test]
fn bin_done_moves_binning_to_rendering() {
    let mut core = V3dCore::new(resources());
    core.init(V3D_EXPECTED_IDENT0);
    let (seqno, ops) = core.submit_cl(0, 0x1000, 0x1001);
    assert_eq!(seqno, 1);
    assert_eq!(
        ops,
        vec![RegOp::Write { reg: 0x110, value: 0x1000 }, RegOp::Write { reg: 0x108, value: 0x1001 }]
    );
    assert_eq!(core.state(), V3dState::Binning);
    core.submit_cl(0, 0x2000, 0x2001);
    core.handle_irq(V3D_INT_FLDONE);
    assert_eq!(core.state(), V3dState::Rendering);
    assert_eq!(core.finished_seqno(), 1);
    // The last outstanding job done: the core is ready.
    core.handle_irq(V3D_INT_FLDONE);
    assert_eq!(core.state(), V3dState::Ready);
    assert_eq!(core.finished_seqno(), 2);
    // A further bin-done interrupt changes nothing more.
    core.handle_irq(V3D_INT_FLDONE);
    assert_eq!(core.state(), V3dState::Ready);
    assert_eq!(core.finished_seqno(), 2);
}

#[test]
fn spurious_interrupt_is_ignored() {
    let mut core = V3dCore::new(resources());
    core.init(V3D_EXPECTED_IDENT0);
    core.submit_cl(1, 0, 4);
    let (handled, ack) = core.handle_irq(0);
    assert_eq!(handled, 0);
    assert!(ack.is_empty());
    assert_eq!(core.state(), V3dState::Rendering);
}

#[test]
fn out_of_memory_interrupt_is_acknowledged_only() {
    let mut core = V3dCore::new(resources());
    core.init(V3D_EXPECTED_IDENT0);
    core.submit_cl(0, 0, 4);
    let (handled, ack) = core.handle_irq(4);
    assert_eq!(handled, 4);
    assert_eq!(ack, vec![RegOp::Write { reg: 0x30, value: 4 }]);
    assert_eq!(core.state(), V3dState::Binning);
}

#[test]
fn flushes_and_irq_reset() {
    let mut core = V3dCore::new(resources());
    assert_eq!(
        core.flush_texture_caches(),
        vec![RegOp::Write { reg: 0x20, value: 4 }, RegOp::Write { reg: 0x24, value: 0x0f0f_0000 }]
    );
    assert_eq!(
        core.irq_reset(),
        vec![RegOp::Write { reg: 0x30, value: 7 }, RegOp::Write { reg: 0x34, value: 7 }]
    );
    assert_eq!(core.state(), V3dState::Off);
}

#[test]
fn clear_job_layout_keeps_the_pieces_apart() {
    let l = clear_job_layout(0x10_0000, 60, 34).expect("a full-HD clear job fits in 1 MB");
    assert_eq!(
        l,
        ClearJobLayout {
            tile_state_offset: 0,
            tile_state_size: 97_920,
            tile_alloc_offset: 0x1_8000,
            tile_alloc_size: 65_280,
            bcl_offset: 0x2_8000,
            rcl_offset: 0x2_9000,
            rcl_len: 18_362,
        }
    );
    assert!(l.tile_state_offset + l.tile_state_size <= l.tile_alloc_offset);
    assert!(l.tile_alloc_offset + l.tile_alloc_size <= l.bcl_offset);
    assert!(l.rcl_offset + l.rcl_len <= 0x10_0000);
    assert_eq!(clear_job_layout(0x2_9000 + 18_361, 60, 34), None);
    assert!(clear_job_layout(0x2_9000 + 18_362, 60, 34).is_some());
    assert_eq!(
        clear_job_layout(0x2000, 0, 0),
        Some(ClearJobLayout {
            tile_state_offset: 0,
            tile_state_size: 0,
            tile_alloc_offset: 0,
            tile_alloc_size: 0,
            bcl_offset: 0,
            rcl_offset: 0x1000,
            rcl_len: 1,
        })
    );
    assert_eq!(clear_job_layout(usize::MAX, u32::MAX, u32::MAX), None);
}

#[test]
fn render_done_makes_even_an_off_core_ready() {
    let mut core = V3dCore::new(resources());
    core.handle_irq(V3D_INT_FLDONE);
    assert_eq!(core.state(), V3dState::Off);
    core.handle_irq(V3D_INT_FRDONE);
    assert_eq!(core.state(), V3dState::Ready);
    assert_eq!(core.finished_seqno(), 0);
}
