use bcm283x::display::hdmi::Hdmi;
use bcm283x::display::hvs::{build_dlist, Hvs, DLIST_WORDS};
use bcm283x::display::regs::{field, mode_1080p60, CLK_PIXEL, CLK_PIXEL_BVB};
use bcm283x::display::{
    DisplayError, DisplayInfo, DisplayOp, HvsDisplay, HvsDisplayConfig, HvsResources, PixelFormat,
};
use bcm283x::regops::RegOp;

fn resources(fb_size: usize) -> HvsResources {
    HvsResources {
        hvs_base: 0x3f40_0000,
        hdmi_base: 0x3f90_2000,
        fb_bus_addr: 0x1e00_0000,
        fb_vaddr: 0x1000_0000,
        fb_size,
        dlist_bus_addr: 0x1f00_0000,
        dlist_vaddr: 0x2000_0000,
    }
}

#[test]
fn field_shifts_then_masks() {
    assert_eq!(field(0b11, 0b11, 11), 0);
    assert_eq!(field(1080, 0x0fff, 0), 1080);
    assert_eq!(field(1920, 0x0fff_0000, 12), 0x0078_0000);
}

#[test]
fn dlist_for_full_hd_xrgb() {
    let mut dlist = [0u32; DLIST_WORDS];
    build_dlist(&mut dlist, 0x1e00_0000, 1920, 1080, 7680, 7);
    assert_eq!(
        dlist,
        [0x4000_1817, 0xff00_0000, 0x4438_0780, 0xc0c0_c0c0, 0x1e00_0000, 0xc0c0_c0c0, 0x1e00, 0]
    );
}

#[test]
fn dlist_pitch_is_masked_to_16_bits() {
    let mut dlist = [0u32; DLIST_WORDS];
    build_dlist(&mut dlist, 0, 1, 1, 0x1_0004, 4);
    assert_eq!(dlist[6], 4);
    assert_eq!(dlist[0], 0x4000_1814);
}

#[test]
fn config_constructors() {
    let c = HvsDisplayConfig::xrgb8888(1920, 1080);
    assert_eq!((c.width, c.height, c.stride, c.format), (1920, 1080, 7680, PixelFormat::Xrgb8888));
    assert_eq!(c.fb_size(), 1920 * 1080 * 4);
    let c = HvsDisplayConfig::rgb888(640, 480);
    assert_eq!((c.stride, c.format), (1920, PixelFormat::Rgb888));
    assert_eq!(c.fb_size(), 640 * 480 * 3);
    let c = HvsDisplayConfig::rgb565(640, 480);
    assert_eq!((c.stride, c.format), (1280, PixelFormat::Rgb565));
}

#[test]
fn display_needs_a_large_enough_framebuffer() {
    let config = HvsDisplayConfig::xrgb8888(1920, 1080);
    let err = HvsDisplay::new(resources(1920 * 1080 * 4 - 1), config);
    assert!(matches!(err, Err(DisplayError::InvalidFramebuffer)));
    let ok = HvsDisplay::new(resources(1920 * 1080 * 4), config);
    assert!(ok.is_ok());
}

#[test]
fn display_info_reports_the_configuration() {
    let display = HvsDisplay::new(resources(1 << 24), HvsDisplayConfig::rgb565(800, 600)).unwrap();
    assert_eq!(
        display.info(),
        DisplayInfo { width: 800, height: 600, stride: 1600, format: PixelFormat::Rgb565, fb_size: 960_000 }
    );
    assert_eq!(display.resources().dlist_bus_addr, 0x1f00_0000);
    assert_eq!(display.config().width, 800);
}

#[test]
fn flush_rewrites_and_installs_the_dlist() {
    let mut display =
        HvsDisplay::new(resources(1 << 24), HvsDisplayConfig::rgb888(1920, 1080)).unwrap();
    let ops = display.flush();
    let expected_words =
        [0x4000_1815u32, 0xff00_0000, 0x4438_0780, 0xc0c0_c0c0, 0x1e00_0000, 0xc0c0_c0c0, 5760, 0];
    assert_eq!(ops.len(), 9);
    for (i, w) in expected_words.iter().enumerate() {
        assert_eq!(ops[i], DisplayOp::Dlist(RegOp::Write { reg: 4 * i, value: *w }));
    }
    assert_eq!(ops[8], DisplayOp::Hvs(RegOp::Write { reg: 0x20, value: 0x1f00_0000 }));
}

#[test]
fn other_formats_scan_out_as_rgba8888() {
    let config = HvsDisplayConfig { width: 4, height: 4, stride: 16, format: PixelFormat::Bgr888 };
    let mut display = HvsDisplay::new(resources(64), config).unwrap();
    let ops = display.flush();
    assert_eq!(ops[0], DisplayOp::Dlist(RegOp::Write { reg: 0, value: 0x4000_1817 }));
}

#[test]
fn bring_up_sequence() {
    let display =
        HvsDisplay::new(resources(1 << 24), HvsDisplayConfig::xrgb8888(1920, 1080)).unwrap();
    let ops = display.bring_up();
    assert_eq!(ops.len(), 2 + 2006 + 18 + 1 + 5 + 9 + 4);
    assert_eq!(ops[0], DisplayOp::SetClockRate { clock_id: CLK_PIXEL, rate_hz: 148_500_000 });
    assert_eq!(ops[1], DisplayOp::SetClockRate { clock_id: CLK_PIXEL_BVB, rate_hz: 150_000_000 });
    assert_eq!(ops[2], DisplayOp::Hdmi(RegOp::Write { reg: 0x74, value: 4 }));
    assert_eq!(ops[2 + 2006], DisplayOp::Hdmi(RegOp::Write { reg: 0x44, value: 0xc000_0780 }));
    assert_eq!(
        ops[2 + 2006 + 18],
        DisplayOp::Hvs(RegOp::Modify { reg: 0x00, clear: 0, set: 0x8000_0000 })
    );
    assert_eq!(
        ops[2 + 2006 + 18 + 1 + 3],
        DisplayOp::Hvs(RegOp::Write { reg: 0x40, value: 0x8078_0438 })
    );
    assert_eq!(ops[ops.len() - 5], DisplayOp::Hvs(RegOp::Write { reg: 0x20, value: 0x1f00_0000 }));
    assert_eq!(ops[ops.len() - 1], DisplayOp::Hdmi(RegOp::Modify { reg: 0xf0, clear: 0, set: 1 }));
}

#[test]
fn hvs_channel_setup() {
    let hvs = Hvs::new(0x3f40_0000);
    assert_eq!(hvs.base(), 0x3f40_0000);
    assert_eq!(hvs.enable(), vec![RegOp::Modify { reg: 0x00, clear: 0, set: 0x8000_0000 }]);
    assert_eq!(
        hvs.init_channel(&mode_1080p60()),
        vec![
            RegOp::Write { reg: 0x40, value: 0 },
            RegOp::Write { reg: 0x40, value: 0x4000_0000 },
            RegOp::Write { reg: 0x40, value: 0 },
            RegOp::Write { reg: 0x40, value: 0x8078_0438 },
            RegOp::Modify { reg: 0x44, clear: 0x2000_0000, set: 0xa000_0000 },
        ]
    );
    assert_eq!(hvs.install_dlist(0x1234_5660), vec![RegOp::Write { reg: 0x20, value: 0x1234_5660 }]);
}

#[test]
fn hvs_channel_keeps_every_width_bit() {
    let hvs = Hvs::new(0x3f40_0000);
    let mut mode = mode_1080p60();
    mode.hdisplay = 1366;
    mode.vdisplay = 768;
    let ops = hvs.init_channel(&mode);
    assert_eq!(ops[3], RegOp::Write { reg: 0x40, value: 0x8000_0000 | (1366 << 12) | 768 });
}

#[test]
fn hdmi_timings_for_1080p60() {
    let hdmi = Hdmi::new(0x3f90_2000);
    assert_eq!(hdmi.base(), 0x3f90_2000);
    let ops = hdmi.configure(&mode_1080p60());
    assert_eq!(ops.len(), 18);
    assert_eq!(ops[0], RegOp::Write { reg: 0x44, value: 0xc000_0780 });
    assert_eq!(ops[1], RegOp::Write { reg: 0x48, value: 0x582c_0094 });
    assert_eq!(ops[2], RegOp::Write { reg: 0x4c, value: 0x4380_4005 });
    assert_eq!(ops[3], RegOp::Write { reg: 0x54, value: 0x4380_4005 });
    assert_eq!(ops[4], RegOp::Write { reg: 0x50, value: 0x0002_4000 });
    assert_eq!(ops[5], RegOp::Write { reg: 0x58, value: 0x0002_4000 });
    assert_eq!(ops[6], RegOp::Modify { reg: 0x100, clear: 3, set: 0 });
    assert_eq!(ops[14], RegOp::Write { reg: 0x2c0, value: 0xf_0000 });
    assert_eq!(ops[16], RegOp::Modify { reg: 0xb4, clear: 0, set: 0x1020 });
    assert_eq!(ops[17], RegOp::Write { reg: 0xe0, value: 0x4000 });
}

#[test]
fn hdmi_negative_sync_polarity() {
    let mut mode = mode_1080p60();
    mode.hsync_positive = false;
    mode.vsync_positive = false;
    let ops = Hdmi::new(0).configure(&mode);
    assert_eq!(ops[0], RegOp::Write { reg: 0x44, value: 0x0000_0780 });
}

#[test]
fn hdmi_reset_pauses_twice() {
    let ops = Hdmi::new(0x3f90_2000).reset();
    assert_eq!(ops.len(), 2006);
    assert_eq!(ops[0], RegOp::Write { reg: 0x74, value: 4 });
    assert!(ops[1..1001].iter().all(|op| *op == RegOp::Read { reg: 0x130 }));
    assert_eq!(ops[1001], RegOp::Write { reg: 0x74, value: 0 });
    assert_eq!(ops[1002], RegOp::Write { reg: 0xac, value: 2 });
    assert!(ops[1003..2003].iter().all(|op| *op == RegOp::Read { reg: 0x130 }));
    assert_eq!(
        &ops[2003..],
        &[
            RegOp::Write { reg: 0xac, value: 0 },
            RegOp::Write { reg: 0xf4, value: 0 },
            RegOp::Modify { reg: 0xd4, clear: 0, set: 2 },
        ]
    );
}

#[test]
fn hdmi_enable_then_disable() {
    let hdmi = Hdmi::new(0x3f90_2000);
    assert_eq!(
        hdmi.enable(),
        vec![
            RegOp::Modify { reg: 0xf0, clear: 2, set: 0 },
            RegOp::Modify { reg: 0xd4, clear: 2, set: 0 },
            RegOp::Write { reg: 0x74, value: 1 },
            RegOp::Modify { reg: 0xf0, clear: 0, set: 1 },
        ]
    );
    assert_eq!(
        hdmi.disable(),
        vec![
            RegOp::Modify { reg: 0xf0, clear: 1, set: 0 },
            RegOp::Modify { reg: 0xf0, clear: 0, set: 2 },
            RegOp::Modify { reg: 0xd4, clear: 0, set: 2 },
        ]
    );
}

fn run(regs: &mut std::collections::HashMap<usize, u32>, ops: &[RegOp]) {
    for op in ops {
        match *op {
            RegOp::Write { reg, value } => {
                regs.insert(reg, value);
            }
            RegOp::Modify { reg, clear, set } => {
                let old = *regs.get(&reg).unwrap_or(&0);
                regs.insert(reg, (old & !clear) | set);
            }
            RegOp::Read { .. } | RegOp::WaitClear { .. } => {}
        }
    }
}

#[test]
fn hdmi_disable_undoes_enable_on_a_register_model() {
    let hdmi = Hdmi::new(0);
    let mut regs = std::collections::HashMap::new();
    regs.insert(0xf0usize, 0xffff_fffeu32);
    regs.insert(0xd4usize, 0xffff_ffffu32);
    run(&mut regs, &hdmi.enable());
    assert_eq!(regs[&0xf0] & 3, 1);
    assert_eq!(regs[&0xd4] & 2, 0);
    assert_eq!(regs[&0x74], 1);
    run(&mut regs, &hdmi.disable());
    assert_eq!(regs[&0xf0] & 3, 2);
    assert_eq!(regs[&0xd4] & 2, 2);
}
