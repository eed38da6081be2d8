//! BCM2835/6/7 HDMI transmitter (VC4 pixel valve + HDMI block).
//!
//! The HDMI block at `0x3f90_2000` consumes pixels from the HVS channel 0
//! FIFO and serializes them over the DVI/HDMI PHY. This driver programs a
//! fixed CEA-861 mode: timing registers, RGB CSC passthrough, the digital
//! PHY, and the scheduler/packet engine.
//!
//! The pixel clock itself is owned by the GPU firmware; `CLK_PIXEL` (and
//! `CLK_PIXEL_BVB`) must have been requested through the mailbox before the
//! accesses of [`Hdmi::configure`] are performed.

use vstd::prelude::*;
use crate::regops::{apply_ops, modified, RegOp};
use super::regs::{
    ModeTiming, HDMI_CLOCK_STOP, HDMI_CORE_REV, HDMI_CSC_12_11, HDMI_CSC_14_13, HDMI_CSC_22_21,
    HDMI_CSC_24_23, HDMI_CSC_32_31, HDMI_CSC_34_33, HDMI_CSC_CTL, HDMI_DVP_CTL, HDMI_FIFO_CTL,
    HDMI_HORZA, HDMI_HORZB, HDMI_MISC_CONTROL, HDMI_M_CTL, HDMI_SCHEDULER_CONTROL,
    HDMI_SW_RESET_CONTROL, HDMI_TX_PHY_RESET_CTL, HDMI_VERTA0, HDMI_VERTA1, HDMI_VERTB0,
    HDMI_VERTB1, HDMI_VID_CTL, VC4_DVP_HT_CLOCK_STOP_PIXEL, VC4_HDMI_FIFO_CTL_MASTER_SLAVE_N,
    VC4_HDMI_HORZA_HAP_SHIFT, VC4_HDMI_HORZA_HPOS, VC4_HDMI_HORZA_VPOS, VC4_HDMI_HORZB_HBP_SHIFT,
    VC4_HDMI_HORZB_HFP_SHIFT, VC4_HDMI_HORZB_HSP_SHIFT, VC4_HDMI_MISC_CONTROL_PIXEL_REP_MASK,
    VC4_HDMI_SCHEDULER_CONTROL_IGNORE_VSYNC_PREDICTS, VC4_HDMI_SCHEDULER_CONTROL_MANUAL_FORMAT,
    VC4_HDMI_SW_RESET_FORMAT_DETECT, VC4_HDMI_VERTA_VAL_SHIFT, VC4_HDMI_VERTA_VFP_SHIFT,
    VC4_HDMI_VERTA_VSP_SHIFT, VC4_HDMI_VERTB_VBP_SHIFT, VC4_HDMI_VERTB_VSPO_SHIFT,
    VC4_HDMI_VID_CTL_BLANKPIX, VC4_HDMI_VID_CTL_ENABLE, VC4_HD_M_ENABLE, VC4_HD_M_SW_RST,
};

verus! {

/// Reads of `HDMI_CORE_REV` used as a short pause during reset.
pub const RESET_DELAY_READS: usize = 1000;

/// The pause: `RESET_DELAY_READS` reads of `HDMI_CORE_REV`.
pub open spec fn delay_ops() -> Seq<RegOp> {
    Seq::new(RESET_DELAY_READS as nat, |i: int| RegOp::Read { reg: HDMI_CORE_REV })
}

/// The accesses that reset the HDMI core and stop the pixel clock.
pub open spec fn reset_ops() -> Seq<RegOp> {
    seq![RegOp::Write { reg: HDMI_M_CTL, value: VC4_HD_M_SW_RST }] + delay_ops() + seq![
        RegOp::Write { reg: HDMI_M_CTL, value: 0 },
        RegOp::Write { reg: HDMI_SW_RESET_CONTROL, value: VC4_HDMI_SW_RESET_FORMAT_DETECT },
    ] + delay_ops() + seq![
        RegOp::Write { reg: HDMI_SW_RESET_CONTROL, value: 0 },
        RegOp::Write { reg: HDMI_DVP_CTL, value: 0 },
        RegOp::Modify { reg: HDMI_CLOCK_STOP, clear: 0, set: VC4_DVP_HT_CLOCK_STOP_PIXEL },
    ]
}

/// `HDMI_HORZA`: sync polarities and the active width.
pub open spec fn horza(mode: ModeTiming) -> u32 {
    (if mode.vsync_positive {
        VC4_HDMI_HORZA_VPOS
    } else {
        0
    }) | (if mode.hsync_positive {
        VC4_HDMI_HORZA_HPOS
    } else {
        0
    }) | (mode.hdisplay << VC4_HDMI_HORZA_HAP_SHIFT)
}

/// `HDMI_HORZB`: back porch, sync width and front porch.
pub open spec fn horzb(mode: ModeTiming) -> u32 {
    (((mode.htotal - mode.hsync_end) as u32) << VC4_HDMI_HORZB_HBP_SHIFT) | (((mode.hsync_end
        - mode.hsync_start) as u32) << VC4_HDMI_HORZB_HSP_SHIFT) | (((mode.hsync_start
        - mode.hdisplay) as u32) << VC4_HDMI_HORZB_HFP_SHIFT)
}

/// `HDMI_VERTA0/1`: sync width, front porch and the active height.
pub open spec fn verta(mode: ModeTiming) -> u32 {
    (((mode.vsync_end - mode.vsync_start) as u32) << VC4_HDMI_VERTA_VSP_SHIFT) | (((mode.vsync_start
        - mode.vdisplay) as u32) << VC4_HDMI_VERTA_VFP_SHIFT) | (mode.vdisplay
        << VC4_HDMI_VERTA_VAL_SHIFT)
}

/// `HDMI_VERTB0/1`: sync offset 0 and the back porch.
pub open spec fn vertb(mode: ModeTiming) -> u32 {
    (0u32 << VC4_HDMI_VERTB_VSPO_SHIFT) | (((mode.vtotal - mode.vsync_end) as u32)
        << VC4_HDMI_VERTB_VBP_SHIFT)
}

/// The accesses that program the timing, RGB passthrough, the digital PHY
/// reset and the scheduler for `mode`.
pub open spec fn configure_ops(mode: ModeTiming) -> Seq<RegOp> {
    seq![
        RegOp::Write { reg: HDMI_HORZA, value: horza(mode) },
        RegOp::Write { reg: HDMI_HORZB, value: horzb(mode) },
        RegOp::Write { reg: HDMI_VERTA0, value: verta(mode) },
        RegOp::Write { reg: HDMI_VERTA1, value: verta(mode) },
        RegOp::Write { reg: HDMI_VERTB0, value: vertb(mode) },
        RegOp::Write { reg: HDMI_VERTB1, value: vertb(mode) },
        RegOp::Modify { reg: HDMI_MISC_CONTROL, clear: VC4_HDMI_MISC_CONTROL_PIXEL_REP_MASK, set: 0 },
        RegOp::Write { reg: HDMI_CSC_CTL, value: 0 },
        RegOp::Write { reg: HDMI_CSC_12_11, value: 0 },
        RegOp::Write { reg: HDMI_CSC_14_13, value: 0 },
        RegOp::Write { reg: HDMI_CSC_22_21, value: 0 },
        RegOp::Write { reg: HDMI_CSC_24_23, value: 0 },
        RegOp::Write { reg: HDMI_CSC_32_31, value: 0 },
        RegOp::Write { reg: HDMI_CSC_34_33, value: 0 },
        RegOp::Write { reg: HDMI_TX_PHY_RESET_CTL, value: 0xfu32 << 16u32 },
        RegOp::Write { reg: HDMI_TX_PHY_RESET_CTL, value: 0 },
        RegOp::Modify {
            reg: HDMI_SCHEDULER_CONTROL,
            clear: 0,
            set: VC4_HDMI_SCHEDULER_CONTROL_MANUAL_FORMAT
                | VC4_HDMI_SCHEDULER_CONTROL_IGNORE_VSYNC_PREDICTS,
        },
        RegOp::Write { reg: HDMI_FIFO_CTL, value: VC4_HDMI_FIFO_CTL_MASTER_SLAVE_N },
    ]
}

/// The accesses that start pixel output.
pub open spec fn enable_ops() -> Seq<RegOp> {
    seq![
        RegOp::Modify { reg: HDMI_VID_CTL, clear: VC4_HDMI_VID_CTL_BLANKPIX, set: 0 },
        RegOp::Modify { reg: HDMI_CLOCK_STOP, clear: VC4_DVP_HT_CLOCK_STOP_PIXEL, set: 0 },
        RegOp::Write { reg: HDMI_M_CTL, value: VC4_HD_M_ENABLE },
        RegOp::Modify { reg: HDMI_VID_CTL, clear: 0, set: VC4_HDMI_VID_CTL_ENABLE },
    ]
}

/// The accesses that stop pixel output.
pub open spec fn disable_ops() -> Seq<RegOp> {
    seq![
        RegOp::Modify { reg: HDMI_VID_CTL, clear: VC4_HDMI_VID_CTL_ENABLE, set: 0 },
        RegOp::Modify { reg: HDMI_VID_CTL, clear: 0, set: VC4_HDMI_VID_CTL_BLANKPIX },
        RegOp::Modify { reg: HDMI_CLOCK_STOP, clear: 0, set: VC4_DVP_HT_CLOCK_STOP_PIXEL },
    ]
}

fn push_delay(ops: &mut Vec<RegOp>)
    ensures
        final(ops)@ == old(ops)@ + delay_ops(),
{
    let ghost start = ops@;
    let mut i: usize = 0;
    while i < RESET_DELAY_READS
        invariant
            i <= RESET_DELAY_READS,
            ops@ == start + Seq::new(i as nat, |k: int| RegOp::Read { reg: HDMI_CORE_REV }),
        decreases RESET_DELAY_READS - i,
    {
        ops.push(RegOp::Read { reg: HDMI_CORE_REV });
        i = i + 1;
        assert(ops@ =~= start + Seq::new(i as nat, |k: int| RegOp::Read { reg: HDMI_CORE_REV }));
    }
    assert(ops@ =~= start + delay_ops());
}

/// The HDMI transmitter.
pub struct Hdmi {
    base: usize,
}

impl Hdmi {
    /// The ARM-view physical address of the HDMI block.
    pub closed spec fn spec_base(&self) -> usize {
        self.base
    }

    /// `base` is the ARM-view physical address of the HDMI block
    /// (`0x3f90_2000`).
    pub fn new(base: usize) -> (hdmi: Self)
        ensures
            hdmi.spec_base() == base,
    {
        Self { base }
    }

    /// The ARM-view physical address of the HDMI block.
    pub fn base(&self) -> (base: usize)
        ensures
            base == self.spec_base(),
    {
        self.base
    }

    /// Resets the HDMI core and stops the pixel clock until configured
    /// (as `vc4_hdmi_reset` and the disable path do).
    pub fn reset(&self) -> (ops: Vec<RegOp>)
        ensures
            ops@ == reset_ops(),
    {
        let mut ops: Vec<RegOp> = Vec::new();
        ops.push(RegOp::Write { reg: HDMI_M_CTL, value: VC4_HD_M_SW_RST });
        // ~1 us pause.
        push_delay(&mut ops);
        ops.push(RegOp::Write { reg: HDMI_M_CTL, value: 0 });
        ops.push(RegOp::Write { reg: HDMI_SW_RESET_CONTROL, value: VC4_HDMI_SW_RESET_FORMAT_DETECT });
        push_delay(&mut ops);
        ops.push(RegOp::Write { reg: HDMI_SW_RESET_CONTROL, value: 0 });
        ops.push(RegOp::Write { reg: HDMI_DVP_CTL, value: 0 });
        ops.push(RegOp::Modify { reg: HDMI_CLOCK_STOP, clear: 0, set: VC4_DVP_HT_CLOCK_STOP_PIXEL });
        assert(ops@ =~= reset_ops());
        ops
    }

    /// Programs the timing of `mode` (as `vc4_hdmi_set_timings` does), plus
    /// RGB CSC passthrough, the digital PHY reset (as `vc4_hdmi_phy_init`
    /// does) and the scheduler (manual format, vsync predicts ignored).
    pub fn configure(&self, mode: &ModeTiming) -> (ops: Vec<RegOp>)
        requires
            mode.wf(),
        ensures
            ops@ == configure_ops(*mode),
    {
        let hsync_pos = mode.hsync_positive;
        let vsync_pos = mode.vsync_positive;
        let verta = ((mode.vsync_end - mode.vsync_start) << VC4_HDMI_VERTA_VSP_SHIFT) | ((
        mode.vsync_start - mode.vdisplay) << VC4_HDMI_VERTA_VFP_SHIFT) | (mode.vdisplay
            << VC4_HDMI_VERTA_VAL_SHIFT);
        let vertb = (0u32 << VC4_HDMI_VERTB_VSPO_SHIFT) | ((mode.vtotal - mode.vsync_end)
            << VC4_HDMI_VERTB_VBP_SHIFT);
        let horza = (if vsync_pos {
            VC4_HDMI_HORZA_VPOS
        } else {
            0
        }) | (if hsync_pos {
            VC4_HDMI_HORZA_HPOS
        } else {
            0
        }) | (mode.hdisplay << VC4_HDMI_HORZA_HAP_SHIFT);
        let horzb = ((mode.htotal - mode.hsync_end) << VC4_HDMI_HORZB_HBP_SHIFT) | ((mode.hsync_end
            - mode.hsync_start) << VC4_HDMI_HORZB_HSP_SHIFT) | ((mode.hsync_start - mode.hdisplay)
            << VC4_HDMI_HORZB_HFP_SHIFT);
        let mut ops: Vec<RegOp> = Vec::new();
        ops.push(RegOp::Write { reg: HDMI_HORZA, value: horza });
        ops.push(RegOp::Write { reg: HDMI_HORZB, value: horzb });
        ops.push(RegOp::Write { reg: HDMI_VERTA0, value: verta });
        ops.push(RegOp::Write { reg: HDMI_VERTA1, value: verta });
        ops.push(RegOp::Write { reg: HDMI_VERTB0, value: vertb });
        ops.push(RegOp::Write { reg: HDMI_VERTB1, value: vertb });
        ops.push(
            RegOp::Modify { reg: HDMI_MISC_CONTROL, clear: VC4_HDMI_MISC_CONTROL_PIXEL_REP_MASK, set: 0 },
        );
        // RGB passthrough: no CSC coefficients needed, keep the CSC disabled.
        ops.push(RegOp::Write { reg: HDMI_CSC_CTL, value: 0 });
        ops.push(RegOp::Write { reg: HDMI_CSC_12_11, value: 0 });
        ops.push(RegOp::Write { reg: HDMI_CSC_14_13, value: 0 });
        ops.push(RegOp::Write { reg: HDMI_CSC_22_21, value: 0 });
        ops.push(RegOp::Write { reg: HDMI_CSC_24_23, value: 0 });
        ops.push(RegOp::Write { reg: HDMI_CSC_32_31, value: 0 });
        ops.push(RegOp::Write { reg: HDMI_CSC_34_33, value: 0 });
        // Reset the digital PHY.
        ops.push(RegOp::Write { reg: HDMI_TX_PHY_RESET_CTL, value: 0xfu32 << 16u32 });
        ops.push(RegOp::Write { reg: HDMI_TX_PHY_RESET_CTL, value: 0 });
        // Scheduler: manual format, ignore vsync predicts.
        ops.push(
            RegOp::Modify {
                reg: HDMI_SCHEDULER_CONTROL,
                clear: 0,
                set: VC4_HDMI_SCHEDULER_CONTROL_MANUAL_FORMAT
                    | VC4_HDMI_SCHEDULER_CONTROL_IGNORE_VSYNC_PREDICTS,
            },
        );
        ops.push(RegOp::Write { reg: HDMI_FIFO_CTL, value: VC4_HDMI_FIFO_CTL_MASTER_SLAVE_N });
        assert(ops@ =~= configure_ops(*mode));
        ops
    }

    /// Starts pixel output: unblanks the video path, restarts the pixel
    /// clock, enables the core, then enables the video path.
    pub fn enable(&self) -> (ops: Vec<RegOp>)
        ensures
            ops@ == enable_ops(),
    {
        let ops = vec![
            RegOp::Modify { reg: HDMI_VID_CTL, clear: VC4_HDMI_VID_CTL_BLANKPIX, set: 0 },
            RegOp::Modify { reg: HDMI_CLOCK_STOP, clear: VC4_DVP_HT_CLOCK_STOP_PIXEL, set: 0 },
            RegOp::Write { reg: HDMI_M_CTL, value: VC4_HD_M_ENABLE },
            RegOp::Modify { reg: HDMI_VID_CTL, clear: 0, set: VC4_HDMI_VID_CTL_ENABLE },
        ];
        assert(ops@ =~= enable_ops());
        ops
    }

    /// Stops pixel output: disables and blanks the video path and stops
    /// the pixel clock.
    pub fn disable(&self) -> (ops: Vec<RegOp>)
        ensures
            ops@ == disable_ops(),
    {
        let ops = vec![
            RegOp::Modify { reg: HDMI_VID_CTL, clear: VC4_HDMI_VID_CTL_ENABLE, set: 0 },
            RegOp::Modify { reg: HDMI_VID_CTL, clear: 0, set: VC4_HDMI_VID_CTL_BLANKPIX },
            RegOp::Modify { reg: HDMI_CLOCK_STOP, clear: 0, set: VC4_DVP_HT_CLOCK_STOP_PIXEL },
        ];
        assert(ops@ =~= disable_ops());
        ops
    }
}

/// Whether a register block, as modelled, is outputting pixels: video path
/// enabled and not blanked, pixel clock running.
pub open spec fn outputting(regs: spec_fn(usize) -> u32) -> bool {
    &&& regs(HDMI_VID_CTL) & VC4_HDMI_VID_CTL_ENABLE != 0
    &&& regs(HDMI_VID_CTL) & VC4_HDMI_VID_CTL_BLANKPIX == 0
    &&& regs(HDMI_CLOCK_STOP) & VC4_DVP_HT_CLOCK_STOP_PIXEL == 0
}

/// Whether a register block, as modelled, is stopped: video path disabled
/// and blanked, pixel clock stopped.
pub open spec fn stopped(regs: spec_fn(usize) -> u32) -> bool {
    &&& regs(HDMI_VID_CTL) & VC4_HDMI_VID_CTL_ENABLE == 0
    &&& regs(HDMI_VID_CTL) & VC4_HDMI_VID_CTL_BLANKPIX != 0
    &&& regs(HDMI_CLOCK_STOP) & VC4_DVP_HT_CLOCK_STOP_PIXEL != 0
}

/// Whatever the registers held, enabling leaves the transmitter
/// outputting with the core enabled, and disabling leaves it stopped; so
/// disabling undoes enabling, and enabling after disabling restarts output.
pub proof fn lemma_enable_disable(regs: spec_fn(usize) -> u32)
    ensures
        outputting(apply_ops(regs, enable_ops())),
        apply_ops(regs, enable_ops())(HDMI_M_CTL) == VC4_HD_M_ENABLE,
        stopped(apply_ops(regs, disable_ops())),
        stopped(apply_ops(apply_ops(regs, enable_ops()), disable_ops())),
        outputting(apply_ops(apply_ops(regs, disable_ops()), enable_ops())),
{
    lemma_enable_outputs(regs);
    lemma_disable_stops(regs);
    lemma_enable_outputs(apply_ops(regs, disable_ops()));
    lemma_disable_stops(apply_ops(regs, enable_ops()));
}

proof fn lemma_enable_outputs(regs: spec_fn(usize) -> u32)
    ensures
        outputting(apply_ops(regs, enable_ops())),
        apply_ops(regs, enable_ops())(HDMI_M_CTL) == VC4_HD_M_ENABLE,
{
    let s = enable_ops();
    reveal_with_fuel(apply_ops, 5);
    assert(s.drop_first().drop_first().drop_first().drop_first() =~= Seq::<RegOp>::empty());
    let v0 = regs(HDMI_VID_CTL);
    let c0 = regs(HDMI_CLOCK_STOP);
    assert(modified(modified(v0, VC4_HDMI_VID_CTL_BLANKPIX, 0), 0, VC4_HDMI_VID_CTL_ENABLE)
        & VC4_HDMI_VID_CTL_ENABLE != 0) by (bit_vector);
    assert(modified(modified(v0, VC4_HDMI_VID_CTL_BLANKPIX, 0), 0, VC4_HDMI_VID_CTL_ENABLE)
        & VC4_HDMI_VID_CTL_BLANKPIX == 0) by (bit_vector);
    assert(modified(c0, VC4_DVP_HT_CLOCK_STOP_PIXEL, 0) & VC4_DVP_HT_CLOCK_STOP_PIXEL == 0)
        by (bit_vector);
}

proof fn lemma_disable_stops(regs: spec_fn(usize) -> u32)
    ensures
        stopped(apply_ops(regs, disable_ops())),
{
    let s = disable_ops();
    reveal_with_fuel(apply_ops, 4);
    assert(s.drop_first().drop_first().drop_first() =~= Seq::<RegOp>::empty());
    let v0 = regs(HDMI_VID_CTL);
    let c0 = regs(HDMI_CLOCK_STOP);
    assert(modified(modified(v0, VC4_HDMI_VID_CTL_ENABLE, 0), 0, VC4_HDMI_VID_CTL_BLANKPIX)
        & VC4_HDMI_VID_CTL_ENABLE == 0) by (bit_vector);
    assert(modified(modified(v0, VC4_HDMI_VID_CTL_ENABLE, 0), 0, VC4_HDMI_VID_CTL_BLANKPIX)
        & VC4_HDMI_VID_CTL_BLANKPIX != 0) by (bit_vector);
    assert(modified(c0, 0, VC4_DVP_HT_CLOCK_STOP_PIXEL) & VC4_DVP_HT_CLOCK_STOP_PIXEL != 0)
        by (bit_vector);
}


/// Programming the timing for a mode first writes `HDMI_HORZA` (offset
/// 0x44), whose bit 31 (VPOS) is set exactly for a positive vertical sync,
/// whose bit 30 (HPOS) is set exactly for a positive horizontal sync, and
/// whose low 13 bits carry the active width, for every mode whose width
/// fits in that field.
pub proof fn lemma_configure_sync_polarity(mode: ModeTiming)
    ensures
        configure_ops(mode)[0] matches RegOp::Write { reg, value } && reg == 0x44usize && (
        mode.hdisplay < 0x2000 ==> ((value & 0x8000_0000u32 != 0) == mode.vsync_positive) && ((
        value & 0x4000_0000u32 != 0) == mode.hsync_positive) && value & 0x1fffu32 == mode.hdisplay),
{
    let h = mode.hdisplay;
    let v = horza(mode);
    let a: u32 = if mode.vsync_positive {
        0x8000_0000
    } else {
        0
    };
    let b: u32 = if mode.hsync_positive {
        0x4000_0000
    } else {
        0
    };
    assert(VC4_HDMI_HORZA_VPOS == 0x8000_0000u32 && VC4_HDMI_HORZA_HPOS == 0x4000_0000u32)
        by (bit_vector);
    assert(v == a | b | (h << 0u32));
    assert({
        let w = a | b | (h << 0u32);
        h < 0x2000 ==> (w & 0x8000_0000u32 != 0) == (a != 0) && (w & 0x4000_0000u32 != 0) == (b
            != 0) && w & 0x1fffu32 == h
    }) by (bit_vector)
        requires
            a == 0 || a == 0x8000_0000u32,
            b == 0 || b == 0x4000_0000u32,
    ;
}

} // verus!
