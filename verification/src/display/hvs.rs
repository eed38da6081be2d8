//! VideoCore IV HVS display controller.
//!
//! The HVS is a compositor: it reads a display list (`dlist`) of plane
//! descriptors from memory and blends them into the channel FIFO consumed by
//! the downstream pixel valve (HDMI/DSI). This driver programs channel 0 with
//! a single full-screen linear framebuffer plane.

use vstd::prelude::*;
use crate::regops::RegOp;
use super::regs::{
    field, spec_field, ModeTiming, SCALER_CTL0_PIXEL_FORMAT_SHIFT, SCALER_CTL0_RGBA_EXPAND_ROUND,
    SCALER_CTL0_RGBA_EXPAND_SHIFT, SCALER_CTL0_TILING_LINEAR, SCALER_CTL0_TILING_SHIFT,
    SCALER_CTL0_UNITY, SCALER_CTL0_VALID, SCALER_DISPBKGND0, SCALER_DISPBKGND_AUTOHS,
    SCALER_DISPBKGND_GAMMA, SCALER_DISPCTRL, SCALER_DISPCTRL0, SCALER_DISPCTRL0_ENABLE,
    SCALER_DISPCTRL0_HEIGHT_MASK, SCALER_DISPCTRL0_HEIGHT_SHIFT, SCALER_DISPCTRL0_RESET,
    SCALER_DISPCTRL0_WIDTH_MASK, SCALER_DISPCTRL0_WIDTH_SHIFT, SCALER_DISPCTRL_ENABLE,
    SCALER_DISPLIST0, SCALER_POS0_FIXED_ALPHA_SHIFT, SCALER_POS2_ALPHA_MODE_FIXED,
    SCALER_POS2_ALPHA_MODE_SHIFT, SCALER_POS2_HEIGHT_SHIFT, SCALER_POS2_WIDTH_SHIFT,
    SCALER_SRC_PITCH_MASK,
};

verus! {

/// Number of 32-bit words in the single-plane display list.
pub const DLIST_WORDS: usize = 8;

/// The display list of one full-screen linear plane.
///
/// Layout (VC4 HVS4):
/// ```text
/// [0] control: VALID | RGBA_EXPAND_ROUND | ORDER | PIXEL_FORMAT | UNITY
/// [1] position 0: alpha | START_X | START_Y
/// [2] position 2: ALPHA_MODE_FIXED | HEIGHT | WIDTH   (unity skips pos 1)
/// [3] context (HVS-owned)
/// [4] pointer: framebuffer bus address
/// [5] pointer context (HVS-owned)
/// [6] pitch: SRC_PITCH | 0
/// [7] 0 (padding/end)
/// ```
pub open spec fn dlist_words(fb_bus_addr: u32, width: u32, height: u32, stride: u32, pixel_format: u32) -> Seq<u32> {
    seq![
        SCALER_CTL0_VALID | (SCALER_CTL0_RGBA_EXPAND_ROUND << SCALER_CTL0_RGBA_EXPAND_SHIFT) | (
        pixel_format << SCALER_CTL0_PIXEL_FORMAT_SHIFT) | SCALER_CTL0_UNITY | (
        SCALER_CTL0_TILING_LINEAR << SCALER_CTL0_TILING_SHIFT),
        0xffu32 << SCALER_POS0_FIXED_ALPHA_SHIFT,
        (SCALER_POS2_ALPHA_MODE_FIXED << SCALER_POS2_ALPHA_MODE_SHIFT) | (height
            << SCALER_POS2_HEIGHT_SHIFT) | (width << SCALER_POS2_WIDTH_SHIFT),
        0xc0c0_c0c0u32,
        fb_bus_addr,
        0xc0c0_c0c0u32,
        stride & SCALER_SRC_PITCH_MASK,
        0u32,
    ]
}

/// Builds the display list for one full-screen linear plane (see
/// [`dlist_words`]).
pub fn build_dlist(
    dlist: &mut [u32; DLIST_WORDS],
    fb_bus_addr: u32,
    width: u32,
    height: u32,
    stride: u32,
    pixel_format: u32,
)
    ensures
        final(dlist)@ == dlist_words(fb_bus_addr, width, height, stride, pixel_format),
{
    dlist[0] = SCALER_CTL0_VALID | (SCALER_CTL0_RGBA_EXPAND_ROUND << SCALER_CTL0_RGBA_EXPAND_SHIFT)
        | (pixel_format << SCALER_CTL0_PIXEL_FORMAT_SHIFT) | SCALER_CTL0_UNITY | (
    SCALER_CTL0_TILING_LINEAR << SCALER_CTL0_TILING_SHIFT);
    dlist[1] = 0xff << SCALER_POS0_FIXED_ALPHA_SHIFT;  // opaque
    dlist[2] = (SCALER_POS2_ALPHA_MODE_FIXED << SCALER_POS2_ALPHA_MODE_SHIFT) | (height
        << SCALER_POS2_HEIGHT_SHIFT) | (width << SCALER_POS2_WIDTH_SHIFT);
    dlist[3] = 0xc0c0_c0c0;  // HVS-owned context
    dlist[4] = fb_bus_addr;
    dlist[5] = 0xc0c0_c0c0;  // HVS-owned context
    dlist[6] = stride & SCALER_SRC_PITCH_MASK;
    dlist[7] = 0;
    assert(dlist@ =~= dlist_words(fb_bus_addr, width, height, stride, pixel_format));
}

/// The plane descriptor gives back what it was built from: it is valid,
/// expands components with rounding and uses a fixed alpha; it carries
/// the framebuffer address, and the width, height and pitch when each fits
/// in its field (12, 12 and 16 bits).
pub proof fn lemma_dlist_decode(fb_bus_addr: u32, width: u32, height: u32, stride: u32, pixel_format: u32)
    requires
        width < 0x1000,
        height < 0x1000,
        stride < 0x1_0000,
        pixel_format < 0x10,
    ensures
        ({
            let d = dlist_words(fb_bus_addr, width, height, stride, pixel_format);
            &&& d[0] & SCALER_CTL0_VALID != 0
            &&& (d[0] >> SCALER_CTL0_RGBA_EXPAND_SHIFT) & 0b11 == SCALER_CTL0_RGBA_EXPAND_ROUND
            &&& d[0] & 0xf == pixel_format
            &&& d[4] == fb_bus_addr
            &&& d[2] >> SCALER_POS2_ALPHA_MODE_SHIFT == SCALER_POS2_ALPHA_MODE_FIXED
            &&& d[2] & 0xfff == width
            &&& (d[2] >> 16u32) & 0xfff == height
            &&& d[6] == stride
        }),
{
    let d = dlist_words(fb_bus_addr, width, height, stride, pixel_format);
    let w0 = d[0];
    let w2 = d[2];
    assert(w0 == (1u32 << 30u32) | (3u32 << 11u32) | (pixel_format << 0u32) | (1u32 << 4u32) | (
    0u32 << 20u32));
    assert(w2 == (1u32 << 30u32) | (height << 16u32) | (width << 0u32));
    assert({
        let v = (1u32 << 30u32) | (3u32 << 11u32) | (pixel_format << 0u32) | (1u32 << 4u32) | (0u32
            << 20u32);
        &&& v & (1u32 << 30u32) != 0
        &&& (v >> 11u32) & 0b11 == 3
        &&& v & 0xf == pixel_format
    }) by (bit_vector)
        requires
            pixel_format < 0x10,
    ;
    assert({
        let v = (1u32 << 30u32) | (height << 16u32) | (width << 0u32);
        &&& v >> 30u32 == 1
        &&& v & 0xfff == width
        &&& (v >> 16u32) & 0xfff == height
    }) by (bit_vector)
        requires
            width < 0x1000,
            height < 0x1000,
    ;
    assert(stride & 0x0000_ffffu32 == stride) by (bit_vector)
        requires
            stride < 0x1_0000,
    ;
}

/// The channel is enabled with the mode's width in bits 23:12 and its
/// height in bits 11:0, when each fits in 12 bits.
pub proof fn lemma_channel_size(mode: ModeTiming)
    requires
        mode.hdisplay < 0x1000,
        mode.vdisplay < 0x1000,
    ensures
        init_channel_ops(mode)[3] matches RegOp::Write { value: v, .. } && v & (1u32 << 31u32)
            != 0 && (v >> 12u32) & 0xfff == mode.hdisplay && v & 0xfff == mode.vdisplay,
{
    let h = mode.hdisplay;
    let w = mode.vdisplay;
    assert({
        let v = (1u32 << 31u32) | ((h << 12u32) & 0x00ff_f000u32) | ((w << 0u32) & 0x0000_0fffu32);
        &&& v & (1u32 << 31u32) != 0
        &&& (v >> 12u32) & 0xfff == h
        &&& v & 0xfff == w
    }) by (bit_vector)
        requires
            h < 0x1000,
            w < 0x1000,
    ;
}

/// The accesses that make channel 0 composite for `mode`: reset the
/// channel, enable it with the output size, and turn on automatic HSTART
/// and gamma in the background register.
pub open spec fn init_channel_ops(mode: ModeTiming) -> Seq<RegOp> {
    seq![
        RegOp::Write { reg: SCALER_DISPCTRL0, value: 0 },
        RegOp::Write { reg: SCALER_DISPCTRL0, value: SCALER_DISPCTRL0_RESET },
        RegOp::Write { reg: SCALER_DISPCTRL0, value: 0 },
        RegOp::Write {
            reg: SCALER_DISPCTRL0,
            value: SCALER_DISPCTRL0_ENABLE | spec_field(
                mode.hdisplay,
                SCALER_DISPCTRL0_WIDTH_MASK,
                SCALER_DISPCTRL0_WIDTH_SHIFT,
            ) | spec_field(mode.vdisplay, SCALER_DISPCTRL0_HEIGHT_MASK, SCALER_DISPCTRL0_HEIGHT_SHIFT),
        },
        RegOp::Modify {
            reg: SCALER_DISPBKGND0,
            clear: SCALER_DISPBKGND_GAMMA,
            set: SCALER_DISPBKGND_AUTOHS | SCALER_DISPBKGND_GAMMA,
        },
    ]
}

/// HVS channel 0 controller.
pub struct Hvs {
    base: usize,
}

impl Hvs {
    /// The ARM-view physical address of the HVS.
    pub closed spec fn spec_base(&self) -> usize {
        self.base
    }

    /// `base` is the ARM-view physical address of the HVS (`0x3f40_0000`).
    pub fn new(base: usize) -> (hvs: Self)
        ensures
            hvs.spec_base() == base,
    {
        Self { base }
    }

    /// The ARM-view physical address of the HVS.
    pub fn base(&self) -> (base: usize)
        ensures
            base == self.spec_base(),
    {
        self.base
    }

    /// Enables the HVS global scaler.
    pub fn enable(&self) -> (ops: Vec<RegOp>)
        ensures
            ops@ == seq![RegOp::Modify { reg: SCALER_DISPCTRL, clear: 0, set: SCALER_DISPCTRL_ENABLE }],
    {
        let ops = vec![RegOp::Modify { reg: SCALER_DISPCTRL, clear: 0, set: SCALER_DISPCTRL_ENABLE }];
        assert(ops@ =~= seq![RegOp::Modify { reg: SCALER_DISPCTRL, clear: 0, set: SCALER_DISPCTRL_ENABLE }]);
        ops
    }

    /// Programs channel 0 for the given output mode (as
    /// `vc4_hvs_init_channel` does for VC4_GEN_4). The scaler then waits
    /// for VSTART to start compositing.
    pub fn init_channel(&self, mode: &ModeTiming) -> (ops: Vec<RegOp>)
        ensures
            ops@ == init_channel_ops(*mode),
    {
        let dispctrl = SCALER_DISPCTRL0_ENABLE | field(
            mode.hdisplay,
            SCALER_DISPCTRL0_WIDTH_MASK,
            SCALER_DISPCTRL0_WIDTH_SHIFT,
        ) | field(mode.vdisplay, SCALER_DISPCTRL0_HEIGHT_MASK, SCALER_DISPCTRL0_HEIGHT_SHIFT);
        let ops = vec![
            // Reset the channel.
            RegOp::Write { reg: SCALER_DISPCTRL0, value: 0 },
            RegOp::Write { reg: SCALER_DISPCTRL0, value: SCALER_DISPCTRL0_RESET },
            RegOp::Write { reg: SCALER_DISPCTRL0, value: 0 },
            // Enable the scaler.
            RegOp::Write { reg: SCALER_DISPCTRL0, value: dispctrl },
            RegOp::Modify {
                reg: SCALER_DISPBKGND0,
                clear: SCALER_DISPBKGND_GAMMA,
                set: SCALER_DISPBKGND_AUTOHS | SCALER_DISPBKGND_GAMMA,
            },
        ];
        assert(ops@ =~= init_channel_ops(*mode));
        ops
    }

    /// Installs a display list for channel 0; the hardware reads it at the
    /// next frame boundary.
    pub fn install_dlist(&self, dlist_bus_addr: u32) -> (ops: Vec<RegOp>)
        ensures
            ops@ == seq![RegOp::Write { reg: SCALER_DISPLIST0, value: dlist_bus_addr }],
    {
        let ops = vec![RegOp::Write { reg: SCALER_DISPLIST0, value: dlist_bus_addr }];
        assert(ops@ =~= seq![RegOp::Write { reg: SCALER_DISPLIST0, value: dlist_bus_addr }]);
        ops
    }
}

} // verus!
