//! Driver core for the Broadcom VideoCore IV HVS display controller and the
//! HDMI transmitter (Raspberry Pi 0-3 and Zero 2W).
//!
//! The HVS compositor is driven with a single full-screen linear
//! framebuffer plane and the HDMI transmitter with a fixed CEA-861 1080p60
//! output. The framebuffer and display-list memory are supplied by the
//! caller (OS glue) as contiguous DMA memory; the pixel clock is requested
//! from the GPU firmware through the mailbox. Bring-up and flush are given
//! as ordered [`DisplayOp`] lists for the glue to perform.

pub mod hdmi;
pub mod hvs;
pub mod regs;

use vstd::prelude::*;
use crate::regops::RegOp;
use hdmi::{configure_ops, enable_ops, reset_ops, Hdmi};
use hvs::{build_dlist, dlist_words, init_channel_ops, Hvs, DLIST_WORDS};
use regs::{
    mode_1080p60, spec_mode_1080p60, CLK_PIXEL, CLK_PIXEL_BVB, HVS_PIXEL_FORMAT_RGB565,
    HVS_PIXEL_FORMAT_RGB888, HVS_PIXEL_FORMAT_RGBA8888, SCALER_DISPCTRL, SCALER_DISPCTRL_ENABLE,
    SCALER_DISPLIST0,
};

verus! {

/// Framebuffer pixel formats.
#[derive(Clone, Copy, Debug, PartialEq, Eq, Structural)]
pub enum PixelFormat {
    Rgb565,
    Rgb888,
    Xrgb8888,
    Argb8888,
    Bgr888,
    Xbgr8888,
}

/// Display errors.
#[derive(Clone, Copy, Debug, PartialEq, Eq, Structural)]
pub enum DisplayError {
    /// The framebuffer memory is smaller than the configuration needs.
    InvalidFramebuffer,
}

/// Resources supplied by the OS glue: physical/virtual addresses of the
/// framebuffer and display list, plus the hardware bases.
#[derive(Clone, Copy, Debug)]
pub struct HvsResources {
    /// ARM-view physical address of the HVS (`0x3f40_0000`).
    pub hvs_base: usize,
    /// ARM-view physical address of the HDMI block (`0x3f90_2000`).
    pub hdmi_base: usize,
    /// Bus (physical) address of the framebuffer; must be 32-byte aligned
    /// and writable by the GPU.
    pub fb_bus_addr: u32,
    /// Virtual address of the framebuffer for CPU access.
    pub fb_vaddr: usize,
    /// Size of the framebuffer in bytes.
    pub fb_size: usize,
    /// Bus (physical) address of the display list; 32-byte aligned.
    pub dlist_bus_addr: u32,
    /// Virtual address of the display list.
    pub dlist_vaddr: usize,
}

/// Display configuration: framebuffer geometry and format.
#[derive(Clone, Copy, Debug)]
pub struct HvsDisplayConfig {
    pub width: u32,
    pub height: u32,
    pub stride: u32,
    pub format: PixelFormat,
}

/// What the display reports about its framebuffer.
#[derive(Clone, Copy, Debug, PartialEq, Eq)]
pub struct DisplayInfo {
    pub width: u32,
    pub height: u32,
    pub stride: usize,
    pub format: PixelFormat,
    pub fb_size: usize,
}

/// One step of driving the display.
#[derive(Clone, Copy, Debug, PartialEq, Eq)]
pub enum DisplayOp {
    /// Ask the firmware (mailbox) to set a clock rate, in Hz.
    SetClockRate { clock_id: u32, rate_hz: u32 },
    /// An access to the HVS registers.
    Hvs(RegOp),
    /// An access to the HDMI registers.
    Hdmi(RegOp),
    /// A store into the display list memory (offsets in bytes from its
    /// virtual address).
    Dlist(RegOp),
}

impl HvsDisplayConfig {
    /// Framebuffer size in bytes: `stride * height`.
    pub open spec fn spec_fb_size(self) -> int {
        self.stride * self.height
    }

    /// Packed 24-bit RGB, 3 bytes per pixel.
    pub fn rgb888(width: u32, height: u32) -> (c: Self)
        requires
            width * 3 <= u32::MAX,
        ensures
            c == (HvsDisplayConfig { width, height, stride: (width * 3) as u32, format: PixelFormat::Rgb888 }),
    {
        Self { width, height, stride: width * 3, format: PixelFormat::Rgb888 }
    }

    /// 32-bit XRGB, 4 bytes per pixel.
    pub fn xrgb8888(width: u32, height: u32) -> (c: Self)
        requires
            width * 4 <= u32::MAX,
        ensures
            c == (HvsDisplayConfig { width, height, stride: (width * 4) as u32, format: PixelFormat::Xrgb8888 }),
    {
        Self { width, height, stride: width * 4, format: PixelFormat::Xrgb8888 }
    }

    /// 16-bit RGB565, 2 bytes per pixel.
    pub fn rgb565(width: u32, height: u32) -> (c: Self)
        requires
            width * 2 <= u32::MAX,
        ensures
            c == (HvsDisplayConfig { width, height, stride: (width * 2) as u32, format: PixelFormat::Rgb565 }),
    {
        Self { width, height, stride: width * 2, format: PixelFormat::Rgb565 }
    }

    /// Framebuffer size in bytes.
    pub fn fb_size(&self) -> (n: usize)
        requires
            self.spec_fb_size() <= usize::MAX,
        ensures
            n == self.spec_fb_size(),
    {
        (self.stride as usize) * (self.height as usize)
    }
}

/// The HVS pixel format code for a framebuffer format: RGB565 and RGB888
/// have their own, everything else is scanned out as RGBA8888.
pub open spec fn hvs_format(format: PixelFormat) -> u32 {
    match format {
        PixelFormat::Rgb565 => HVS_PIXEL_FORMAT_RGB565,
        PixelFormat::Rgb888 => HVS_PIXEL_FORMAT_RGB888,
        _ => HVS_PIXEL_FORMAT_RGBA8888,
    }
}

/// The display list for the framebuffer of `resources` in `config`.
pub open spec fn display_dlist(resources: HvsResources, config: HvsDisplayConfig) -> Seq<u32> {
    dlist_words(resources.fb_bus_addr, config.width, config.height, config.stride, hvs_format(config.format))
}

/// Stores of `words` into consecutive 32-bit words of memory.
pub open spec fn store_words(words: Seq<u32>) -> Seq<DisplayOp> {
    Seq::new(words.len(), |i: int| DisplayOp::Dlist(RegOp::Write { reg: (4 * i) as usize, value: words[i] }))
}

/// HVS accesses as display steps.
pub open spec fn on_hvs(ops: Seq<RegOp>) -> Seq<DisplayOp> {
    ops.map_values(|o: RegOp| DisplayOp::Hvs(o))
}

/// HDMI accesses as display steps.
pub open spec fn on_hdmi(ops: Seq<RegOp>) -> Seq<DisplayOp> {
    ops.map_values(|o: RegOp| DisplayOp::Hdmi(o))
}

/// The steps that re-point the HVS at the framebuffer: rewrite the display
/// list, then install it.
pub open spec fn flush_ops(resources: HvsResources, config: HvsDisplayConfig) -> Seq<DisplayOp> {
    store_words(display_dlist(resources, config)) + on_hvs(
        seq![RegOp::Write { reg: SCALER_DISPLIST0, value: resources.dlist_bus_addr }],
    )
}

/// The bring-up steps: the 1080p60 pixel clock (148.5 MHz) and the BVB
/// clock (150 MHz, at least 100 MHz is needed for 1080p60) from the
/// firmware; HDMI reset and configuration; HVS enable and channel setup;
/// the display list; then HDMI output.
pub open spec fn bring_up_ops(resources: HvsResources, config: HvsDisplayConfig) -> Seq<DisplayOp> {
    seq![
        DisplayOp::SetClockRate {
            clock_id: CLK_PIXEL,
            rate_hz: (spec_mode_1080p60().pixel_clock_khz * 1000) as u32,
        },
        DisplayOp::SetClockRate { clock_id: CLK_PIXEL_BVB, rate_hz: 150_000_000 },
    ] + on_hdmi(reset_ops()) + on_hdmi(configure_ops(spec_mode_1080p60())) + on_hvs(
        seq![RegOp::Modify { reg: SCALER_DISPCTRL, clear: 0, set: SCALER_DISPCTRL_ENABLE }],
    ) + on_hvs(init_channel_ops(spec_mode_1080p60())) + flush_ops(resources, config) + on_hdmi(
        enable_ops(),
    )
}

fn push_on(out: &mut Vec<DisplayOp>, ops: Vec<RegOp>, to_hdmi: bool)
    ensures
        final(out)@ == old(out)@ + (if to_hdmi {
            on_hdmi(ops@)
        } else {
            on_hvs(ops@)
        }),
{
    let ghost start = out@;
    let ghost tagged = if to_hdmi {
        on_hdmi(ops@)
    } else {
        on_hvs(ops@)
    };
    let mut i: usize = 0;
    while i < ops.len()
        invariant
            i <= ops@.len(),
            tagged.len() == ops@.len(),
            tagged == (if to_hdmi {
                on_hdmi(ops@)
            } else {
                on_hvs(ops@)
            }),
            out@ == start + tagged.take(i as int),
        decreases ops@.len() - i,
    {
        let op = ops[i];
        if to_hdmi {
            out.push(DisplayOp::Hdmi(op));
        } else {
            out.push(DisplayOp::Hvs(op));
        }
        assert(tagged.take(i + 1) =~= tagged.take(i as int).push(tagged[i as int]));
        i = i + 1;
    }
    assert(tagged.take(ops@.len() as int) =~= tagged);
}

/// A framebuffer-backed HVS + HDMI display.
pub struct HvsDisplay {
    resources: HvsResources,
    config: HvsDisplayConfig,
    hvs: Hvs,
    hdmi: Hdmi,
}

impl HvsDisplay {
    /// The framebuffer size of the configuration is representable.
    #[verifier::type_invariant]
    closed spec fn inv(self) -> bool {
        self.config.spec_fb_size() <= usize::MAX
    }

    /// The resources the display was created over.
    pub closed spec fn spec_resources(&self) -> HvsResources {
        self.resources
    }

    /// The framebuffer configuration.
    pub closed spec fn spec_config(&self) -> HvsDisplayConfig {
        self.config
    }

    /// Creates the display over `resources` for `config`, provided the
    /// framebuffer memory is large enough. Bring-up is [`HvsDisplay::bring_up`].
    pub fn new(resources: HvsResources, config: HvsDisplayConfig) -> (res: Result<Self, DisplayError>)
        requires
            config.spec_fb_size() <= usize::MAX,
        ensures
            res is Err <==> resources.fb_size < config.spec_fb_size(),
            res matches Err(e) ==> e == DisplayError::InvalidFramebuffer,
            res matches Ok(d) ==> d.spec_resources() == resources && d.spec_config() == config,
    {
        if resources.fb_size < config.fb_size() {
            return Err(DisplayError::InvalidFramebuffer);
        }
        let hvs = Hvs::new(resources.hvs_base);
        let hdmi = Hdmi::new(resources.hdmi_base);
        Ok(Self { resources, config, hvs, hdmi })
    }

    /// Fills `dlist` with the display list for the framebuffer.
    fn write_dlist(dlist: &mut [u32; DLIST_WORDS], resources: HvsResources, config: HvsDisplayConfig)
        ensures
            final(dlist)@ == display_dlist(resources, config),
    {
        let format = match config.format {
            PixelFormat::Rgb565 => HVS_PIXEL_FORMAT_RGB565,
            PixelFormat::Rgb888 => HVS_PIXEL_FORMAT_RGB888,
            _ => HVS_PIXEL_FORMAT_RGBA8888,
        };
        build_dlist(dlist, resources.fb_bus_addr, config.width, config.height, config.stride, format);
    }

    /// The display list stores and its installation.
    fn dlist_steps(&self) -> (out: Vec<DisplayOp>)
        ensures
            out@ == flush_ops(self.resources, self.config),
    {
        let mut dlist = [0u32; DLIST_WORDS];
        Self::write_dlist(&mut dlist, self.resources, self.config);
        let mut out: Vec<DisplayOp> = Vec::new();
        let ghost words = display_dlist(self.resources, self.config);
        let mut i: usize = 0;
        while i < DLIST_WORDS
            invariant
                i <= DLIST_WORDS,
                dlist@ == words,
                words.len() == DLIST_WORDS,
                out@ == store_words(words).take(i as int),
            decreases DLIST_WORDS - i,
        {
            out.push(DisplayOp::Dlist(RegOp::Write { reg: 4 * i, value: dlist[i] }));
            assert(store_words(words).take(i + 1) =~= store_words(words).take(i as int).push(
                store_words(words)[i as int],
            ));
            i = i + 1;
        }
        assert(store_words(words).take(DLIST_WORDS as int) =~= store_words(words));
        let install = self.hvs.install_dlist(self.resources.dlist_bus_addr);
        push_on(&mut out, install, false);
        out
    }

    /// Brings up the display: requests the pixel clocks from the firmware,
    /// resets and configures the HDMI transmitter, initializes the HVS
    /// channel, installs the display list, and starts HDMI output.
    pub fn bring_up(&self) -> (out: Vec<DisplayOp>)
        ensures
            out@ == bring_up_ops(self.spec_resources(), self.spec_config()),
    {
        let mode = mode_1080p60();
        let mut out: Vec<DisplayOp> = Vec::new();
        // Ask the firmware for the 1080p60 pixel clock.
        let pixel_rate = mode.pixel_clock_khz * 1000;
        out.push(DisplayOp::SetClockRate { clock_id: CLK_PIXEL, rate_hz: pixel_rate });
        // The BVB clock must be >= 100 MHz for 1080p60.
        out.push(DisplayOp::SetClockRate { clock_id: CLK_PIXEL_BVB, rate_hz: 150_000_000 });
        push_on(&mut out, self.hdmi.reset(), true);
        push_on(&mut out, self.hdmi.configure(&mode), true);
        push_on(&mut out, self.hvs.enable(), false);
        push_on(&mut out, self.hvs.init_channel(&mode), false);
        let mut dl = self.dlist_steps();
        out.append(&mut dl);
        push_on(&mut out, self.hdmi.enable(), true);
        assert(out@ =~= bring_up_ops(self.resources, self.config));
        out
    }

    /// Re-points the display list at the current framebuffer and asks the
    /// HVS to pick it up. Call after writing new frame data.
    pub fn flush(&mut self) -> (out: Vec<DisplayOp>)
        ensures
            final(self).spec_resources() == old(self).spec_resources(),
            final(self).spec_config() == old(self).spec_config(),
            out@ == flush_ops(old(self).spec_resources(), old(self).spec_config()),
    {
        self.dlist_steps()
    }

    /// What the display reports: the configured geometry, format, and
    /// framebuffer size.
    pub fn info(&self) -> (info: DisplayInfo)
        ensures
            info == (DisplayInfo {
                width: self.spec_config().width,
                height: self.spec_config().height,
                stride: self.spec_config().stride as usize,
                format: self.spec_config().format,
                fb_size: self.spec_config().spec_fb_size() as usize,
            }),
    {
        proof {
            use_type_invariant(self);
        }
        DisplayInfo {
            width: self.config.width,
            height: self.config.height,
            stride: self.config.stride as usize,
            format: self.config.format,
            fb_size: self.config.fb_size(),
        }
    }

    /// The resources the display was created over.
    pub fn resources(&self) -> (r: HvsResources)
        ensures
            r == self.spec_resources(),
    {
        self.resources
    }

    /// The framebuffer configuration.
    pub fn config(&self) -> (c: HvsDisplayConfig)
        ensures
            c == self.spec_config(),
    {
        self.config
    }
}


/// Flushing first stores the display list's control word (at offset 0):
/// a valid plane whose pixel format field (the low 4 bits) is the HVS code
/// of the configured format: 4 (RGB565) for 16-bit RGB, 5 (RGB888) for
/// packed 24-bit RGB, and 7 (RGBA8888) for the 32-bit formats.
pub proof fn lemma_flush_scans_out_configured_format(resources: HvsResources, config: HvsDisplayConfig)
    ensures
        flush_ops(resources, config)[0] matches DisplayOp::Dlist(RegOp::Write { reg, value })
            && reg == 0usize && value & 0x4000_0000u32 != 0 && value & 0xfu32 == (match config.format {
            PixelFormat::Rgb565 => 4u32,
            PixelFormat::Rgb888 => 5u32,
            _ => 7u32,
        }),
{
    let code: u32 = match config.format {
        PixelFormat::Rgb565 => 4u32,
        PixelFormat::Rgb888 => 5u32,
        _ => 7u32,
    };
    assert(hvs_format(config.format) == code);
    let w = display_dlist(resources, config)[0];
    assert(w == (1u32 << 30u32) | (3u32 << 11u32) | (code << 0u32) | (1u32 << 4u32) | (0u32
        << 20u32));
    assert({
        let x = (1u32 << 30u32) | (3u32 << 11u32) | (code << 0u32) | (1u32 << 4u32) | (0u32 << 20u32);
        x & 0x4000_0000u32 != 0 && x & 0xfu32 == code
    }) by (bit_vector)
        requires
            code < 16,
    ;
    assert(flush_ops(resources, config)[0] == store_words(display_dlist(resources, config))[0]);
}

} // verus!
