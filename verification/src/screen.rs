//! Plane compositing, the fixed 16-color palette, the two status signals,
//! and the frame renderer.
//!
//! Each byte column of the virtual screen holds 8 horizontal pixels; a
//! pixel's 4-bit color index is folded from one bit of each of the four
//! planes, most significant bit first, and mapped through the palette to
//! an RGB triple. The renderer walks the visible scanlines once per frame,
//! toggling the display-enable bit around each scanline's decode and the
//! vertical-retrace bit around the whole frame.

use vstd::prelude::*;

use crate::registers::CRTReg;
use crate::registers::GeneralReg;
use crate::registers::PLANE_SIZE;
use crate::registers::VGA;

verus! {

/// An RGB triple of the output framebuffer.
#[derive(Clone, Copy, PartialEq, Eq, Structural, Debug)]
pub struct RGB {
    pub r: u8,
    pub g: u8,
    pub b: u8,
}

/// Error raised before the render loop starts.
#[derive(Clone, Copy, PartialEq, Eq, Structural, Debug)]
pub enum ConfigError {
    /// The current video mode is not one the renderer supports.
    UnsupportedMode,
    /// The CRT Offset register is zero, so the scanline pitch would be
    /// non-positive.
    IllegalOffset,
    /// The requested geometry reaches past the end of plane memory or is
    /// too large to frame in one buffer.
    GeometryTooLarge,
}

/// Bit `7 - p` of `v`, the pixel at position `p` of a plane byte counted
/// from the most significant bit; either 0 or 1.
pub open spec fn plane_bit(v: u8, p: int) -> u8 {
    (v >> ((7 - p) as u8)) & 1u8
}

/// The 4-bit color index folded from one bit of each plane byte at pixel
/// position `p`: bit `k` of the index is bit `7 - p` of plane `k`'s byte.
pub open spec fn spec_composite(b0: u8, b1: u8, b2: u8, b3: u8, p: int) -> u8 {
    plane_bit(b0, p) | (plane_bit(b1, p) << 1u8) | (plane_bit(b2, p) << 2u8) | (plane_bit(
        b3,
        p,
    ) << 3u8)
}

proof fn lemma_composite_form(b0: u8, b1: u8, b2: u8, b3: u8, shift: u8)
    by (bit_vector)
    ensures
        ((b0 >> shift) & 1u8) | (((b1 >> shift) & 1u8) << 1u8) | (((b2 >> shift) & 1u8) << 2u8)
            | (((b3 >> shift) & 1u8) << 3u8) < 16,
{
}

/// Fold the four plane bytes into the color index of the pixel at bit
/// position `p` (0 is the leftmost, most significant bit).
pub fn composite(b0: u8, b1: u8, b2: u8, b3: u8, p: usize) -> (c: u8)
    requires
        p < 8,
    ensures
        c == spec_composite(b0, b1, b2, b3, p as int),
        c < 16,
{
    let shift: u8 = (7 - p) as u8;
    let c: u8 = ((b0 >> shift) & 1) | (((b1 >> shift) & 1) << 1) | (((b2 >> shift) & 1) << 2) | (((
    b3 >> shift) & 1) << 3);
    proof {
        lemma_composite_form(b0, b1, b2, b3, shift);
    }
    c
}

/// Any two results folded from the same four plane bytes at the same bit
/// position are equal: compositing is a pure function of its inputs.
pub proof fn lemma_composite_deterministic(
    b0: u8,
    b1: u8,
    b2: u8,
    b3: u8,
    p: int,
    c1: u8,
    c2: u8,
)
    requires
        c1 == spec_composite(b0, b1, b2, b3, p),
        c2 == spec_composite(b0, b1, b2, b3, p),
    ensures
        c1 == c2,
{
}

/// The fixed 16-entry palette mapping a color index to its RGB triple.
pub open spec fn spec_palette(c: u8) -> RGB
    recommends
        c < 16,
{
    if c == 0 {
        RGB { r: 0x00, g: 0x00, b: 0x00 }
    } else if c == 1 {
        RGB { r: 0x00, g: 0x00, b: 0xA8 }
    } else if c == 2 {
        RGB { r: 0x00, g: 0xA8, b: 0x00 }
    } else if c == 3 {
        RGB { r: 0x00, g: 0xA8, b: 0xA8 }
    } else if c == 4 {
        RGB { r: 0xA8, g: 0x00, b: 0x00 }
    } else if c == 5 {
        RGB { r: 0xA8, g: 0x00, b: 0xA8 }
    } else if c == 6 {
        RGB { r: 0xA8, g: 0x54, b: 0x00 }
    } else if c == 7 {
        RGB { r: 0xA8, g: 0xA8, b: 0xA8 }
    } else if c == 8 {
        RGB { r: 0x54, g: 0x54, b: 0x54 }
    } else if c == 9 {
        RGB { r: 0x54, g: 0x54, b: 0xFE }
    } else if c == 10 {
        RGB { r: 0x54, g: 0xFE, b: 0x54 }
    } else if c == 11 {
        RGB { r: 0x54, g: 0xFE, b: 0xFE }
    } else if c == 12 {
        RGB { r: 0xFE, g: 0x54, b: 0x54 }
    } else if c == 13 {
        RGB { r: 0xFE, g: 0x54, b: 0xFE }
    } else if c == 14 {
        RGB { r: 0xFE, g: 0xFE, b: 0x54 }
    } else {
        RGB { r: 0xFE, g: 0xFE, b: 0xFE }
    }
}

/// Look up the RGB triple of a color index.
pub fn default_color(c: u8) -> (rgb: RGB)
    requires
        c < 16,
    ensures
        rgb == spec_palette(c),
{
    if c == 0 {
        RGB { r: 0x00, g: 0x00, b: 0x00 }
    } else if c == 1 {
        RGB { r: 0x00, g: 0x00, b: 0xA8 }
    } else if c == 2 {
        RGB { r: 0x00, g: 0xA8, b: 0x00 }
    } else if c == 3 {
        RGB { r: 0x00, g: 0xA8, b: 0xA8 }
    } else if c == 4 {
        RGB { r: 0xA8, g: 0x00, b: 0x00 }
    } else if c == 5 {
        RGB { r: 0xA8, g: 0x00, b: 0xA8 }
    } else if c == 6 {
        RGB { r: 0xA8, g: 0x54, b: 0x00 }
    } else if c == 7 {
        RGB { r: 0xA8, g: 0xA8, b: 0xA8 }
    } else if c == 8 {
        RGB { r: 0x54, g: 0x54, b: 0x54 }
    } else if c == 9 {
        RGB { r: 0x54, g: 0x54, b: 0xFE }
    } else if c == 10 {
        RGB { r: 0x54, g: 0xFE, b: 0x54 }
    } else if c == 11 {
        RGB { r: 0x54, g: 0xFE, b: 0xFE }
    } else if c == 12 {
        RGB { r: 0xFE, g: 0x54, b: 0x54 }
    } else if c == 13 {
        RGB { r: 0xFE, g: 0x54, b: 0xFE }
    } else if c == 14 {
        RGB { r: 0xFE, g: 0xFE, b: 0x54 }
    } else {
        RGB { r: 0xFE, g: 0xFE, b: 0xFE }
    }
}

/// Distinct color indices map to distinct RGB triples.
pub proof fn lemma_palette_distinct(i: u8, j: u8)
    requires
        i < 16,
        j < 16,
        i != j,
    ensures
        spec_palette(i) != spec_palette(j),
{
}

/// Bit of the status byte that carries the vertical-retrace signal.
pub const VR_BIT: u8 = 0x08;

/// Bit of the status byte that carries the display-enable signal.
pub const DE_BIT: u8 = 0x01;

/// The shared status byte (General bank, Input Status 1).
pub open spec fn status_byte(vga: VGA) -> u8 {
    vga.general_reg@[crate::registers::general_index_spec(GeneralReg::InputStatus1)]
}

/// The vertical-retrace signal is active.
pub open spec fn retrace_active(vga: VGA) -> bool {
    status_byte(vga) & VR_BIT != 0
}

/// The display-enable signal is active.
pub open spec fn display_enable_active(vga: VGA) -> bool {
    status_byte(vga) & DE_BIT != 0
}

proof fn lemma_vr_toggle(b: u8)
    by (bit_vector)
    ensures
        (b | 0x08u8) & 0x08u8 != 0,
        (b & 0xF7u8) & 0x08u8 == 0,
        ((b | 0x08u8) & 0x01u8 != 0) == (b & 0x01u8 != 0),
        ((b & 0xF7u8) & 0x01u8 != 0) == (b & 0x01u8 != 0),
{
}

proof fn lemma_de_toggle(b: u8)
    by (bit_vector)
    ensures
        (b | 0x01u8) & 0x01u8 != 0,
        (b & 0xFEu8) & 0x01u8 == 0,
        ((b | 0x01u8) & 0x08u8 != 0) == (b & 0x08u8 != 0),
        ((b & 0xFEu8) & 0x08u8 != 0) == (b & 0x08u8 != 0),
{
}

/// Set or clear the vertical-retrace bit of the status byte, disturbing
/// no other bit; the display-enable bit keeps its value.
pub fn set_vertical_retrace(vga: &mut VGA, active: bool)
    requires
        old(vga).wf(),
    ensures
        final(vga).wf(),
        status_byte(*final(vga)) == (if active {
            status_byte(*old(vga)) | VR_BIT
        } else {
            status_byte(*old(vga)) & 0xF7u8
        }),
        retrace_active(*final(vga)) == active,
        display_enable_active(*final(vga)) == display_enable_active(*old(vga)),
        final(vga).planes_unchanged_from(*old(vga)),
        final(vga).video_mode == old(vga).video_mode,
        final(vga).crt_reg == old(vga).crt_reg,
        final(vga).gc_reg == old(vga).gc_reg,
        final(vga).sc_reg == old(vga).sc_reg,
        forall|i: int|
            0 <= i < crate::registers::GENERAL_REG_COUNT
                && i != crate::registers::general_index_spec(GeneralReg::InputStatus1)
                ==> final(vga).general_reg@[i] == old(vga).general_reg@[i],
    {
    let b = vga.get_general_reg(GeneralReg::InputStatus1);
    proof {
        lemma_vr_toggle(b);
    }
    if active {
        vga.set_general_reg(GeneralReg::InputStatus1, b | VR_BIT);
    } else {
        vga.set_general_reg(GeneralReg::InputStatus1, b & 0xF7);
    }
}

/// Set or clear the display-enable bit of the status byte, disturbing
/// no other bit; the vertical-retrace bit keeps its value.
pub fn set_display_enable(vga: &mut VGA, active: bool)
    requires
        old(vga).wf(),
    ensures
        final(vga).wf(),
        status_byte(*final(vga)) == (if active {
            status_byte(*old(vga)) | DE_BIT
        } else {
            status_byte(*old(vga)) & 0xFEu8
        }),
        display_enable_active(*final(vga)) == active,
        retrace_active(*final(vga)) == retrace_active(*old(vga)),
        final(vga).planes_unchanged_from(*old(vga)),
        final(vga).video_mode == old(vga).video_mode,
        final(vga).crt_reg == old(vga).crt_reg,
        final(vga).gc_reg == old(vga).gc_reg,
        final(vga).sc_reg == old(vga).sc_reg,
        forall|i: int|
            0 <= i < crate::registers::GENERAL_REG_COUNT
                && i != crate::registers::general_index_spec(GeneralReg::InputStatus1)
                ==> final(vga).general_reg@[i] == old(vga).general_reg@[i],
    {
    let b = vga.get_general_reg(GeneralReg::InputStatus1);
    proof {
        lemma_de_toggle(b);
    }
    if active {
        vga.set_general_reg(GeneralReg::InputStatus1, b | DE_BIT);
    } else {
        vga.set_general_reg(GeneralReg::InputStatus1, b & 0xFE);
    }
}

/// Geometry of one rendered frame: the visible row width in plane bytes,
/// the number of visible scanlines, and the byte pitch from one scanline's
/// start to the next.
#[derive(Clone, Copy, PartialEq, Eq, Structural, Debug)]
pub struct RenderConfig {
    pub width_bytes: usize,
    pub height: usize,
    pub pitch: usize,
}

impl RenderConfig {
    /// The geometry is scannable: a positive pitch, every visible row
    /// inside plane memory, and a whole frame's RGB bytes small enough to
    /// hold in one buffer.
    pub open spec fn wf(self) -> bool {
        &&& 1 <= self.pitch
        &&& self.width_bytes <= PLANE_SIZE
        &&& (self.height == 0 || (self.height - 1) * self.pitch + self.width_bytes <= PLANE_SIZE)
        &&& self.width_bytes * 24 * self.height <= 0x4000_0000
    }
}

/// The configuration derived from the CRT Offset register for a `w` by
/// `h` pixel window: rejected when the register is zero (the scanline
/// pitch would be non-positive) or when the geometry does not fit plane
/// memory; otherwise a well-formed `RenderConfig` whose pitch is twice
/// the register value (two pixels per address).
pub open spec fn spec_config(vga: VGA, w: u32, h: u32) -> Result<RenderConfig, ConfigError> {
    let offset_reg = vga.crt_reg@[crate::registers::crt_index_spec(CRTReg::Offset)];
    if offset_reg == 0 {
        Err(ConfigError::IllegalOffset)
    } else {
        let cfg = RenderConfig {
            width_bytes: (w / 8) as usize,
            height: h as usize,
            pitch: (2 * (offset_reg as int)) as usize,
        };
        if cfg.wf() {
            Ok(cfg)
        } else {
            Err(ConfigError::GeometryTooLarge)
        }
    }
}

/// Build the render configuration for a `w` by `h` window from the
/// current CRT Offset register.
pub fn make_config(vga: &VGA, w: u32, h: u32) -> (r: Result<RenderConfig, ConfigError>)
    requires
        vga.wf(),
    ensures
        r == spec_config(*vga, w, h),
{
    let offset_reg = vga.get_crt_data(CRTReg::Offset);
    if offset_reg == 0 {
        return Err(ConfigError::IllegalOffset);
    }
    let wb: usize = (w / 8) as usize;
    let height: usize = h as usize;
    let pitch: usize = 2 * (offset_reg as usize);
    let cfg = RenderConfig { width_bytes: wb, height, pitch };
    let wb64: u64 = wb as u64;
    let h64: u64 = height as u64;
    let pitch64: u64 = pitch as u64;
    let fits_planes: bool;
    if h64 == 0 {
        fits_planes = true;
    } else {
        proof {
            assert((h64 - 1) * pitch64 <= 0xFFFFFFFFu64 * 510u64) by (nonlinear_arith)
                requires
                    1 <= h64 <= 0xFFFFFFFFu64 + 1,
                    pitch64 <= 510,
            ;
        }
        fits_planes = (h64 - 1) * pitch64 + wb64 <= PLANE_SIZE as u64;
    }
    let fits_buffer: bool;
    if wb64 > PLANE_SIZE as u64 {
        fits_buffer = false;
    } else {
        proof {
            assert(wb64 * 24 * h64 <= 65536u64 * 24u64 * 0x100000000u64) by (nonlinear_arith)
                requires
                    wb64 <= 65536u64,
                    h64 <= 0x100000000u64,
            ;
        }
        fits_buffer = wb64 * 24 * h64 <= 0x4000_0000;
    }
    if fits_planes && fits_buffer {
        Ok(cfg)
    } else {
        Err(ConfigError::GeometryTooLarge)
    }
}

/// Validate the current video mode and derive the geometry the renderer
/// will scan. Only the mode identifier 0x10, displayed as 640 by 350,
/// is supported: any other mode is rejected before a frame is rendered.
/// The caller drives the frame loop with the returned configuration.
pub fn start(vga: &VGA) -> (r: Result<RenderConfig, ConfigError>)
    requires
        vga.wf(),
    ensures
        vga.video_mode != 0x10 ==> r == Result::<RenderConfig, ConfigError>::Err(
            ConfigError::UnsupportedMode,
        ),
        vga.video_mode == 0x10 ==> r == spec_config(*vga, 640, 350),
{
    if vga.get_video_mode() == 0x10 {
        make_config(vga, 640, 350)
    } else {
        Err(ConfigError::UnsupportedMode)
    }
}

/// Derive the geometry for scanning the whole virtual screen (any width
/// and height), without a video-mode check.
pub fn start_debug_planar_mode(vga: &VGA, w: u32, h: u32) -> (r: Result<
    RenderConfig,
    ConfigError,
>)
    requires
        vga.wf(),
    ensures
        r == spec_config(*vga, w, h),
{
    make_config(vga, w, h)
}


/// The color index of pixel `p` of the byte column at linear offset
/// `offset`, folded from the four planes.
pub open spec fn pixel_index_at(vga: VGA, offset: int, p: int) -> u8 {
    spec_composite(
        vga.plane(0)[offset],
        vga.plane(1)[offset],
        vga.plane(2)[offset],
        vga.plane(3)[offset],
        p,
    )
}

/// The RGB triple of the frame pixel at column `x` of scanline `y`.
pub open spec fn frame_pixel(vga: VGA, cfg: RenderConfig, y: int, x: int) -> RGB {
    spec_palette(pixel_index_at(vga, y * cfg.pitch + x / 8, x % 8))
}

/// The three bytes of `b` at `base + 3 * x` hold the RGB triple of the
/// frame pixel at column `x` of scanline `y`.
pub open spec fn pixel_bytes_at(
    b: Seq<u8>,
    base: int,
    vga: VGA,
    cfg: RenderConfig,
    y: int,
    x: int,
) -> bool {
    &&& b[base + 3 * x] == frame_pixel(vga, cfg, y, x).r
    &&& b[base + 3 * x + 1] == frame_pixel(vga, cfg, y, x).g
    &&& b[base + 3 * x + 2] == frame_pixel(vga, cfg, y, x).b
}

/// The bytes of `b` starting at `base` hold scanline `y` decoded to RGB,
/// pixel by pixel across the visible row.
pub open spec fn scanline_rendered(b: Seq<u8>, base: int, vga: VGA, cfg: RenderConfig, y: int) -> bool {
    forall|x: int| 0 <= x < cfg.width_bytes * 8 ==> #[trigger] pixel_bytes_at(b, base, vga, cfg, y, x)
}

/// A rendered scanline is unaffected by growing the buffer beyond it or
/// by leaving its bytes in place.
proof fn lemma_scanline_rendered_grow(
    b1: Seq<u8>,
    b2: Seq<u8>,
    base: int,
    vga: VGA,
    cfg: RenderConfig,
    y: int,
)
    requires
        scanline_rendered(b1, base, vga, cfg, y),
        0 <= base,
        base + cfg.width_bytes * 24 <= b1.len(),
        b1.len() <= b2.len(),
        forall|i: int| 0 <= i < b1.len() ==> b1[i] == b2[i],
    ensures
        scanline_rendered(b2, base, vga, cfg, y),
{
    assert forall|x: int|
        0 <= x < cfg.width_bytes * 8 implies #[trigger] pixel_bytes_at(
        b2,
        base,
        vga,
        cfg,
        y,
        x,
    ) by {
        assert(pixel_bytes_at(b1, base, vga, cfg, y, x));
        assert(base + 3 * x + 2 < base + cfg.width_bytes * 24);
    }
}

/// A rendered scanline depends on the adapter's plane memory alone, not
/// on its registers.
proof fn lemma_scanline_rendered_same_planes(
    b: Seq<u8>,
    base: int,
    vga1: VGA,
    vga2: VGA,
    cfg: RenderConfig,
    y: int,
)
    requires
        scanline_rendered(b, base, vga1, cfg, y),
        vga1.planes == vga2.planes,
    ensures
        scanline_rendered(b, base, vga2, cfg, y),
{
    assert forall|x: int|
        0 <= x < cfg.width_bytes * 8 implies #[trigger] pixel_bytes_at(
        b,
        base,
        vga2,
        cfg,
        y,
        x,
    ) by {
        assert(pixel_bytes_at(b, base, vga1, cfg, y, x));
    }
}

/// Decode scanline `y` of the frame into RGB bytes appended to `buf`.
/// The display-enable bit is cleared for the decode window and set again
/// at the end of the scanline; the vertical-retrace bit and all plane
/// memory are untouched.
pub fn render_scanline(vga: &mut VGA, cfg: &RenderConfig, y: usize, buf: &mut Vec<u8>)
    requires
        old(vga).wf(),
        cfg.wf(),
        y < cfg.height,
    ensures
        final(vga).wf(),
        final(vga).planes_unchanged_from(*old(vga)),
        final(vga).video_mode == old(vga).video_mode,
        final(vga).crt_reg == old(vga).crt_reg,
        final(vga).gc_reg == old(vga).gc_reg,
        final(vga).sc_reg == old(vga).sc_reg,
        forall|i: int|
            0 <= i < crate::registers::GENERAL_REG_COUNT
                && i != crate::registers::general_index_spec(GeneralReg::InputStatus1)
                ==> final(vga).general_reg@[i] == old(vga).general_reg@[i],
        retrace_active(*final(vga)) == retrace_active(*old(vga)),
        display_enable_active(*final(vga)),
        final(buf)@.len() == old(buf)@.len() + cfg.width_bytes * 24,
        forall|i: int| 0 <= i < old(buf)@.len() ==> final(buf)@[i] == old(buf)@[i],
        scanline_rendered(final(buf)@, old(buf)@.len() as int, *old(vga), *cfg, y as int),
{
    set_display_enable(vga, false);
    let ghost ov = *old(vga);
    let ghost ob = old(buf)@;
    proof {
        assert((y as int) * cfg.pitch + cfg.width_bytes <= PLANE_SIZE) by (nonlinear_arith)
            requires
                0 <= y as int,
                y as int <= cfg.height - 1,
                1 <= cfg.pitch,
                cfg.width_bytes <= PLANE_SIZE,
                (cfg.height - 1) * cfg.pitch + cfg.width_bytes <= PLANE_SIZE,
        ;
    }
    let mut col: usize = 0;
    while col < cfg.width_bytes
        invariant
            vga.wf(),
            cfg.wf(),
            y < cfg.height,
            (y as int) * cfg.pitch + cfg.width_bytes <= PLANE_SIZE,
            vga.planes_unchanged_from(ov),
            vga.video_mode == ov.video_mode,
            vga.crt_reg == ov.crt_reg,
            vga.gc_reg == ov.gc_reg,
            vga.sc_reg == ov.sc_reg,
            forall|i: int|
                0 <= i < crate::registers::GENERAL_REG_COUNT
                    && i != crate::registers::general_index_spec(GeneralReg::InputStatus1)
                    ==> vga.general_reg@[i] == ov.general_reg@[i],
            retrace_active(*vga) == retrace_active(ov),
            col <= cfg.width_bytes,
            buf@.len() == ob.len() + col * 24,
            forall|i: int| 0 <= i < ob.len() ==> buf@[i] == ob[i],
            forall|x: int|
                0 <= x < col * 8 ==> #[trigger] pixel_bytes_at(
                    buf@,
                    ob.len() as int,
                    ov,
                    *cfg,
                    y as int,
                    x,
                ),
        decreases cfg.width_bytes - col,
    {
        let offset: usize = y * cfg.pitch + col;
        let v0 = vga.raw_read_mem(0, offset);
        let v1 = vga.raw_read_mem(1, offset);
        let v2 = vga.raw_read_mem(2, offset);
        let v3 = vga.raw_read_mem(3, offset);
        let mut b: usize = 0;
        while b < 8
            invariant
                cfg.wf(),
                col < cfg.width_bytes,
                b <= 8,
                offset == (y as int) * cfg.pitch + col,
                v0 == ov.plane(0)[offset as int],
                v1 == ov.plane(1)[offset as int],
                v2 == ov.plane(2)[offset as int],
                v3 == ov.plane(3)[offset as int],
                buf@.len() == ob.len() + col * 24 + b * 3,
                forall|i: int| 0 <= i < ob.len() ==> buf@[i] == ob[i],
                forall|x: int|
                    0 <= x < col * 8 + b ==> #[trigger] pixel_bytes_at(
                        buf@,
                        ob.len() as int,
                        ov,
                        *cfg,
                        y as int,
                        x,
                    ),
            decreases 8 - b,
        {
            let ghost old_loop_buf = buf@;
            let c = composite(v0, v1, v2, v3, b);
            let rgb = default_color(c);
            buf.push(rgb.r);
            buf.push(rgb.g);
            buf.push(rgb.b);
            proof {
                let x0: int = col * 8 + b;
                assert(ob.len() + 3 * x0 == ob.len() + col * 24 + b * 3);
                assert(x0 / 8 == col && x0 % 8 == b as int) by (nonlinear_arith)
                    requires
                        0 <= b < 8,
                        0 <= col,
                        x0 == col * 8 + b,
                ;
                assert(frame_pixel(ov, *cfg, y as int, x0) == rgb);
                assert(buf@.len() == ob.len() + col * 24 + b * 3 + 3);
                assert(buf@[ob.len() + 3 * x0] == rgb.r);
                assert(buf@[ob.len() + 3 * x0 + 1] == rgb.g);
                assert(buf@[ob.len() + 3 * x0 + 2] == rgb.b);
                assert forall|x: int|
                    0 <= x < col * 8 + b + 1 implies #[trigger] pixel_bytes_at(
                    buf@,
                    ob.len() as int,
                    ov,
                    *cfg,
                    y as int,
                    x,
                ) by {
                    if x < col * 8 + b {
                        assert(pixel_bytes_at(old_loop_buf, ob.len() as int, ov, *cfg, y as int, x));
                        assert(ob.len() + 3 * x + 2 < old_loop_buf.len());
                    } else {
                        assert(x == x0);
                    }
                }
            }
            b += 1;
        }
        col += 1;
    }
    set_display_enable(vga, true);
}

/// Render one whole frame: clear the vertical-retrace bit, decode every
/// visible scanline through the compositor and palette into one RGB
/// buffer (three bytes per pixel, rows in order), then set the
/// vertical-retrace bit. Plane memory is read, never written.
pub fn render_frame(vga: &mut VGA, cfg: &RenderConfig) -> (buf: Vec<u8>)
    requires
        old(vga).wf(),
        cfg.wf(),
    ensures
        final(vga).wf(),
        final(vga).planes_unchanged_from(*old(vga)),
        final(vga).video_mode == old(vga).video_mode,
        final(vga).crt_reg == old(vga).crt_reg,
        final(vga).gc_reg == old(vga).gc_reg,
        final(vga).sc_reg == old(vga).sc_reg,
        forall|i: int|
            0 <= i < crate::registers::GENERAL_REG_COUNT
                && i != crate::registers::general_index_spec(GeneralReg::InputStatus1)
                ==> final(vga).general_reg@[i] == old(vga).general_reg@[i],
        retrace_active(*final(vga)),
        cfg.height > 0 ==> display_enable_active(*final(vga)),
        cfg.height == 0 ==> display_enable_active(*final(vga)) == display_enable_active(
            *old(vga),
        ),
        buf@.len() == cfg.height * (cfg.width_bytes * 24),
        forall|y: int|
            0 <= y < cfg.height ==> #[trigger] scanline_rendered(
                buf@,
                y * (cfg.width_bytes * 24),
                *old(vga),
                *cfg,
                y,
            ),
{
    set_vertical_retrace(vga, false);
    let ghost ov = *old(vga);
    let mut buf: Vec<u8> = Vec::new();
    let mut y: usize = 0;
    while y < cfg.height
        invariant
            vga.wf(),
            cfg.wf(),
            vga.planes_unchanged_from(ov),
            vga.video_mode == ov.video_mode,
            vga.crt_reg == ov.crt_reg,
            vga.gc_reg == ov.gc_reg,
            vga.sc_reg == ov.sc_reg,
            forall|i: int|
                0 <= i < crate::registers::GENERAL_REG_COUNT
                    && i != crate::registers::general_index_spec(GeneralReg::InputStatus1)
                    ==> vga.general_reg@[i] == ov.general_reg@[i],
            !retrace_active(*vga),
            y > 0 ==> display_enable_active(*vga),
            y == 0 ==> display_enable_active(*vga) == display_enable_active(ov),
            y <= cfg.height,
            buf@.len() == y * (cfg.width_bytes * 24),
            forall|yy: int|
                0 <= yy < y ==> #[trigger] scanline_rendered(
                    buf@,
                    yy * (cfg.width_bytes * 24),
                    ov,
                    *cfg,
                    yy,
                ),
        decreases cfg.height - y,
    {
        let ghost buf_before = buf@;
        let ghost len_before = buf@.len() as int;
        let ghost vga_before = *vga;
        render_scanline(vga, cfg, y, &mut buf);
        proof {
            assert forall|yy: int|
                0 <= yy < y + 1 implies #[trigger] scanline_rendered(
                buf@,
                yy * (cfg.width_bytes * 24),
                ov,
                *cfg,
                yy,
            ) by {
                if yy < y {
                    assert((yy + 1) * (cfg.width_bytes * 24) <= (y as int) * (cfg.width_bytes * 24))
                        by (nonlinear_arith)
                        requires
                            yy + 1 <= y as int,
                            0 <= cfg.width_bytes * 24,
                    ;
                    assert(yy * (cfg.width_bytes * 24) + cfg.width_bytes * 24 == (yy + 1) * (
                    cfg.width_bytes * 24)) by (nonlinear_arith);
                    assert(0 <= yy * (cfg.width_bytes * 24)) by (nonlinear_arith)
                        requires
                            0 <= yy,
                            0 <= cfg.width_bytes * 24,
                    ;
                    lemma_scanline_rendered_grow(
                        buf_before,
                        buf@,
                        yy * (cfg.width_bytes * 24),
                        ov,
                        *cfg,
                        yy,
                    );
                } else {
                    assert(scanline_rendered(buf@, len_before, vga_before, *cfg, y as int));
                    lemma_scanline_rendered_same_planes(
                        buf@,
                        len_before,
                        vga_before,
                        ov,
                        *cfg,
                        y as int,
                    );
                    assert(yy * (cfg.width_bytes * 24) == len_before);
                }
            }
            assert((y as int) * (cfg.width_bytes * 24) + cfg.width_bytes * 24 == (y as int + 1) * (
            cfg.width_bytes * 24)) by (nonlinear_arith);
        }
        y += 1;
    }
    proof {
        assert((cfg.height as int) * (cfg.width_bytes * 24) == cfg.height * (cfg.width_bytes * 24));
    }
    set_vertical_retrace(vga, true);
    buf
}

} // verus!
