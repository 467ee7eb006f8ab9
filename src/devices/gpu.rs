use vstd::prelude::*;
use vstd::arithmetic::div_mod::lemma_add_mod_noop;
use crate::devices::raster::{
    Area, Shade, ShadeSpec, paint, paint_area, byte_at, write_bytes, le_bytes, store_pixel,
    store_bytes, channel, lerp, lerp_color, pixel_holds, lemma_solid_paint_covers,
};
use crate::memory::{MemoryError, MemResult};

verus! {

/// Size in bytes of the register window.
pub const GPU_WINDOW: u32 = 0x100;

/// Number of parameter slots in the FIFO.
pub const FIFO_CAPACITY: usize = 256;

pub const CMD_CLEAR: u16 = 0x0001;
pub const CMD_GRAD_X: u16 = 0x0002;
pub const CMD_PUTCHAR: u16 = 0x0003;
pub const CMD_PUTS: u16 = 0x0004;
pub const CMD_BLIT_TILEMAP: u16 = 0x0005;
pub const CMD_FILLRECT: u16 = 0x0006;
pub const CMD_GRAD_Y: u16 = 0x0007;
pub const CMD_RECT_OUTLINE: u16 = 0x0008;
pub const CMD_LINE: u16 = 0x0009;
pub const CMD_BLIT: u16 = 0x000A;
pub const CMD_GRAD_XY: u16 = 0x000B;

/// The GPU's programmable registers.
#[derive(Clone, Copy, Debug)]
pub struct GpuRegisters {
    pub width: u16,
    pub height: u16,
    pub pitch: u16,
    pub bpp: u8,
    pub fb_addr: u32,
    pub status: u32,
    pub font_addr: u32,
    pub font_w: u8,
    pub font_h: u8,
    pub palette_addr: u32,
}

/// The GPU as a value of logic.
pub struct GpuState {
    pub base: u32,
    pub regs: GpuRegisters,
    pub fifo: Seq<u16>,
    pub cmd_latch: u16,
    pub param_latch: u16,
}

/// The MMIO register window and command engine. It draws into a video memory buffer that
/// is handed to it for each access.
pub struct GpuMmio {
    base: u32,
    regs: GpuRegisters,
    fifo: Fifo,
    cmd_latch: u16,
    param_latch: u16,
}

/// Up to `FIFO_CAPACITY` 16-bit parameters, oldest first.
struct Fifo {
    buf: Vec<u16>,
}

impl View for GpuMmio {
    type V = GpuState;

    closed spec fn view(&self) -> GpuState {
        GpuState {
            base: self.base,
            regs: self.regs,
            fifo: self.fifo.buf@,
            cmd_latch: self.cmd_latch,
            param_latch: self.param_latch,
        }
    }
}

impl GpuState {
    pub open spec fn wf(self) -> bool {
        &&& self.base <= 0xFFFF_FF00
        &&& self.fifo.len() <= FIFO_CAPACITY
    }
}

/// Parameter `k` of the FIFO, or 0 where the FIFO holds fewer.
pub open spec fn param(f: Seq<u16>, k: int) -> u16 {
    if 0 <= k < f.len() {
        f[k]
    } else {
        0
    }
}

/// A 32-bit parameter made of entries `k` (low half) and `k + 1` (high half).
pub open spec fn param32(f: Seq<u16>, k: int) -> u32 {
    (param(f, k) as int + param(f, k + 1) as int * 0x1_0000) as u32
}

/// Bytes from one framebuffer row to the next.
pub open spec fn stride_of(r: GpuRegisters) -> int {
    if r.bpp == 32 {
        r.pitch as int * 4
    } else {
        r.pitch as int
    }
}

/// Denominator of a gradient over `n` pixels: `max(1, n - 1)`.
pub open spec fn span_den(n: int) -> int {
    if n >= 2 {
        n - 1
    } else {
        1
    }
}

pub open spec fn min(a: int, b: int) -> int {
    if a < b {
        a
    } else {
        b
    }
}

/// CLEAR: the first `width * height` pixels from `fb_addr` on, packed without regard to
/// pitch; four bytes each at 32 bpp, the colour's low byte at 8, 4 or 2 bpp.
pub open spec fn clear_result(r: GpuRegisters, v: Seq<u8>, color: u32) -> Seq<u8> {
    if r.bpp == 32 {
        paint(
            v,
            Area {
                base: r.fb_addr as u64,
                row_stride: (r.width * 4) as u64,
                px_bytes: 4,
                w: r.width as u64,
                h: r.height as u64,
            },
            ShadeSpec::Solid(color),
        )
    } else if r.bpp == 8 || r.bpp == 4 || r.bpp == 2 {
        paint(
            v,
            Area {
                base: r.fb_addr as u64,
                row_stride: r.width as u64,
                px_bytes: 1,
                w: r.width as u64,
                h: r.height as u64,
            },
            ShadeSpec::Solid(color),
        )
    } else {
        v
    }
}

/// The whole screen at 32 bpp.
pub open spec fn screen(r: GpuRegisters) -> Area {
    Area {
        base: r.fb_addr as u64,
        row_stride: (r.pitch * 4) as u64,
        px_bytes: 4,
        w: r.width as u64,
        h: r.height as u64,
    }
}

/// GRAD_X: each column interpolated from `left` to `right`.
pub open spec fn grad_x_result(r: GpuRegisters, v: Seq<u8>, left: u32, right: u32) -> Seq<u8> {
    if r.bpp == 32 {
        paint(v, screen(r), ShadeSpec::Horizontal(left, right, span_den(r.width as int) as u64))
    } else {
        v
    }
}

/// GRAD_Y: each row interpolated from `top` to `bottom`.
pub open spec fn grad_y_result(r: GpuRegisters, v: Seq<u8>, top: u32, bottom: u32) -> Seq<u8> {
    if r.bpp == 32 {
        paint(v, screen(r), ShadeSpec::Vertical(top, bottom, span_den(r.height as int) as u64))
    } else {
        v
    }
}

/// GRAD_XY: each row's ends interpolated down the left and right edges, then each pixel
/// across the row.
pub open spec fn grad_xy_result(
    r: GpuRegisters,
    v: Seq<u8>,
    c00: u32,
    c10: u32,
    c01: u32,
    c11: u32,
) -> Seq<u8> {
    if r.bpp == 32 {
        paint(
            v,
            screen(r),
            ShadeSpec::Bilinear(
                c00,
                c10,
                c01,
                c11,
                span_den(r.width as int) as u64,
                span_den(r.height as int) as u64,
            ),
        )
    } else {
        v
    }
}

/// FILLRECT: the rectangle clipped to the screen.
pub open spec fn fillrect_result(
    r: GpuRegisters,
    v: Seq<u8>,
    x: u16,
    y: u16,
    w: u16,
    h: u16,
    color: u32,
) -> Seq<u8> {
    if r.bpp != 32 || x >= r.width || y >= r.height {
        v
    } else {
        paint(
            v,
            Area {
                base: (r.fb_addr + y * stride_of(r) + x * 4) as u64,
                row_stride: stride_of(r) as u64,
                px_bytes: 4,
                w: min(w as int, r.width - x) as u64,
                h: min(h as int, r.height - y) as u64,
            },
            ShadeSpec::Solid(color),
        )
    }
}

/// Bytes per glyph row: one per started group of eight pixels.
pub open spec fn glyph_row_bytes(r: GpuRegisters) -> int {
    (r.font_w + 7) / 8
}

/// Where glyph `ch` starts in video memory.
pub open spec fn glyph_offset(r: GpuRegisters, ch: u16) -> int {
    r.font_addr + ch * (glyph_row_bytes(r) * r.font_h)
}

/// The first byte of each row of glyph `ch`, as `v` holds them.
pub open spec fn glyph_rows(r: GpuRegisters, v: Seq<u8>, ch: u16) -> Seq<u8> {
    Seq::new(r.font_h as nat, |j: int| byte_at(v, glyph_offset(r, ch) + j * glyph_row_bytes(r)))
}

/// PUTCHAR: glyph `ch` at `(x, y)`, foreground where its bit is set and background
/// elsewhere, clipped to the screen; four bytes per pixel at 32 bpp, the low byte at 8.
pub open spec fn putchar_result(
    r: GpuRegisters,
    v: Seq<u8>,
    x: u16,
    y: u16,
    ch: u16,
    fg: u32,
    bg: u32,
) -> Seq<u8> {
    let bpb: int = if r.bpp == 32 {
        4
    } else {
        1
    };
    if r.font_w == 0 || r.font_h == 0 || (r.bpp != 32 && r.bpp != 8) || x >= r.width || y
        >= r.height {
        v
    } else {
        paint(
            v,
            Area {
                base: (r.fb_addr + y * stride_of(r) + x * bpb) as u64,
                row_stride: stride_of(r) as u64,
                px_bytes: bpb as u64,
                w: min(r.font_w as int, r.width - x) as u64,
                h: min(r.font_h as int, r.height - y) as u64,
            },
            ShadeSpec::Glyph(glyph_rows(r, v, ch), fg, bg),
        )
    }
}

/// PUTS: the glyphs one after another, `x` advancing by the font width (modulo 2^16).
pub open spec fn puts_result(
    r: GpuRegisters,
    v: Seq<u8>,
    x: u16,
    y: u16,
    chars: Seq<u16>,
    fg: u32,
    bg: u32,
) -> Seq<u8>
    decreases chars.len(),
{
    if chars.len() == 0 {
        v
    } else {
        let k = chars.len() - 1;
        putchar_result(
            r,
            puts_result(r, v, x, y, chars.take(k), fg, bg),
            ((x + k * r.font_w) % 0x1_0000) as u16,
            y,
            chars[k],
            fg,
            bg,
        )
    }
}

/// One pixel at `(x, y)` at 32 bpp, dropped outside the screen.
pub open spec fn plot(r: GpuRegisters, v: Seq<u8>, x: int, y: int, c: u32) -> Seq<u8> {
    if 0 <= x < r.width && 0 <= y < r.height {
        write_bytes(v, r.fb_addr + y * stride_of(r) + x * 4, le_bytes(c))
    } else {
        v
    }
}

/// The first `n` columns of the top and bottom edges, each column top pixel first.
pub open spec fn hedges(
    r: GpuRegisters,
    v: Seq<u8>,
    x0: int,
    y0: int,
    y1: int,
    n: nat,
    c: u32,
) -> Seq<u8>
    decreases n,
{
    if n == 0 {
        v
    } else {
        let xx = x0 + n - 1;
        plot(r, plot(r, hedges(r, v, x0, y0, y1, (n - 1) as nat, c), xx, y0, c), xx, y1, c)
    }
}

/// The first `n` rows of the left and right edges, each row left pixel first.
pub open spec fn vedges(
    r: GpuRegisters,
    v: Seq<u8>,
    y0: int,
    x0: int,
    x1: int,
    n: nat,
    c: u32,
) -> Seq<u8>
    decreases n,
{
    if n == 0 {
        v
    } else {
        let yy = y0 + n - 1;
        plot(r, plot(r, vedges(r, v, y0, x0, x1, (n - 1) as nat, c), x0, yy, c), x1, yy, c)
    }
}

/// RECT_OUTLINE: the top and bottom edges, then the left and right edges.
pub open spec fn outline_result(
    r: GpuRegisters,
    v: Seq<u8>,
    x: u16,
    y: u16,
    w: u16,
    h: u16,
    c: u32,
) -> Seq<u8> {
    if r.bpp != 32 {
        v
    } else {
        let h_done = hedges(r, v, x as int, y as int, y + h - 1, w as nat, c);
        vedges(r, h_done, y as int, x as int, x + w - 1, h as nat, c)
    }
}

pub open spec fn abs_diff(a: int, b: int) -> int {
    if a < b {
        b - a
    } else {
        a - b
    }
}

/// Bresenham's walk from `(x, y)` toward `(x1, y1)`, plotting each point, for at most
/// `fuel` points.
pub open spec fn walk(
    r: GpuRegisters,
    v: Seq<u8>,
    c: u32,
    x: int,
    y: int,
    x1: int,
    y1: int,
    dx: int,
    dy: int,
    sx: int,
    sy: int,
    err: int,
    fuel: nat,
) -> Seq<u8>
    decreases fuel,
{
    if fuel == 0 {
        v
    } else {
        let v1 = plot(r, v, x, y, c);
        if x == x1 && y == y1 {
            v1
        } else {
            let e2 = 2 * err;
            let step_x = e2 >= dy;
            let step_y = e2 <= dx;
            walk(
                r,
                v1,
                c,
                if step_x {
                    x + sx
                } else {
                    x
                },
                if step_y {
                    y + sy
                } else {
                    y
                },
                x1,
                y1,
                dx,
                dy,
                sx,
                sy,
                err + (if step_x {
                    dy
                } else {
                    0
                }) + (if step_y {
                    dx
                } else {
                    0
                }),
                (fuel - 1) as nat,
            )
        }
    }
}

/// LINE: Bresenham from `(x0, y0)` to `(x1, y1)`, both ends included. The walk takes at
/// most `|x1 - x0| + |y1 - y0| + 1` points.
pub open spec fn line_result(
    r: GpuRegisters,
    v: Seq<u8>,
    x0: u16,
    y0: u16,
    x1: u16,
    y1: u16,
    c: u32,
) -> Seq<u8> {
    if r.bpp != 32 {
        v
    } else {
        let dx = abs_diff(x0 as int, x1 as int);
        let dy = -abs_diff(y0 as int, y1 as int);
        let sx: int = if x0 < x1 {
            1
        } else {
            -1
        };
        let sy: int = if y0 < y1 {
            1
        } else {
            -1
        };
        walk(r, v, c, x0 as int, y0 as int, x1 as int, y1 as int, dx, dy, sx, sy, dx + dy, (dx - dy + 1) as nat)
    }
}

/// The first `n` rows of a blit; each row is read from `v` as the earlier rows left it.
pub open spec fn blit_rows(
    r: GpuRegisters,
    v: Seq<u8>,
    src: u32,
    sw: u16,
    dx0: u16,
    dy0: u16,
    cw: int,
    n: nat,
) -> Seq<u8>
    decreases n,
{
    if n == 0 {
        v
    } else {
        let j = n - 1;
        let prev = blit_rows(r, v, src, sw, dx0, dy0, cw, (n - 1) as nat);
        write_bytes(
            prev,
            r.fb_addr + (dy0 + j) * stride_of(r) + dx0 * 4,
            Seq::new((cw * 4) as nat, |k: int| byte_at(prev, src + j * sw * 4 + k)),
        )
    }
}

/// BLIT: a `sw` by `sh` block of 32-bit pixels stored contiguously at `src`, copied to
/// `(dx0, dy0)` and clipped to the screen.
pub open spec fn blit_result(
    r: GpuRegisters,
    v: Seq<u8>,
    src: u32,
    sw: u16,
    sh: u16,
    dx0: u16,
    dy0: u16,
) -> Seq<u8> {
    if r.bpp != 32 || dx0 >= r.width || dy0 >= r.height {
        v
    } else {
        blit_rows(r, v, src, sw, dx0, dy0, min(sw as int, r.width - dx0), min(sh as int, r.height - dy0) as nat)
    }
}

/// The effect on video memory of command `cmd` with parameters `f`.
pub open spec fn command_result(r: GpuRegisters, f: Seq<u16>, cmd: u16, v: Seq<u8>) -> Seq<u8> {
    if cmd == CMD_CLEAR {
        clear_result(r, v, param32(f, 0))
    } else if cmd == CMD_GRAD_X {
        grad_x_result(r, v, param32(f, 0), param32(f, 2))
    } else if cmd == CMD_PUTCHAR {
        putchar_result(r, v, param(f, 0), param(f, 1), param(f, 2), param32(f, 3), param32(f, 5))
    } else if cmd == CMD_PUTS {
        puts_result(
            r,
            v,
            param(f, 0),
            param(f, 1),
            Seq::new(param(f, 2) as nat, |k: int| param(f, 7 + k)),
            param32(f, 3),
            param32(f, 5),
        )
    } else if cmd == CMD_FILLRECT {
        fillrect_result(r, v, param(f, 0), param(f, 1), param(f, 2), param(f, 3), param32(f, 4))
    } else if cmd == CMD_GRAD_Y {
        grad_y_result(r, v, param32(f, 0), param32(f, 2))
    } else if cmd == CMD_RECT_OUTLINE {
        outline_result(r, v, param(f, 0), param(f, 1), param(f, 2), param(f, 3), param32(f, 4))
    } else if cmd == CMD_LINE {
        line_result(r, v, param(f, 0), param(f, 1), param(f, 2), param(f, 3), param32(f, 4))
    } else if cmd == CMD_BLIT {
        blit_result(r, v, param32(f, 0), param(f, 2), param(f, 3), param(f, 4), param(f, 5))
    } else if cmd == CMD_GRAD_XY {
        grad_xy_result(r, v, param32(f, 0), param32(f, 2), param32(f, 4), param32(f, 6))
    } else {
        v
    }
}

fn area_of(base: u64, row_stride: u64, px_bytes: u64, w: u64, h: u64) -> (a: Area)
    ensures
        a == (Area { base, row_stride, px_bytes, w, h }),
{
    Area { base, row_stride, px_bytes, w, h }
}

fn stride(r: &GpuRegisters) -> (s: u64)
    ensures
        s == stride_of(*r),
        s <= 0x4_0000,
{
    if r.bpp == 32 {
        r.pitch as u64 * 4
    } else {
        r.pitch as u64
    }
}

fn gradient_den(n: u16) -> (d: u64)
    ensures
        d == span_den(n as int),
{
    if n >= 2 {
        n as u64 - 1
    } else {
        1
    }
}

fn draw_clear(r: &GpuRegisters, video: &mut Vec<u8>, color: u32)
    ensures
        final(video)@.len() == old(video)@.len(),
        final(video)@ == clear_result(*r, old(video)@, color),
{
    let w = r.width as u64;
    let h = r.height as u64;
    if r.bpp == 32 {
        paint_area(video, area_of(r.fb_addr as u64, w * 4, 4, w, h), &Shade::Solid(color));
    } else if r.bpp == 8 || r.bpp == 4 || r.bpp == 2 {
        paint_area(video, area_of(r.fb_addr as u64, w, 1, w, h), &Shade::Solid(color));
    }
}

fn draw_grad_x(r: &GpuRegisters, video: &mut Vec<u8>, left: u32, right: u32)
    ensures
        final(video)@.len() == old(video)@.len(),
        final(video)@ == grad_x_result(*r, old(video)@, left, right),
{
    if r.bpp == 32 {
        let a = area_of(r.fb_addr as u64, r.pitch as u64 * 4, 4, r.width as u64, r.height as u64);
        paint_area(video, a, &Shade::Horizontal(left, right, gradient_den(r.width)));
    }
}

fn draw_grad_y(r: &GpuRegisters, video: &mut Vec<u8>, top: u32, bottom: u32)
    ensures
        final(video)@.len() == old(video)@.len(),
        final(video)@ == grad_y_result(*r, old(video)@, top, bottom),
{
    if r.bpp == 32 {
        let a = area_of(r.fb_addr as u64, stride(r), 4, r.width as u64, r.height as u64);
        paint_area(video, a, &Shade::Vertical(top, bottom, gradient_den(r.height)));
    }
}

fn draw_grad_xy(r: &GpuRegisters, video: &mut Vec<u8>, c00: u32, c10: u32, c01: u32, c11: u32)
    ensures
        final(video)@.len() == old(video)@.len(),
        final(video)@ == grad_xy_result(*r, old(video)@, c00, c10, c01, c11),
{
    if r.bpp == 32 {
        let a = area_of(r.fb_addr as u64, stride(r), 4, r.width as u64, r.height as u64);
        let s = Shade::Bilinear(c00, c10, c01, c11, gradient_den(r.width), gradient_den(r.height));
        paint_area(video, a, &s);
    }
}

fn draw_fillrect(r: &GpuRegisters, video: &mut Vec<u8>, x: u16, y: u16, w: u16, h: u16, color: u32)
    ensures
        final(video)@.len() == old(video)@.len(),
        final(video)@ == fillrect_result(*r, old(video)@, x, y, w, h, color),
{
    if r.bpp != 32 || x >= r.width || y >= r.height {
        return ;
    }
    let s = stride(r);
    assert(y as u64 * s <= 0xFFFF * 0x4_0000) by (nonlinear_arith)
        requires
            y <= 0xFFFF,
            s <= 0x4_0000,
    ;
    let base = r.fb_addr as u64 + y as u64 * s + x as u64 * 4;
    let rw = if (w as u64) < (r.width - x) as u64 {
        w as u64
    } else {
        (r.width - x) as u64
    };
    let rh = if (h as u64) < (r.height - y) as u64 {
        h as u64
    } else {
        (r.height - y) as u64
    };
    paint_area(video, area_of(base, s, 4, rw, rh), &Shade::Solid(color));
}

fn draw_putchar(r: &GpuRegisters, video: &mut Vec<u8>, x: u16, y: u16, ch: u16, fg: u32, bg: u32)
    ensures
        final(video)@.len() == old(video)@.len(),
        final(video)@ == putchar_result(*r, old(video)@, x, y, ch, fg, bg),
{
    if r.font_w == 0 || r.font_h == 0 || (r.bpp != 32 && r.bpp != 8) || x >= r.width || y
        >= r.height {
        return ;
    }
    let fh = r.font_h as u64;
    let row_bytes = (r.font_w as u64 + 7) / 8;
    assert(row_bytes * fh <= 0x20 * 0xFF) by (nonlinear_arith)
        requires
            row_bytes <= 0x20,
            fh <= 0xFF,
    ;
    assert(ch as u64 * (row_bytes * fh) <= 0xFFFF * (0x20 * 0xFF)) by (nonlinear_arith)
        requires
            ch <= 0xFFFF,
            row_bytes * fh <= 0x20 * 0xFF,
    ;
    let glyph = r.font_addr as u64 + ch as u64 * (row_bytes * fh);
    let ghost v0 = video@;
    let mut rows: Vec<u8> = Vec::new();
    let len = video.len();
    let mut j: u64 = 0;
    while j < fh
        invariant
            j <= fh,
            fh == r.font_h,
            row_bytes == glyph_row_bytes(*r),
            glyph == glyph_offset(*r, ch),
            glyph <= 0x1_0000_0000 + 0xFFFF * (0x20 * 0xFF),
            row_bytes <= 0x20,
            video@ == v0,
            len == v0.len(),
            rows@ == glyph_rows(*r, v0, ch).take(j as int),
        decreases fh - j,
    {
        assert(j * row_bytes <= 0xFF * 0x20) by (nonlinear_arith)
            requires
                j <= 0xFF,
                row_bytes <= 0x20,
        ;
        let at = glyph + j * row_bytes;
        let b = if at < len as u64 {
            video[at as usize]
        } else {
            0
        };
        rows.push(b);
        j = j + 1;
        assert(rows@ =~= glyph_rows(*r, v0, ch).take(j as int));
    }
    assert(rows@ =~= glyph_rows(*r, v0, ch));
    let bpb: u64 = if r.bpp == 32 {
        4
    } else {
        1
    };
    let s = stride(r);
    assert(y as u64 * s <= 0xFFFF * 0x4_0000) by (nonlinear_arith)
        requires
            y <= 0xFFFF,
            s <= 0x4_0000,
    ;
    let base = r.fb_addr as u64 + y as u64 * s + x as u64 * bpb;
    let gw = if (r.font_w as u64) < (r.width - x) as u64 {
        r.font_w as u64
    } else {
        (r.width - x) as u64
    };
    let gh = if fh < (r.height - y) as u64 {
        fh
    } else {
        (r.height - y) as u64
    };
    paint_area(video, area_of(base, s, bpb, gw, gh), &Shade::Glyph(rows, fg, bg));
}

fn draw_puts(
    r: &GpuRegisters,
    video: &mut Vec<u8>,
    x: u16,
    y: u16,
    chars: &Vec<u16>,
    fg: u32,
    bg: u32,
)
    ensures
        final(video)@.len() == old(video)@.len(),
        final(video)@ == puts_result(*r, old(video)@, x, y, chars@, fg, bg),
{
    let ghost v0 = video@;
    let fw = r.font_w as u16;
    let mut cx = x;
    let mut k: usize = 0;
    while k < chars.len()
        invariant
            k <= chars@.len(),
            fw == r.font_w,
            cx == ((x + k * r.font_w) % 0x1_0000) as u16,
            video@ == puts_result(*r, v0, x, y, chars@.take(k as int), fg, bg),
            video@.len() == v0.len(),
        decreases chars@.len() - k,
    {
        draw_putchar(r, video, cx, y, chars[k], fg, bg);
        proof {
            lemma_add_mod_noop(x + k * r.font_w, fw as int, 0x1_0000);
            assert((x + k * r.font_w) + fw == x + (k + 1) * r.font_w) by (nonlinear_arith)
                requires
                    fw == r.font_w,
            ;
            assert(chars@.take(k + 1).take(k as int) =~= chars@.take(k as int));
        }
        cx = cx.wrapping_add(fw);
        k = k + 1;
    }
    assert(chars@.take(k as int) =~= chars@);
}

fn plot_pixel(r: &GpuRegisters, video: &mut Vec<u8>, x: i64, y: i64, c: u32)
    requires
        -0x2_0000 <= x <= 0x2_0000,
        -0x2_0000 <= y <= 0x2_0000,
    ensures
        final(video)@.len() == old(video)@.len(),
        final(video)@ == plot(*r, old(video)@, x as int, y as int, c),
{
    if 0 <= x && x < r.width as i64 && 0 <= y && y < r.height as i64 {
        let s = stride(r);
        assert(y as u64 * s <= 0xFFFF * 0x4_0000) by (nonlinear_arith)
            requires
                0 <= y <= 0xFFFF,
                s <= 0x4_0000,
        ;
        store_pixel(video, r.fb_addr as u64 + y as u64 * s + x as u64 * 4, c, 4);
        assert(le_bytes(c).take(4) =~= le_bytes(c));
    }
}

fn draw_outline(r: &GpuRegisters, video: &mut Vec<u8>, x: u16, y: u16, w: u16, h: u16, c: u32)
    ensures
        final(video)@.len() == old(video)@.len(),
        final(video)@ == outline_result(*r, old(video)@, x, y, w, h, c),
{
    if r.bpp != 32 {
        return ;
    }
    let ghost v0 = video@;
    let x0 = x as i64;
    let y0 = y as i64;
    let x1 = x0 + w as i64 - 1;
    let y1 = y0 + h as i64 - 1;
    let mut k: i64 = 0;
    while k < w as i64
        invariant
            0 <= k <= w,
            x0 == x,
            y0 == y,
            y1 == y + h - 1,
            video@ == hedges(*r, v0, x0 as int, y0 as int, y1 as int, k as nat, c),
            video@.len() == v0.len(),
        decreases w - k,
    {
        plot_pixel(r, video, x0 + k, y0, c);
        plot_pixel(r, video, x0 + k, y1, c);
        k = k + 1;
    }
    let ghost v1 = video@;
    let mut k: i64 = 0;
    while k < h as i64
        invariant
            0 <= k <= h,
            x0 == x,
            y0 == y,
            x1 == x + w - 1,
            v1 == hedges(*r, v0, x0 as int, y0 as int, y + h - 1, w as nat, c),
            video@ == vedges(*r, v1, y0 as int, x0 as int, x1 as int, k as nat, c),
            video@.len() == v0.len(),
            v1.len() == v0.len(),
        decreases h - k,
    {
        plot_pixel(r, video, x0, y0 + k, c);
        plot_pixel(r, video, x1, y0 + k, c);
        k = k + 1;
    }
}

fn draw_blit(
    r: &GpuRegisters,
    video: &mut Vec<u8>,
    src: u32,
    sw: u16,
    sh: u16,
    dx0: u16,
    dy0: u16,
)
    ensures
        final(video)@.len() == old(video)@.len(),
        final(video)@ == blit_result(*r, old(video)@, src, sw, sh, dx0, dy0),
{
    if r.bpp != 32 || dx0 >= r.width || dy0 >= r.height {
        return ;
    }
    let ghost v0 = video@;
    let cw = if (sw as u64) < (r.width - dx0) as u64 {
        sw as u64
    } else {
        (r.width - dx0) as u64
    };
    let ch = if (sh as u64) < (r.height - dy0) as u64 {
        sh as u64
    } else {
        (r.height - dy0) as u64
    };
    let s = stride(r);
    let mut j: u64 = 0;
    while j < ch
        invariant
            j <= ch,
            ch <= 0xFFFF,
            cw <= 0xFFFF,
            cw == min(sw as int, r.width - dx0),
            ch == min(sh as int, r.height - dy0),
            s == stride_of(*r),
            s <= 0x4_0000,
            video@ == blit_rows(*r, v0, src, sw, dx0, dy0, cw as int, j as nat),
            video@.len() == v0.len(),
        decreases ch - j,
    {
        assert(j * (sw as u64) * 4 <= 0xFFFF * 0xFFFF * 4) by (nonlinear_arith)
            requires
                j <= 0xFFFF,
                sw <= 0xFFFF,
        ;
        assert((dy0 as u64 + j) * s <= 0x2_0000 * 0x4_0000) by (nonlinear_arith)
            requires
                dy0 as u64 + j <= 0x2_0000,
                s <= 0x4_0000,
        ;
        let from = src as u64 + j * (sw as u64) * 4;
        let to = r.fb_addr as u64 + (dy0 as u64 + j) * s + dx0 as u64 * 4;
        let ghost prev = video@;
        let len = video.len();
        let mut row: Vec<u8> = Vec::new();
        let mut k: u64 = 0;
        while k < cw * 4
            invariant
                k <= cw * 4,
                cw <= 0xFFFF,
                video@ == prev,
                len == prev.len(),
                from == src + j * sw * 4,
                from <= 0x1_0000_0000 + 0xFFFF * 0xFFFF * 4,
                row@ == Seq::new(k as nat, |t: int| byte_at(prev, from + t)),
            decreases cw * 4 - k,
        {
            let at = from + k;
            let b = if at < len as u64 {
                video[at as usize]
            } else {
                0
            };
            row.push(b);
            k = k + 1;
            assert(row@ =~= Seq::new(k as nat, |t: int| byte_at(prev, from + t)));
        }
        store_bytes(video, to, &row);
        proof {
            assert(j * sw * 4 == j * (sw as u64) * 4);
            assert(row@ =~= Seq::new((cw * 4) as nat, |t: int| byte_at(prev, src + j * sw * 4 + t)));
        }
        j = j + 1;
    }
}

/// Bounds on Bresenham's error term `dx (1 + b) - dy (1 + a)` after `a` steps across and
/// `b` steps down.
proof fn lemma_error_bounds(dx: int, dy: int, a: int, b: int)
    requires
        0 <= a <= dx <= 0xFFFF,
        0 <= b <= dy <= 0xFFFF,
    ensures
        -0x1_0000_0000 <= dx * (1 + b) - dy * (1 + a) <= 0x1_0000_0000,
{
    assert(0 <= dx * (1 + b) <= 0xFFFF * 0x1_0000) by (nonlinear_arith)
        requires
            0 <= dx <= 0xFFFF,
            0 <= b <= 0xFFFF,
    ;
    assert(0 <= dy * (1 + a) <= 0xFFFF * 0x1_0000) by (nonlinear_arith)
        requires
            0 <= dy <= 0xFFFF,
            0 <= a <= 0xFFFF,
    ;
}

fn draw_line(r: &GpuRegisters, video: &mut Vec<u8>, x0: u16, y0: u16, x1: u16, y1: u16, c: u32)
    ensures
        final(video)@.len() == old(video)@.len(),
        final(video)@ == line_result(*r, old(video)@, x0, y0, x1, y1, c),
{
    if r.bpp != 32 {
        return ;
    }
    let ghost v0 = video@;
    let ex = x1 as i64;
    let ey = y1 as i64;
    let dx: i64 = if x0 < x1 {
        (x1 - x0) as i64
    } else {
        (x0 - x1) as i64
    };
    let down: i64 = if y0 < y1 {
        (y1 - y0) as i64
    } else {
        (y0 - y1) as i64
    };
    let dy: i64 = -down;
    let sx: i64 = if x0 < x1 {
        1
    } else {
        -1
    };
    let sy: i64 = if y0 < y1 {
        1
    } else {
        -1
    };
    let mut x = x0 as i64;
    let mut y = y0 as i64;
    let mut err: i64 = dx + dy;
    let ghost target = line_result(*r, v0, x0, y0, x1, y1, c);
    let ghost mut a: int = 0;
    let ghost mut b: int = 0;
    let ghost mut fuel: nat = (dx - dy + 1) as nat;
    proof {
        lemma_error_bounds(dx as int, down as int, 0, 0);
        assert(dx * (1 + b) - down * (1 + a) == dx - down) by (nonlinear_arith)
            requires
                a == 0,
                b == 0,
        ;
    }
    loop
        invariant_except_break
            0 <= a <= dx <= 0xFFFF,
            0 <= b <= down <= 0xFFFF,
            dy == -down,
            ex == x1,
            ey == y1,
            x0 < x1 ==> dx == x1 - x0 && sx == 1 && x == x0 + a,
            x0 >= x1 ==> dx == x0 - x1 && sx == -1 && x == x0 - a,
            y0 < y1 ==> down == y1 - y0 && sy == 1 && y == y0 + b,
            y0 >= y1 ==> down == y0 - y1 && sy == -1 && y == y0 - b,
            err == dx * (1 + b) - down * (1 + a),
            -0x1_0000_0000 <= err <= 0x1_0000_0000,
            fuel >= (dx - a) + (down - b) + 1,
            video@.len() == v0.len(),
            walk(*r, video@, c, x as int, y as int, ex as int, ey as int, dx as int, dy as int, sx as int, sy as int, err as int, fuel) == target,
        ensures
            video@ == target,
            video@.len() == v0.len(),
        decreases (dx - a) + (down - b),
    {
        plot_pixel(r, video, x, y, c);
        if x == ex && y == ey {
            break;
        }
        let e2 = 2 * err;
        proof {
            if a == dx {
                assert(2 * err < dy) by (nonlinear_arith)
                    requires
                        err == dx * (1 + b) - down * (1 + a),
                        a == dx,
                        0 <= dx,
                        0 <= b,
                        b + 1 <= down,
                        dy == -down,
                ;
            }
            if b == down {
                assert(2 * err > dx) by (nonlinear_arith)
                    requires
                        err == dx * (1 + b) - down * (1 + a),
                        b == down,
                        0 <= down,
                        0 <= a,
                        a + 1 <= dx,
                ;
            }
            assert(down * (1 + (a + 1)) == down * (1 + a) + down) by (nonlinear_arith);
            assert(dx * (1 + (b + 1)) == dx * (1 + b) + dx) by (nonlinear_arith);
        }
        if e2 >= dy {
            err = err + dy;
            x = x + sx;
            proof {
                a = a + 1;
            }
        }
        if e2 <= dx {
            err = err + dx;
            y = y + sy;
            proof {
                b = b + 1;
            }
        }
        proof {
            lemma_error_bounds(dx as int, down as int, a, b);
            fuel = (fuel - 1) as nat;
        }
    }
}

/// The register window of a GPU at `base` covers `base ..= base + 0xFF`.
pub open spec fn in_window(base: u32, paddr: u32) -> bool {
    base <= paddr < base + GPU_WINDOW
}

/// `c` with byte `k` (0 = least significant) replaced by `v`.
pub open spec fn set_byte(c: u32, k: int, v: u8) -> u32 {
    (c & !(0xFFu32 << ((k * 8) as u32))) | ((v as u32) << ((k * 8) as u32))
}

pub open spec fn set_low(c: u16, v: u8) -> u16 {
    (c & 0xFF00) | (v as u16)
}

pub open spec fn set_high(c: u16, v: u8) -> u16 {
    (c & 0x00FF) | ((v as u16) << 8u16)
}

/// What a read of register byte `off` returns; unassigned offsets read as 0.
pub open spec fn register_byte(r: GpuRegisters, off: int) -> u8 {
    if off == 0x00 {
        (r.width % 0x100) as u8
    } else if off == 0x01 {
        (r.width / 0x100) as u8
    } else if off == 0x02 {
        (r.height % 0x100) as u8
    } else if off == 0x03 {
        (r.height / 0x100) as u8
    } else if off == 0x04 {
        (r.pitch % 0x100) as u8
    } else if off == 0x05 {
        (r.pitch / 0x100) as u8
    } else if off == 0x06 {
        r.bpp
    } else if 0x08 <= off <= 0x0B {
        channel(r.fb_addr, (off - 0x08) as nat) as u8
    } else if 0x0C <= off <= 0x0F {
        channel(r.status, (off - 0x0C) as nat) as u8
    } else if 0x20 <= off <= 0x23 {
        channel(r.font_addr, (off - 0x20) as nat) as u8
    } else if off == 0x24 {
        r.font_w
    } else if off == 0x25 {
        r.font_h
    } else if 0x28 <= off <= 0x2B {
        channel(r.palette_addr, (off - 0x28) as nat) as u8
    } else {
        0
    }
}

/// A byte read through the bus.
pub open spec fn gpu_read8(g: GpuState, paddr: u32) -> MemResult<u8> {
    if in_window(g.base, paddr) {
        Ok(register_byte(g.regs, paddr - g.base))
    } else {
        Err(MemoryError::Unmapped(paddr))
    }
}

/// The state after a byte store at `off` that does not start a command: register bytes
/// are replaced, the low byte of a parameter is latched and its high byte pushes the
/// parameter (dropped when the FIFO is full), the low byte of the command is latched.
/// Status and unassigned offsets ignore stores.
pub open spec fn store_register(g: GpuState, off: int, value: u8) -> GpuState {
    let r = g.regs;
    if off == 0x00 {
        GpuState { regs: GpuRegisters { width: set_low(r.width, value), ..r }, ..g }
    } else if off == 0x01 {
        GpuState { regs: GpuRegisters { width: set_high(r.width, value), ..r }, ..g }
    } else if off == 0x02 {
        GpuState { regs: GpuRegisters { height: set_low(r.height, value), ..r }, ..g }
    } else if off == 0x03 {
        GpuState { regs: GpuRegisters { height: set_high(r.height, value), ..r }, ..g }
    } else if off == 0x04 {
        GpuState { regs: GpuRegisters { pitch: set_low(r.pitch, value), ..r }, ..g }
    } else if off == 0x05 {
        GpuState { regs: GpuRegisters { pitch: set_high(r.pitch, value), ..r }, ..g }
    } else if off == 0x06 {
        GpuState { regs: GpuRegisters { bpp: value, ..r }, ..g }
    } else if 0x08 <= off <= 0x0B {
        GpuState {
            regs: GpuRegisters { fb_addr: set_byte(r.fb_addr, off - 0x08, value), ..r },
            ..g
        }
    } else if off == 0x10 {
        GpuState { cmd_latch: set_low(g.cmd_latch, value), ..g }
    } else if off == 0x12 {
        GpuState { param_latch: set_low(g.param_latch, value), ..g }
    } else if off == 0x13 {
        let word = set_high(g.param_latch, value);
        GpuState {
            fifo: if g.fifo.len() < FIFO_CAPACITY {
                g.fifo.push(word)
            } else {
                g.fifo
            },
            param_latch: 0,
            ..g
        }
    } else if 0x20 <= off <= 0x23 {
        GpuState {
            regs: GpuRegisters { font_addr: set_byte(r.font_addr, off - 0x20, value), ..r },
            ..g
        }
    } else if off == 0x24 {
        GpuState { regs: GpuRegisters { font_w: value, ..r }, ..g }
    } else if off == 0x25 {
        GpuState { regs: GpuRegisters { font_h: value, ..r }, ..g }
    } else if 0x28 <= off <= 0x2B {
        GpuState {
            regs: GpuRegisters { palette_addr: set_byte(r.palette_addr, off - 0x28, value), ..r },
            ..g
        }
    } else {
        g
    }
}

/// The state after command `cmd` ran: BUSY was set and is clear again, the FIFO is
/// empty and the command latch is reset.
pub open spec fn after_command(g: GpuState) -> GpuState {
    GpuState {
        regs: GpuRegisters { status: (g.regs.status | 1u32) & !1u32, ..g.regs },
        fifo: Seq::empty(),
        cmd_latch: 0,
        ..g
    }
}

/// The command that a store of `value` to the command register's high byte starts.
pub open spec fn command_word(g: GpuState, value: u8) -> u16 {
    set_high(g.cmd_latch, value)
}

/// A byte store through the bus: the new GPU state, the new video memory, the result.
pub open spec fn gpu_write8(g: GpuState, paddr: u32, value: u8, v: Seq<u8>) -> (
    GpuState,
    Seq<u8>,
    MemResult<()>,
) {
    if !in_window(g.base, paddr) {
        (g, v, Err(MemoryError::Unmapped(paddr)))
    } else if paddr - g.base == 0x11 {
        (after_command(g), command_result(g.regs, g.fifo, command_word(g, value), v), Ok(()))
    } else {
        (store_register(g, paddr - g.base, value), v, Ok(()))
    }
}

impl Fifo {
    fn new() -> (r: Fifo)
        ensures
            r.buf@ == Seq::<u16>::empty(),
    {
        Fifo { buf: Vec::new() }
    }

    fn reset(&mut self)
        ensures
            final(self).buf@ == Seq::<u16>::empty(),
    {
        self.buf = Vec::new();
    }

    /// Appends a parameter unless the FIFO is full.
    fn push(&mut self, v: u16)
        ensures
            final(self).buf@ == if old(self).buf@.len() < FIFO_CAPACITY {
                old(self).buf@.push(v)
            } else {
                old(self).buf@
            },
    {
        if self.buf.len() < FIFO_CAPACITY {
            self.buf.push(v);
        }
    }

    fn param(&self, k: usize) -> (r: u16)
        ensures
            r == param(self.buf@, k as int),
    {
        if k < self.buf.len() {
            self.buf[k]
        } else {
            0
        }
    }

    fn param32(&self, k: usize) -> (r: u32)
        requires
            k < usize::MAX,
        ensures
            r == param32(self.buf@, k as int),
    {
        self.param(k) as u32 + self.param(k + 1) as u32 * 0x1_0000
    }

    /// Parameters `from .. from + n`, in order.
    fn params(&self, from: usize, n: u16) -> (r: Vec<u16>)
        requires
            from <= 0x100,
        ensures
            r@ == Seq::new(n as nat, |k: int| param(self.buf@, from + k)),
    {
        let mut out: Vec<u16> = Vec::new();
        let mut k: u16 = 0;
        while k < n
            invariant
                k <= n,
                from <= 0x100,
                out@ == Seq::new(k as nat, |t: int| param(self.buf@, from + t)),
            decreases n - k,
        {
            out.push(self.param(from + k as usize));
            k = k + 1;
            assert(out@ =~= Seq::new(k as nat, |t: int| param(self.buf@, from + t)));
        }
        out
    }
}

/// Byte `k` of a word.
fn byte_of(c: u32, k: u32) -> (r: u8)
    requires
        k < 4,
    ensures
        r == channel(c, k as nat),
{
    if k == 0 {
        (c % 0x100) as u8
    } else if k == 1 {
        ((c / 0x100) % 0x100) as u8
    } else if k == 2 {
        ((c / 0x1_0000) % 0x100) as u8
    } else {
        ((c / 0x100_0000) % 0x100) as u8
    }
}

fn with_byte(c: u32, k: u32, v: u8) -> (r: u32)
    requires
        k < 4,
    ensures
        r == set_byte(c, k as int, v),
{
    let shift = k * 8;
    (c & !(0xFFu32 << shift)) | ((v as u32) << shift)
}

impl GpuMmio {
    pub open spec fn range_spec(base: u32) -> (u32, u32) {
        (base, (base + 0xFF) as u32)
    }

    /// A GPU whose register window starts at `base`, with every register 0 and an empty FIFO.
    pub fn new(base: u32) -> (r: Self)
        requires
            base <= 0xFFFF_FF00,
        ensures
            r@ == (GpuState {
                base,
                regs: GpuRegisters {
                    width: 0,
                    height: 0,
                    pitch: 0,
                    bpp: 0,
                    fb_addr: 0,
                    status: 0,
                    font_addr: 0,
                    font_w: 0,
                    font_h: 0,
                    palette_addr: 0,
                },
                fifo: Seq::empty(),
                cmd_latch: 0,
                param_latch: 0,
            }),
    {
        GpuMmio {
            base,
            regs: GpuRegisters {
                width: 0,
                height: 0,
                pitch: 0,
                bpp: 0,
                fb_addr: 0,
                status: 0,
                font_addr: 0,
                font_w: 0,
                font_h: 0,
                palette_addr: 0,
            },
            fifo: Fifo::new(),
            cmd_latch: 0,
            param_latch: 0,
        }
    }

    /// The inclusive range of physical addresses that the window covers.
    pub fn range(&self) -> (r: (u32, u32))
        requires
            self@.wf(),
        ensures
            r == GpuMmio::range_spec(self@.base),
    {
        (self.base, self.base + 0xFF)
    }

    /// The register offset of `paddr`, if it lies in the window.
    fn within(&self, paddr: u32) -> (r: Option<u32>)
        requires
            self@.wf(),
        ensures
            r == if in_window(self@.base, paddr) {
                Some((paddr - self@.base) as u32)
            } else {
                None::<u32>
            },
    {
        if paddr >= self.base && paddr - self.base < GPU_WINDOW {
            Some(paddr - self.base)
        } else {
            None
        }
    }

    fn set_busy(&mut self, busy: bool)
        ensures
            final(self)@ == (GpuState {
                regs: GpuRegisters {
                    status: if busy {
                        old(self)@.regs.status | 1u32
                    } else {
                        old(self)@.regs.status & !1u32
                    },
                    ..old(self)@.regs
                },
                ..old(self)@
            }),
    {
        if busy {
            self.regs.status = self.regs.status | 1;
        } else {
            self.regs.status = self.regs.status & !1u32;
        }
    }

    /// Channel-wise linear interpolation of two 0xAARRGGBB colours, `t_num / t_den` of
    /// the way from `a` to `b`.
    pub fn lerp(a: u32, b: u32, t_num: usize, t_den: usize) -> (r: u32)
        requires
            1 <= t_den,
            t_num <= t_den,
        ensures
            r == lerp(a, b, t_num as int, t_den as int),
    {
        lerp_color(a, b, t_num as u64, t_den as u64)
    }

    /// Runs command `cmd` against the current FIFO and empties it.
    fn exec_cmd(&mut self, cmd: u16, video: &mut Vec<u8>)
        requires
            old(self)@.wf(),
        ensures
            final(self)@ == (GpuState {
                regs: GpuRegisters { status: (old(self)@.regs.status | 1u32) & !1u32, ..old(self)@.regs },
                fifo: Seq::empty(),
                ..old(self)@
            }),
            final(video)@ == command_result(old(self)@.regs, old(self)@.fifo, cmd, old(video)@),
            final(video)@.len() == old(video)@.len(),
    {
        let r = self.regs;
        self.set_busy(true);
        let f = &self.fifo;
        if cmd == CMD_CLEAR {
            draw_clear(&r, video, f.param32(0));
        } else if cmd == CMD_GRAD_X {
            draw_grad_x(&r, video, f.param32(0), f.param32(2));
        } else if cmd == CMD_PUTCHAR {
            draw_putchar(&r, video, f.param(0), f.param(1), f.param(2), f.param32(3), f.param32(5));
        } else if cmd == CMD_PUTS {
            let chars = f.params(7, f.param(2));
            draw_puts(&r, video, f.param(0), f.param(1), &chars, f.param32(3), f.param32(5));
        } else if cmd == CMD_FILLRECT {
            draw_fillrect(&r, video, f.param(0), f.param(1), f.param(2), f.param(3), f.param32(4));
        } else if cmd == CMD_GRAD_Y {
            draw_grad_y(&r, video, f.param32(0), f.param32(2));
        } else if cmd == CMD_RECT_OUTLINE {
            draw_outline(&r, video, f.param(0), f.param(1), f.param(2), f.param(3), f.param32(4));
        } else if cmd == CMD_LINE {
            draw_line(&r, video, f.param(0), f.param(1), f.param(2), f.param(3), f.param32(4));
        } else if cmd == CMD_BLIT {
            draw_blit(&r, video, f.param32(0), f.param(2), f.param(3), f.param(4), f.param(5));
        } else if cmd == CMD_GRAD_XY {
            draw_grad_xy(&r, video, f.param32(0), f.param32(2), f.param32(4), f.param32(6));
        }
        self.fifo.reset();
        self.set_busy(false);
    }

    /// A byte read of register offset `paddr - base`.
    pub fn read8(&self, paddr: u32) -> (r: MemResult<u8>)
        requires
            self@.wf(),
        ensures
            r == gpu_read8(self@, paddr),
    {
        let off = match self.within(paddr) {
            Some(o) => o,
            None => return Err(MemoryError::Unmapped(paddr)),
        };
        let r = &self.regs;
        let b = if off == 0x00 {
            (r.width % 0x100) as u8
        } else if off == 0x01 {
            (r.width / 0x100) as u8
        } else if off == 0x02 {
            (r.height % 0x100) as u8
        } else if off == 0x03 {
            (r.height / 0x100) as u8
        } else if off == 0x04 {
            (r.pitch % 0x100) as u8
        } else if off == 0x05 {
            (r.pitch / 0x100) as u8
        } else if off == 0x06 {
            r.bpp
        } else if 0x08 <= off && off <= 0x0B {
            byte_of(r.fb_addr, off - 0x08)
        } else if 0x0C <= off && off <= 0x0F {
            byte_of(r.status, off - 0x0C)
        } else if 0x20 <= off && off <= 0x23 {
            byte_of(r.font_addr, off - 0x20)
        } else if off == 0x24 {
            r.font_w
        } else if off == 0x25 {
            r.font_h
        } else if 0x28 <= off && off <= 0x2B {
            byte_of(r.palette_addr, off - 0x28)
        } else {
            0
        };
        Ok(b)
    }

    /// A byte store. A store to the command register's high byte runs the assembled
    /// command against `video`, the video memory this GPU draws into.
    pub fn write8(&mut self, paddr: u32, value: u8, video: &mut Vec<u8>) -> (r: MemResult<()>)
        requires
            old(self)@.wf(),
        ensures
            (final(self)@, final(video)@, r) == gpu_write8(old(self)@, paddr, value, old(video)@),
            final(self)@.wf(),
            final(video)@.len() == old(video)@.len(),
    {
        let off = match self.within(paddr) {
            Some(o) => o,
            None => return Err(MemoryError::Unmapped(paddr)),
        };
        if off == 0x00 {
            self.regs.width = (self.regs.width & 0xFF00) | value as u16;
        } else if off == 0x01 {
            self.regs.width = (self.regs.width & 0x00FF) | ((value as u16) << 8u16);
        } else if off == 0x02 {
            self.regs.height = (self.regs.height & 0xFF00) | value as u16;
        } else if off == 0x03 {
            self.regs.height = (self.regs.height & 0x00FF) | ((value as u16) << 8u16);
        } else if off == 0x04 {
            self.regs.pitch = (self.regs.pitch & 0xFF00) | value as u16;
        } else if off == 0x05 {
            self.regs.pitch = (self.regs.pitch & 0x00FF) | ((value as u16) << 8u16);
        } else if off == 0x06 {
            self.regs.bpp = value;
        } else if 0x08 <= off && off <= 0x0B {
            self.regs.fb_addr = with_byte(self.regs.fb_addr, off - 0x08, value);
        } else if off == 0x10 {
            self.cmd_latch = (self.cmd_latch & 0xFF00) | value as u16;
        } else if off == 0x11 {
            let cmd = (self.cmd_latch & 0x00FF) | ((value as u16) << 8u16);
            self.exec_cmd(cmd, video);
            self.cmd_latch = 0;
        } else if off == 0x12 {
            self.param_latch = (self.param_latch & 0xFF00) | value as u16;
        } else if off == 0x13 {
            let word = (self.param_latch & 0x00FF) | ((value as u16) << 8u16);
            self.fifo.push(word);
            self.param_latch = 0;
        } else if 0x20 <= off && off <= 0x23 {
            self.regs.font_addr = with_byte(self.regs.font_addr, off - 0x20, value);
        } else if off == 0x24 {
            self.regs.font_w = value;
        } else if off == 0x25 {
            self.regs.font_h = value;
        } else if 0x28 <= off && off <= 0x2B {
            self.regs.palette_addr = with_byte(self.regs.palette_addr, off - 0x28, value);
        }
        Ok(())
    }
}

/// At 32 bpp, a FILLRECT over the whole screen after a CLEAR leaves every pixel of the
/// screen, as far as it lies in video memory, holding the fill colour in little-endian
/// byte order, whatever colour the CLEAR used.
pub proof fn lemma_fill_after_clear(r: GpuRegisters, v: Seq<u8>, c1: u32, c2: u32)
    requires
        r.bpp == 32,
    ensures
        forall|x: int, y: int|
            0 <= x < r.width && 0 <= y < r.height ==> #[trigger] pixel_holds(
                fillrect_result(r, clear_result(r, v, c1), 0, 0, r.width, r.height, c2),
                screen(r),
                c2,
                x,
                y,
            ),
{
    if r.width > 0 && r.height > 0 {
        let cleared = clear_result(r, v, c1);
        let a = screen(r);
        assert(fillrect_result(r, cleared, 0, 0, r.width, r.height, c2) == paint(
            cleared,
            a,
            ShadeSpec::Solid(c2),
        ));
        lemma_solid_paint_covers(cleared, a, c2);
    }
}

} // verus!
