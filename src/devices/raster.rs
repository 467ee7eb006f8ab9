use vstd::prelude::*;
use vstd::arithmetic::div_mod::{lemma_div_is_ordered, lemma_div_multiples_vanish};

verus! {

/// Byte `k` (0 = least significant) of a 32-bit word.
pub open spec fn channel(c: u32, k: nat) -> int {
    if k == 0 {
        c as int % 0x100
    } else if k == 1 {
        (c as int / 0x100) % 0x100
    } else if k == 2 {
        (c as int / 0x1_0000) % 0x100
    } else {
        (c as int / 0x100_0000) % 0x100
    }
}

/// The four bytes of a word in little-endian order.
pub open spec fn le_bytes(c: u32) -> Seq<u8> {
    seq![channel(c, 0) as u8, channel(c, 1) as u8, channel(c, 2) as u8, channel(c, 3) as u8]
}

/// `v` with `bytes` written from offset `off` on; bytes that fall outside `v` are dropped.
pub open spec fn write_bytes(v: Seq<u8>, off: int, bytes: Seq<u8>) -> Seq<u8> {
    Seq::new(v.len(), |k: int| if off <= k < off + bytes.len() { bytes[k - off] } else { v[k] })
}

/// Byte `k` of `v`, or 0 outside it.
pub open spec fn byte_at(v: Seq<u8>, k: int) -> u8 {
    if 0 <= k < v.len() {
        v[k]
    } else {
        0
    }
}

/// One channel interpolated `num / den` of the way from `a` to `b`.
pub open spec fn lerp_channel(a: int, b: int, num: int, den: int) -> int {
    (a * (den - num) + b * num) / den
}

/// Linear interpolation of two 0xAARRGGBB colours, channel by channel.
pub open spec fn lerp(a: u32, b: u32, num: int, den: int) -> u32 {
    (lerp_channel(channel(a, 3), channel(b, 3), num, den) * 0x100_0000 + lerp_channel(
        channel(a, 2),
        channel(b, 2),
        num,
        den,
    ) * 0x1_0000 + lerp_channel(channel(a, 1), channel(b, 1), num, den) * 0x100 + lerp_channel(
        channel(a, 0),
        channel(b, 0),
        num,
        den,
    )) as u32
}

/// Bit `i` of a glyph row, counting from the most significant bit and wrapping every 8.
pub open spec fn glyph_bit(row: u8, i: int) -> bool {
    (row >> ((7 - i % 8) as u8)) & 1u8 == 1u8
}

/// A rectangle of pixels in a byte buffer: pixel `(i, j)` starts at
/// `base + j * row_stride + i * px_bytes`.
#[derive(Clone, Copy, Debug)]
pub struct Area {
    pub base: u64,
    pub row_stride: u64,
    pub px_bytes: u64,
    pub w: u64,
    pub h: u64,
}

/// How the colour of each pixel of an area is chosen.
pub enum Shade {
    /// One colour.
    Solid(u32),
    /// From `left` to `right` over the columns, with denominator `den`.
    Horizontal(u32, u32, u64),
    /// From `top` to `bottom` over the rows, with denominator `den`.
    Vertical(u32, u32, u64),
    /// Corners top-left, top-right, bottom-left, bottom-right, with the column and
    /// row denominators.
    Bilinear(u32, u32, u32, u32, u64, u64),
    /// A glyph: one row byte per pixel row, foreground where the bit is set.
    Glyph(Vec<u8>, u32, u32),
}

/// `Shade` as a value of logic: a glyph's rows as a sequence.
pub enum ShadeSpec {
    Solid(u32),
    Horizontal(u32, u32, u64),
    Vertical(u32, u32, u64),
    Bilinear(u32, u32, u32, u32, u64, u64),
    Glyph(Seq<u8>, u32, u32),
}

impl View for Shade {
    type V = ShadeSpec;

    open spec fn view(&self) -> ShadeSpec {
        match self {
            Shade::Solid(c) => ShadeSpec::Solid(*c),
            Shade::Horizontal(l, r, d) => ShadeSpec::Horizontal(*l, *r, *d),
            Shade::Vertical(t, b, d) => ShadeSpec::Vertical(*t, *b, *d),
            Shade::Bilinear(c00, c10, c01, c11, dx, dy) => ShadeSpec::Bilinear(
                *c00,
                *c10,
                *c01,
                *c11,
                *dx,
                *dy,
            ),
            Shade::Glyph(rows, fg, bg) => ShadeSpec::Glyph(rows@, *fg, *bg),
        }
    }
}

pub open spec fn area_fits(a: Area) -> bool {
    &&& 1 <= a.px_bytes <= 4
    &&& a.base <= 0x10_0000_0000
    &&& a.row_stride <= 0x10_0000
    &&& a.w <= 0x2_0000
    &&& a.h <= 0x2_0000
}

/// The shade's denominators cover every pixel of the area.
pub open spec fn shade_fits(a: Area, s: ShadeSpec) -> bool {
    match s {
        ShadeSpec::Solid(_) => true,
        ShadeSpec::Horizontal(_, _, den) => 1 <= den <= 0xFFFF_FFFF && a.w <= den + 1,
        ShadeSpec::Vertical(_, _, den) => 1 <= den <= 0xFFFF_FFFF && a.h <= den + 1,
        ShadeSpec::Bilinear(_, _, _, _, dx, dy) => 1 <= dx <= 0xFFFF_FFFF && a.w <= dx + 1 && 1 <= dy
            <= 0xFFFF_FFFF && a.h <= dy + 1,
        ShadeSpec::Glyph(rows, _, _) => a.h <= rows.len(),
    }
}

pub open spec fn shade_color(s: ShadeSpec, i: int, j: int) -> u32 {
    match s {
        ShadeSpec::Solid(c) => c,
        ShadeSpec::Horizontal(l, r, den) => lerp(l, r, i, den as int),
        ShadeSpec::Vertical(t, b, den) => lerp(t, b, j, den as int),
        ShadeSpec::Bilinear(c00, c10, c01, c11, dx, dy) => lerp(
            lerp(c00, c01, j, dy as int),
            lerp(c10, c11, j, dy as int),
            i,
            dx as int,
        ),
        ShadeSpec::Glyph(rows, fg, bg) => if glyph_bit(rows[j], i) {
            fg
        } else {
            bg
        },
    }
}

pub open spec fn pixel_offset(a: Area, i: int, j: int) -> int {
    a.base + j * a.row_stride + i * a.px_bytes
}

/// The bytes written for pixel `(i, j)`: the low `px_bytes` bytes of its colour.
pub open spec fn pixel_bytes(a: Area, s: ShadeSpec, i: int, j: int) -> Seq<u8> {
    le_bytes(shade_color(s, i, j)).take(a.px_bytes as int)
}

/// `v` after the first `n` pixels of row `j` were painted, left to right.
pub open spec fn paint_row(v: Seq<u8>, a: Area, s: ShadeSpec, j: int, n: nat) -> Seq<u8>
    decreases n,
{
    if n == 0 {
        v
    } else {
        let i = n - 1;
        write_bytes(paint_row(v, a, s, j, i as nat), pixel_offset(a, i, j), pixel_bytes(a, s, i, j))
    }
}

/// `v` after the first `m` rows were painted, top to bottom.
pub open spec fn paint_rows(v: Seq<u8>, a: Area, s: ShadeSpec, m: nat) -> Seq<u8>
    decreases m,
{
    if m == 0 {
        v
    } else {
        paint_row(paint_rows(v, a, s, (m - 1) as nat), a, s, m - 1, a.w as nat)
    }
}

/// `v` after every pixel of the area was painted in row-major order.
pub open spec fn paint(v: Seq<u8>, a: Area, s: ShadeSpec) -> Seq<u8> {
    paint_rows(v, a, s, a.h as nat)
}

/// Writes the low `n` bytes of `c`, little-endian, from `off` on; bytes past the end of
/// `v` are dropped.
pub fn store_pixel(v: &mut Vec<u8>, off: u64, c: u32, n: u64)
    requires
        1 <= n <= 4,
        off <= 0x1_0000_0000_0000,
    ensures
        final(v)@ == write_bytes(old(v)@, off as int, le_bytes(c).take(n as int)),
{
    let ghost old_v = v@;
    let bytes: [u8; 4] = [
        (c % 0x100) as u8,
        ((c / 0x100) % 0x100) as u8,
        ((c / 0x1_0000) % 0x100) as u8,
        ((c / 0x100_0000) % 0x100) as u8,
    ];
    assert(bytes@ =~= le_bytes(c));
    let len = v.len() as u64;
    let mut t: u64 = 0;
    while t < n
        invariant
            t <= n <= 4,
            off <= 0x1_0000_0000_0000,
            len == v@.len(),
            v@.len() <= usize::MAX,
            bytes@ == le_bytes(c),
            v@ == write_bytes(old_v, off as int, le_bytes(c).take(t as int)),
        decreases n - t,
    {
        if off + t < len {
            v.set((off + t) as usize, bytes[t as usize]);
        }
        t = t + 1;
        assert(v@ =~= write_bytes(old_v, off as int, le_bytes(c).take(t as int)));
    }
}

/// The colour of pixel `(i, j)` of an area.
fn shade_at(a: Area, s: &Shade, i: u64, j: u64) -> (r: u32)
    requires
        shade_fits(a, s@),
        i < a.w,
        j < a.h,
    ensures
        r == shade_color(s@, i as int, j as int),
{
    match s {
        Shade::Solid(c) => *c,
        Shade::Horizontal(l, r, den) => lerp_color(*l, *r, i, *den),
        Shade::Vertical(t, b, den) => lerp_color(*t, *b, j, *den),
        Shade::Bilinear(c00, c10, c01, c11, dx, dy) => {
            let left = lerp_color(*c00, *c01, j, *dy);
            let right = lerp_color(*c10, *c11, j, *dy);
            lerp_color(left, right, i, *dx)
        },
        Shade::Glyph(rows, fg, bg) => {
            let n = rows.len();
            assert(j < n);
            let row = rows[j as usize];
            if (row >> ((7 - (i % 8)) as u8)) & 1u8 == 1u8 {
                *fg
            } else {
                *bg
            }
        },
    }
}

/// Paints every pixel of the area, row by row and left to right; bytes that fall outside
/// `v` are dropped.
pub fn paint_area(v: &mut Vec<u8>, a: Area, s: &Shade)
    requires
        area_fits(a),
        shade_fits(a, s@),
    ensures
        final(v)@ == paint(old(v)@, a, s@),
        final(v)@.len() == old(v)@.len(),
{
    let ghost old_v = v@;
    let mut j: u64 = 0;
    while j < a.h
        invariant
            j <= a.h,
            area_fits(a),
            shade_fits(a, s@),
            v@.len() == old_v.len(),
            v@ == paint_rows(old_v, a, s@, j as nat),
        decreases a.h - j,
    {
        assert(j * a.row_stride <= 0x2_0000 * 0x10_0000) by (nonlinear_arith)
            requires
                j <= 0x2_0000,
                a.row_stride <= 0x10_0000,
        ;
        let row_base = a.base + j * a.row_stride;
        let mut i: u64 = 0;
        while i < a.w
            invariant
                i <= a.w,
                j < a.h,
                area_fits(a),
                shade_fits(a, s@),
                row_base == a.base + j * a.row_stride,
                v@.len() == old_v.len(),
                row_base <= 0x10_0000_0000 + 0x2_0000 * 0x10_0000,
                v@ == paint_row(paint_rows(old_v, a, s@, j as nat), a, s@, j as int, i as nat),
            decreases a.w - i,
        {
            assert(i * a.px_bytes <= 0x2_0000 * 4) by (nonlinear_arith)
                requires
                    i <= 0x2_0000,
                    a.px_bytes <= 4,
            ;
            let c = shade_at(a, s, i, j);
            store_pixel(v, row_base + i * a.px_bytes, c, a.px_bytes);
            i = i + 1;
        }
        j = j + 1;
    }
}

/// Writes `bytes` from `off` on; bytes past the end of `v` are dropped.
pub fn store_bytes(v: &mut Vec<u8>, off: u64, bytes: &Vec<u8>)
    requires
        off + bytes@.len() <= u64::MAX,
    ensures
        final(v)@ == write_bytes(old(v)@, off as int, bytes@),
{
    let ghost old_v = v@;
    let len = v.len() as u64;
    let mut t: usize = 0;
    while t < bytes.len()
        invariant
            t <= bytes@.len(),
            off + bytes@.len() <= u64::MAX,
            len == v@.len(),
            v@.len() <= usize::MAX,
            v@ == write_bytes(old_v, off as int, bytes@.take(t as int)),
        decreases bytes@.len() - t,
    {
        if off + (t as u64) < len {
            v.set((off + t as u64) as usize, bytes[t]);
        }
        t = t + 1;
        assert(v@ =~= write_bytes(old_v, off as int, bytes@.take(t as int)));
    }
    assert(bytes@.take(bytes@.len() as int) =~= bytes@);
}

/// Per-channel linear interpolation from `a` to `b`, `num / den` of the way.
pub fn lerp_color(a: u32, b: u32, num: u64, den: u64) -> (r: u32)
    requires
        1 <= den,
        num <= den,
    ensures
        r == lerp(a, b, num as int, den as int),
{
    let ar = ((a / 0x100_0000) % 0x100) as u64;
    let br = ((b / 0x100_0000) % 0x100) as u64;
    let ag = ((a / 0x1_0000) % 0x100) as u64;
    let bg = ((b / 0x1_0000) % 0x100) as u64;
    let ab = ((a / 0x100) % 0x100) as u64;
    let bb = ((b / 0x100) % 0x100) as u64;
    let aa = (a % 0x100) as u64;
    let ba = (b % 0x100) as u64;
    let lr = lerp_one(ar, br, num, den);
    let lg = lerp_one(ag, bg, num, den);
    let lb = lerp_one(ab, bb, num, den);
    let la = lerp_one(aa, ba, num, den);
    assert(channel(a, 3) == ar && channel(a, 2) == ag && channel(a, 1) == ab && channel(a, 0) == aa);
    assert(channel(b, 3) == br && channel(b, 2) == bg && channel(b, 1) == bb && channel(b, 0) == ba);
    ((lr * 0x100_0000 + lg * 0x1_0000 + lb * 0x100 + la) as u32)
}

/// One channel of `lerp_color`.
fn lerp_one(a: u64, b: u64, num: u64, den: u64) -> (r: u64)
    requires
        a < 0x100,
        b < 0x100,
        1 <= den,
        num <= den,
    ensures
        r == lerp_channel(a as int, b as int, num as int, den as int),
        r < 0x100,
{
    let a = a as u128;
    let b = b as u128;
    let num = num as u128;
    let den = den as u128;
    assert(a * (den - num) <= 0xFF * (den - num)) by (nonlinear_arith)
        requires
            a < 0x100,
            num <= den,
    ;
    assert(b * num <= 0xFF * num) by (nonlinear_arith)
        requires
            b < 0x100,
    ;
    assert(0xFF * den <= 0xFF * 0xFFFF_FFFF_FFFF_FFFFu128) by (nonlinear_arith)
        requires
            den <= 0xFFFF_FFFF_FFFF_FFFFu128,
    ;
    let s = a * (den - num) + b * num;
    assert(s <= 0xFF * den);
    proof {
        lemma_div_is_ordered(s as int, 0xFF * den, den as int);
        lemma_div_multiples_vanish(0xFF, den as int);
        assert(0xFF * den as int == den as int * 0xFF) by (nonlinear_arith);
    }
    (s / den) as u64
}

/// A word is the sum of its bytes, each at its place.
pub proof fn lemma_channels_recombine(c: u32)
    ensures
        channel(c, 0) + channel(c, 1) * 0x100 + channel(c, 2) * 0x1_0000 + channel(c, 3) * 0x100_0000
            == c,
        0 <= channel(c, 0) < 0x100,
        0 <= channel(c, 1) < 0x100,
        0 <= channel(c, 2) < 0x100,
        0 <= channel(c, 3) < 0x100,
{
    let x = c as int;
    assert(x == 0x100 * (x / 0x100) + x % 0x100) by (nonlinear_arith);
    let q1 = x / 0x100;
    assert(q1 == 0x100 * (q1 / 0x100) + q1 % 0x100) by (nonlinear_arith);
    let q2 = q1 / 0x100;
    assert(q2 == 0x100 * (q2 / 0x100) + q2 % 0x100) by (nonlinear_arith);
    let q3 = q2 / 0x100;
    vstd::arithmetic::div_mod::lemma_div_denominator(x, 0x100, 0x100);
    vstd::arithmetic::div_mod::lemma_div_denominator(x, 0x1_0000, 0x100);
    assert(q3 < 0x100);
    vstd::arithmetic::div_mod::lemma_small_mod(q3 as nat, 0x100);
}

/// Interpolating no part of the way gives the first colour; all of the way, the second.
pub proof fn lemma_lerp_ends(a: u32, b: u32, n: int)
    requires
        n >= 1,
    ensures
        lerp(a, b, 0, n) == a,
        lerp(a, b, n, n) == b,
{
    assert forall|x: int, y: int| lerp_channel(x, y, 0, n) == x && lerp_channel(x, y, n, n) == y by {
        assert(x * (n - 0) + y * 0 == n * x) by (nonlinear_arith);
        assert(x * (n - n) + y * n == n * y) by (nonlinear_arith);
        lemma_div_multiples_vanish(x, n);
        lemma_div_multiples_vanish(y, n);
    }
    lemma_channels_recombine(a);
    lemma_channels_recombine(b);
}

/// The bytes of pixel `(i, j)` that lie inside `v` hold colour `c`, little-endian.
pub open spec fn pixel_holds(v: Seq<u8>, a: Area, c: u32, i: int, j: int) -> bool {
    forall|t: int|
        0 <= t < 4 && 0 <= pixel_offset(a, i, j) + t < v.len() ==> #[trigger] v[pixel_offset(a, i, j) + t]
            == le_bytes(c)[t]
}

/// Storing colour `c` at another pixel of a 4-byte grid keeps a pixel of colour `c`
/// whole: the two either coincide or do not overlap.
proof fn lemma_store_keeps_pixel(v: Seq<u8>, a: Area, c: u32, i: int, j: int, i2: int, j2: int)
    requires
        a.px_bytes == 4,
        a.row_stride % 4 == 0,
        pixel_holds(v, a, c, i, j),
    ensures
        pixel_holds(write_bytes(v, pixel_offset(a, i2, j2), le_bytes(c)), a, c, i, j),
{
    let o = pixel_offset(a, i2, j2);
    let o1 = pixel_offset(a, i, j);
    let q = a.row_stride / 4;
    assert(a.row_stride == 4 * q);
    let m = (j - j2) * q + (i - i2);
    assert(o1 - o == 4 * m) by (nonlinear_arith)
        requires
            o1 == a.base + j * a.row_stride + i * 4,
            o == a.base + j2 * a.row_stride + i2 * 4,
            a.row_stride == 4 * q,
            m == (j - j2) * q + (i - i2),
    ;
    let w = write_bytes(v, o, le_bytes(c));
    assert forall|t: int| 0 <= t < 4 && 0 <= o1 + t < w.len() implies #[trigger] w[o1 + t]
        == le_bytes(c)[t] by {
        if o <= o1 + t < o + 4 {
            assert(o1 + t - o == t);
        } else {
            assert(w[o1 + t] == v[o1 + t]);
        }
    }
}

/// A row of solid colour keeps every pixel that held the colour and fills its own.
proof fn lemma_solid_row(v: Seq<u8>, a: Area, c: u32, j: int, n: nat)
    requires
        a.px_bytes == 4,
        a.row_stride % 4 == 0,
        a.base >= 0,
    ensures
        forall|i0: int, j0: int|
            pixel_holds(v, a, c, i0, j0) ==> #[trigger] pixel_holds(
                paint_row(v, a, ShadeSpec::Solid(c), j, n),
                a,
                c,
                i0,
                j0,
            ),
        forall|i0: int|
            0 <= i0 < n ==> #[trigger] pixel_holds(
                paint_row(v, a, ShadeSpec::Solid(c), j, n),
                a,
                c,
                i0,
                j,
            ),
    decreases n,
{
    if n > 0 {
        let s = ShadeSpec::Solid(c);
        lemma_solid_row(v, a, c, j, (n - 1) as nat);
        let prev = paint_row(v, a, s, j, (n - 1) as nat);
        let i1 = n - 1;
        assert(pixel_bytes(a, s, i1, j) =~= le_bytes(c));
        let o = pixel_offset(a, i1, j);
        let next = paint_row(v, a, s, j, n);
        assert(next == write_bytes(prev, o, le_bytes(c)));
        assert forall|i0: int, j0: int| pixel_holds(prev, a, c, i0, j0) implies #[trigger] pixel_holds(
            next,
            a,
            c,
            i0,
            j0,
        ) by {
            lemma_store_keeps_pixel(prev, a, c, i0, j0, i1, j);
        }
        assert forall|i0: int| 0 <= i0 < n implies #[trigger] pixel_holds(next, a, c, i0, j) by {
            if i0 < i1 {
                assert(pixel_holds(prev, a, c, i0, j));
                lemma_store_keeps_pixel(prev, a, c, i0, j, i1, j);
            } else {
                assert forall|t: int| 0 <= t < 4 && 0 <= o + t < next.len() implies #[trigger] next[o
                    + t] == le_bytes(c)[t] by {}
            }
        }
    }
}

/// Rows of solid colour: every pixel of the first `m` rows holds the colour.
proof fn lemma_solid_rows(v: Seq<u8>, a: Area, c: u32, m: nat)
    requires
        a.px_bytes == 4,
        a.row_stride % 4 == 0,
    ensures
        forall|i0: int, j0: int|
            0 <= i0 < a.w && 0 <= j0 < m ==> #[trigger] pixel_holds(
                paint_rows(v, a, ShadeSpec::Solid(c), m),
                a,
                c,
                i0,
                j0,
            ),
    decreases m,
{
    if m > 0 {
        let s = ShadeSpec::Solid(c);
        lemma_solid_rows(v, a, c, (m - 1) as nat);
        let prev = paint_rows(v, a, s, (m - 1) as nat);
        lemma_solid_row(prev, a, c, m - 1, a.w as nat);
        let next = paint_rows(v, a, s, m);
        assert forall|i0: int, j0: int| 0 <= i0 < a.w && 0 <= j0 < m implies #[trigger] pixel_holds(
            next,
            a,
            c,
            i0,
            j0,
        ) by {
            if j0 < m - 1 {
                assert(pixel_holds(prev, a, c, i0, j0));
            }
        }
    }
}

/// Painting an area of 4-byte pixels, on a row stride that is a multiple of 4, in one
/// colour leaves every pixel of it (as far as it lies in the buffer) in that colour.
pub proof fn lemma_solid_paint_covers(v: Seq<u8>, a: Area, c: u32)
    requires
        a.px_bytes == 4,
        a.row_stride % 4 == 0,
    ensures
        forall|i: int, j: int|
            0 <= i < a.w && 0 <= j < a.h ==> #[trigger] pixel_holds(
                paint(v, a, ShadeSpec::Solid(c)),
                a,
                c,
                i,
                j,
            ),
{
    lemma_solid_rows(v, a, c, a.h as nat);
}

} // verus!
