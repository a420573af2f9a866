//! Procedural surface textures: a kind and a resolution give a row-major
//! RGBA byte buffer, one formula per surface kind.
//!
//! Pixel coordinates are normalized into micro-units of the unit square.
//! The gas, ice and ring formulas are pure — equal inputs give byte-equal
//! buffers — while the sun and rock formulas mix a per-pixel jitter drawn
//! from the platform's random generator; what is proved of those is that
//! every pixel is the pure formula applied to *some* jitter in its stated
//! range. Channel values are scaled down and saturated into a byte exactly
//! the way a float-to-byte cast would.

use crate::fixed::clamp_val;
use crate::fixed::div_pos;
use crate::fixed::fx_mul;
use crate::fixed::fx_mul_val;
use crate::fixed::isqrt_u128;
use crate::fixed::isqrt_val;
use crate::fixed::lemma_fx_mul_val_bounds;
use crate::fixed::trunc_div;
use crate::fixed::SCALE;
use crate::trig::cos_fx;
use crate::trig::cos_fx_val;
use crate::trig::sin_fx;
use crate::trig::sin_fx_val;
use vstd::arithmetic::div_mod::lemma_div_is_ordered;
use vstd::arithmetic::div_mod::lemma_fundamental_div_mod_converse_div;
use vstd::arithmetic::div_mod::lemma_fundamental_div_mod_converse_mod;
use vstd::prelude::*;

verus! {

/// The surface formulas a body can be painted with. An unknown kind paints
/// opaque white; it is a fallback, not an error.
#[derive(Clone, Copy, PartialEq, Eq, Structural, Debug)]
pub enum SurfaceKind {
    Sun,
    Rock,
    Gas,
    Ice,
    Ring,
    Unknown,
}

/// One RGBA pixel.
#[derive(Clone, Copy, PartialEq, Eq, Structural, Debug)]
pub struct Rgba {
    pub r: u8,
    pub g: u8,
    pub b: u8,
    pub a: u8,
}

/// Largest texture side the synthesizer accepts.
pub const MAX_TEXTURE_SIDE: u32 = 4_096;

/// Upper bound (exclusive) of the sun's brightness jitter, in micro-units.
pub const SUN_JITTER_RANGE_FX: i64 = 200_000;

/// Half-width of the rock's mixed-in jitter, in micro-units.
pub const ROCK_JITTER_RANGE_FX: i64 = 200_000;

/// A micro-unit channel value scaled down and saturated into a byte, the
/// way a float-to-byte cast truncates toward zero and clamps.
pub open spec fn chan_val(x: int) -> u8 {
    clamp_val(trunc_div(x, SCALE as int), 0, 255) as u8
}

/// The normalized micro-unit coordinate of texel `i` on an axis of `n`
/// texels.
pub open spec fn texel_coord_val(i: int, n: int) -> int {
    (i * SCALE) / n
}

/// The sun pixel: brightness falls off radially from the center, lifted by
/// the jitter, tinting a warm palette.
pub open spec fn sun_color_val(u: int, v: int, n: int) -> Rgba {
    let du: int = u - 500_000;
    let dv: int = v - 500_000;
    let dist: int = isqrt_val((du * du + dv * dv) as nat) as int;
    let f: int = (if SCALE - 2 * dist >= 0 {
        SCALE - 2 * dist
    } else {
        0
    }) + n;
    Rgba { r: chan_val(255 * f), g: chan_val(180 * f), b: chan_val(60 * f), a: 255 }
}

/// The rock pixel: linear ramps of the coordinates with the jitter mixed
/// into both.
pub open spec fn rock_color_val(u: int, v: int, n: int) -> Rgba {
    Rgba {
        r: chan_val(90 * SCALE + 100 * (v + n)),
        g: chan_val(70 * SCALE + 80 * (u + n)),
        b: chan_val(60 * SCALE + 40 * (v + n)),
        a: 255,
    }
}

/// The gas pixel: horizontal banding from a sine of the vertical
/// coordinate over a blue-shifted palette.
pub open spec fn gas_color_val(u: int, v: int) -> Rgba {
    let s: int = sin_fx_val(20 * v);
    let w: int = (((s + SCALE) / 2) * 8) / 10 + 200_000;
    Rgba {
        r: chan_val(100 * SCALE + 100 * w),
        g: chan_val(150 * SCALE + 80 * w),
        b: chan_val(200 * SCALE - 60 * w),
        a: 255,
    }
}

/// The ice pixel: a cosine-sine product remapped into the unit range over
/// a blue-white palette.
pub open spec fn ice_color_val(u: int, v: int) -> Rgba {
    let p: int = fx_mul_val(cos_fx_val(10 * u), sin_fx_val(10 * v));
    let w: int = (p + SCALE) / 2;
    Rgba {
        r: chan_val(150 * w + 80 * SCALE),
        g: chan_val(200 * w + 55 * SCALE),
        b: chan_val(255 * w),
        a: 255,
    }
}

/// The ring pixel: a fixed base color whose alpha fades quadratically away
/// from the mid line.
pub open spec fn ring_color_val(u: int, v: int) -> Rgba {
    let d: int = if 2 * v - SCALE >= 0 {
        2 * v - SCALE
    } else {
        SCALE - 2 * v
    };
    let fade: int = if SCALE - fx_mul_val(d, d) >= 0 {
        SCALE - fx_mul_val(d, d)
    } else {
        0
    };
    Rgba { r: 180, g: 180, b: 160, a: chan_val(200 * fade) }
}

/// The pixel of a deterministic kind at texel `(x, y)`; the random kinds
/// are not described here, and an unknown kind paints opaque white.
pub open spec fn det_pixel_val(kind: SurfaceKind, w: int, h: int, x: int, y: int) -> Rgba {
    let u: int = texel_coord_val(x, w);
    let v: int = texel_coord_val(y, h);
    match kind {
        SurfaceKind::Gas => gas_color_val(u, v),
        SurfaceKind::Ice => ice_color_val(u, v),
        SurfaceKind::Ring => ring_color_val(u, v),
        _ => Rgba { r: 255, g: 255, b: 255, a: 255 },
    }
}

/// The pixel of a random kind at texel `(x, y)` under jitter `n`.
pub open spec fn rand_pixel_val(kind: SurfaceKind, w: int, h: int, x: int, y: int, n: int) -> Rgba {
    let u: int = texel_coord_val(x, w);
    let v: int = texel_coord_val(y, h);
    match kind {
        SurfaceKind::Sun => sun_color_val(u, v, n),
        _ => rock_color_val(u, v, n),
    }
}

/// The jitters a kind draws from: the sun lifts brightness by up to a
/// fifth, the rock mixes in up to a fifth either way.
pub open spec fn jitter_in_range(kind: SurfaceKind, n: int) -> bool {
    match kind {
        SurfaceKind::Sun => 0 <= n < SUN_JITTER_RANGE_FX,
        _ => -ROCK_JITTER_RANGE_FX <= n < ROCK_JITTER_RANGE_FX,
    }
}

/// The whole deterministic texture, row-major RGBA bytes.
pub open spec fn texture_bytes_val(kind: SurfaceKind, w: int, h: int) -> Seq<u8> {
    Seq::new(
        (4 * w * h) as nat,
        |i: int|
            {
                let p: int = i / 4;
                let c = det_pixel_val(kind, w, h, p % w, p / w);
                if i % 4 == 0 {
                    c.r
                } else if i % 4 == 1 {
                    c.g
                } else if i % 4 == 2 {
                    c.b
                } else {
                    c.a
                }
            },
    )
}

/// Whether pixel `p` of `bytes` is the pure formula of a random kind under
/// the jitter `n`.
pub open spec fn pixel_matches(
    kind: SurfaceKind,
    w: int,
    h: int,
    bytes: Seq<u8>,
    p: int,
    n: int,
) -> bool {
    &&& jitter_in_range(kind, n)
    &&& {
        let c = rand_pixel_val(kind, w, h, p % w, p / w, n);
        &&& bytes[4 * p] == c.r
        &&& bytes[4 * p + 1] == c.g
        &&& bytes[4 * p + 2] == c.b
        &&& bytes[4 * p + 3] == c.a
    }
}

/// Whether pixel `p` of `bytes` is the pure formula of a random kind under
/// some jitter in range.
pub open spec fn rand_pixel_ok(
    kind: SurfaceKind,
    w: int,
    h: int,
    bytes: Seq<u8>,
    p: int,
) -> bool {
    exists|n: int| pixel_matches(kind, w, h, bytes, p, n)
}

/// The deterministic kinds give the same bytes on every synthesis: the
/// buffer is a function of the kind and the resolution alone, so two calls
/// with equal arguments agree byte for byte.
pub proof fn lemma_texture_idempotent(
    kind: SurfaceKind,
    w: int,
    h: int,
    a: Seq<u8>,
    b: Seq<u8>,
)
    requires
        a == texture_bytes_val(kind, w, h),
        b == texture_bytes_val(kind, w, h),
    ensures
        a == b,
{
}

/// One jitter draw. Relies on rand::random with the StandardUniform
/// distribution, which yields a uniformly distributed `u32`; nothing is
/// assumed of the value beyond its type.
#[verifier::external_body]
fn random_u32() -> u32 {
    rand::random::<u32>()
}

/// A micro-unit channel value scaled and saturated into a byte.
fn chan(x: i64) -> (c: u8)
    requires
        -1_000_000_000_000 <= x <= 1_000_000_000_000,
    ensures
        c == chan_val(x as int),
{
    if x <= 0 {
        proof {
            if x < 0 {
                lemma_div_is_ordered(0, -(x as int), SCALE as int);
            }
        }
        0
    } else {
        let q: i64 = div_pos(x, SCALE);
        if q > 255 {
            255
        } else {
            q as u8
        }
    }
}

/// The normalized micro-unit coordinate of texel `i` of `n`.
fn texel_coord(i: u32, n: u32) -> (c: i64)
    requires
        0 < n <= MAX_TEXTURE_SIDE,
        i < n,
    ensures
        c == texel_coord_val(i as int, n as int),
        0 <= c <= SCALE,
{
    proof {
        assert((i as int) * (SCALE as int) <= (SCALE as int) * (n as int) && 0 <= (SCALE as int)
            * (n as int)) by (nonlinear_arith)
            requires
                i < n,
                0 <= i,
                0 < n,
        ;
        crate::fixed::lemma_trunc_div_le_factor(
            (i as int) * (SCALE as int),
            n as int,
            SCALE as int,
        );
        assert(0 <= (i as int) * (SCALE as int)) by (nonlinear_arith)
            requires
                0 <= i,
        ;
    }
    (((i as u64) * (SCALE as u64)) / (n as u64)) as i64
}

/// The sun pixel, computed.
pub fn sun_color(u: i64, v: i64, n: i64) -> (c: Rgba)
    requires
        0 <= u <= SCALE,
        0 <= v <= SCALE,
        0 <= n < SUN_JITTER_RANGE_FX,
    ensures
        c == sun_color_val(u as int, v as int, n as int),
{
    let du: i64 = u - 500_000;
    let dv: i64 = v - 500_000;
    proof {
        assert(0 <= du * du <= 250_000_000_000 && 0 <= dv * dv <= 250_000_000_000)
            by (nonlinear_arith)
            requires
                -500_000 <= du <= 500_000,
                -500_000 <= dv <= 500_000,
        ;
    }
    let d2: u128 = ((du * du + dv * dv) as i128) as u128;
    let dist: i64 = isqrt_u128(d2) as i64;
    proof {
        crate::fixed::lemma_isqrt_val_bounds(d2 as nat);
        assert(isqrt_val(d2 as nat) * isqrt_val(d2 as nat) <= 500_000_000_000);
        assert(isqrt_val(d2 as nat) <= 800_000) by (nonlinear_arith)
            requires
                isqrt_val(d2 as nat) * isqrt_val(d2 as nat) <= 500_000_000_000,
        ;
    }
    let base: i64 = SCALE - 2 * dist;
    let f: i64 = (if base >= 0 {
        base
    } else {
        0
    }) + n;
    Rgba { r: chan(255 * f), g: chan(180 * f), b: chan(60 * f), a: 255 }
}

/// The rock pixel, computed.
pub fn rock_color(u: i64, v: i64, n: i64) -> (c: Rgba)
    requires
        0 <= u <= SCALE,
        0 <= v <= SCALE,
        -ROCK_JITTER_RANGE_FX <= n < ROCK_JITTER_RANGE_FX,
    ensures
        c == rock_color_val(u as int, v as int, n as int),
{
    Rgba {
        r: chan(90 * SCALE + 100 * (v + n)),
        g: chan(70 * SCALE + 80 * (u + n)),
        b: chan(60 * SCALE + 40 * (v + n)),
        a: 255,
    }
}

/// The gas pixel, computed.
pub fn gas_color(u: i64, v: i64) -> (c: Rgba)
    requires
        0 <= u <= SCALE,
        0 <= v <= SCALE,
    ensures
        c == gas_color_val(u as int, v as int),
{
    let s: i64 = sin_fx(20 * v);
    let w1: i64 = div_pos(s + SCALE, 2);
    let w2: i64 = div_pos(w1 * 8, 10) + 200_000;
    Rgba {
        r: chan(100 * SCALE + 100 * w2),
        g: chan(150 * SCALE + 80 * w2),
        b: chan(200 * SCALE - 60 * w2),
        a: 255,
    }
}

/// The ice pixel, computed.
pub fn ice_color(u: i64, v: i64) -> (c: Rgba)
    requires
        0 <= u <= SCALE,
        0 <= v <= SCALE,
    ensures
        c == ice_color_val(u as int, v as int),
{
    let co: i64 = cos_fx(10 * u);
    let si: i64 = sin_fx(10 * v);
    proof {
        lemma_fx_mul_val_bounds(co as int, si as int, SCALE as int, SCALE as int);
        assert(((SCALE as int) * (SCALE as int)) / (SCALE as int) == SCALE) by (nonlinear_arith);
    }
    let p: i64 = fx_mul(co, si);
    let w: i64 = div_pos(p + SCALE, 2);
    Rgba {
        r: chan(150 * w + 80 * SCALE),
        g: chan(200 * w + 55 * SCALE),
        b: chan(255 * w),
        a: 255,
    }
}

/// The ring pixel, computed.
pub fn ring_color(u: i64, v: i64) -> (c: Rgba)
    requires
        0 <= u <= SCALE,
        0 <= v <= SCALE,
    ensures
        c == ring_color_val(u as int, v as int),
{
    let two_v: i64 = 2 * v - SCALE;
    let d: i64 = if two_v >= 0 {
        two_v
    } else {
        SCALE - 2 * v
    };
    proof {
        lemma_fx_mul_val_bounds(d as int, d as int, SCALE as int, SCALE as int);
        assert(((SCALE as int) * (SCALE as int)) / (SCALE as int) == SCALE) by (nonlinear_arith);
    }
    let dd: i64 = fx_mul(d, d);
    let base: i64 = SCALE - dd;
    let fade: i64 = if base >= 0 {
        base
    } else {
        0
    };
    Rgba { r: 180, g: 180, b: 160, a: chan(200 * fade) }
}

/// The pixel of a deterministic kind, computed.
fn det_pixel(kind: SurfaceKind, w: u32, h: u32, x: u32, y: u32) -> (c: Rgba)
    requires
        0 < w <= MAX_TEXTURE_SIDE,
        0 < h <= MAX_TEXTURE_SIDE,
        x < w,
        y < h,
        kind != SurfaceKind::Sun && kind != SurfaceKind::Rock,
    ensures
        c == det_pixel_val(kind, w as int, h as int, x as int, y as int),
{
    let u: i64 = texel_coord(x, w);
    let v: i64 = texel_coord(y, h);
    match kind {
        SurfaceKind::Gas => gas_color(u, v),
        SurfaceKind::Ice => ice_color(u, v),
        SurfaceKind::Ring => ring_color(u, v),
        _ => Rgba { r: 255, g: 255, b: 255, a: 255 },
    }
}

/// The pixel of a random kind under the given jitter, computed.
fn rand_pixel(kind: SurfaceKind, w: u32, h: u32, x: u32, y: u32, n: i64) -> (c: Rgba)
    requires
        0 < w <= MAX_TEXTURE_SIDE,
        0 < h <= MAX_TEXTURE_SIDE,
        x < w,
        y < h,
        jitter_in_range(kind, n as int),
        kind == SurfaceKind::Sun || kind == SurfaceKind::Rock,
    ensures
        c == rand_pixel_val(kind, w as int, h as int, x as int, y as int, n as int),
{
    let u: i64 = texel_coord(x, w);
    let v: i64 = texel_coord(y, h);
    match kind {
        SurfaceKind::Sun => sun_color(u, v, n),
        _ => rock_color(u, v, n),
    }
}

/// Synthesize the RGBA bytes of one surface. The buffer is always
/// `width * height * 4` bytes, row-major. For the gas, ice, ring and
/// unknown kinds the bytes are exactly the pure per-pixel formula; for the
/// sun and rock kinds every pixel is the pure formula under some jitter in
/// its stated range, freshly drawn per pixel.
pub fn make_texture_data(kind: SurfaceKind, w: u32, h: u32) -> (data: Vec<u8>)
    requires
        0 < w <= MAX_TEXTURE_SIDE,
        0 < h <= MAX_TEXTURE_SIDE,
    ensures
        data@.len() == 4 * w * h,
        (kind != SurfaceKind::Sun && kind != SurfaceKind::Rock) ==> data@ == texture_bytes_val(
            kind,
            w as int,
            h as int,
        ),
        (kind == SurfaceKind::Sun || kind == SurfaceKind::Rock) ==> forall|p: int|
            0 <= p < (w as int) * (h as int) ==> rand_pixel_ok(kind, w as int, h as int, data@, p),
{
    let mut data: Vec<u8> = Vec::new();
    let mut y: u32 = 0;
    while y < h
        invariant
            0 <= y <= h,
            0 < w <= MAX_TEXTURE_SIDE,
            0 < h <= MAX_TEXTURE_SIDE,
            data@.len() == 4 * ((w as int) * (y as int)),
            (kind != SurfaceKind::Sun && kind != SurfaceKind::Rock) ==> forall|i: int|
                0 <= i < data@.len() ==> data@[i] == texture_bytes_val(kind, w as int, h as int)[i],
            (kind == SurfaceKind::Sun || kind == SurfaceKind::Rock) ==> forall|p: int|
                0 <= p < (w as int) * (y as int) ==> rand_pixel_ok(
                    kind,
                    w as int,
                    h as int,
                    data@,
                    p,
                ),
        decreases h - y,
    {
        let mut x: u32 = 0;
        while x < w
            invariant
                0 <= x <= w,
                0 <= y < h,
                0 < w <= MAX_TEXTURE_SIDE,
                0 < h <= MAX_TEXTURE_SIDE,
                data@.len() == 4 * ((w as int) * (y as int) + x as int),
                (kind != SurfaceKind::Sun && kind != SurfaceKind::Rock) ==> forall|i: int|
                    0 <= i < data@.len() ==> data@[i] == texture_bytes_val(
                        kind,
                        w as int,
                        h as int,
                    )[i],
                (kind == SurfaceKind::Sun || kind == SurfaceKind::Rock) ==> forall|p: int|
                    0 <= p < (w as int) * (y as int) + x as int ==> rand_pixel_ok(
                        kind,
                        w as int,
                        h as int,
                        data@,
                        p,
                    ),
            decreases w - x,
        {
            let ghost p: int = (w as int) * (y as int) + (x as int);
            let ghost old_data = data@;
            proof {
                assert(0 <= p && p + 1 <= (w as int) * (h as int)) by (nonlinear_arith)
                    requires
                        0 <= x < w,
                        0 <= y < h,
                        p == (w as int) * (y as int) + (x as int),
                ;
                lemma_fundamental_div_mod_converse_div(p, w as int, y as int, x as int);
                lemma_fundamental_div_mod_converse_mod(p, w as int, y as int, x as int);
            }
            let jitter: i64 = if kind == SurfaceKind::Sun {
                let raw: u32 = random_u32();
                (raw % (SUN_JITTER_RANGE_FX as u32)) as i64
            } else if kind == SurfaceKind::Rock {
                let raw: u32 = random_u32();
                ((raw % ((2 * ROCK_JITTER_RANGE_FX) as u32)) as i64) - ROCK_JITTER_RANGE_FX
            } else {
                0
            };
            let c: Rgba = if kind == SurfaceKind::Sun || kind == SurfaceKind::Rock {
                rand_pixel(kind, w, h, x, y, jitter)
            } else {
                det_pixel(kind, w, h, x, y)
            };
            data.push(c.r);
            data.push(c.g);
            data.push(c.b);
            data.push(c.a);
            proof {
                assert(data@ == old_data + seq![c.r, c.g, c.b, c.a]);
                if kind != SurfaceKind::Sun && kind != SurfaceKind::Rock {
                    let tex = texture_bytes_val(kind, w as int, h as int);
                    assert((4 * (w as int)) * (h as int) == 4 * ((w as int) * (h as int)))
                        by (nonlinear_arith);
                    assert(4 * ((w as int) * (h as int)) == tex.len());
                    assert(4 * (p + 1) <= 4 * ((w as int) * (h as int)));
                    assert forall|i: int| 0 <= i < data@.len() implies data@[i] == tex[i] by {
                        if i < 4 * p {
                            assert(data@[i] == old_data[i]);
                        } else {
                            lemma_fundamental_div_mod_converse_div(i, 4, p, i - 4 * p);
                            lemma_fundamental_div_mod_converse_mod(i, 4, p, i - 4 * p);
                        }
                    }
                } else {
                    assert(c == rand_pixel_val(
                        kind,
                        w as int,
                        h as int,
                        p % (w as int),
                        p / (w as int),
                        jitter as int,
                    ));
                    assert(data@[4 * p] == c.r && data@[4 * p + 1] == c.g && data@[4 * p + 2]
                        == c.b && data@[4 * p + 3] == c.a);
                    assert(pixel_matches(kind, w as int, h as int, data@, p, jitter as int));
                    assert forall|q: int| 0 <= q < p + 1 implies rand_pixel_ok(
                        kind,
                        w as int,
                        h as int,
                        data@,
                        q,
                    ) by {
                        if q < p {
                            assert(rand_pixel_ok(kind, w as int, h as int, old_data, q));
                            let n = choose|n: int|
                                pixel_matches(kind, w as int, h as int, old_data, q, n);
                            assert(0 <= 4 * q && 4 * q + 3 < old_data.len()) by (nonlinear_arith)
                                requires
                                    0 <= q < p,
                                    old_data.len() == 4 * p,
                            ;
                            assert(pixel_matches(kind, w as int, h as int, data@, q, n));
                        }
                    }
                }
            }
            x = x + 1;
        }
        proof {
            assert((w as int) * (y as int) + w as int == (w as int) * (y as int + 1))
                by (nonlinear_arith);
        }
        y = y + 1;
    }
    proof {
        assert(4 * w * (h as int) == 4 * ((w as int) * (h as int))) by (nonlinear_arith);
        if kind != SurfaceKind::Sun && kind != SurfaceKind::Rock {
            assert(data@ =~= texture_bytes_val(kind, w as int, h as int));
        }
    }
    data
}

} // verus!
