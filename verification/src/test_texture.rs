//! The grid texture put on surfaces that have no material yet.

use vstd::prelude::*;

verus! {

pub const TW: usize = 256;

pub const TH: usize = 256;

/// The distance of a texel from the nearest edge, capped at 31.
pub open spec fn edge_distance(x: i32, y: i32) -> int {
    let a: int = if x < y { x as int } else { y as int };
    let b: int = if TW - 1 - x < TH - 1 - y { TW - 1 - x } else { TH - 1 - y };
    let m: int = if a < b { a } else { b };
    if m < 31 { m } else { 31 }
}

/// The brightness floor of a texel: 511 at the edge, halving with each step
/// inwards, so that the border shows as a bright frame.
pub open spec fn edge_level(x: i32, y: i32) -> i32 {
    0x1FFi32 >> (edge_distance(x, y) as u32)
}

/// The darkening of a texel, from the raw value of its radial falloff,
/// kept within 0 ..= 50.
pub open spec fn falloff(raw: i32) -> i32 {
    if raw < 0 { 0 } else if raw > 50 { 50 } else { raw }
}

/// One colour channel: the larger of the edge level and the darkened
/// pattern value, kept within a byte.
pub open spec fn channel(level: int, pattern: int, darkening: int) -> u8 {
    let v: int = if level > pattern - darkening { level } else { pattern - darkening };
    if v < 0 { 0 } else if v > 255 { 255 } else { v as u8 }
}

/// The red, green and blue pattern values of a texel: the low bits of the
/// coordinates mixed so that the texture shows coloured gradients.
pub open spec fn red_pattern(x: i32, y: i32) -> i32 {
    (!x & !y) & 255
}

pub open spec fn green_pattern(x: i32, y: i32) -> i32 {
    (x & !y) & 255
}

pub open spec fn blue_pattern(x: i32, y: i32) -> i32 {
    (!x & y) & 255
}

/// Channel `c` (red, green, blue, then an unused zero) of the texel at
/// `x`, `y` whose falloff has the raw value `raw`.
pub open spec fn texel_channel(x: i32, y: i32, raw: i32, c: int) -> u8 {
    if c == 0 {
        channel(edge_level(x, y) as int, red_pattern(x, y) as int, falloff(raw) as int)
    } else if c == 1 {
        channel(edge_level(x, y) as int, green_pattern(x, y) as int, falloff(raw) as int)
    } else if c == 2 {
        channel(edge_level(x, y) as int, blue_pattern(x, y) as int, falloff(raw) as int)
    } else {
        0
    }
}

fn clamped_channel(level: i32, pattern: i32, darkening: i32) -> (res: u8)
    requires
        0 <= pattern <= 255,
        0 <= darkening <= 50,
        0 <= level <= 0x1FF,
    ensures
        res == channel(level as int, pattern as int, darkening as int),
{
    let d = pattern - darkening;
    let v = if level > d { level } else { d };
    if v < 0 {
        0
    } else if v > 255 {
        255
    } else {
        v as u8
    }
}

/// The four bytes of the texel at `x`, `y`.
pub fn texel(x: i32, y: i32, raw: i32) -> (res: (u8, u8, u8))
    requires
        0 <= x < TW,
        0 <= y < TH,
    ensures
        res.0 == texel_channel(x, y, raw, 0),
        res.1 == texel_channel(x, y, raw, 1),
        res.2 == texel_channel(x, y, raw, 2),
{
    let a = if x < y { x } else { y };
    let b = if (TW as i32 - 1 - x) < (TH as i32 - 1 - y) { TW as i32 - 1 - x } else { TH as i32 - 1 - y };
    let m0 = if a < b { a } else { b };
    let m = if m0 < 31 { m0 } else { 31 };
    let mu: u32 = m as u32;
    let l: i32 = 0x1FFi32 >> mu;
    assert(0 <= (0x1FFi32 >> mu) <= 0x1FF) by (bit_vector)
        requires
            mu <= 31,
    ;
    let d = if raw < 0 { 0 } else if raw > 50 { 50 } else { raw };
    let r = (!x & !y) & 255;
    let g = (x & !y) & 255;
    let bl = (!x & y) & 255;
    assert(0 <= ((!x & !y) & 255) <= 255) by (bit_vector);
    assert(0 <= ((x & !y) & 255) <= 255) by (bit_vector);
    assert(0 <= ((!x & y) & 255) <= 255) by (bit_vector);
    (clamped_channel(l, r, d), clamped_channel(l, g, d), clamped_channel(l, bl, d))
}

/// The texture's bytes, four per texel, row by row: texel `p` lies at
/// `x = p % TW`, `y = p / TW`, and `raw[p]` is the raw value of its radial
/// falloff (which the caller computes).
pub fn create_from_falloff(raw: &Vec<i32>) -> (res: Vec<u8>)
    requires
        raw@.len() == TW * TH,
    ensures
        res@.len() == 4 * TW * TH,
        forall|p: int, c: int|
            0 <= p < TW * TH && 0 <= c < 4 ==> #[trigger] res@[4 * p + c] == texel_channel(
                (p % TW as int) as i32,
                (p / TW as int) as i32,
                raw@[p],
                c,
            ),
{
    let mut res: Vec<u8> = Vec::new();
    let mut p: usize = 0;
    while p < TW * TH
        invariant
            p <= TW * TH,
            raw@.len() == TW * TH,
            res@.len() == 4 * p,
            forall|q: int, c: int|
                0 <= q < p && 0 <= c < 4 ==> #[trigger] res@[4 * q + c] == texel_channel(
                    (q % TW as int) as i32,
                    (q / TW as int) as i32,
                    raw@[q],
                    c,
                ),
        decreases TW * TH - p,
    {
        let x = (p % TW) as i32;
        let y = (p / TW) as i32;
        let (r, g, b) = texel(x, y, raw[p]);
        let ghost before = res@;
        res.push(r);
        res.push(g);
        res.push(b);
        res.push(0u8);
        assert forall|q: int, c: int| 0 <= q < p + 1 && 0 <= c < 4 implies #[trigger] res@[4 * q + c]
            == texel_channel((q % TW as int) as i32, (q / TW as int) as i32, raw@[q], c) by {
            if q < p {
                assert(res@[4 * q + c] == before[4 * q + c]);
            }
        }
        p = p + 1;
    }
    res
}

} // verus!
