//! RGB and HSV colour values.

use vstd::prelude::*;
use crate::bits::{
    abs_bits, clamp_to_unit, clamp_unit, is_negative, is_unit, magnitude, POS_INFINITY, SIGN_BIT,
    UNIT_ONE,
};

verus! {

/// Three 8-bit channels.
#[derive(Debug, Copy, Clone, PartialEq, Eq, Structural)]
pub struct ColorRgb {
    pub r: u8,
    pub g: u8,
    pub b: u8,
}

impl ColorRgb {
    /// The colour with these three channels.
    pub fn new(r: u8, g: u8, b: u8) -> (c: Self)
        ensures
            c == (ColorRgb { r, g, b }),
    {
        ColorRgb { r, g, b }
    }

    /// Takes over the three channels of `rgb`.
    pub fn set_rgb(&mut self, rgb: &ColorRgb)
        ensures
            *final(self) == *rgb,
    {
        self.r = rgb.r;
        self.g = rgb.g;
        self.b = rgb.b;
    }

    /// Sets the red channel.
    pub fn set_r(&mut self, r: u8)
        ensures
            *final(self) == (ColorRgb { r, ..*old(self) }),
    {
        self.r = r;
    }

    /// The red channel.
    pub fn get_r(&self) -> (r: u8)
        ensures
            r == self.r,
    {
        self.r
    }

    /// Sets the green channel.
    pub fn set_g(&mut self, g: u8)
        ensures
            *final(self) == (ColorRgb { g, ..*old(self) }),
    {
        self.g = g;
    }

    /// The green channel.
    pub fn get_g(&self) -> (g: u8)
        ensures
            g == self.g,
    {
        self.g
    }

    /// Sets the blue channel.
    pub fn set_b(&mut self, b: u8)
        ensures
            *final(self) == (ColorRgb { b, ..*old(self) }),
    {
        self.b = b;
    }

    /// The blue channel.
    pub fn get_b(&self) -> (b: u8)
        ensures
            b == self.b,
    {
        self.b
    }

    /// The colour of a hue in one of the six sectors of the colour wheel,
    /// from the four channel levels of its saturation and value: `top` is
    /// the value itself, `low` the value without its saturated part,
    /// `rising` and `falling` the levels that move from one to the other
    /// along the sector. There is no sector beyond the sixth: black.
    pub fn from_sector(sector: u8, top: u8, low: u8, rising: u8, falling: u8) -> (c: Self)
        ensures
            c == sector_color(sector, top, low, rising, falling),
    {
        match sector {
            0 => ColorRgb { r: top, g: rising, b: low },
            1 => ColorRgb { r: falling, g: top, b: low },
            2 => ColorRgb { r: low, g: top, b: rising },
            3 => ColorRgb { r: low, g: falling, b: top },
            4 => ColorRgb { r: rising, g: low, b: top },
            5 => ColorRgb { r: top, g: low, b: falling },
            _ => ColorRgb { r: 0, g: 0, b: 0 },
        }
    }
}

/// Red rules sectors 0 and 5, green 1 and 2, blue 3 and 4. In each sector
/// the channel that ruled the last one falls or the one that rules the next
/// one rises, and the third stays low.
pub open spec fn sector_color(sector: u8, top: u8, low: u8, rising: u8, falling: u8) -> ColorRgb {
    if sector == 0 {
        ColorRgb { r: top, g: rising, b: low }
    } else if sector == 1 {
        ColorRgb { r: falling, g: top, b: low }
    } else if sector == 2 {
        ColorRgb { r: low, g: top, b: rising }
    } else if sector == 3 {
        ColorRgb { r: low, g: falling, b: top }
    } else if sector == 4 {
        ColorRgb { r: rising, g: low, b: top }
    } else if sector == 5 {
        ColorRgb { r: top, g: low, b: falling }
    } else {
        ColorRgb { r: 0, g: 0, b: 0 }
    }
}

/// Byte `k` of the little-endian layout of `x`.
pub open spec fn le_byte(x: u32, k: int) -> u8 {
    if k == 0 {
        (x % 256) as u8
    } else if k == 1 {
        (x / 0x100 % 256) as u8
    } else if k == 2 {
        (x / 0x1_0000 % 256) as u8
    } else {
        (x / 0x100_0000 % 256) as u8
    }
}

/// The 32-bit value whose little-endian layout is the four bytes of `bytes`
/// that start at `at`.
pub open spec fn le_value(bytes: Seq<u8>, at: int) -> u32 {
    (bytes[at] as int + 0x100 * bytes[at + 1] as int + 0x1_0000 * bytes[at + 2] as int + 0x100_0000
        * bytes[at + 3] as int) as u32
}

/// What a `ColorHsv` holds: the bit pattern of each channel.
pub struct HsvBits {
    pub h: u32,
    pub s: u32,
    pub v: u32,
}

/// The twelve bytes of a colour on disk: hue, saturation, value, four bytes
/// each, least significant byte first.
pub open spec fn hsv_layout(c: HsvBits) -> Seq<u8> {
    Seq::new(
        12,
        |k: int|
            if k < 4 {
                le_byte(c.h, k)
            } else if k < 8 {
                le_byte(c.s, k - 4)
            } else {
                le_byte(c.v, k - 8)
            },
    )
}

/// The colour that twelve bytes stand for, each channel clamped.
pub open spec fn hsv_parse(bytes: Seq<u8>) -> HsvBits {
    HsvBits {
        h: clamp_unit(le_value(bytes, 0)),
        s: clamp_unit(le_value(bytes, 4)),
        v: clamp_unit(le_value(bytes, 8)),
    }
}

/// Hue, saturation and value, each a binary32 bit pattern that encodes a
/// number between 0 and 1. No value of this type holds anything else.
#[derive(Debug, Copy, Clone, PartialEq, Eq, Structural)]
pub struct ColorHsv {
    h: u32,
    s: u32,
    v: u32,
}

fn read_le(bytes: &[u8; 12], at: usize) -> (x: u32)
    requires
        at + 4 <= 12,
    ensures
        x == le_value(bytes@, at as int),
{
    let b0: u32 = bytes[at] as u32;
    let b1: u32 = bytes[at + 1] as u32;
    let b2: u32 = bytes[at + 2] as u32;
    let b3: u32 = bytes[at + 3] as u32;
    b0 + 0x100 * b1 + 0x1_0000 * b2 + 0x100_0000 * b3
}

fn write_le(out: &mut [u8; 12], at: usize, x: u32)
    requires
        at + 4 <= 12,
    ensures
        forall|k: int| 0 <= k < 4 ==> final(out)@[at + k] == le_byte(x, k),
        forall|j: int| 0 <= j < 12 && !(at <= j < at + 4) ==> final(out)@[j] == old(out)@[j],
{
    out[at] = (x % 256) as u8;
    out[at + 1] = (x / 0x100 % 256) as u8;
    out[at + 2] = (x / 0x1_0000 % 256) as u8;
    out[at + 3] = (x / 0x100_0000 % 256) as u8;
}

impl View for ColorHsv {
    type V = HsvBits;

    closed spec fn view(&self) -> HsvBits {
        HsvBits { h: self.h, s: self.s, v: self.v }
    }
}

impl ColorHsv {
    /// Every channel encodes a number in the unit interval.
    #[verifier::type_invariant]
    pub open spec fn in_range(self) -> bool {
        is_unit(self@.h) && is_unit(self@.s) && is_unit(self@.v)
    }

    /// The colour with these three channels, each clamped to the unit
    /// interval.
    pub fn new(h: u32, s: u32, v: u32) -> (c: Self)
        ensures
            c@ == (HsvBits { h: clamp_unit(h), s: clamp_unit(s), v: clamp_unit(v) }),
            c.in_range(),
    {
        ColorHsv { h: clamp_to_unit(h), s: clamp_to_unit(s), v: clamp_to_unit(v) }
    }

    /// The colour that twelve stored bytes stand for, each channel clamped.
    pub fn from_le_bytes(bytes: [u8; 12]) -> (c: Self)
        ensures
            c@ == hsv_parse(bytes@),
            c.in_range(),
    {
        let h: u32 = read_le(&bytes, 0);
        let s: u32 = read_le(&bytes, 4);
        let v: u32 = read_le(&bytes, 8);
        Self::new(h, s, v)
    }

    /// The twelve bytes to store: hue, saturation, value, each as four
    /// bytes, least significant first.
    pub fn to_le_bytes(&self) -> (bytes: [u8; 12])
        ensures
            bytes@ == hsv_layout(self@),
    {
        let mut out: [u8; 12] = [0; 12];
        write_le(&mut out, 0, self.h);
        write_le(&mut out, 4, self.s);
        write_le(&mut out, 8, self.v);
        assert(out@ =~= hsv_layout(self@));
        out
    }

    /// Takes over the three channels of `hsv`.
    pub fn set_hsv(&mut self, hsv: &ColorHsv)
        ensures
            *final(self) == *hsv,
    {
        proof {
            use_type_invariant(hsv);
        }
        *self = ColorHsv {
            h: clamp_to_unit(hsv.h),
            s: clamp_to_unit(hsv.s),
            v: clamp_to_unit(hsv.v),
        };
    }

    /// Sets the hue, clamped.
    pub fn set_h(&mut self, h: u32)
        ensures
            final(self)@ == (HsvBits { h: clamp_unit(h), ..old(self)@ }),
            final(self).in_range(),
    {
        proof {
            use_type_invariant(&*self);
        }
        self.h = clamp_to_unit(h);
    }

    /// The hue.
    pub fn get_h(&self) -> (h: u32)
        ensures
            h == self@.h,
            is_unit(h),
    {
        proof {
            use_type_invariant(self);
        }
        self.h
    }

    /// Sets the saturation, clamped.
    pub fn set_s(&mut self, s: u32)
        ensures
            final(self)@ == (HsvBits { s: clamp_unit(s), ..old(self)@ }),
            final(self).in_range(),
    {
        proof {
            use_type_invariant(&*self);
        }
        self.s = clamp_to_unit(s);
    }

    /// The saturation.
    pub fn get_s(&self) -> (s: u32)
        ensures
            s == self@.s,
            is_unit(s),
    {
        proof {
            use_type_invariant(self);
        }
        self.s
    }

    /// Sets the value, clamped.
    pub fn set_v(&mut self, v: u32)
        ensures
            final(self)@ == (HsvBits { v: clamp_unit(v), ..old(self)@ }),
            final(self).in_range(),
    {
        proof {
            use_type_invariant(&*self);
        }
        self.v = clamp_to_unit(v);
    }

    /// The value.
    pub fn get_v(&self) -> (v: u32)
        ensures
            v == self@.v,
            is_unit(v),
    {
        proof {
            use_type_invariant(self);
        }
        self.v
    }
}

/// A blend of two colours that is still to be computed: in each channel
/// the result is `from` minus `weight` times the difference of `from` and
/// `to`. The weight encodes a number in the unit interval.
#[derive(Debug, Copy, Clone, PartialEq, Eq, Structural)]
pub struct Mix {
    pub from: ColorHsv,
    pub to: ColorHsv,
    pub weight: u32,
}

/// The weight of a blend towards the second or third colour: the magnitude
/// of the position, at most 1.
pub open spec fn side_weight(pos: u32) -> u32 {
    if magnitude(pos) > UNIT_ONE {
        UNIT_ONE
    } else {
        magnitude(pos)
    }
}

/// Whether a position is on neither side of the pivot: a zero of either
/// sign, or not a number.
pub open spec fn at_pivot(pos: u32) -> bool {
    magnitude(pos) == 0 || magnitude(pos) > POS_INFINITY
}

/// The blend from `col1` to `col2` at `pos`, with `pos` clamped to the unit
/// interval: `col1` at 0, `col2` at 1.
pub fn hsv_interp(col1: &ColorHsv, col2: &ColorHsv, pos: u32) -> (mix: Mix)
    ensures
        mix == (Mix { from: *col1, to: *col2, weight: clamp_unit(pos) }),
        is_unit(mix.weight),
{
    Mix { from: *col1, to: *col2, weight: clamp_to_unit(pos) }
}

/// The blend around the pivot `col1`: towards `col2` for a positive `pos`,
/// towards `col3` for a negative one, by the magnitude of `pos` clamped to
/// 1; at a position on neither side, `col1` itself.
pub fn hsv_interp_3(col1: &ColorHsv, col2: &ColorHsv, col3: &ColorHsv, pos: u32) -> (mix: Mix)
    ensures
        mix.from == *col1,
        at_pivot(pos) ==> mix.to == *col1 && mix.weight == 0,
        !at_pivot(pos) && !is_negative(pos) ==> mix.to == *col2 && mix.weight == side_weight(pos),
        !at_pivot(pos) && is_negative(pos) ==> mix.to == *col3 && mix.weight == side_weight(pos),
        is_unit(mix.weight),
{
    let m: u32 = abs_bits(pos);
    if m == 0 || m > POS_INFINITY {
        Mix { from: *col1, to: *col1, weight: 0 }
    } else {
        let weight: u32 = if m > UNIT_ONE {
            UNIT_ONE
        } else {
            m
        };
        if pos >= SIGN_BIT {
            Mix { from: *col1, to: *col3, weight }
        } else {
            Mix { from: *col1, to: *col2, weight }
        }
    }
}

/// Two colours with the same channels are the same colour.
pub proof fn lemma_same_channels(a: ColorHsv, b: ColorHsv)
    requires
        a@ == b@,
    ensures
        a == b,
{
}

/// The four bytes of a 32-bit value, read back, give the value.
pub proof fn lemma_le_round_trip(x: u32, bytes: Seq<u8>, at: int)
    requires
        0 <= at,
        at + 4 <= bytes.len(),
        forall|k: int| 0 <= k < 4 ==> bytes[at + k] == le_byte(x, k),
    ensures
        le_value(bytes, at) == x,
{
    assert(bytes[at + 0] == le_byte(x, 0));
    assert(bytes[at + 1] == le_byte(x, 1));
    assert(bytes[at + 2] == le_byte(x, 2));
    assert(bytes[at + 3] == le_byte(x, 3));
}

/// A colour written to its twelve bytes and read back is the same colour:
/// whatever `from_le_bytes` returns on what `to_le_bytes` gave for `c` is `c`.
pub proof fn lemma_bytes_round_trip(c: ColorHsv, back: ColorHsv)
    requires
        c.in_range(),
        back@ == hsv_parse(hsv_layout(c@)),
    ensures
        back == c,
{
    let bytes = hsv_layout(c@);
    lemma_le_round_trip(c@.h, bytes, 0);
    lemma_le_round_trip(c@.s, bytes, 4);
    lemma_le_round_trip(c@.v, bytes, 8);
    lemma_same_channels(back, c);
}

} // verus!
