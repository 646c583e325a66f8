//! Wire framing: the byte buffer of one strip, in either of two layouts.

use vstd::prelude::*;
use crate::colors::ColorRgb;

verus! {

/// The wire format of a strip.
#[derive(Debug, Copy, Clone, PartialEq, Eq, Structural)]
pub enum LedType {
    /// A start frame of four zero bytes, four bytes per pixel (a full
    /// brightness byte, then blue, green, red), and an end frame of one zero
    /// byte for every two pixels.
    Apa102,
    /// Three bytes per pixel (red, green, blue) and nothing else.
    Ws2801,
}

impl LedType {
    /// The format that a configured number selects: 1 for Ws2801, and
    /// Apa102 for 0 and for every other number.
    pub fn from_number(n: u8) -> (led_type: LedType)
        ensures
            led_type == if n == 1 {
                LedType::Ws2801
            } else {
                LedType::Apa102
            },
    {
        match n {
            0 => LedType::Apa102,
            1 => LedType::Ws2801,
            _ => LedType::Apa102,
        }
    }
}

/// The buffer's length in bytes for `len` pixels.
pub open spec fn frame_len(led_type: LedType, len: nat) -> nat {
    match led_type {
        LedType::Apa102 => 4 + len * 4 + (len + 1) / 2,
        LedType::Ws2801 => len * 3,
    }
}

/// The number of bytes that one pixel takes.
pub open spec fn pixel_width(led_type: LedType) -> int {
    match led_type {
        LedType::Apa102 => 4,
        LedType::Ws2801 => 3,
    }
}

/// Where the bytes of pixel `i` begin.
pub open spec fn pixel_start(led_type: LedType, i: int) -> int {
    match led_type {
        LedType::Apa102 => 4 + 4 * i,
        LedType::Ws2801 => 3 * i,
    }
}

/// The bytes that show colour `c` at one pixel.
pub open spec fn pixel_frame(led_type: LedType, c: ColorRgb) -> Seq<u8> {
    match led_type {
        LedType::Apa102 => seq![0xFFu8, c.b, c.g, c.r],
        LedType::Ws2801 => seq![c.r, c.g, c.b],
    }
}

/// The colour that `buf` shows at pixel `i`.
pub open spec fn pixel_at(led_type: LedType, buf: Seq<u8>, i: int) -> ColorRgb {
    let at = pixel_start(led_type, i);
    match led_type {
        LedType::Apa102 => ColorRgb { r: buf[at + 3], g: buf[at + 2], b: buf[at + 1] },
        LedType::Ws2801 => ColorRgb { r: buf[at], g: buf[at + 1], b: buf[at + 2] },
    }
}

/// `buf` with the bytes of pixel `i` replaced by those that show `c`.
pub open spec fn with_pixel(led_type: LedType, buf: Seq<u8>, i: int, c: ColorRgb) -> Seq<u8> {
    Seq::new(
        buf.len(),
        |k: int|
            if pixel_start(led_type, i) <= k < pixel_start(led_type, i + 1) {
                pixel_frame(led_type, c)[k - pixel_start(led_type, i)]
            } else {
                buf[k]
            },
    )
}

/// `buf` with pixel `i` showing `colors[i]`, for every `i` below the length
/// of `colors`. No other byte differs.
pub open spec fn painted(led_type: LedType, buf: Seq<u8>, colors: Seq<ColorRgb>) -> Seq<u8> {
    Seq::new(
        buf.len(),
        |k: int|
            if pixel_start(led_type, 0) <= k < pixel_start(led_type, colors.len() as int) {
                let i = (k - pixel_start(led_type, 0)) / pixel_width(led_type);
                pixel_frame(led_type, colors[i])[k - pixel_start(led_type, i)]
            } else {
                buf[k]
            },
    )
}

/// All pixels off.
pub open spec fn dark(len: nat) -> Seq<ColorRgb> {
    Seq::new(len, |i: int| ColorRgb { r: 0, g: 0, b: 0 })
}

/// The whole buffer of a strip that shows `colors`, one pixel each: zeros
/// outside the pixels.
pub open spec fn frame(led_type: LedType, colors: Seq<ColorRgb>) -> Seq<u8> {
    painted(led_type, Seq::new(frame_len(led_type, colors.len()), |k: int| 0u8), colors)
}

/// One strip: its wire format, its number of pixels and the bytes to send.
pub struct Leds {
    led_type: LedType,
    len: usize,
    buffer: Vec<u8>,
}

impl View for Leds {
    type V = Seq<u8>;

    /// The bytes to send.
    closed spec fn view(&self) -> Seq<u8> {
        self.buffer@
    }
}

impl Leds {
    /// The wire format.
    pub closed spec fn spec_led_type(&self) -> LedType {
        self.led_type
    }

    /// The number of pixels.
    pub closed spec fn spec_len(&self) -> nat {
        self.len as nat
    }

    /// The buffer has the length that the format asks for, and outside the
    /// pixels (start and end frame) it holds zeros.
    #[verifier::type_invariant]
    pub open spec fn well_formed(&self) -> bool {
        &&& self@.len() == frame_len(self.spec_led_type(), self.spec_len())
        &&& forall|k: int|
            0 <= k < self@.len() && !(pixel_start(self.spec_led_type(), 0) <= k < pixel_start(
                self.spec_led_type(),
                self.spec_len() as int,
            )) ==> self@[k] == 0
    }

    /// A strip of `len` pixels with every byte zero.
    pub fn new(len: usize, led_type: LedType) -> (leds: Self)
        requires
            frame_len(led_type, len as nat) <= usize::MAX,
        ensures
            leds.spec_led_type() == led_type,
            leds.spec_len() == len,
            leds@ == Seq::new(frame_len(led_type, len as nat), |k: int| 0u8),
            leds.well_formed(),
    {
        let buffer_size: usize = match led_type {
            LedType::Apa102 => 4 + (len * 4) + ((len + 1) / 2),
            LedType::Ws2801 => len * 3,
        };
        let mut buffer: Vec<u8> = Vec::with_capacity(buffer_size);
        let mut i: usize = 0;
        while i < buffer_size
            invariant
                i <= buffer_size,
                buffer@.len() == i,
                forall|k: int| 0 <= k < i ==> buffer@[k] == 0,
            decreases buffer_size - i,
        {
            buffer.push(0);
            i += 1;
        }
        assert(buffer@ =~= Seq::new(frame_len(led_type, len as nat), |k: int| 0u8));
        Leds { led_type, len, buffer }
    }

    /// A strip of `len` pixels with every byte zero, unless its buffer
    /// would be longer than a buffer can be.
    pub fn try_new(len: usize, led_type: LedType) -> (r: Option<Self>)
        ensures
            r is Some <==> frame_len(led_type, len as nat) <= usize::MAX,
            r is Some ==> {
                &&& r->0.spec_led_type() == led_type
                &&& r->0.spec_len() == len
                &&& r->0@ == Seq::new(frame_len(led_type, len as nat), |k: int| 0u8)
                &&& r->0.well_formed()
            },
    {
        let wide: u128 = len as u128;
        let size: u128 = match led_type {
            LedType::Apa102 => 4 + wide * 4 + (wide + 1) / 2,
            LedType::Ws2801 => wide * 3,
        };
        if size <= usize::MAX as u128 {
            Some(Self::new(len, led_type))
        } else {
            None
        }
    }

    /// Writes one pixel that the strip has.
    fn put_pixel(&mut self, color: ColorRgb, index: usize)
        requires
            index < old(self).spec_len(),
        ensures
            final(self).spec_led_type() == old(self).spec_led_type(),
            final(self).spec_len() == old(self).spec_len(),
            final(self)@ == with_pixel(old(self).spec_led_type(), old(self)@, index as int, color),
    {
        proof {
            use_type_invariant(&*self);
        }
        let total: usize = self.buffer.len();
        assert(pixel_start(self.led_type, index + 1) <= total);
        match self.led_type {
            LedType::Apa102 => {
                let at: usize = 4 + index * 4;
                self.buffer[at] = 255;
                self.buffer[at + 1] = color.get_b();
                self.buffer[at + 2] = color.get_g();
                self.buffer[at + 3] = color.get_r();
            },
            LedType::Ws2801 => {
                let at: usize = index * 3;
                self.buffer[at] = color.get_r();
                self.buffer[at + 1] = color.get_g();
                self.buffer[at + 2] = color.get_b();
            },
        }
        assert(self@ =~= with_pixel(old(self).spec_led_type(), old(self)@, index as int, color));
    }

    /// The number of pixels.
    pub fn len(&self) -> (len: usize)
        ensures
            len == self.spec_len(),
    {
        self.len
    }

    /// The wire format.
    pub fn led_type(&self) -> (led_type: LedType)
        ensures
            led_type == self.spec_led_type(),
    {
        self.led_type
    }

    /// The bytes to send.
    pub fn get_buffer(&self) -> (bytes: &[u8])
        ensures
            bytes@ == self@,
    {
        self.buffer.as_slice()
    }

    /// Writes one pixel; an index that the strip does not have is ignored.
    pub fn set_led(&mut self, color: ColorRgb, index: usize)
        ensures
            final(self).spec_led_type() == old(self).spec_led_type(),
            final(self).spec_len() == old(self).spec_len(),
            final(self).well_formed(),
            index < old(self).spec_len() ==> final(self)@ == with_pixel(
                old(self).spec_led_type(),
                old(self)@,
                index as int,
                color,
            ),
            index >= old(self).spec_len() ==> final(self)@ == old(self)@,
    {
        if index < self.len {
            self.put_pixel(color, index);
        }
        proof {
            use_type_invariant(&*self);
        }
    }

    /// Switches every pixel off.
    pub fn all_off(&mut self)
        ensures
            final(self).spec_led_type() == old(self).spec_led_type(),
            final(self).spec_len() == old(self).spec_len(),
            final(self).well_formed(),
            final(self)@ == frame(old(self).spec_led_type(), dark(old(self).spec_len())),
            forall|i: int|
                0 <= i < old(self).spec_len() ==> #[trigger] pixel_at(
                    old(self).spec_led_type(),
                    final(self)@,
                    i,
                ) == (ColorRgb { r: 0, g: 0, b: 0 }),
    {
        proof {
            use_type_invariant(&*self);
        }
        let ghost led_type = self.led_type;
        let ghost all = dark(self.len as nat);
        let mut i: usize = 0;
        while i < self.len
            invariant
                i <= self.len,
                self.led_type == led_type,
                self.len == old(self).len,
                all == dark(self.len as nat),
                self@ == painted(led_type, old(self)@, all.take(i as int)),
            decreases self.len - i,
        {
            self.put_pixel(ColorRgb::new(0, 0, 0), i);
            proof {
                lemma_paint_step(led_type, old(self)@, all, i as int);
            }
            i += 1;
        }
        proof {
            use_type_invariant(&*self);
            assert(all.take(i as int) =~= all);
            lemma_paint_whole(led_type, old(self)@, all);
            assert forall|j: int| 0 <= j < self.len implies pixel_at(led_type, self@, j) == (
            ColorRgb { r: 0, g: 0, b: 0 }) by {
                lemma_read_back(led_type, old(self)@, all, j);
            }
        }
    }

    /// Shows `colors[i]` at pixel `i`, for every pixel that has a colour in
    /// `colors`. With a colour for every pixel the whole buffer is written.
    pub fn fill_pixels(&mut self, colors: &[ColorRgb])
        ensures
            final(self).spec_led_type() == old(self).spec_led_type(),
            final(self).spec_len() == old(self).spec_len(),
            final(self).well_formed(),
            colors@.len() <= old(self).spec_len() ==> final(self)@ == painted(
                old(self).spec_led_type(),
                old(self)@,
                colors@,
            ),
            colors@.len() >= old(self).spec_len() ==> final(self)@ == frame(
                old(self).spec_led_type(),
                colors@.take(old(self).spec_len() as int),
            ),
            forall|i: int|
                0 <= i < old(self).spec_len() && i < colors@.len() ==> #[trigger] pixel_at(
                    old(self).spec_led_type(),
                    final(self)@,
                    i,
                ) == colors@[i],
    {
        proof {
            use_type_invariant(&*self);
        }
        let ghost led_type = self.led_type;
        let n: usize = if colors.len() < self.len {
            colors.len()
        } else {
            self.len
        };
        let ghost shown = colors@.take(n as int);
        let mut i: usize = 0;
        while i < n
            invariant
                i <= n,
                n <= self.len,
                n <= colors@.len(),
                self.led_type == led_type,
                self.len == old(self).len,
                shown == colors@.take(n as int),
                self@ == painted(led_type, old(self)@, shown.take(i as int)),
            decreases n - i,
        {
            self.put_pixel(colors[i], i);
            proof {
                lemma_paint_step(led_type, old(self)@, shown, i as int);
            }
            i += 1;
        }
        proof {
            use_type_invariant(&*self);
            assert(shown.take(i as int) =~= shown);
            if colors@.len() <= self.len {
                assert(shown =~= colors@);
            }
            if colors@.len() >= self.len {
                lemma_paint_whole(led_type, old(self)@, shown);
            }
            assert forall|j: int| 0 <= j < self.len && j < colors@.len() implies pixel_at(
                led_type,
                self@,
                j,
            ) == colors@[j] by {
                lemma_read_back(led_type, old(self)@, shown, j);
            }
        }
    }
}

/// Painting one pixel more is painting, then writing that pixel.
pub proof fn lemma_paint_step(led_type: LedType, buf: Seq<u8>, colors: Seq<ColorRgb>, i: int)
    requires
        0 <= i < colors.len(),
    ensures
        painted(led_type, buf, colors.take(i + 1)) == with_pixel(
            led_type,
            painted(led_type, buf, colors.take(i)),
            i,
            colors[i],
        ),
{
    assert(painted(led_type, buf, colors.take(i + 1)) =~= with_pixel(
        led_type,
        painted(led_type, buf, colors.take(i)),
        i,
        colors[i],
    ));
}

/// A buffer that is zero outside its pixels, painted with a colour for every
/// pixel, is the frame of those colours.
pub proof fn lemma_paint_whole(led_type: LedType, buf: Seq<u8>, colors: Seq<ColorRgb>)
    requires
        buf.len() == frame_len(led_type, colors.len()),
        forall|k: int|
            0 <= k < buf.len() && !(pixel_start(led_type, 0) <= k < pixel_start(
                led_type,
                colors.len() as int,
            )) ==> buf[k] == 0,
    ensures
        painted(led_type, buf, colors) == frame(led_type, colors),
{
    assert(painted(led_type, buf, colors) =~= frame(led_type, colors));
}

/// A painted pixel reads back as the colour it was painted with.
pub proof fn lemma_read_back(led_type: LedType, buf: Seq<u8>, colors: Seq<ColorRgb>, i: int)
    requires
        0 <= i < colors.len(),
        pixel_start(led_type, colors.len() as int) <= buf.len(),
    ensures
        pixel_at(led_type, painted(led_type, buf, colors), i) == colors[i],
{
}

/// A pixel that was written reads back as the colour written, and every
/// other pixel as before.
pub proof fn lemma_write_reads_back(
    led_type: LedType,
    buf: Seq<u8>,
    i: int,
    c: ColorRgb,
    j: int,
)
    requires
        0 <= i,
        0 <= j,
        pixel_start(led_type, i + 1) <= buf.len(),
        pixel_start(led_type, j + 1) <= buf.len(),
    ensures
        pixel_at(led_type, with_pixel(led_type, buf, i, c), j) == if j == i {
            c
        } else {
            pixel_at(led_type, buf, j)
        },
{
}

/// The buffer of an Apa102 strip has four bytes of start frame, four bytes
/// for each pixel, and half as many bytes of end frame as it has pixels,
/// rounded up; that of a Ws2801 strip has three bytes for each pixel.
pub proof fn lemma_frame_len(len: nat)
    ensures
        frame_len(LedType::Ws2801, len) == 3 * len,
        frame_len(LedType::Apa102, len) == 4 + 4 * len + (len + 1) / 2,
        len % 2 == 0 ==> 2 * ((len + 1) / 2) == len,
        len % 2 == 1 ==> 2 * ((len + 1) / 2) == len + 1,
{
}

} // verus!
